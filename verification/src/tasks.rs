use vstd::prelude::*;

use crate::text::concat;
use crate::time::{bad_timestamp, chrono_in_range, local_time};

verus! {

/// The tasks that can be started on a library.
#[derive(Clone, Copy, Debug, PartialEq, Eq, Structural)]
pub enum TaskKind {
    ScanLibrary,
    CleanLibrary,
    RunScripts,
}

impl Default for TaskKind {
    /// The start-task dialog opens with "Scan Library" chosen.
    fn default() -> (k: Self)
        ensures
            k == TaskKind::ScanLibrary,
    {
        TaskKind::ScanLibrary
    }
}

impl TaskKind {
    /// The title of the task's option.
    pub fn title(self) -> (s: &'static str)
        ensures
            self == TaskKind::ScanLibrary ==> s@ == "Scan Library"@,
            self == TaskKind::CleanLibrary ==> s@ == "Clean Library"@,
            self == TaskKind::RunScripts ==> s@ == "Run Scripts"@,
    {
        match self {
            TaskKind::ScanLibrary => "Scan Library",
            TaskKind::CleanLibrary => "Clean Library",
            TaskKind::RunScripts => "Run Scripts",
        }
    }

    /// The one-line description under the task's title.
    pub fn description(self) -> (s: &'static str)
        ensures
            self == TaskKind::ScanLibrary ==> s@
                == "Scan the library for new files and update the database."@,
            self == TaskKind::CleanLibrary ==> s@
                == "Remove references to files that no longer exist in the filesystem."@,
            self == TaskKind::RunScripts ==> s@
                == "Execute maintenance and processing scripts on the library."@,
    {
        match self {
            TaskKind::ScanLibrary => "Scan the library for new files and update the database.",
            TaskKind::CleanLibrary => "Remove references to files that no longer exist in the filesystem.",
            TaskKind::RunScripts => "Execute maintenance and processing scripts on the library.",
        }
    }
}

/// The state of a task as the server reports it.
#[derive(Clone, Copy, Debug, PartialEq, Eq, Structural)]
pub enum TaskStatus {
    Running,
    Success,
    Failure,
    Aborted,
    /// Any other state the server reports.
    Other,
}

/// The style of a task's type cell in the history: bold and in the primary
/// colour while it runs.
pub fn task_type_style(status: TaskStatus) -> (s: &'static str)
    ensures
        status == TaskStatus::Running ==> s@ == "font-weight: 600; color: var(--primary);"@,
        status != TaskStatus::Running ==> s@ == ""@,
{
    match status {
        TaskStatus::Running => "font-weight: 600; color: var(--primary);",
        _ => "",
    }
}

/// The style of a task's status cell in the history.
pub fn task_status_style(status: TaskStatus) -> (s: &'static str)
    ensures
        status == TaskStatus::Success ==> s@ == "color: var(--success);"@,
        status == TaskStatus::Running ==> s@ == "color: var(--primary);"@,
        (status == TaskStatus::Failure || status == TaskStatus::Aborted) ==> s@ == "color: var(--error);"@,
        status == TaskStatus::Other ==> s@ == "color: var(--text-tertiary);"@,
{
    match status {
        TaskStatus::Success => "color: var(--success);",
        TaskStatus::Running => "color: var(--primary);",
        TaskStatus::Failure | TaskStatus::Aborted => "color: var(--error);",
        TaskStatus::Other => "color: var(--text-tertiary);",
    }
}

/// The class of the history's row at `index`: every second row is shaded.
pub fn history_row_class(index: usize) -> (s: &'static str)
    ensures
        index % 2 == 0 ==> s@ == ""@,
        index % 2 == 1 ==> s@ == "row-alt"@,
{
    if index % 2 == 0 {
        ""
    } else {
        "row-alt"
    }
}

/// The "Completed" cell of a task: its end time, or "-" while it has none.
pub fn completed_text(end: Option<u64>) -> (s: String)
    ensures
        end is None ==> s@ == "-"@,
        end matches Some(t) ==> (s@ == bad_timestamp() <==> (t > i64::MAX || !chrono_in_range(t as i64))),
{
    match end {
        Some(t) => local_time(t),
        None => "-".to_owned(),
    }
}

/// The "Warnings" cell of a task.
#[derive(Clone, Copy, Debug, PartialEq, Eq, Structural)]
pub enum WarningsCell {
    /// "-": the task reports no count.
    Unknown,
    /// "0", in the plain colour.
    NoWarnings,
    /// The count, in the warning colour.
    Warnings(u64),
}

pub fn warnings_cell(warnings: Option<u64>) -> (c: WarningsCell)
    ensures
        warnings is None ==> c == WarningsCell::Unknown,
        warnings == Some(0u64) ==> c == WarningsCell::NoWarnings,
        warnings matches Some(n) ==> (n > 0 ==> c == WarningsCell::Warnings(n)),
{
    match warnings {
        None => WarningsCell::Unknown,
        Some(0) => WarningsCell::NoWarnings,
        Some(n) => WarningsCell::Warnings(n),
    }
}

/// What the stop-task dialog asks, from the library's most recent task.
#[derive(Clone, Copy, Debug, PartialEq, Eq, Structural)]
pub enum StopPrompt {
    /// The question whether to stop the running task, with the "Stop task"
    /// button.
    ConfirmStop,
    /// "No running task found".
    NoRunningTask,
    /// "Library has not run any tasks".
    NeverRan,
}

/// The stop-task dialog offers to stop only a running most recent task.
pub fn stop_prompt(latest: Option<TaskStatus>) -> (p: StopPrompt)
    ensures
        latest == Some(TaskStatus::Running) ==> p == StopPrompt::ConfirmStop,
        latest matches Some(s) && s != TaskStatus::Running ==> p == StopPrompt::NoRunningTask,
        latest is None ==> p == StopPrompt::NeverRan,
{
    match latest {
        Some(TaskStatus::Running) => StopPrompt::ConfirmStop,
        Some(_) => StopPrompt::NoRunningTask,
        None => StopPrompt::NeverRan,
    }
}

impl StopPrompt {
    /// The prompt's text for a library without a running task (the
    /// confirmation question is worded by the page).
    pub fn text(self) -> (s: Option<&'static str>)
        ensures
            self == StopPrompt::ConfirmStop ==> s is None,
            self == StopPrompt::NoRunningTask ==> (s matches Some(t) && t@ == "No running task found"@),
            self == StopPrompt::NeverRan ==> (s matches Some(t) && t@ == "Library has not run any tasks"@),
    {
        match self {
            StopPrompt::ConfirmStop => None,
            StopPrompt::NoRunningTask => Some("No running task found"),
            StopPrompt::NeverRan => Some("Library has not run any tasks"),
        }
    }

    /// Whether the "Stop task" button is shown.
    pub fn can_stop(self) -> (r: bool)
        ensures
            r == (self == StopPrompt::ConfirmStop),
    {
        match self {
            StopPrompt::ConfirmStop => true,
            _ => false,
        }
    }
}

/// "Cancel" in the stop-task dialog asks the page to refresh when there was
/// no task to stop (the listing may be stale), and closes the dialog.
pub fn cancel_refreshes(p: StopPrompt) -> (r: bool)
    ensures
        r == (p != StopPrompt::ConfirmStop),
{
    !p.can_stop()
}

/// The message shown when the tasks could not be fetched.
pub fn tasks_fetch_error(err: &str) -> (s: String)
    ensures
        s@ == "Error fetching tasks: "@ + err@,
{
    concat("Error fetching tasks: ", err)
}

/// The message shown when the task history could not be loaded.
pub fn history_load_error(err: &str) -> (s: String)
    ensures
        s@ == "Failed to load task history: "@ + err@,
{
    concat("Failed to load task history: ", err)
}

} // verus!
