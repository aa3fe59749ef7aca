//! The decisions of the Entanglement gallery's web front end, with their
//! contracts and proofs.

pub mod bulk_run;
pub mod coloring;
pub mod dialogs;
pub mod colors;
pub mod forms;
pub mod ids;
pub mod links;
pub mod media_detail;
pub mod messages;
pub mod modal;
pub mod order;
pub mod presentation;
pub mod progress;
pub mod selection;
pub mod tags;
pub mod tasks;
pub mod text;
pub mod time;
pub mod zoom;
