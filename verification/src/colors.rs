use vstd::prelude::*;
use vstd::std_specs::convert::FromSpecImpl;

use crate::text::same_text;

verus! {

/// The colors that a user can attach to a collection to highlight its media.
#[derive(Clone, Copy, Debug, PartialEq, Eq, Hash, Structural)]
pub enum CollectionColor {
    Red,
    Orange,
    Yellow,
    Green,
    Blue,
    Purple,
    Pink,
    Gray,
    Teal,
    Indigo,
}

/// Every color, in the order in which the color pickers offer them.
pub open spec fn color_order() -> Seq<CollectionColor> {
    seq![
        CollectionColor::Red,
        CollectionColor::Orange,
        CollectionColor::Yellow,
        CollectionColor::Green,
        CollectionColor::Blue,
        CollectionColor::Purple,
        CollectionColor::Pink,
        CollectionColor::Gray,
        CollectionColor::Teal,
        CollectionColor::Indigo,
    ]
}

/// The strong CSS color of a collection color (indicator dots, swatches).
pub open spec fn css_color_of(c: CollectionColor) -> Seq<char> {
    match c {
        CollectionColor::Red => "#EF4444"@,
        CollectionColor::Orange => "#F97316"@,
        CollectionColor::Yellow => "#EAB308"@,
        CollectionColor::Green => "#22C55E"@,
        CollectionColor::Blue => "#3B82F6"@,
        CollectionColor::Purple => "#8B5CF6"@,
        CollectionColor::Pink => "#EC4899"@,
        CollectionColor::Gray => "#6B7280"@,
        CollectionColor::Teal => "#14B8A6"@,
        CollectionColor::Indigo => "#6366F1"@,
    }
}

/// The light CSS background color of a collection color.
pub open spec fn light_css_color_of(c: CollectionColor) -> Seq<char> {
    match c {
        CollectionColor::Red => "#FEF2F2"@,
        CollectionColor::Orange => "#FFF7ED"@,
        CollectionColor::Yellow => "#FEFCE8"@,
        CollectionColor::Green => "#F0FDF4"@,
        CollectionColor::Blue => "#EFF6FF"@,
        CollectionColor::Purple => "#F5F3FF"@,
        CollectionColor::Pink => "#FDF2F8"@,
        CollectionColor::Gray => "#F9FAFB"@,
        CollectionColor::Teal => "#F0FDFA"@,
        CollectionColor::Indigo => "#EEF2FF"@,
    }
}

/// The human-readable name of a collection color.
pub open spec fn name_of(c: CollectionColor) -> Seq<char> {
    match c {
        CollectionColor::Red => "Red"@,
        CollectionColor::Orange => "Orange"@,
        CollectionColor::Yellow => "Yellow"@,
        CollectionColor::Green => "Green"@,
        CollectionColor::Blue => "Blue"@,
        CollectionColor::Purple => "Purple"@,
        CollectionColor::Pink => "Pink"@,
        CollectionColor::Gray => "Gray"@,
        CollectionColor::Teal => "Teal"@,
        CollectionColor::Indigo => "Indigo"@,
    }
}

/// The color that a name stands for; any name that is not one of the
/// other colors' names stands for gray.
pub open spec fn color_named(s: Seq<char>) -> CollectionColor {
    if s == "Red"@ {
        CollectionColor::Red
    } else if s == "Orange"@ {
        CollectionColor::Orange
    } else if s == "Yellow"@ {
        CollectionColor::Yellow
    } else if s == "Green"@ {
        CollectionColor::Green
    } else if s == "Blue"@ {
        CollectionColor::Blue
    } else if s == "Purple"@ {
        CollectionColor::Purple
    } else if s == "Pink"@ {
        CollectionColor::Pink
    } else if s == "Teal"@ {
        CollectionColor::Teal
    } else if s == "Indigo"@ {
        CollectionColor::Indigo
    } else {
        CollectionColor::Gray
    }
}

impl CollectionColor {
    /// All colors, each once, in picker order.
    pub fn all() -> (v: Vec<Self>)
        ensures
            v@ == color_order(),
    {
        vec![
            CollectionColor::Red,
            CollectionColor::Orange,
            CollectionColor::Yellow,
            CollectionColor::Green,
            CollectionColor::Blue,
            CollectionColor::Purple,
            CollectionColor::Pink,
            CollectionColor::Gray,
            CollectionColor::Teal,
            CollectionColor::Indigo,
        ]
    }

    pub fn to_css_color(self) -> (s: &'static str)
        ensures
            s@ == css_color_of(self),
    {
        match self {
            CollectionColor::Red => "#EF4444",
            CollectionColor::Orange => "#F97316",
            CollectionColor::Yellow => "#EAB308",
            CollectionColor::Green => "#22C55E",
            CollectionColor::Blue => "#3B82F6",
            CollectionColor::Purple => "#8B5CF6",
            CollectionColor::Pink => "#EC4899",
            CollectionColor::Gray => "#6B7280",
            CollectionColor::Teal => "#14B8A6",
            CollectionColor::Indigo => "#6366F1",
        }
    }

    pub fn to_light_css_color(self) -> (s: &'static str)
        ensures
            s@ == light_css_color_of(self),
    {
        match self {
            CollectionColor::Red => "#FEF2F2",
            CollectionColor::Orange => "#FFF7ED",
            CollectionColor::Yellow => "#FEFCE8",
            CollectionColor::Green => "#F0FDF4",
            CollectionColor::Blue => "#EFF6FF",
            CollectionColor::Purple => "#F5F3FF",
            CollectionColor::Pink => "#FDF2F8",
            CollectionColor::Gray => "#F9FAFB",
            CollectionColor::Teal => "#F0FDFA",
            CollectionColor::Indigo => "#EEF2FF",
        }
    }

    /// The name under which the color is shown and stored (its display text).
    pub fn name(self) -> (s: &'static str)
        ensures
            s@ == name_of(self),
    {
        match self {
            CollectionColor::Red => "Red",
            CollectionColor::Orange => "Orange",
            CollectionColor::Yellow => "Yellow",
            CollectionColor::Green => "Green",
            CollectionColor::Blue => "Blue",
            CollectionColor::Purple => "Purple",
            CollectionColor::Pink => "Pink",
            CollectionColor::Gray => "Gray",
            CollectionColor::Teal => "Teal",
            CollectionColor::Indigo => "Indigo",
        }
    }

    /// The display text of the color, as an owned string.
    pub fn to_string(&self) -> (s: String)
        ensures
            s@ == name_of(*self),
    {
        self.name().to_owned()
    }

    /// The color that a name stands for (see `color_named`).
    pub fn from_name(value: &str) -> (c: Self)
        ensures
            c == color_named(value@),
    {
        if same_text(value, "Red") {
            CollectionColor::Red
        } else if same_text(value, "Orange") {
            CollectionColor::Orange
        } else if same_text(value, "Yellow") {
            CollectionColor::Yellow
        } else if same_text(value, "Green") {
            CollectionColor::Green
        } else if same_text(value, "Blue") {
            CollectionColor::Blue
        } else if same_text(value, "Purple") {
            CollectionColor::Purple
        } else if same_text(value, "Pink") {
            CollectionColor::Pink
        } else if same_text(value, "Teal") {
            CollectionColor::Teal
        } else if same_text(value, "Indigo") {
            CollectionColor::Indigo
        } else {
            CollectionColor::Gray
        }
    }
}

impl From<String> for CollectionColor {
    fn from(value: String) -> (c: Self) {
        CollectionColor::from_name(value.as_str())
    }
}

impl FromSpecImpl<String> for CollectionColor {
    open spec fn obeys_from_spec() -> bool {
        true
    }

    open spec fn from_spec(v: String) -> Self {
        color_named(v@)
    }
}

/// Reading a color back from its name gives the same color.
pub proof fn lemma_name_round_trip(c: CollectionColor)
    ensures
        color_named(name_of(c)) == c,
{
    reveal_strlit("Red");
    assert("Red"@.len() == 3 && "Red"@[0] == 'R');
    reveal_strlit("Orange");
    assert("Orange"@.len() == 6 && "Orange"@[0] == 'O');
    reveal_strlit("Yellow");
    assert("Yellow"@.len() == 6 && "Yellow"@[0] == 'Y');
    reveal_strlit("Green");
    assert("Green"@.len() == 5 && "Green"@[0] == 'G');
    reveal_strlit("Blue");
    assert("Blue"@.len() == 4 && "Blue"@[0] == 'B');
    reveal_strlit("Purple");
    assert("Purple"@.len() == 6 && "Purple"@[0] == 'P');
    reveal_strlit("Pink");
    assert("Pink"@.len() == 4 && "Pink"@[0] == 'P');
    reveal_strlit("Gray");
    assert("Gray"@.len() == 4 && "Gray"@[0] == 'G');
    reveal_strlit("Teal");
    assert("Teal"@.len() == 4 && "Teal"@[0] == 'T');
    reveal_strlit("Indigo");
    assert("Indigo"@.len() == 6 && "Indigo"@[0] == 'I');
}

/// The list of all colors names every color exactly once.
pub proof fn lemma_all_colors_once(c: CollectionColor)
    ensures
        color_order().contains(c),
        color_order().len() == 10,
        forall|i: int, j: int|
            0 <= i < j < color_order().len() ==> color_order()[i] != color_order()[j],
{
    let s = color_order();
    match c {
        CollectionColor::Red => assert(s[0] == c),
        CollectionColor::Orange => assert(s[1] == c),
        CollectionColor::Yellow => assert(s[2] == c),
        CollectionColor::Green => assert(s[3] == c),
        CollectionColor::Blue => assert(s[4] == c),
        CollectionColor::Purple => assert(s[5] == c),
        CollectionColor::Pink => assert(s[6] == c),
        CollectionColor::Gray => assert(s[7] == c),
        CollectionColor::Teal => assert(s[8] == c),
        CollectionColor::Indigo => assert(s[9] == c),
    }
}

/// Two different colors never share a strong CSS color, nor a light one.
pub proof fn lemma_css_colors_distinct(a: CollectionColor, b: CollectionColor)
    requires
        a != b,
    ensures
        css_color_of(a) != css_color_of(b),
        light_css_color_of(a) != light_css_color_of(b),
{
    reveal_strlit("#EF4444");
    assert("#EF4444"@[1] == 'E' && "#EF4444"@[2] == 'F' && "#EF4444"@[3] == '4' && "#EF4444"@[4] == '4' && "#EF4444"@[5] == '4' && "#EF4444"@[6] == '4');
    reveal_strlit("#F97316");
    assert("#F97316"@[1] == 'F' && "#F97316"@[2] == '9' && "#F97316"@[3] == '7' && "#F97316"@[4] == '3' && "#F97316"@[5] == '1' && "#F97316"@[6] == '6');
    reveal_strlit("#EAB308");
    assert("#EAB308"@[1] == 'E' && "#EAB308"@[2] == 'A' && "#EAB308"@[3] == 'B' && "#EAB308"@[4] == '3' && "#EAB308"@[5] == '0' && "#EAB308"@[6] == '8');
    reveal_strlit("#22C55E");
    assert("#22C55E"@[1] == '2' && "#22C55E"@[2] == '2' && "#22C55E"@[3] == 'C' && "#22C55E"@[4] == '5' && "#22C55E"@[5] == '5' && "#22C55E"@[6] == 'E');
    reveal_strlit("#3B82F6");
    assert("#3B82F6"@[1] == '3' && "#3B82F6"@[2] == 'B' && "#3B82F6"@[3] == '8' && "#3B82F6"@[4] == '2' && "#3B82F6"@[5] == 'F' && "#3B82F6"@[6] == '6');
    reveal_strlit("#8B5CF6");
    assert("#8B5CF6"@[1] == '8' && "#8B5CF6"@[2] == 'B' && "#8B5CF6"@[3] == '5' && "#8B5CF6"@[4] == 'C' && "#8B5CF6"@[5] == 'F' && "#8B5CF6"@[6] == '6');
    reveal_strlit("#EC4899");
    assert("#EC4899"@[1] == 'E' && "#EC4899"@[2] == 'C' && "#EC4899"@[3] == '4' && "#EC4899"@[4] == '8' && "#EC4899"@[5] == '9' && "#EC4899"@[6] == '9');
    reveal_strlit("#6B7280");
    assert("#6B7280"@[1] == '6' && "#6B7280"@[2] == 'B' && "#6B7280"@[3] == '7' && "#6B7280"@[4] == '2' && "#6B7280"@[5] == '8' && "#6B7280"@[6] == '0');
    reveal_strlit("#14B8A6");
    assert("#14B8A6"@[1] == '1' && "#14B8A6"@[2] == '4' && "#14B8A6"@[3] == 'B' && "#14B8A6"@[4] == '8' && "#14B8A6"@[5] == 'A' && "#14B8A6"@[6] == '6');
    reveal_strlit("#6366F1");
    assert("#6366F1"@[1] == '6' && "#6366F1"@[2] == '3' && "#6366F1"@[3] == '6' && "#6366F1"@[4] == '6' && "#6366F1"@[5] == 'F' && "#6366F1"@[6] == '1');
    reveal_strlit("#FEF2F2");
    assert("#FEF2F2"@[1] == 'F' && "#FEF2F2"@[2] == 'E' && "#FEF2F2"@[3] == 'F' && "#FEF2F2"@[4] == '2' && "#FEF2F2"@[5] == 'F' && "#FEF2F2"@[6] == '2');
    reveal_strlit("#FFF7ED");
    assert("#FFF7ED"@[1] == 'F' && "#FFF7ED"@[2] == 'F' && "#FFF7ED"@[3] == 'F' && "#FFF7ED"@[4] == '7' && "#FFF7ED"@[5] == 'E' && "#FFF7ED"@[6] == 'D');
    reveal_strlit("#FEFCE8");
    assert("#FEFCE8"@[1] == 'F' && "#FEFCE8"@[2] == 'E' && "#FEFCE8"@[3] == 'F' && "#FEFCE8"@[4] == 'C' && "#FEFCE8"@[5] == 'E' && "#FEFCE8"@[6] == '8');
    reveal_strlit("#F0FDF4");
    assert("#F0FDF4"@[1] == 'F' && "#F0FDF4"@[2] == '0' && "#F0FDF4"@[3] == 'F' && "#F0FDF4"@[4] == 'D' && "#F0FDF4"@[5] == 'F' && "#F0FDF4"@[6] == '4');
    reveal_strlit("#EFF6FF");
    assert("#EFF6FF"@[1] == 'E' && "#EFF6FF"@[2] == 'F' && "#EFF6FF"@[3] == 'F' && "#EFF6FF"@[4] == '6' && "#EFF6FF"@[5] == 'F' && "#EFF6FF"@[6] == 'F');
    reveal_strlit("#F5F3FF");
    assert("#F5F3FF"@[1] == 'F' && "#F5F3FF"@[2] == '5' && "#F5F3FF"@[3] == 'F' && "#F5F3FF"@[4] == '3' && "#F5F3FF"@[5] == 'F' && "#F5F3FF"@[6] == 'F');
    reveal_strlit("#FDF2F8");
    assert("#FDF2F8"@[1] == 'F' && "#FDF2F8"@[2] == 'D' && "#FDF2F8"@[3] == 'F' && "#FDF2F8"@[4] == '2' && "#FDF2F8"@[5] == 'F' && "#FDF2F8"@[6] == '8');
    reveal_strlit("#F9FAFB");
    assert("#F9FAFB"@[1] == 'F' && "#F9FAFB"@[2] == '9' && "#F9FAFB"@[3] == 'F' && "#F9FAFB"@[4] == 'A' && "#F9FAFB"@[5] == 'F' && "#F9FAFB"@[6] == 'B');
    reveal_strlit("#F0FDFA");
    assert("#F0FDFA"@[1] == 'F' && "#F0FDFA"@[2] == '0' && "#F0FDFA"@[3] == 'F' && "#F0FDFA"@[4] == 'D' && "#F0FDFA"@[5] == 'F' && "#F0FDFA"@[6] == 'A');
    reveal_strlit("#EEF2FF");
    assert("#EEF2FF"@[1] == 'E' && "#EEF2FF"@[2] == 'E' && "#EEF2FF"@[3] == 'F' && "#EEF2FF"@[4] == '2' && "#EEF2FF"@[5] == 'F' && "#EEF2FF"@[6] == 'F');
}

/// The palette: each color's strong value (its dots and borders) and light
/// value (its backgrounds), color by color.
pub proof fn lemma_palette()
    ensures
        css_color_of(CollectionColor::Red) == "#EF4444"@ && light_css_color_of(CollectionColor::Red) == "#FEF2F2"@,
        css_color_of(CollectionColor::Orange) == "#F97316"@ && light_css_color_of(CollectionColor::Orange) == "#FFF7ED"@,
        css_color_of(CollectionColor::Yellow) == "#EAB308"@ && light_css_color_of(CollectionColor::Yellow) == "#FEFCE8"@,
        css_color_of(CollectionColor::Green) == "#22C55E"@ && light_css_color_of(CollectionColor::Green) == "#F0FDF4"@,
        css_color_of(CollectionColor::Blue) == "#3B82F6"@ && light_css_color_of(CollectionColor::Blue) == "#EFF6FF"@,
        css_color_of(CollectionColor::Purple) == "#8B5CF6"@ && light_css_color_of(CollectionColor::Purple) == "#F5F3FF"@,
        css_color_of(CollectionColor::Pink) == "#EC4899"@ && light_css_color_of(CollectionColor::Pink) == "#FDF2F8"@,
        css_color_of(CollectionColor::Gray) == "#6B7280"@ && light_css_color_of(CollectionColor::Gray) == "#F9FAFB"@,
        css_color_of(CollectionColor::Teal) == "#14B8A6"@ && light_css_color_of(CollectionColor::Teal) == "#F0FDFA"@,
        css_color_of(CollectionColor::Indigo) == "#6366F1"@ && light_css_color_of(CollectionColor::Indigo) == "#EEF2FF"@,
{
}

} // verus!
