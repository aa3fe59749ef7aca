use vstd::prelude::*;

use crate::text::{concat, signed_decimal, signed_decimal_text};

verus! {

/// The zoom of the full-size image viewer, counted in quarters: 4 is 100%,
/// each step is 25%, and the zoom stays between 50% and 300%.
pub struct Zoom {
    quarters: u32,
}

impl View for Zoom {
    type V = int;

    closed spec fn view(&self) -> int {
        self.quarters as int
    }
}

/// The zoom that the buttons never go below (50%).
pub open spec fn min_quarters() -> int {
    2
}

/// The zoom that the buttons never go above (300%).
pub open spec fn max_quarters() -> int {
    12
}

/// The zoom after "+": one step up, unless at 300% already.
pub open spec fn zoomed_in(q: int) -> int {
    if q < 12 {
        q + 1
    } else {
        q
    }
}

/// The zoom after "-": one step down, unless at 50% already.
pub open spec fn zoomed_out(q: int) -> int {
    if q > 2 {
        q - 1
    } else {
        q
    }
}

impl Zoom {
    /// The zoom is always one of the steps between 50% and 300%.
    #[verifier::type_invariant]
    closed spec fn in_range(&self) -> bool {
        2 <= self.quarters <= 12
    }

    /// 100%.
    pub fn new() -> (z: Self)
        ensures
            z@ == 4,
    {
        Zoom { quarters: 4 }
    }

    /// "+" one step.
    pub fn zoom_in(&mut self)
        ensures
            final(self)@ == zoomed_in(old(self)@),
    {
        proof {
            use_type_invariant(&*self);
        }
        if self.quarters < 12 {
            self.quarters = self.quarters + 1;
        }
    }

    /// "-" one step; returns whether the image's offset must be reset
    /// (the zoom went down to 100% or below).
    pub fn zoom_out(&mut self) -> (reset_offset: bool)
        ensures
            final(self)@ == zoomed_out(old(self)@),
            reset_offset == (old(self)@ > 2 && zoomed_out(old(self)@) <= 4),
    {
        proof {
            use_type_invariant(&*self);
        }
        if self.quarters > 2 {
            self.quarters = self.quarters - 1;
            self.quarters <= 4
        } else {
            false
        }
    }

    /// Back to 100% (the offset is reset too).
    pub fn reset(&mut self)
        ensures
            final(self)@ == 4,
    {
        self.quarters = 4;
    }

    /// The zoom in percent, as the viewer shows it.
    pub fn percent(&self) -> (p: i32)
        ensures
            p == self@ * 25,
            50 <= p <= 300,
    {
        proof {
            use_type_invariant(self);
        }
        (self.quarters * 25) as i32
    }

    /// Whether the image is magnified (above 100%): only then can it be
    /// dragged around.
    pub fn is_magnified(&self) -> (r: bool)
        ensures
            r == (self@ > 4),
    {
        self.quarters > 4
    }

    /// The CSS class of the image: being dragged, magnified, or plain.
    pub fn image_class(&self, panning: bool) -> (s: &'static str)
        ensures
            panning ==> s@ == "fullsize-image panning"@,
            !panning && self@ > 4 ==> s@ == "fullsize-image zoomed"@,
            !panning && self@ <= 4 ==> s@ == "fullsize-image"@,
    {
        if panning {
            "fullsize-image panning"
        } else if self.quarters > 4 {
            "fullsize-image zoomed"
        } else {
            "fullsize-image"
        }
    }

    /// The zoom label, e.g. "125%".
    pub fn label(&self) -> (s: String)
        ensures
            s@ == signed_decimal(self@ * 25) + "%"@,
    {
        let p = self.percent();
        let d = signed_decimal_text(p as i64);
        concat(d.as_str(), "%")
    }
}

/// The zoom never leaves 50%..300%, and "-" undoes "+" (and "+" undoes "-")
/// away from the limits.
pub proof fn lemma_zoom_steps(q: int)
    requires
        min_quarters() <= q <= max_quarters(),
    ensures
        min_quarters() <= zoomed_in(q) <= max_quarters(),
        min_quarters() <= zoomed_out(q) <= max_quarters(),
        q < max_quarters() ==> zoomed_out(zoomed_in(q)) == q,
        q > min_quarters() ==> zoomed_in(zoomed_out(q)) == q,
{
}

/// Each "+" raises the zoom by exactly one 25% step until 300%, and each "-"
/// lowers it by exactly one step until 50%; at the limit the button does
/// nothing.
pub proof fn lemma_zoom_one_step(q: int)
    requires
        min_quarters() <= q <= max_quarters(),
    ensures
        q < 12 ==> zoomed_in(q) == q + 1 && zoomed_in(q) * 25 == q * 25 + 25,
        q == 12 ==> zoomed_in(q) == 12,
        q > 2 ==> zoomed_out(q) == q - 1 && zoomed_out(q) * 25 == q * 25 - 25,
        q == 2 ==> zoomed_out(q) == 2,
{
}

} // verus!
