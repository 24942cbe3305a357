use vstd::prelude::*;

verus! {

/// The two colours the gauge can be painted in.
#[derive(Clone, Copy, Debug, PartialEq, Eq, Structural)]
pub enum GaugeColor {
    Primary,
    Secondary,
}

impl GaugeColor {
    /// The colour that a toggle turns `self` into.
    pub open spec fn toggled_spec(self) -> GaugeColor {
        match self {
            GaugeColor::Primary => GaugeColor::Secondary,
            GaugeColor::Secondary => GaugeColor::Primary,
        }
    }

    /// Flips between the two colours.
    pub fn toggled(self) -> (r: GaugeColor)
        ensures
            r == self.toggled_spec(),
    {
        match self {
            GaugeColor::Primary => GaugeColor::Secondary,
            GaugeColor::Secondary => GaugeColor::Primary,
        }
    }
}

/// Toggling twice gives back the colour one started from, and a single toggle
/// always changes the colour.
pub proof fn lemma_toggle_involution(c: GaugeColor)
    ensures
        c.toggled_spec().toggled_spec() == c,
        c.toggled_spec() != c,
{
}

} // verus!
