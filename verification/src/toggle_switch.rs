use vstd::prelude::*;

verus! {

/// The state behind the consumer's toggle control: whether it shows as on.
/// How the control is drawn belongs to the rendering layer, which reads this
/// state through `is_checked`.
pub struct ToggleSwitch {
    checked: bool,
}

impl ToggleSwitch {
    /// Whether the control shows as on, for specifications.
    pub closed spec fn spec_checked(&self) -> bool {
        self.checked
    }

    pub fn new(checked: bool) -> (t: ToggleSwitch)
        ensures
            t.spec_checked() == checked,
    {
        ToggleSwitch { checked }
    }

    /// Whether the control shows as on.
    pub fn is_checked(&self) -> (b: bool)
        ensures
            b == self.spec_checked(),
    {
        self.checked
    }
}

} // verus!
