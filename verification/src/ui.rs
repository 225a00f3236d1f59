use vstd::prelude::*;

verus! {

/// A control-change request as submitted by a caller: the control's name
/// and the requested state, `"on"` for on and anything else for off.
#[derive(Clone, Debug, PartialEq, Eq)]
pub struct ControlInput {
    pub control_name: String,
    pub state: String,
}

impl ControlInput {
    /// Whether the request asks to switch the control on.
    pub fn desired_on(&self) -> (r: bool)
        ensures
            r == (self.state@ == "on"@),
    {
        self.state == "on".to_owned()
    }
}

} // verus!
