use vstd::prelude::*;

verus! {

/// The databroker signal that tells whether the horn sounds.
pub const HORN_IS_ACTIVE_SIGNAL: &'static str = "Vehicle.Body.Horn.IsActive";

/// An actuator that writes the horn's state to the terminal.
#[derive(Debug, Default)]
pub struct TerminalClient {}

impl TerminalClient {
    /// The word that the terminal shows for a horn state.
    pub fn horn_state_text(&self, is_active: bool) -> (text: &'static str)
        ensures
            is_active ==> text@ == "active"@,
            !is_active ==> text@ == "inactive"@,
    {
        if is_active {
            "active"
        } else {
            "inactive"
        }
    }
}

/// The value written to the databroker to switch the horn on or off.
pub struct HornTargetValue {
    pub signal: String,
    pub is_active: bool,
}

/// The databroker target value for a horn state: the horn's is-active signal,
/// set to `is_active`.
pub fn horn_target_value(is_active: bool) -> (target: HornTargetValue)
    ensures
        target.signal@ == HORN_IS_ACTIVE_SIGNAL@,
        target.is_active == is_active,
{
    HornTargetValue { signal: HORN_IS_ACTIVE_SIGNAL.to_owned(), is_active }
}

} // verus!
