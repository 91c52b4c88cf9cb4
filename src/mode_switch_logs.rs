use vstd::prelude::*;

verus! {

/// A user's switch between the sender and traveler modes, with free-text
/// context and the instant of the switch.
pub struct CreateLogs {
    pub previous_mode: String,
    pub switched_to: String,
    pub context: String,
    pub switched_at: String,
}

} // verus!
