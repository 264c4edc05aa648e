//! The electrical state that stands for a lit or an unlit line.

use vstd::prelude::*;
use stm32f3xx_hal::hal::digital::v2::PinState;

verus! {

/// The state of an output pin as the hardware layer names it: `Low` or
/// `High`.
#[verifier::external_type_specification]
pub struct ExPinState(PinState);

/// The state that a level is driven as: a lit line is `High`, an unlit
/// one `Low`.
pub open spec fn state_of(on: bool) -> PinState {
    if on {
        PinState::High
    } else {
        PinState::Low
    }
}

/// Calls `PinState::from(bool)`, which turns `true` into `High` and
/// `false` into `Low`.
#[verifier::external_body]
pub(crate) fn pin_state(on: bool) -> (state: PinState)
    ensures
        state == state_of(on),
{
    PinState::from(on)
}

} // verus!
