//! Commands that a client sends to devices.

use crate::text::{decimal, push_decimal};
use vstd::prelude::*;

verus! {

/// The command that switches a socket: "turn " and the state in decimal.
pub fn turn_command(state: u16) -> (r: String)
    ensures
        r@ == "turn "@ + decimal(state as nat),
{
    let mut s = String::from_str("turn ");
    push_decimal(&mut s, state as u64);
    s
}

/// The command that asks a socket for its status.
pub fn status_command() -> (r: String)
    ensures
        r@ == "status"@,
{
    String::from_str("status")
}

} // verus!
