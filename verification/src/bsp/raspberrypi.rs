//! The Raspberry Pi boards.

use vstd::prelude::*;

pub mod console;
pub mod driver;

verus! {

/// The name of the board, for the boot message.
pub fn board_name() -> (name: &'static str)
    ensures
        name@ == "Raspberry Pi 3"@,
{
    "Raspberry Pi 3"
}

} // verus!
