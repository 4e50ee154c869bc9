//! The synthetic keystroke that keeps a menu closed.

use vstd::prelude::*;
use crate::keys::{VirtualKey, KEYEVENTF_KEYUP};

verus! {

/// A synthetic keystroke, as it is handed to the operating system.
#[derive(Debug, Clone, Copy, PartialEq, Eq, Structural)]
pub struct KeyboardInput {
    /// The virtual-key code of the key.
    pub virtual_key: VirtualKey,
    /// The hardware scan code of the key.
    pub scan_code: u16,
    /// The flags of the keystroke.
    pub flags: u32,
    /// The time stamp of the keystroke; zero lets the system set it.
    pub time: u32,
    /// What is attached to the keystroke.
    pub extra_info: usize,
}

/// The keystroke that releases `dummy_key`: nothing but the key and the
/// key-up flag is set in it.
pub fn keyup_input(dummy_key: VirtualKey) -> (input: KeyboardInput)
    ensures
        input == (KeyboardInput {
            virtual_key: dummy_key,
            scan_code: 0,
            flags: KEYEVENTF_KEYUP,
            time: 0,
            extra_info: 0,
        }),
{
    KeyboardInput {
        virtual_key: dummy_key,
        scan_code: 0,
        flags: KEYEVENTF_KEYUP,
        time: 0,
        extra_info: 0,
    }
}

/// Whether the operating system took all the inputs that it was handed:
/// `inserted` is the number that it reports, `submitted` the number handed to
/// it. Fewer taken than handed is a failure of the injection.
pub fn all_inserted(inserted: u32, submitted: usize) -> (all: bool)
    ensures
        all == (inserted == submitted),
{
    inserted as usize == submitted
}

} // verus!
