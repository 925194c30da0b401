//! The host's connection entry.
use vstd::prelude::*;

use crate::player::Outbox;

verus! {

/// The one live host connection of a room.
pub struct HostEntry {
    pub pid: u32,
    pub sender: Outbox,
}

impl HostEntry {
    pub fn new(pid: u32, sender: Outbox) -> (r: Self)
        ensures
            r == (HostEntry { pid, sender }),
    {
        HostEntry { pid, sender }
    }
}

} // verus!
