//! Message-id sequencer: a 16-bit counter that wraps silently.

use vstd::prelude::*;

verus! {

/// Source of message ids for outbound requests. The id space is 16 bits and
/// wraps; uniqueness is only "unique enough" for the short retry windows the
/// engine uses (one request is in flight at a time).
pub struct MsgId {
    pub last_id: u16,
}

impl MsgId {
    /// A fresh sequencer, seeded at zero: the first id handed out is 1.
    pub fn new() -> (r: MsgId)
        ensures
            r.last_id == 0,
    {
        MsgId { last_id: 0 }
    }

    /// Post-increment with wraparound: ids strictly increase mod 2^16,
    /// wrapping from 65535 to 0.
    pub fn next(&mut self) -> (r: u16)
        ensures
            final(self).last_id == (old(self).last_id + 1) % 0x10000,
            r == final(self).last_id,
    {
        self.last_id = if self.last_id == 0xFFFF {
            0
        } else {
            self.last_id + 1
        };
        self.last_id
    }
}

} // verus!
