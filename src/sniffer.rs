//! Traffic observer that collapses runs of identical consecutive frames.
//! It decides what to report; printing is left to the caller.

use vstd::prelude::*;
use vstd::slice::slice_to_vec;

verus! {

/// What the caller reports for one observed frame.
#[derive(Debug, Clone, Copy, PartialEq, Eq, Structural)]
pub enum SnifferEvent {
    /// The frame repeats the last one, in the same direction: only counted.
    Repeated,
    /// A different frame: report the repeats of the previous one (when there
    /// were any), then dump this one.
    Fresh { previous_repeats: usize },
}

/// The last frame seen, with its direction, and how often it has repeated.
pub struct SnifferState {
    pub last_packet: Option<(String, Vec<u8>)>,
    pub repeat_count: usize,
}

/// `direction` and `data` are the last frame that `s` has seen.
pub open spec fn is_last(s: &SnifferState, direction: Seq<char>, data: Seq<u8>) -> bool {
    match s.last_packet {
        Some((d, b)) => d@ == direction && b@ == data,
        None => false,
    }
}

fn same_bytes(a: &Vec<u8>, b: &[u8]) -> (r: bool)
    ensures
        r == (a@ == b@),
{
    if a.len() != b.len() {
        return false;
    }
    let mut i: usize = 0;
    while i < a.len()
        invariant
            a@.len() == b@.len(),
            i <= a@.len(),
            forall|j: int| 0 <= j < i ==> a@[j] == b@[j],
        decreases a@.len() - i,
    {
        if a[i] != b[i] {
            return false;
        }
        i += 1;
    }
    assert(a@ =~= b@);
    true
}

impl SnifferState {
    pub fn new() -> (r: SnifferState)
        ensures
            r.last_packet is None,
            r.repeat_count == 0,
    {
        SnifferState { last_packet: None, repeat_count: 0 }
    }

    /// Records one frame seen in `direction`. A repeat of the last frame in
    /// the same direction is counted; anything else becomes the last frame,
    /// and the count of the previous one is handed back and reset.
    pub fn handle_packet(&mut self, direction: &str, data: &[u8]) -> (r: SnifferEvent)
        requires
            old(self).repeat_count < usize::MAX,
        ensures
            is_last(old(self), direction@, data@) ==> {
                &&& r == SnifferEvent::Repeated
                &&& final(self).repeat_count == old(self).repeat_count + 1
                &&& final(self).last_packet == old(self).last_packet
            },
            !is_last(old(self), direction@, data@) ==> {
                &&& r == (SnifferEvent::Fresh { previous_repeats: old(self).repeat_count })
                &&& final(self).repeat_count == 0
                &&& is_last(final(self), direction@, data@)
            },
    {
        let same = match &self.last_packet {
            Some((d, b)) => *d == direction.to_owned() && same_bytes(b, data),
            None => false,
        };
        if same {
            self.repeat_count = self.repeat_count + 1;
            SnifferEvent::Repeated
        } else {
            let previous_repeats = self.repeat_count;
            self.last_packet = Some((direction.to_owned(), slice_to_vec(data)));
            self.repeat_count = 0;
            SnifferEvent::Fresh { previous_repeats }
        }
    }
}

} // verus!
