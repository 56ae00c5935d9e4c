//! The short text records the application exchanges, and the retrievable
//! message board one node observes for them.  The board is the model of the
//! host's store that the call protocol is demonstrated against: creation
//! stamps each record with a strictly growing creation time, and retrieval
//! returns every record newest-first.

use vstd::prelude::*;

verus! {

/// A short text message record, its text as UTF-8 bytes.
#[derive(Clone, Debug, PartialEq, Eq)]
pub struct HoloMessage {
    pub text: Vec<u8>,
}

impl View for HoloMessage {
    type V = Seq<u8>;

    open spec fn view(&self) -> Seq<u8> {
        self.text@
    }
}

/// The entry types of the message component's schema.
#[derive(Clone, Debug, PartialEq, Eq)]
pub enum EntryTypes {
    HoloMessage(HoloMessage),
}

/// The link types of the message component's schema: each record is linked
/// from its creator and from the all-messages base.
#[derive(Clone, Copy, Debug, PartialEq, Eq, Structural)]
pub enum LinkTypes {
    HoloMessage,
}

/// The retrievable message state of one node: every created record with
/// its creation time, newest first.
#[derive(Debug)]
pub struct MessageBoard {
    pub records: Vec<(u64, HoloMessage)>,
    pub clock: u64,
}

impl MessageBoard {
    /// Records are ordered newest-first by strictly distinct creation
    /// times, all earlier than the clock.
    pub open spec fn wf(self) -> bool {
        &&& forall|i: int, j: int|
            0 <= i < j < self.records@.len() ==> #[trigger] self.records@[i].0
                > #[trigger] self.records@[j].0
        &&& forall|i: int| 0 <= i < self.records@.len() ==> #[trigger] self.records@[i].0
            < self.clock
    }

    /// The stored texts, newest first.
    pub open spec fn texts(self) -> Seq<Seq<u8>> {
        self.records@.map_values(|p: (u64, HoloMessage)| p.1.text@)
    }

    /// A board with no records.
    pub fn new() -> (r: MessageBoard)
        ensures
            r.wf(),
            r.records@.len() == 0,
            r.clock == 0,
    {
        MessageBoard { records: Vec::new(), clock: 0 }
    }

    /// Create one record: it is stamped with the next creation time and
    /// will be retrieved before everything stored so far.  Returns the
    /// record's creation time, its identity on this board.
    pub fn create_message(&mut self, text: Vec<u8>) -> (id: u64)
        requires
            old(self).wf(),
            old(self).clock < u64::MAX,
        ensures
            final(self).wf(),
            final(self).records@ == seq![(old(self).clock, HoloMessage { text: text })] + old(
                self,
            ).records@,
            final(self).clock == old(self).clock + 1,
            id == old(self).clock,
    {
        let id = self.clock;
        self.records.insert(0, (id, HoloMessage { text }));
        self.clock = self.clock + 1;
        proof {
            assert(self.records@ =~= seq![(id, self.records@[0].1)] + old(self).records@);
        }
        id
    }

    /// Retrieve every record's text, newest first.
    pub fn get_messages(&self) -> (r: Vec<HoloMessage>)
        ensures
            r@.len() == self.records@.len(),
            forall|i: int| 0 <= i < r@.len() ==> #[trigger] r@[i]@ == self.texts()[i],
    {
        let mut out: Vec<HoloMessage> = Vec::new();
        let mut i: usize = 0;
        while i < self.records.len()
            invariant
                i <= self.records@.len(),
                out@.len() == i,
                forall|t: int| 0 <= t < i ==> #[trigger] out@[t]@ == self.texts()[t],
            decreases self.records@.len() - i,
        {
            proof {
                assert(self.texts()[i as int] == self.records@[i as int].1.text@);
            }
            out.push(
                HoloMessage {
                    text: vstd::slice::slice_to_vec(self.records[i].1.text.as_slice()),
                },
            );
            i = i + 1;
        }
        out
    }
}

} // verus!
