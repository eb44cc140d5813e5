//! The streams of one sender, in the order in which they were opened.

use vstd::prelude::*;
use crate::error::ErrorCode;
use crate::identity::Identity;
use crate::stream::{Stream, StreamView};

verus! {

/// A change to one record: `paid` more has gone to its receiver, and the
/// stream closes for good if `deactivate` is set.
#[derive(Clone, Copy, Debug, PartialEq, Eq)]
pub struct Mutation {
    pub paid: u64,
    pub deactivate: bool,
}

/// The mathematical content of a ledger.
pub struct StreamAccountView {
    /// The sender who owns the ledger.
    pub authority: Identity,
    /// How many streams the ledger was created for.
    pub capacity: nat,
    /// How many streams were ever appended.
    pub stream_count: nat,
    /// The records, oldest first. A record keeps its index for ever.
    pub streams: Seq<StreamView>,
}

impl StreamAccountView {
    /// What holds of every ledger: the counter is the number of records, the
    /// records fit into the capacity, and each of them can be stored.
    pub open spec fn wf(self) -> bool {
        &&& self.stream_count == self.streams.len()
        &&& self.streams.len() <= self.capacity
        &&& self.capacity <= u64::MAX
        &&& forall|i: int| 0 <= i < self.streams.len() ==> (#[trigger] self.streams[i]).representable()
    }

    /// A ledger without streams.
    pub open spec fn empty(authority: Identity, capacity: nat) -> StreamAccountView {
        StreamAccountView { authority, capacity, stream_count: 0, streams: Seq::empty() }
    }

    /// The ledger with one more record at its end.
    pub open spec fn appended(self, record: StreamView) -> StreamAccountView {
        StreamAccountView {
            stream_count: self.stream_count + 1,
            streams: self.streams.push(record),
            ..self
        }
    }

    /// The ledger with the record at `index` replaced.
    pub open spec fn replaced(self, index: int, record: StreamView) -> StreamAccountView {
        StreamAccountView { streams: self.streams.update(index, record), ..self }
    }

    /// What `restore` answers: the ledger that holds `records`, unless they
    /// are more than the capacity.
    pub open spec fn spec_restore(authority: Identity, capacity: u64, records: Seq<StreamView>) -> Result<
        StreamAccountView,
        ErrorCode,
    > {
        if records.len() > capacity {
            Err(ErrorCode::CapacityExceeded)
        } else {
            Ok(
                StreamAccountView {
                    authority,
                    capacity: capacity as nat,
                    stream_count: records.len(),
                    streams: records,
                },
            )
        }
    }

    /// What `append` answers: the index of the new record, unless the ledger
    /// is full.
    pub open spec fn spec_append(self) -> Result<u64, ErrorCode> {
        if self.streams.len() >= self.capacity {
            Err(ErrorCode::CapacityExceeded)
        } else {
            Ok(self.streams.len() as u64)
        }
    }

    /// What `get` answers.
    pub open spec fn spec_get(self, index: u64) -> Result<StreamView, ErrorCode> {
        if index >= self.streams.len() {
            Err(ErrorCode::IndexOutOfRange)
        } else {
            Ok(self.streams[index as int])
        }
    }

    /// What `require_sender` answers.
    pub open spec fn spec_require_sender(self, index: u64, caller: Identity) -> Result<(), ErrorCode> {
        match self.spec_get(index) {
            Err(e) => Err(e),
            Ok(record) => if record.sender == caller {
                Ok(())
            } else {
                Err(ErrorCode::Unauthorized)
            },
        }
    }

    /// What `require_receiver` answers.
    pub open spec fn spec_require_receiver(self, index: u64, caller: Identity) -> Result<
        (),
        ErrorCode,
    > {
        match self.spec_get(index) {
            Err(e) => Err(e),
            Ok(record) => if record.receiver == caller {
                Ok(())
            } else {
                Err(ErrorCode::Unauthorized)
            },
        }
    }

    /// What `require_active` answers.
    pub open spec fn spec_require_active(self, index: u64) -> Result<(), ErrorCode> {
        match self.spec_get(index) {
            Err(e) => Err(e),
            Ok(record) => if record.is_active {
                Ok(())
            } else {
                Err(ErrorCode::StreamInactive)
            },
        }
    }

    /// The ledger that `commit` leaves on success, or why it refuses.
    pub open spec fn spec_commit(self, index: u64, mutation: Mutation) -> Result<
        StreamAccountView,
        ErrorCode,
    > {
        match self.spec_get(index) {
            Err(e) => Err(e),
            Ok(record) => match record.spec_credited(mutation.paid, mutation.deactivate) {
                Err(e) => Err(e),
                Ok(after) => Ok(self.replaced(index as int, after)),
            },
        }
    }
}

/// The ledger of one sender: the streams that the sender has opened, each
/// under the index it was given when it was appended. Records are never
/// removed or moved, and there are never more of them than the capacity the
/// ledger was created with.
#[derive(Debug, PartialEq, Eq)]
pub struct StreamAccount {
    authority: Identity,
    capacity: u64,
    streams: Vec<Stream>,
}

impl View for StreamAccount {
    type V = StreamAccountView;

    closed spec fn view(&self) -> StreamAccountView {
        StreamAccountView {
            authority: self.authority,
            capacity: self.capacity as nat,
            stream_count: self.streams@.len(),
            streams: views(self.streams@),
        }
    }
}

/// The contents of the records in `streams`, in the same order.
pub open spec fn views(streams: Seq<Stream>) -> Seq<StreamView> {
    Seq::new(streams.len(), |i: int| streams[i]@)
}

impl Clone for StreamAccount {
    /// A ledger with the same owner, capacity and records.
    fn clone(&self) -> (r: StreamAccount)
        ensures
            r@ == self@,
    {
        proof {
            use_type_invariant(self);
        }
        StreamAccount::filled(self.authority, self.capacity, &self.streams)
    }
}

impl StreamAccount {
    /// Every ledger that exists is well formed.
    #[verifier::type_invariant]
    pub open spec fn inv(&self) -> bool {
        self@.wf()
    }

    /// An empty ledger for `authority` that takes up to `capacity` streams.
    pub fn new(authority: Identity, capacity: u64) -> (r: StreamAccount)
        ensures
            r@ == StreamAccountView::empty(authority, capacity as nat),
    {
        let r = StreamAccount { authority, capacity, streams: Vec::new() };
        assert(r@.streams =~= Seq::empty());
        r
    }

    /// A ledger rebuilt from its stored parts: the records of `streams`
    /// under the indexes they have there. Refused with `CapacityExceeded` if
    /// there are more of them than `capacity`.
    pub fn restore(authority: Identity, capacity: u64, streams: Vec<Stream>) -> (r: Result<
        StreamAccount,
        ErrorCode,
    >)
        ensures
            match StreamAccountView::spec_restore(authority, capacity, views(streams@)) {
                Ok(v) => r matches Ok(ledger) && ledger@ == v,
                Err(e) => r matches Err(f) && f == e,
            },
    {
        if streams.len() as u64 > capacity {
            return Err(ErrorCode::CapacityExceeded);
        }
        Ok(StreamAccount::filled(authority, capacity, &streams))
    }

    /// A ledger that holds copies of the records of `streams`.
    fn filled(authority: Identity, capacity: u64, streams: &Vec<Stream>) -> (r: StreamAccount)
        requires
            streams@.len() <= capacity,
        ensures
            r@ == (StreamAccountView {
                authority,
                capacity: capacity as nat,
                stream_count: streams@.len(),
                streams: views(streams@),
            }),
    {
        let mut ledger = StreamAccount::new(authority, capacity);
        let mut i: usize = 0;
        while i < streams.len()
            invariant
                i <= streams.len() <= capacity,
                ledger@.authority == authority,
                ledger@.capacity == capacity,
                ledger@.stream_count == i,
                ledger@.streams == views(streams@.take(i as int)),
            decreases streams.len() - i,
        {
            let appended = ledger.append(streams[i]);
            assert(appended is Ok);
            i += 1;
        }
        assert(streams@.take(i as int) =~= streams@);
        ledger
    }

    /// The sender who owns the ledger.
    pub fn authority(&self) -> (r: Identity)
        ensures
            r == self@.authority,
    {
        self.authority
    }

    /// How many streams the ledger was created for.
    pub fn capacity(&self) -> (r: u64)
        ensures
            r == self@.capacity,
    {
        self.capacity
    }

    /// How many streams were ever appended: the number of records.
    pub fn stream_count(&self) -> (r: u64)
        ensures
            r == self@.stream_count,
            r == self@.streams.len(),
            r <= self@.capacity,
    {
        proof {
            use_type_invariant(self);
        }
        self.streams.len() as u64
    }

    /// Appends `record` and gives the index under which it stays. Refused
    /// with `CapacityExceeded` if the ledger is full.
    pub fn append(&mut self, record: Stream) -> (r: Result<u64, ErrorCode>)
        ensures
            r == old(self)@.spec_append(),
            final(self)@ == if r is Ok {
                old(self)@.appended(record@)
            } else {
                old(self)@
            },
    {
        proof {
            use_type_invariant(&*self);
            use_type_invariant(&record);
        }
        let index = self.streams.len() as u64;
        if index >= self.capacity {
            return Err(ErrorCode::CapacityExceeded);
        }
        let mut streams: Vec<Stream> = Vec::new();
        std::mem::swap(&mut streams, &mut self.streams);
        streams.push(record);
        proof {
            assert(views(streams@) =~= old(self)@.streams.push(record@));
        }
        self.streams = streams;
        Ok(index)
    }

    /// The record at `index`. Refused with `IndexOutOfRange` if there is
    /// none.
    pub fn get(&self, index: u64) -> (r: Result<Stream, ErrorCode>)
        ensures
            match self@.spec_get(index) {
                Ok(v) => r matches Ok(s) && s@ == v,
                Err(e) => r == Err::<Stream, ErrorCode>(e),
            },
    {
        if index >= self.streams.len() as u64 {
            return Err(ErrorCode::IndexOutOfRange);
        }
        Ok(self.streams[index as usize])
    }

    /// Passes if `caller` funded the stream at `index`. Refused with
    /// `IndexOutOfRange` if there is no such stream, else with `Unauthorized`.
    pub fn require_sender(&self, index: u64, caller: &Identity) -> (r: Result<(), ErrorCode>)
        ensures
            r == self@.spec_require_sender(index, *caller),
    {
        let record = self.get(index)?;
        if record.sender() == *caller {
            Ok(())
        } else {
            Err(ErrorCode::Unauthorized)
        }
    }

    /// Passes if `caller` is the receiver of the stream at `index`. Refused
    /// with `IndexOutOfRange` if there is no such stream, else with
    /// `Unauthorized`.
    pub fn require_receiver(&self, index: u64, caller: &Identity) -> (r: Result<(), ErrorCode>)
        ensures
            r == self@.spec_require_receiver(index, *caller),
    {
        let record = self.get(index)?;
        if record.receiver() == *caller {
            Ok(())
        } else {
            Err(ErrorCode::Unauthorized)
        }
    }

    /// Passes if the stream at `index` is active. Refused with
    /// `IndexOutOfRange` if there is no such stream, else with
    /// `StreamInactive`.
    pub fn require_active(&self, index: u64) -> (r: Result<(), ErrorCode>)
        ensures
            r == self@.spec_require_active(index),
    {
        let record = self.get(index)?;
        if record.is_active() {
            Ok(())
        } else {
            Err(ErrorCode::StreamInactive)
        }
    }

    /// Applies `mutation` to the record at `index`, in one step: afterwards
    /// the record holds the whole change, or on refusal the ledger is as it
    /// was. Refused with `IndexOutOfRange` if there is no such record, else
    /// with `StreamInactive` if it is closed, else with `ArithmeticOverflow`
    /// if the payment would carry the withdrawn amount past the amount
    /// committed.
    pub fn commit(&mut self, index: u64, mutation: Mutation) -> (r: Result<(), ErrorCode>)
        ensures
            match old(self)@.spec_commit(index, mutation) {
                Ok(after) => r == Ok::<(), ErrorCode>(()) && final(self)@ == after,
                Err(e) => r == Err::<(), ErrorCode>(e) && final(self)@ == old(self)@,
            },
    {
        proof {
            use_type_invariant(&*self);
        }
        if index >= self.streams.len() as u64 {
            return Err(ErrorCode::IndexOutOfRange);
        }
        let i = index as usize;
        let after = match self.streams[i].credited(mutation.paid, mutation.deactivate) {
            Err(e) => {
                return Err(e);
            },
            Ok(after) => after,
        };
        let mut streams: Vec<Stream> = Vec::new();
        std::mem::swap(&mut streams, &mut self.streams);
        streams[i] = after;
        proof {
            assert(views(streams@) =~= old(self)@.streams.update(index as int, after@));
        }
        self.streams = streams;
        Ok(())
    }
}

} // verus!
