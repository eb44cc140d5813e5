//! One streaming commitment and its lifecycle.

use vstd::prelude::*;
use crate::error::ErrorCode;
use crate::identity::Identity;
use crate::vesting::vested_amount;

verus! {

/// The mathematical content of a stream record.
pub struct StreamView {
    /// Who funded the stream.
    pub sender: Identity,
    /// Who may withdraw from it.
    pub receiver: Identity,
    /// When vesting begins, in seconds.
    pub start_time: int,
    /// When everything has vested, in seconds.
    pub end_time: int,
    /// The funds committed in total.
    pub amount: nat,
    /// The funds paid to the receiver so far.
    pub withdrawn_amount: nat,
    /// Whether the stream can still be touched.
    pub is_active: bool,
}

impl StreamView {
    /// What holds of every record: a window of positive length, a positive
    /// amount, and never more withdrawn than was committed.
    pub open spec fn wf(self) -> bool {
        &&& self.start_time < self.end_time
        &&& 0 < self.amount
        &&& self.withdrawn_amount <= self.amount
    }

    /// What can be stored in a record: `wf`, within the machine's integers.
    pub open spec fn representable(self) -> bool {
        &&& self.wf()
        &&& i64::MIN <= self.start_time
        &&& self.end_time <= i64::MAX
        &&& self.amount <= u64::MAX
    }

    /// The funds that have vested at `now`.
    pub open spec fn vested(self, now: int) -> nat {
        vested_amount(self.amount, self.start_time, self.end_time, now)
    }

    /// What has vested at `now` and is not yet paid. Negative only where more
    /// was paid than has vested at `now`, as when the clock ran backwards.
    pub open spec fn withdrawable(self, now: int) -> int {
        self.vested(now) - self.withdrawn_amount
    }

    /// What the stream can still pay out, to either party: the rest of the
    /// amount while it is active, nothing afterwards.
    pub open spec fn unpaid(self) -> nat {
        if self.is_active {
            (self.amount - self.withdrawn_amount) as nat
        } else {
            0
        }
    }

    /// The record of a stream that has just been opened.
    pub open spec fn opened(
        sender: Identity,
        receiver: Identity,
        start_time: int,
        duration: int,
        amount: nat,
    ) -> StreamView {
        StreamView {
            sender,
            receiver,
            start_time,
            end_time: start_time + duration,
            amount,
            withdrawn_amount: 0,
            is_active: true,
        }
    }

    /// The record after `paid` more has gone to the receiver, closed for good
    /// if `deactivate` says so.
    pub open spec fn credited(self, paid: nat, deactivate: bool) -> StreamView {
        StreamView {
            withdrawn_amount: self.withdrawn_amount + paid,
            is_active: self.is_active && !deactivate,
            ..self
        }
    }

    /// What `Stream::new` answers.
    pub open spec fn spec_new(
        sender: Identity,
        receiver: Identity,
        start_time: i64,
        duration: i64,
        amount: u64,
    ) -> Result<StreamView, ErrorCode> {
        if duration <= 0 {
            Err(ErrorCode::InvalidDuration)
        } else if amount == 0 {
            Err(ErrorCode::InvalidAmount)
        } else if start_time + duration > i64::MAX {
            Err(ErrorCode::ArithmeticOverflow)
        } else {
            Ok(StreamView::opened(sender, receiver, start_time as int, duration as int, amount as nat))
        }
    }

    /// What `Stream::restore` answers for the stored fields of `self`.
    pub open spec fn spec_restore(self) -> Result<StreamView, ErrorCode> {
        if self.end_time <= self.start_time {
            Err(ErrorCode::InvalidDuration)
        } else if self.amount == 0 {
            Err(ErrorCode::InvalidAmount)
        } else if self.withdrawn_amount > self.amount {
            Err(ErrorCode::ArithmeticOverflow)
        } else {
            Ok(self)
        }
    }

    /// What `Stream::credited` answers.
    pub open spec fn spec_credited(self, paid: u64, deactivate: bool) -> Result<StreamView, ErrorCode> {
        if !self.is_active {
            Err(ErrorCode::StreamInactive)
        } else if self.withdrawn_amount + paid > self.amount {
            Err(ErrorCode::ArithmeticOverflow)
        } else {
            Ok(self.credited(paid as nat, deactivate))
        }
    }
}

/// One streaming commitment: a sum that a sender has set aside for a receiver
/// and that vests linearly between two points in time.
///
/// The parties, the window and the amount are fixed when the stream is made.
/// Only `withdrawn_amount` and `is_active` change afterwards, and only through
/// `credited`: the one can only grow, up to the amount, the other can only go
/// from true to false.
#[derive(Clone, Copy, Debug, PartialEq, Eq)]
pub struct Stream {
    sender: Identity,
    receiver: Identity,
    start_time: i64,
    end_time: i64,
    amount: u64,
    withdrawn_amount: u64,
    is_active: bool,
}

impl View for Stream {
    type V = StreamView;

    closed spec fn view(&self) -> StreamView {
        StreamView {
            sender: self.sender,
            receiver: self.receiver,
            start_time: self.start_time as int,
            end_time: self.end_time as int,
            amount: self.amount as nat,
            withdrawn_amount: self.withdrawn_amount as nat,
            is_active: self.is_active,
        }
    }
}

impl Stream {
    /// Every record that exists is well formed.
    #[verifier::type_invariant]
    pub open spec fn inv(&self) -> bool {
        self@.representable()
    }

    /// A new stream from `sender` to `receiver` that starts vesting at
    /// `start_time` and has vested in full `duration` seconds later. Refused
    /// if the duration is not positive, else if there are no funds, else if
    /// the end of the window cannot be represented.
    pub fn new(
        sender: Identity,
        receiver: Identity,
        start_time: i64,
        duration: i64,
        amount: u64,
    ) -> (r: Result<Stream, ErrorCode>)
        ensures
            match StreamView::spec_new(sender, receiver, start_time, duration, amount) {
                Ok(v) => r matches Ok(s) && s@ == v && v.representable(),
                Err(e) => r == Err::<Stream, ErrorCode>(e),
            },
    {
        if duration <= 0 {
            return Err(ErrorCode::InvalidDuration);
        }
        if amount == 0 {
            return Err(ErrorCode::InvalidAmount);
        }
        match start_time.checked_add(duration) {
            None => Err(ErrorCode::ArithmeticOverflow),
            Some(end_time) => Ok(
                Stream {
                    sender,
                    receiver,
                    start_time,
                    end_time,
                    amount,
                    withdrawn_amount: 0,
                    is_active: true,
                },
            ),
        }
    }

    /// A record rebuilt from its stored fields. Refused if the window is
    /// empty, else if the amount is zero, else if more is marked as withdrawn
    /// than was committed.
    pub fn restore(
        sender: Identity,
        receiver: Identity,
        start_time: i64,
        end_time: i64,
        amount: u64,
        withdrawn_amount: u64,
        is_active: bool,
    ) -> (r: Result<Stream, ErrorCode>)
        ensures
            match (StreamView {
                sender,
                receiver,
                start_time: start_time as int,
                end_time: end_time as int,
                amount: amount as nat,
                withdrawn_amount: withdrawn_amount as nat,
                is_active,
            }).spec_restore() {
                Ok(v) => r matches Ok(s) && s@ == v && v.representable(),
                Err(e) => r == Err::<Stream, ErrorCode>(e),
            },
    {
        if end_time <= start_time {
            return Err(ErrorCode::InvalidDuration);
        }
        if amount == 0 {
            return Err(ErrorCode::InvalidAmount);
        }
        if withdrawn_amount > amount {
            return Err(ErrorCode::ArithmeticOverflow);
        }
        Ok(Stream { sender, receiver, start_time, end_time, amount, withdrawn_amount, is_active })
    }

    /// The record after `paid` more has gone to the receiver; closed for good
    /// if `deactivate` is set. Refused if the stream is no longer active, else
    /// if the payment would carry the withdrawn amount past the amount
    /// committed.
    pub fn credited(&self, paid: u64, deactivate: bool) -> (r: Result<Stream, ErrorCode>)
        ensures
            match self@.spec_credited(paid, deactivate) {
                Ok(v) => r matches Ok(s) && s@ == v && v.representable(),
                Err(e) => r == Err::<Stream, ErrorCode>(e),
            },
    {
        proof {
            use_type_invariant(self);
        }
        if !self.is_active {
            return Err(ErrorCode::StreamInactive);
        }
        if paid > self.amount - self.withdrawn_amount {
            return Err(ErrorCode::ArithmeticOverflow);
        }
        Ok(
            Stream {
                sender: self.sender,
                receiver: self.receiver,
                start_time: self.start_time,
                end_time: self.end_time,
                amount: self.amount,
                withdrawn_amount: self.withdrawn_amount + paid,
                is_active: !deactivate,
            },
        )
    }

    /// Who funded the stream.
    pub fn sender(&self) -> (r: Identity)
        ensures
            r == self@.sender,
    {
        self.sender
    }

    /// Who may withdraw from the stream.
    pub fn receiver(&self) -> (r: Identity)
        ensures
            r == self@.receiver,
    {
        self.receiver
    }

    /// When vesting begins.
    pub fn start_time(&self) -> (r: i64)
        ensures
            r == self@.start_time,
    {
        self.start_time
    }

    /// When everything has vested; later than `start_time`.
    pub fn end_time(&self) -> (r: i64)
        ensures
            r == self@.end_time,
            self@.start_time < r,
    {
        proof {
            use_type_invariant(self);
        }
        self.end_time
    }

    /// The funds committed in total; more than zero.
    pub fn amount(&self) -> (r: u64)
        ensures
            r == self@.amount,
            0 < r,
    {
        proof {
            use_type_invariant(self);
        }
        self.amount
    }

    /// The funds paid to the receiver so far; never more than `amount`.
    pub fn withdrawn_amount(&self) -> (r: u64)
        ensures
            r == self@.withdrawn_amount,
            r <= self@.amount,
    {
        proof {
            use_type_invariant(self);
        }
        self.withdrawn_amount
    }

    /// Whether the stream can still be touched.
    pub fn is_active(&self) -> (r: bool)
        ensures
            r == self@.is_active,
    {
        self.is_active
    }
}

} // verus!
