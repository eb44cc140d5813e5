//! The operations on a ledger: opening a stream, withdrawing from it and
//! cancelling it.
//!
//! Funds are moved by a treasury outside this library, so every operation
//! comes in two steps. The first decides: it checks the request against the
//! ledger, changes nothing, and says which funds have to move. The caller
//! has the treasury move them, all or none, and hands the outcome to the
//! second step, which writes the change into the ledger if the funds moved
//! and refuses with `TransferFailed` if they did not. Either way a failed
//! operation leaves the ledger as it was.

use vstd::prelude::*;
use crate::error::ErrorCode;
use crate::identity::Identity;
use crate::ledger::{Mutation, StreamAccount, StreamAccountView};
use crate::stream::{Stream, StreamView};
use crate::vesting::withdrawable_now;

verus! {

/// The number of streams that a ledger is customarily created for.
pub const MAX_STREAMS: u64 = 20;

/// A place where funds are held.
#[derive(Clone, Copy, Debug, PartialEq, Eq)]
pub enum Party {
    /// The custody of the ledger, which holds what its streams have not yet
    /// paid out.
    Custody,
    /// The own balance of an identity.
    Holder(Identity),
}

/// One movement of funds that the treasury is asked for.
#[derive(Clone, Copy, Debug, PartialEq, Eq)]
pub struct Transfer {
    pub from: Party,
    pub to: Party,
    pub amount: u64,
}

/// What a withdrawal or a cancellation has decided: the funds that leave
/// custody and the change to the record that goes with them.
#[derive(Clone, Copy, Debug, PartialEq, Eq)]
pub struct Settlement {
    /// The stream that is settled.
    pub stream_index: u64,
    /// The sender of that stream.
    pub sender: Identity,
    /// The receiver of that stream.
    pub receiver: Identity,
    /// What goes from custody to the receiver.
    pub to_receiver: u64,
    /// What goes from custody back to the sender.
    pub to_sender: u64,
    /// Whether the stream closes.
    pub deactivate: bool,
}

impl Settlement {
    /// The movements of funds that the settlement asks for: the receiver's
    /// share first, then the sender's refund, each only if it is more than
    /// nothing.
    pub open spec fn spec_transfers(self) -> Seq<Transfer> {
        let payout = if self.to_receiver > 0 {
            seq![
                Transfer {
                    from: Party::Custody,
                    to: Party::Holder(self.receiver),
                    amount: self.to_receiver,
                },
            ]
        } else {
            Seq::empty()
        };
        let refund = if self.to_sender > 0 {
            seq![
                Transfer {
                    from: Party::Custody,
                    to: Party::Holder(self.sender),
                    amount: self.to_sender,
                },
            ]
        } else {
            Seq::empty()
        };
        payout + refund
    }

    /// The change to the record that the settlement asks for.
    pub open spec fn spec_mutation(self) -> Mutation {
        Mutation { paid: self.to_receiver, deactivate: self.deactivate }
    }

    /// The movements of funds to ask the treasury for.
    pub fn transfers(&self) -> (r: Vec<Transfer>)
        ensures
            r@ == self.spec_transfers(),
    {
        let mut r: Vec<Transfer> = Vec::new();
        if self.to_receiver > 0 {
            r.push(
                Transfer {
                    from: Party::Custody,
                    to: Party::Holder(self.receiver),
                    amount: self.to_receiver,
                },
            );
        }
        if self.to_sender > 0 {
            r.push(
                Transfer {
                    from: Party::Custody,
                    to: Party::Holder(self.sender),
                    amount: self.to_sender,
                },
            );
        }
        r
    }

    /// The change to the record to commit once the funds have moved.
    pub fn mutation(&self) -> (r: Mutation)
        ensures
            r == self.spec_mutation(),
    {
        Mutation { paid: self.to_receiver, deactivate: self.deactivate }
    }
}

/// The movement of funds that opens `stream`: its whole amount, from the
/// sender's balance into custody.
pub open spec fn spec_deposit(stream: StreamView) -> Transfer {
    Transfer { from: Party::Holder(stream.sender), to: Party::Custody, amount: stream.amount as u64 }
}

/// What `create_stream` decides: the record of the new stream, whose sender
/// is the ledger's authority and whose window opens at `now`. Refused if the
/// duration is not positive, else if the amount is zero, else if the window
/// would end past the last second that can be represented, else if the ledger
/// is full.
pub open spec fn spec_create_stream(
    ledger: StreamAccountView,
    receiver: Identity,
    duration: i64,
    amount: u64,
    now: i64,
) -> Result<StreamView, ErrorCode> {
    match StreamView::spec_new(ledger.authority, receiver, now, duration, amount) {
        Err(e) => Err(e),
        Ok(record) => match ledger.spec_append() {
            Err(e) => Err(e),
            Ok(_) => Ok(record),
        },
    }
}

/// What `settle_opening` does: the index of the new stream and the ledger
/// with the record appended. Refused with `TransferFailed` if the deposit did
/// not move, else with `CapacityExceeded` if the ledger is full.
pub open spec fn spec_settle_opening(ledger: StreamAccountView, record: StreamView, moved: bool) -> Result<
    (u64, StreamAccountView),
    ErrorCode,
> {
    if !moved {
        Err(ErrorCode::TransferFailed)
    } else {
        match ledger.spec_append() {
            Err(e) => Err(e),
            Ok(index) => Ok((index, ledger.appended(record))),
        }
    }
}

/// What `withdraw` decides: the receiver gets what has vested at `now` and is
/// not yet paid, and the stream closes if that is more than nothing and the
/// window is over. Refused with `IndexOutOfRange` if there is no such
/// stream, else with `StreamInactive` if it is closed, else with
/// `Unauthorized` if the caller is not its receiver, else with
/// `ArithmeticUnderflow` if more was paid than has vested.
pub open spec fn spec_withdraw(
    ledger: StreamAccountView,
    caller: Identity,
    stream_index: u64,
    now: i64,
) -> Result<Settlement, ErrorCode> {
    match ledger.spec_get(stream_index) {
        Err(e) => Err(e),
        Ok(record) => if !record.is_active {
            Err(ErrorCode::StreamInactive)
        } else if record.receiver != caller {
            Err(ErrorCode::Unauthorized)
        } else if record.withdrawable(now as int) < 0 {
            Err(ErrorCode::ArithmeticUnderflow)
        } else {
            Ok(
                Settlement {
                    stream_index,
                    sender: record.sender,
                    receiver: record.receiver,
                    to_receiver: record.withdrawable(now as int) as u64,
                    to_sender: 0,
                    deactivate: record.withdrawable(now as int) > 0 && now >= record.end_time,
                },
            )
        },
    }
}

/// What `cancel_stream` decides: the receiver gets what has vested at `now`
/// and is not yet paid, never again what was paid before; the sender gets
/// back the amount less the larger of what has vested and what was paid; and
/// the stream closes. Refused with `IndexOutOfRange` if there is no such
/// stream, else with `StreamInactive` if it is closed, else with
/// `Unauthorized` if the caller is not its sender, else with
/// `ArithmeticUnderflow` if more was paid than has vested. So where a
/// cancellation is decided, what has vested is the larger of the two, and the
/// refund is all that has not vested.
pub open spec fn spec_cancel_stream(
    ledger: StreamAccountView,
    caller: Identity,
    stream_index: u64,
    now: i64,
) -> Result<Settlement, ErrorCode> {
    match ledger.spec_get(stream_index) {
        Err(e) => Err(e),
        Ok(record) => if !record.is_active {
            Err(ErrorCode::StreamInactive)
        } else if record.sender != caller {
            Err(ErrorCode::Unauthorized)
        } else if record.withdrawable(now as int) < 0 {
            Err(ErrorCode::ArithmeticUnderflow)
        } else {
            Ok(
                Settlement {
                    stream_index,
                    sender: record.sender,
                    receiver: record.receiver,
                    to_receiver: record.withdrawable(now as int) as u64,
                    to_sender: (record.amount - larger(
                        record.vested(now as int),
                        record.withdrawn_amount,
                    )) as u64,
                    deactivate: true,
                },
            )
        },
    }
}

/// The larger of two amounts.
pub open spec fn larger(a: nat, b: nat) -> nat {
    if a >= b {
        a
    } else {
        b
    }
}

/// What `settle` does to the ledger. Refused with `TransferFailed` if funds
/// had to move and did not, else as `commit` refuses the settlement's change.
pub open spec fn spec_settle(ledger: StreamAccountView, settlement: Settlement, moved: bool) -> Result<
    StreamAccountView,
    ErrorCode,
> {
    if !moved && settlement.spec_transfers().len() > 0 {
        Err(ErrorCode::TransferFailed)
    } else {
        ledger.spec_commit(settlement.stream_index, settlement.spec_mutation())
    }
}

/// Creates the empty ledger of `authority`, for up to `capacity` streams.
pub fn initialize(authority: Identity, capacity: u64) -> (r: StreamAccount)
    ensures
        r@ == StreamAccountView::empty(authority, capacity as nat),
{
    StreamAccount::new(authority, capacity)
}

/// Decides the opening of a stream from the ledger's authority to `receiver`
/// that vests `amount` over the `duration` seconds after `now`. The ledger is
/// not changed: the caller has `deposit` of the record moved and then calls
/// `settle_opening`.
pub fn create_stream(
    ledger: &StreamAccount,
    receiver: Identity,
    duration: i64,
    amount: u64,
    now: i64,
) -> (r: Result<Stream, ErrorCode>)
    ensures
        match spec_create_stream(ledger@, receiver, duration, amount, now) {
            Ok(v) => r matches Ok(s) && s@ == v,
            Err(e) => r == Err::<Stream, ErrorCode>(e),
        },
{
    let stream = Stream::new(ledger.authority(), receiver, now, duration, amount)?;
    if ledger.stream_count() >= ledger.capacity() {
        return Err(ErrorCode::CapacityExceeded);
    }
    Ok(stream)
}

/// The movement of funds that opens `stream`.
pub fn deposit(stream: &Stream) -> (r: Transfer)
    ensures
        r == spec_deposit(stream@),
{
    Transfer { from: Party::Holder(stream.sender()), to: Party::Custody, amount: stream.amount() }
}

/// Completes the opening of a stream. `moved` says whether the treasury
/// moved the deposit. If it did, `stream` is appended and its index
/// returned; if not, or if the ledger has no room, the ledger stays as it
/// was.
pub fn settle_opening(ledger: &mut StreamAccount, stream: Stream, moved: bool) -> (r: Result<
    u64,
    ErrorCode,
>)
    ensures
        match spec_settle_opening(old(ledger)@, stream@, moved) {
            Ok((index, after)) => r == Ok::<u64, ErrorCode>(index) && final(ledger)@ == after,
            Err(e) => r == Err::<u64, ErrorCode>(e) && final(ledger)@ == old(ledger)@,
        },
{
    if !moved {
        return Err(ErrorCode::TransferFailed);
    }
    ledger.append(stream)
}

/// Decides a withdrawal by `caller` from the stream at `stream_index`, at
/// the time `now`. The ledger is not changed: the caller has the
/// settlement's transfers moved and then calls `settle`. A settlement that
/// moves nothing is no error; settling it changes nothing.
pub fn withdraw(ledger: &StreamAccount, caller: Identity, stream_index: u64, now: i64) -> (r: Result<
    Settlement,
    ErrorCode,
>)
    ensures
        r == spec_withdraw(ledger@, caller, stream_index, now),
{
    ledger.require_active(stream_index)?;
    ledger.require_receiver(stream_index, &caller)?;
    let record = ledger.get(stream_index)?;
    let due = withdrawable_now(&record, now)?;
    let end_time = record.end_time();
    Ok(
        Settlement {
            stream_index,
            sender: record.sender(),
            receiver: record.receiver(),
            to_receiver: due,
            to_sender: 0,
            deactivate: due > 0 && now >= end_time,
        },
    )
}

/// Decides the cancellation by `caller` of the stream at `stream_index`, at
/// the time `now`. The ledger is not changed: the caller has the
/// settlement's transfers moved and then calls `settle`.
pub fn cancel_stream(ledger: &StreamAccount, caller: Identity, stream_index: u64, now: i64) -> (r:
    Result<Settlement, ErrorCode>)
    ensures
        r == spec_cancel_stream(ledger@, caller, stream_index, now),
{
    ledger.require_active(stream_index)?;
    ledger.require_sender(stream_index, &caller)?;
    let record = ledger.get(stream_index)?;
    let due = withdrawable_now(&record, now)?;
    let amount = record.amount();
    let vested_now = record.withdrawn_amount() + due;
    let refund = match amount.checked_sub(vested_now) {
        None => {
            return Err(ErrorCode::ArithmeticUnderflow);
        },
        Some(refund) => refund,
    };
    Ok(
        Settlement {
            stream_index,
            sender: record.sender(),
            receiver: record.receiver(),
            to_receiver: due,
            to_sender: refund,
            deactivate: true,
        },
    )
}

/// Completes a withdrawal or a cancellation. `moved` says whether the
/// treasury moved the settlement's transfers. If it did, or if there were
/// none to move, the change is committed to the record; if not, the ledger
/// stays as it was.
pub fn settle(ledger: &mut StreamAccount, settlement: &Settlement, moved: bool) -> (r: Result<
    (),
    ErrorCode,
>)
    ensures
        match spec_settle(old(ledger)@, *settlement, moved) {
            Ok(after) => r == Ok::<(), ErrorCode>(()) && final(ledger)@ == after,
            Err(e) => r == Err::<(), ErrorCode>(e) && final(ledger)@ == old(ledger)@,
        },
{
    if !moved && (settlement.to_receiver > 0 || settlement.to_sender > 0) {
        return Err(ErrorCode::TransferFailed);
    }
    ledger.commit(settlement.stream_index, settlement.mutation())
}

} // verus!
