//! What holds of every ledger, whatever is asked of it.
//!
//! A `Call` is one operation as a client sees it: the decision, the
//! treasury's answer, and the settlement. The laws below speak of single
//! calls and of any sequence of them.

use vstd::prelude::*;
use crate::engine::{
    spec_cancel_stream,
    spec_create_stream,
    spec_settle,
    spec_settle_opening,
    spec_withdraw,
    Settlement,
};
use crate::error::ErrorCode;
use crate::identity::Identity;
use crate::ledger::StreamAccountView;
use crate::stream::StreamView;
use crate::vesting::{lemma_vested_bounded, lemma_vested_monotonic};

verus! {

/// One operation on a ledger, with the treasury's answer: `moved` says
/// whether the treasury moved the funds that the operation asked for.
pub enum Call {
    Open { receiver: Identity, duration: i64, amount: u64, now: i64, moved: bool },
    Withdraw { caller: Identity, stream_index: u64, now: i64, moved: bool },
    Cancel { caller: Identity, stream_index: u64, now: i64, moved: bool },
}

/// The time at which `call` is made.
pub open spec fn time_of(call: Call) -> i64 {
    match call {
        Call::Open { now, .. } => now,
        Call::Withdraw { now, .. } => now,
        Call::Cancel { now, .. } => now,
    }
}

/// What a withdrawal or cancellation decides on `ledger`; `None` for an
/// opening.
pub open spec fn decision(ledger: StreamAccountView, call: Call) -> Option<Result<Settlement, ErrorCode>> {
    match call {
        Call::Open { .. } => None,
        Call::Withdraw { caller, stream_index, now, .. } => Some(
            spec_withdraw(ledger, caller, stream_index, now),
        ),
        Call::Cancel { caller, stream_index, now, .. } => Some(
            spec_cancel_stream(ledger, caller, stream_index, now),
        ),
    }
}

/// The ledger after `call`: changed as the settlement says if the operation
/// went through, and as before if any step of it was refused.
pub open spec fn step(ledger: StreamAccountView, call: Call) -> StreamAccountView {
    match call {
        Call::Open { receiver, duration, amount, now, moved } => match spec_create_stream(
            ledger,
            receiver,
            duration,
            amount,
            now,
        ) {
            Err(_) => ledger,
            Ok(record) => match spec_settle_opening(ledger, record, moved) {
                Err(_) => ledger,
                Ok((_, after)) => after,
            },
        },
        Call::Withdraw { moved, .. } | Call::Cancel { moved, .. } => match decision(ledger, call) {
            Some(Ok(settlement)) => match spec_settle(ledger, settlement, moved) {
                Err(_) => ledger,
                Ok(after) => after,
            },
            _ => ledger,
        },
    }
}

/// The funds that leave custody for the parties of the stream at `index`
/// when `call` is made on `ledger`: the receiver's share and the sender's
/// refund if the call settles that stream, nothing otherwise.
pub open spec fn paid_out(ledger: StreamAccountView, call: Call, index: int) -> nat {
    match call {
        Call::Open { .. } => 0,
        Call::Withdraw { moved, .. } | Call::Cancel { moved, .. } => match decision(ledger, call) {
            Some(Ok(settlement)) => if settlement.stream_index == index && spec_settle(
                ledger,
                settlement,
                moved,
            ) is Ok {
                (settlement.to_receiver + settlement.to_sender) as nat
            } else {
                0
            },
            _ => 0,
        },
    }
}

/// The ledger after the calls of `calls`, made one after the other.
pub open spec fn run(ledger: StreamAccountView, calls: Seq<Call>) -> StreamAccountView
    decreases calls.len(),
{
    if calls.len() == 0 {
        ledger
    } else {
        run(step(ledger, calls[0]), calls.skip(1))
    }
}

/// All that the calls of `calls` pay out for the stream at `index`.
pub open spec fn total_paid_out(ledger: StreamAccountView, calls: Seq<Call>, index: int) -> nat
    decreases calls.len(),
{
    if calls.len() == 0 {
        0
    } else {
        paid_out(ledger, calls[0], index) + total_paid_out(
            step(ledger, calls[0]),
            calls.skip(1),
            index,
        )
    }
}

/// How a record may differ from what it was earlier: its parties, window and
/// amount are the same, nothing that was withdrawn has come back, it has not
/// become active again, and once closed it has not changed at all.
pub open spec fn continues(earlier: StreamView, later: StreamView) -> bool {
    &&& later.sender == earlier.sender
    &&& later.receiver == earlier.receiver
    &&& later.start_time == earlier.start_time
    &&& later.end_time == earlier.end_time
    &&& later.amount == earlier.amount
    &&& earlier.withdrawn_amount <= later.withdrawn_amount
    &&& later.is_active ==> earlier.is_active
    &&& !earlier.is_active ==> later == earlier
}

/// How a ledger may differ from what it was earlier: same owner and
/// capacity, no record gone or moved, and each record a continuation of what
/// it was.
pub open spec fn extends(earlier: StreamAccountView, later: StreamAccountView) -> bool {
    &&& later.authority == earlier.authority
    &&& later.capacity == earlier.capacity
    &&& earlier.streams.len() <= later.streams.len()
    &&& forall|i: int|
        0 <= i < earlier.streams.len() ==> continues(earlier.streams[i], #[trigger] later.streams[i])
}

/// The ledger that `initialize` creates is well formed, and so is, by the
/// laws below, every ledger that calls make of it.
pub proof fn law_initial_ledger_is_well_formed(authority: Identity, capacity: u64)
    ensures
        StreamAccountView::empty(authority, capacity as nat).wf(),
{
}

/// A settlement that was decided on a ledger can be committed to it: once
/// the funds have moved, the change to the record is never refused.
pub proof fn law_decisions_settle(ledger: StreamAccountView, call: Call)
    requires
        ledger.wf(),
        decision(ledger, call) matches Some(Ok(_)),
    ensures
        spec_settle(ledger, decision(ledger, call).unwrap().unwrap(), true) is Ok,
{
    let settlement = decision(ledger, call).unwrap().unwrap();
    let record = ledger.streams[settlement.stream_index as int];
    lemma_vested_bounded(record.amount, record.start_time, record.end_time, time_of(call) as int);
}

/// One call leaves a well-formed ledger well formed, with every stream
/// continued, and what it pays out for a stream is exactly what that stream
/// can pay out less afterwards.
pub proof fn law_step(ledger: StreamAccountView, call: Call)
    requires
        ledger.wf(),
    ensures
        step(ledger, call).wf(),
        extends(ledger, step(ledger, call)),
        forall|i: int|
            0 <= i < ledger.streams.len() ==> #[trigger] paid_out(ledger, call, i) + step(
                ledger,
                call,
            ).streams[i].unpaid() == ledger.streams[i].unpaid(),
{
    match decision(ledger, call) {
        Some(Ok(settlement)) => {
            let record = ledger.streams[settlement.stream_index as int];
            lemma_vested_bounded(
                record.amount,
                record.start_time,
                record.end_time,
                time_of(call) as int,
            );
            law_decisions_settle(ledger, call);
        },
        _ => {},
    }
}

/// At every point of a ledger's life, each of its streams has
/// `0 <= withdrawn_amount <= amount`: whatever calls are made on a
/// well-formed ledger, the ledger that results is well formed.
pub proof fn law_withdrawn_stays_within_amount(ledger: StreamAccountView, calls: Seq<Call>)
    requires
        ledger.wf(),
    ensures
        run(ledger, calls).wf(),
        forall|i: int|
            0 <= i < run(ledger, calls).streams.len() ==> 0 <= (#[trigger] run(
                ledger,
                calls,
            ).streams[i]).withdrawn_amount <= run(ledger, calls).streams[i].amount,
    decreases calls.len(),
{
    if calls.len() > 0 {
        law_step(ledger, calls[0]);
        law_withdrawn_stays_within_amount(step(ledger, calls[0]), calls.skip(1));
    }
}

/// Whatever calls are made, no record is lost or moved, its parties, window
/// and amount stay what they were, and its withdrawn amount never shrinks.
pub proof fn law_streams_continue(ledger: StreamAccountView, calls: Seq<Call>)
    requires
        ledger.wf(),
    ensures
        extends(ledger, run(ledger, calls)),
    decreases calls.len(),
{
    if calls.len() > 0 {
        law_step(ledger, calls[0]);
        law_streams_continue(step(ledger, calls[0]), calls.skip(1));
    }
}

/// A stream goes from active to closed at most once, and never back: once
/// it is closed, no call changes its record, and no call finds it active
/// again.
pub proof fn law_closed_streams_stay_closed(ledger: StreamAccountView, calls: Seq<Call>, index: int)
    requires
        ledger.wf(),
        0 <= index < ledger.streams.len(),
        !ledger.streams[index].is_active,
    ensures
        index < run(ledger, calls).streams.len(),
        run(ledger, calls).streams[index] == ledger.streams[index],
{
    law_streams_continue(ledger, calls);
}

/// A withdrawal that went through and left the stream open, asked again at
/// the same time, moves no funds, is no error and changes nothing.
pub proof fn law_second_withdrawal_is_idle(
    ledger: StreamAccountView,
    caller: Identity,
    stream_index: u64,
    now: i64,
    moved: bool,
)
    requires
        ledger.wf(),
        spec_withdraw(ledger, caller, stream_index, now) matches Ok(first) && !first.deactivate
            && spec_settle(ledger, first, moved) is Ok,
    ensures
        ({
            let first = spec_withdraw(ledger, caller, stream_index, now).unwrap();
            let after = spec_settle(ledger, first, moved).unwrap();
            &&& spec_withdraw(after, caller, stream_index, now) matches Ok(second)
                && second.to_receiver == 0 && second.to_sender == 0 && !second.deactivate
                && second.spec_transfers() == Seq::<crate::engine::Transfer>::empty()
                && spec_settle(after, second, false) == Ok::<StreamAccountView, ErrorCode>(after)
                && spec_settle(after, second, true) == Ok::<StreamAccountView, ErrorCode>(after)
        }),
{
    let first = spec_withdraw(ledger, caller, stream_index, now).unwrap();
    let after = spec_settle(ledger, first, moved).unwrap();
    let record = ledger.streams[stream_index as int];
    lemma_vested_bounded(record.amount, record.start_time, record.end_time, now as int);
    assert(after.replaced(stream_index as int, after.streams[stream_index as int]).streams
        =~= after.streams);
}

/// A withdrawal that closed the stream, asked again, is refused with
/// `StreamInactive`.
pub proof fn law_withdrawal_after_the_last_is_refused(
    ledger: StreamAccountView,
    caller: Identity,
    stream_index: u64,
    now: i64,
    later: i64,
)
    requires
        ledger.wf(),
        spec_withdraw(ledger, caller, stream_index, now) matches Ok(first) && first.deactivate,
    ensures
        ({
            let first = spec_withdraw(ledger, caller, stream_index, now).unwrap();
            let after = spec_settle(ledger, first, true).unwrap();
            &&& spec_settle(ledger, first, true) is Ok
            &&& after.streams[stream_index as int].withdrawn_amount
                == after.streams[stream_index as int].amount
            &&& spec_withdraw(after, caller, stream_index, later) == Err::<Settlement, ErrorCode>(
                ErrorCode::StreamInactive,
            )
        }),
{
    let record = ledger.streams[stream_index as int];
    lemma_vested_bounded(record.amount, record.start_time, record.end_time, now as int);
}

/// A cancellation splits what is left of a stream exactly: what the receiver
/// has when it is settled, which is what had vested, and the refund to the
/// sender add up to the amount of the stream.
pub proof fn law_cancellation_splits_the_amount(
    ledger: StreamAccountView,
    caller: Identity,
    stream_index: u64,
    now: i64,
)
    requires
        ledger.wf(),
        spec_cancel_stream(ledger, caller, stream_index, now) is Ok,
    ensures
        ({
            let record = ledger.streams[stream_index as int];
            let settlement = spec_cancel_stream(ledger, caller, stream_index, now).unwrap();
            let after = spec_settle(ledger, settlement, true).unwrap();
            &&& spec_settle(ledger, settlement, true) is Ok
            &&& record.withdrawn_amount + settlement.to_receiver == record.vested(now as int)
            &&& record.vested(now as int) + settlement.to_sender == record.amount
            &&& after.streams[stream_index as int].withdrawn_amount == record.vested(now as int)
            &&& !after.streams[stream_index as int].is_active
        }),
{
    let record = ledger.streams[stream_index as int];
    lemma_vested_bounded(record.amount, record.start_time, record.end_time, now as int);
}

/// Funds are conserved: whatever calls are made, what they pay out for a
/// stream, to its receiver and to its sender together, is exactly what the
/// stream could still pay out before less what it can still pay out after.
/// So no stream ever pays out more than its amount.
pub proof fn law_funds_are_conserved(ledger: StreamAccountView, calls: Seq<Call>, index: int)
    requires
        ledger.wf(),
        0 <= index < ledger.streams.len(),
    ensures
        index < run(ledger, calls).streams.len(),
        total_paid_out(ledger, calls, index) + run(ledger, calls).streams[index].unpaid()
            == ledger.streams[index].unpaid(),
        ledger.streams[index].withdrawn_amount + total_paid_out(ledger, calls, index)
            <= ledger.streams[index].amount,
    decreases calls.len(),
{
    if calls.len() > 0 {
        law_step(ledger, calls[0]);
        law_funds_are_conserved(step(ledger, calls[0]), calls.skip(1), index);
    }
}

/// Whether the clock never runs backwards: no call of `calls` is made
/// before `from`, nor before the call that precedes it.
pub open spec fn chronological(from: int, calls: Seq<Call>) -> bool
    decreases calls.len(),
{
    calls.len() == 0 || (from <= time_of(calls[0]) && chronological(
        time_of(calls[0]) as int,
        calls.skip(1),
    ))
}

/// The time of the last call of `calls`, or `from` if there is none.
pub open spec fn latest(from: int, calls: Seq<Call>) -> int {
    if calls.len() == 0 {
        from
    } else {
        time_of(calls.last()) as int
    }
}

/// Whether no stream of `ledger` has paid its receiver more than has vested
/// at `now`.
pub open spec fn within_vested(ledger: StreamAccountView, now: int) -> bool {
    forall|i: int|
        0 <= i < ledger.streams.len() ==> (#[trigger] ledger.streams[i]).withdrawable(now) >= 0
}

/// On a ledger that is within what has vested, a call made no earlier is
/// never refused with `ArithmeticUnderflow`, and leaves the ledger within
/// what has vested at the time of the call.
pub proof fn law_step_stays_within_vested(ledger: StreamAccountView, call: Call, from: int)
    requires
        ledger.wf(),
        within_vested(ledger, from),
        from <= time_of(call),
    ensures
        decision(ledger, call) != Some(
            Err::<Settlement, ErrorCode>(ErrorCode::ArithmeticUnderflow),
        ),
        within_vested(step(ledger, call), time_of(call) as int),
{
    let now = time_of(call) as int;
    law_step(ledger, call);
    assert forall|i: int| 0 <= i < ledger.streams.len() implies (#[trigger] ledger.streams[i]).withdrawable(
        now,
    ) >= 0 by {
        let record = ledger.streams[i];
        lemma_vested_monotonic(record.amount, record.start_time, record.end_time, from, now);
    }
}

/// As long as the clock never runs backwards, no stream ever has paid its
/// receiver more than has vested.
pub proof fn law_withdrawn_stays_within_vested(ledger: StreamAccountView, calls: Seq<Call>, from: int)
    requires
        ledger.wf(),
        within_vested(ledger, from),
        chronological(from, calls),
    ensures
        within_vested(run(ledger, calls), latest(from, calls)),
    decreases calls.len(),
{
    if calls.len() > 0 {
        law_step(ledger, calls[0]);
        law_step_stays_within_vested(ledger, calls[0], from);
        law_withdrawn_stays_within_vested(
            step(ledger, calls[0]),
            calls.skip(1),
            time_of(calls[0]) as int,
        );
    }
}

} // verus!
