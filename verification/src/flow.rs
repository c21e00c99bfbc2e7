//! The strictly sequential control flow of a swap run: fee, quote,
//! transaction build, then for each leg a send and a confirmation, in leg
//! order. Any failure ends the run at once; nothing further is attempted.
//! The flow is a state machine: the surrounding binary performs one
//! outside step per stage and feeds the outcome back as an event.

use vstd::prelude::*;

verus! {

/// The pending step of a swap run.
#[derive(Clone, Copy, PartialEq, Eq, Structural, Debug)]
pub enum Stage {
    /// Asking the fee oracle for the fee schedule.
    FetchFee,
    /// Asking the swap service for a quote.
    FetchQuote,
    /// Asking the transaction builder for the legs.
    BuildTx,
    /// Sending leg `next` of `total` to the node.
    SendLeg { next: usize, total: usize },
    /// Waiting for finalization of leg `sent` of `total`.
    ConfirmLeg { sent: usize, total: usize },
    /// Every leg confirmed; the run succeeded.
    Done { total: usize },
    /// A step failed; the run is over.
    Aborted,
}

/// The outcome of one outside step.
#[derive(Clone, Copy, PartialEq, Eq, Structural, Debug)]
pub enum Event {
    /// The fee-oracle response arrived; `ok` is its HTTP success.
    FeeFetched { ok: bool },
    /// The quote response arrived; `ok` is its HTTP success.
    QuoteFetched { ok: bool },
    /// The transaction-builder response arrived; on success it carried
    /// `legs` transaction blobs.
    TxBuilt { ok: bool, legs: usize },
    /// The node accepted (or refused) the sent leg.
    LegSent { ok: bool },
    /// The sent leg reached (or failed to reach) finalization.
    LegConfirmed { ok: bool },
}

/// Whether an event reports success.
pub open spec fn event_ok(e: Event) -> bool {
    match e {
        Event::FeeFetched { ok } => ok,
        Event::QuoteFetched { ok } => ok,
        Event::TxBuilt { ok, legs } => ok,
        Event::LegSent { ok } => ok,
        Event::LegConfirmed { ok } => ok,
    }
}

/// Internal consistency of a stage: leg counters stay below the total.
pub open spec fn stage_wf(s: Stage) -> bool {
    match s {
        Stage::SendLeg { next, total } => next < total,
        Stage::ConfirmLeg { sent, total } => sent < total,
        _ => true,
    }
}

/// The stage a run starts in.
pub open spec fn initial_stage() -> Stage {
    Stage::FetchFee
}

/// One transition of the run. A failure, and an event that does not
/// answer the pending step, aborts the run; `Done` and `Aborted` are
/// final.
pub open spec fn next_stage(s: Stage, e: Event) -> Stage {
    match s {
        Stage::FetchFee => match e {
            Event::FeeFetched { ok } => if ok {
                Stage::FetchQuote
            } else {
                Stage::Aborted
            },
            _ => Stage::Aborted,
        },
        Stage::FetchQuote => match e {
            Event::QuoteFetched { ok } => if ok {
                Stage::BuildTx
            } else {
                Stage::Aborted
            },
            _ => Stage::Aborted,
        },
        Stage::BuildTx => match e {
            Event::TxBuilt { ok, legs } => if !ok {
                Stage::Aborted
            } else if legs == 0 {
                Stage::Done { total: 0 }
            } else {
                Stage::SendLeg { next: 0, total: legs }
            },
            _ => Stage::Aborted,
        },
        Stage::SendLeg { next, total } => match e {
            Event::LegSent { ok } => if ok {
                Stage::ConfirmLeg { sent: next, total }
            } else {
                Stage::Aborted
            },
            _ => Stage::Aborted,
        },
        Stage::ConfirmLeg { sent, total } => match e {
            Event::LegConfirmed { ok } => if !ok {
                Stage::Aborted
            } else if sent + 1 == total {
                Stage::Done { total }
            } else {
                Stage::SendLeg { next: (sent + 1) as usize, total }
            },
            _ => Stage::Aborted,
        },
        Stage::Done { total } => Stage::Done { total },
        Stage::Aborted => Stage::Aborted,
    }
}

/// One transition, as executable code.
pub fn step(s: &Stage, e: &Event) -> (r: Stage)
    requires
        stage_wf(*s),
    ensures
        r == next_stage(*s, *e),
        stage_wf(r),
{
    match s {
        Stage::FetchFee => match e {
            Event::FeeFetched { ok } => if *ok {
                Stage::FetchQuote
            } else {
                Stage::Aborted
            },
            _ => Stage::Aborted,
        },
        Stage::FetchQuote => match e {
            Event::QuoteFetched { ok } => if *ok {
                Stage::BuildTx
            } else {
                Stage::Aborted
            },
            _ => Stage::Aborted,
        },
        Stage::BuildTx => match e {
            Event::TxBuilt { ok, legs } => if !*ok {
                Stage::Aborted
            } else if *legs == 0 {
                Stage::Done { total: 0 }
            } else {
                Stage::SendLeg { next: 0, total: *legs }
            },
            _ => Stage::Aborted,
        },
        Stage::SendLeg { next, total } => match e {
            Event::LegSent { ok } => if *ok {
                Stage::ConfirmLeg { sent: *next, total: *total }
            } else {
                Stage::Aborted
            },
            _ => Stage::Aborted,
        },
        Stage::ConfirmLeg { sent, total } => match e {
            Event::LegConfirmed { ok } => if !*ok {
                Stage::Aborted
            } else if *sent + 1 == *total {
                Stage::Done { total: *total }
            } else {
                Stage::SendLeg { next: *sent + 1, total: *total }
            },
            _ => Stage::Aborted,
        },
        Stage::Done { total } => Stage::Done { total: *total },
        Stage::Aborted => Stage::Aborted,
    }
}

/// The stage after consuming `evs` from `s0`.
pub open spec fn run_stages(s0: Stage, evs: Seq<Event>) -> Stage
    decreases evs.len(),
{
    if evs.len() == 0 {
        s0
    } else {
        next_stage(run_stages(s0, evs.drop_last()), evs.last())
    }
}

/// The legs for which a send was attempted along the run, in order of
/// attempt: leg `next` is attempted when the pending step is `SendLeg`
/// and a send outcome comes back, whether it succeeded or not.
pub open spec fn sends_of(s0: Stage, evs: Seq<Event>) -> Seq<usize>
    decreases evs.len(),
{
    if evs.len() == 0 {
        Seq::empty()
    } else {
        let pre = sends_of(s0, evs.drop_last());
        match run_stages(s0, evs.drop_last()) {
            Stage::SendLeg { next, total } => match evs.last() {
                Event::LegSent { ok } => pre.push(next),
                _ => pre,
            },
            _ => pre,
        }
    }
}

/// How far a run has sent, read off its stage.
spec fn sends_match_stage(st: Stage, sends: Seq<usize>) -> bool {
    match st {
        Stage::FetchFee => sends.len() == 0,
        Stage::FetchQuote => sends.len() == 0,
        Stage::BuildTx => sends.len() == 0,
        Stage::SendLeg { next, total } => sends.len() == next,
        Stage::ConfirmLeg { sent, total } => sends.len() == sent + 1,
        Stage::Done { total } => sends.len() == total,
        Stage::Aborted => true,
    }
}

/// Along any run from the initial stage, the stage stays well-formed, the
/// count of send attempts matches the stage, and the attempts are the
/// legs 0, 1, 2, … in order.
proof fn lemma_run_invariant(evs: Seq<Event>)
    ensures
        stage_wf(run_stages(initial_stage(), evs)),
        sends_match_stage(run_stages(initial_stage(), evs), sends_of(initial_stage(), evs)),
        forall|i: int|
            0 <= i < sends_of(initial_stage(), evs).len() ==> (#[trigger] sends_of(
                initial_stage(),
                evs,
            )[i]) as int == i,
    decreases evs.len(),
{
    if evs.len() > 0 {
        lemma_run_invariant(evs.drop_last());
    }
}

/// `Done` and `Aborted` are final: once a run reaches one of them, later
/// events change neither the stage nor the attempted sends.
pub proof fn lemma_terminal_stays(s0: Stage, evs: Seq<Event>, k: int)
    requires
        0 <= k <= evs.len(),
        run_stages(s0, evs.take(k)) is Done || run_stages(s0, evs.take(k)) is Aborted,
    ensures
        run_stages(s0, evs) == run_stages(s0, evs.take(k)),
        sends_of(s0, evs) == sends_of(s0, evs.take(k)),
    decreases evs.len() - k,
{
    if k == evs.len() {
        assert(evs.take(k) =~= evs);
    } else {
        assert(evs.take(k + 1).drop_last() =~= evs.take(k));
        assert(evs.take(k + 1).last() == evs[k]);
        lemma_terminal_stays(s0, evs, k + 1);
    }
}

/// Send attempts happen in leg order: the k-th attempted send is leg k,
/// so leg k+1 is never attempted before leg k.
pub proof fn lemma_sends_in_order(evs: Seq<Event>)
    ensures
        forall|i: int|
            0 <= i < sends_of(initial_stage(), evs).len() ==> (#[trigger] sends_of(
                initial_stage(),
                evs,
            )[i]) as int == i,
{
    lemma_run_invariant(evs);
}

/// A failure at any step freezes the run: no leg is sent after the event
/// that failed, so a failure at leg k prevents every attempt at leg k+1.
pub proof fn lemma_failure_halts(evs: Seq<Event>, k: int)
    requires
        0 <= k < evs.len(),
        !event_ok(evs[k]),
    ensures
        sends_of(initial_stage(), evs) == sends_of(initial_stage(), evs.take(k + 1)),
{
    assert(evs.take(k + 1).drop_last() =~= evs.take(k));
    assert(evs.take(k + 1).last() == evs[k]);
    lemma_terminal_stays(initial_stage(), evs, k + 1);
}

/// A non-success answer from the fee oracle, the quote endpoint, or the
/// transaction builder aborts the run before any leg is ever sent.
pub proof fn lemma_http_failure_sends_nothing(evs: Seq<Event>, k: int)
    requires
        0 <= k < evs.len(),
        run_stages(initial_stage(), evs.take(k)) is FetchFee || run_stages(
            initial_stage(),
            evs.take(k),
        ) is FetchQuote || run_stages(initial_stage(), evs.take(k)) is BuildTx,
        !event_ok(evs[k]),
    ensures
        sends_of(initial_stage(), evs).len() == 0,
{
    lemma_run_invariant(evs.take(k));
    assert(evs.take(k + 1).drop_last() =~= evs.take(k));
    assert(evs.take(k + 1).last() == evs[k]);
    lemma_terminal_stays(initial_stage(), evs, k + 1);
}

}
