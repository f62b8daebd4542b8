//! What holds of a device authorization under every sequence of polls.

use vstd::prelude::*;

use crate::device::{after_poll, empty_slots, interval_after, PollKind, SlotsView};

verus! {

/// The slots after polls with the given outcomes, in their order.
pub open spec fn polled(s: SlotsView, kinds: Seq<PollKind>) -> SlotsView
    decreases kinds.len(),
{
    if kinds.len() == 0 {
        s
    } else {
        polled(after_poll(s, kinds[0]), kinds.drop_first())
    }
}

/// The interval after polls with the given outcomes, in their order.
pub open spec fn paced(interval: int, kinds: Seq<PollKind>) -> int
    decreases kinds.len(),
{
    if kinds.len() == 0 {
        interval
    } else {
        paced(
            if kinds[0] == PollKind::SlowDown {
                interval + 5
            } else {
                interval
            },
            kinds.drop_first(),
        )
    }
}

/// How often the provider asked to slow down.
pub open spec fn slow_downs(kinds: Seq<PollKind>) -> nat
    decreases kinds.len(),
{
    if kinds.len() == 0 {
        0
    } else {
        (if kinds[0] == PollKind::SlowDown {
            1nat
        } else {
            0nat
        }) + slow_downs(kinds.drop_first())
    }
}

/// A request to slow down lengthens the interval, and an authorization that
/// is still pending leaves it as it is.
pub proof fn slow_down_lengthens_the_interval(interval: u64, kind: PollKind)
    ensures
        kind == PollKind::SlowDown ==> interval_after(interval, kind) > interval,
        kind == PollKind::Pending ==> interval_after(interval, kind) == interval,
        kind != PollKind::SlowDown ==> interval_after(interval, kind) == interval,
{
}

/// The interval grows by the fixed step for each request to slow down, and
/// by nothing else.
pub proof fn interval_counts_the_slow_downs(interval: int, kinds: Seq<PollKind>)
    ensures
        paced(interval, kinds) == interval + 5 * slow_downs(kinds),
    decreases kinds.len(),
{
    if kinds.len() > 0 {
        let next = if kinds[0] == PollKind::SlowDown {
            interval + 5
        } else {
            interval
        };
        interval_counts_the_slow_downs(next, kinds.drop_first());
    }
}

/// Empty slots stay empty, whatever is polled.
pub proof fn nothing_pending_stays_so(kinds: Seq<PollKind>)
    ensures
        polled(empty_slots(), kinds) == empty_slots(),
    decreases kinds.len(),
{
    if kinds.len() > 0 {
        nothing_pending_stays_so(kinds.drop_first());
    }
}

/// Once an outcome has ended the authorization, nothing is pending and no
/// address is shown, whatever is polled afterwards. As long as no outcome
/// ends it, the slots stay as they were.
pub proof fn terminal_outcome_clears_the_slots(s: SlotsView, kinds: Seq<PollKind>)
    ensures
        (exists|i: int| 0 <= i < kinds.len() && (#[trigger] kinds[i]).is_terminal()) ==> polled(
            s,
            kinds,
        ) == empty_slots(),
        (forall|i: int| 0 <= i < kinds.len() ==> !(#[trigger] kinds[i]).is_terminal()) ==> polled(
            s,
            kinds,
        ) == s,
    decreases kinds.len(),
{
    if kinds.len() > 0 {
        let rest = kinds.drop_first();
        if kinds[0].is_terminal() {
            nothing_pending_stays_so(rest);
        } else {
            terminal_outcome_clears_the_slots(s, rest);
            if exists|i: int| 0 <= i < kinds.len() && (#[trigger] kinds[i]).is_terminal() {
                let i = choose|i: int| 0 <= i < kinds.len() && (#[trigger] kinds[i]).is_terminal();
                assert(rest[i - 1] == kinds[i]);
            }
            if forall|i: int| 0 <= i < kinds.len() ==> !(#[trigger] kinds[i]).is_terminal() {
                assert forall|i: int| 0 <= i < rest.len() implies !(
                #[trigger] rest[i]).is_terminal() by {
                    assert(rest[i] == kinds[i + 1]);
                }
            }
        }
    }
}

} // verus!
