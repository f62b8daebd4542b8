//! What holds of every run: statements over whole sequences of lines, proved
//! from the step function of the run.

use vstd::prelude::*;

use crate::run::{
    after_cancel, after_line, after_silence, disclosed, identity_prefix, is_orphan_secret,
    line_disclosure, orphan_secret_line, secret_prefix, RunView,
};

verus! {

/// The state after the lines have arrived one by one. A run whose
/// cancellation was requested takes one more line and no further.
pub open spec fn drained(s: RunView, lines: Seq<Seq<char>>) -> RunView
    decreases lines.len(),
{
    if lines.len() == 0 {
        s
    } else if s.should_stop {
        after_line(s, lines[0])
    } else {
        drained(after_line(s, lines[0]), lines.drop_first())
    }
}

/// The pairs of identity and secret that the lines complete, in the order in
/// which they are completed.
pub open spec fn disclosures(s: RunView, lines: Seq<Seq<char>>) -> Seq<(Seq<char>, Seq<char>)>
    decreases lines.len(),
{
    if lines.len() == 0 {
        Seq::empty()
    } else {
        let head = match line_disclosure(s, lines[0]) {
            Some(pair) => seq![pair],
            None => Seq::empty(),
        };
        if s.should_stop {
            head
        } else {
            head + disclosures(after_line(s, lines[0]), lines.drop_first())
        }
    }
}

/// How many of the lines disclose a secret while no identity waits for one.
pub open spec fn orphan_secrets(s: RunView, lines: Seq<Seq<char>>) -> nat
    decreases lines.len(),
{
    if lines.len() == 0 {
        0
    } else {
        let head: nat = if is_orphan_secret(s, lines[0]) {
            1
        } else {
            0
        };
        if s.should_stop {
            head
        } else {
            head + orphan_secrets(after_line(s, lines[0]), lines.drop_first())
        }
    }
}

/// No line discloses an identity and a secret at once.
pub proof fn prefixes_exclude_each_other(line: Seq<char>)
    ensures
        !(identity_prefix().is_prefix_of(line) && secret_prefix().is_prefix_of(line)),
{
    reveal_strlit("identity disclosed: ");
    reveal_strlit("secret disclosed: ");
    if identity_prefix().is_prefix_of(line) && secret_prefix().is_prefix_of(line) {
        assert(line[0] == identity_prefix()[0]);
        assert(line[0] == secret_prefix()[0]);
    }
}

/// While no cancellation is requested, the log grows by one entry for each
/// line that arrives and by one more for each secret that no identity
/// preceded. Where there is no such secret, the log is the old log followed by
/// the lines, in the order in which they arrived.
pub proof fn log_holds_every_line(s: RunView, lines: Seq<Seq<char>>)
    requires
        !s.should_stop,
    ensures
        drained(s, lines).logs.len() == s.logs.len() + lines.len() + orphan_secrets(s, lines),
        orphan_secrets(s, lines) == 0 ==> drained(s, lines).logs == s.logs + lines,
        !drained(s, lines).should_stop,
    decreases lines.len(),
{
    if lines.len() == 0 {
        assert(s.logs + lines =~= s.logs);
    } else {
        let next = after_line(s, lines[0]);
        let rest = lines.drop_first();
        log_holds_every_line(next, rest);
        if orphan_secrets(s, lines) == 0 {
            assert(next.logs == s.logs.push(lines[0]));
            assert(s.logs.push(lines[0]) + rest =~= s.logs + lines);
        }
    }
}

/// An identity followed at once by a secret completes exactly one pair, made
/// of that identity and that secret, while no cancellation is requested.
pub proof fn pair_gives_one_record(s: RunView, identity_line: Seq<char>, secret_line: Seq<char>)
    requires
        !s.should_stop,
        identity_prefix().is_prefix_of(identity_line),
        secret_prefix().is_prefix_of(secret_line),
    ensures
        disclosures(s, seq![identity_line, secret_line]) == seq![
            (
                disclosed(identity_line, identity_prefix()),
                disclosed(secret_line, secret_prefix()),
            ),
        ],
        orphan_secrets(s, seq![identity_line, secret_line]) == 0,
        drained(s, seq![identity_line, secret_line]).pending_email is None,
{
    prefixes_exclude_each_other(secret_line);
    let lines = seq![identity_line, secret_line];
    let mid = after_line(s, identity_line);
    let rest = lines.drop_first();
    assert(rest =~= seq![secret_line]);
    assert(rest.drop_first() =~= Seq::<Seq<char>>::empty());
    let last = after_line(mid, secret_line);
    assert(disclosures(last, rest.drop_first()) =~= Seq::empty());
    assert(disclosures(mid, rest) =~= seq![
        (disclosed(identity_line, identity_prefix()), disclosed(secret_line, secret_prefix())),
    ]);
    assert(disclosures(s, lines) =~= disclosures(mid, rest));
    prefixes_exclude_each_other(identity_line);
    assert(orphan_secrets(last, rest.drop_first()) == 0);
    assert(orphan_secrets(mid, rest) == 0);
    assert(orphan_secrets(s, lines) == orphan_secrets(mid, rest));
    assert(drained(last, rest.drop_first()) == last);
    assert(drained(mid, rest) == last);
}

/// Of two secrets in a row the second completes no pair and is answered with
/// exactly one warning in the log.
pub proof fn second_secret_is_orphan(s: RunView, first: Seq<char>, second: Seq<char>)
    requires
        !s.should_stop,
        secret_prefix().is_prefix_of(first),
        secret_prefix().is_prefix_of(second),
    ensures
        line_disclosure(after_line(s, first), second) is None,
        after_line(after_line(s, first), second).logs == after_line(s, first).logs.push(
            second,
        ).push(orphan_secret_line()),
{
    prefixes_exclude_each_other(first);
    prefixes_exclude_each_other(second);
}

/// After a cancellation was accepted, a look at the state ends the run even
/// where the worker writes no further line.
pub proof fn cancel_ends_silent_run(s: RunView)
    requires
        s.is_running,
    ensures
        !after_silence(after_cancel(s)).is_running,
        after_silence(after_cancel(s)).logs == after_cancel(s).logs.push(
            crate::run::stopped_line(),
        ),
        after_silence(after_silence(after_cancel(s))) == after_silence(after_cancel(s)),
{
}

/// After a cancellation was accepted, the next line ends the run: the state
/// is no longer running, the caller is told to end the worker, and no further
/// line is taken.
pub proof fn cancel_ends_run_at_next_line(s: RunView, lines: Seq<Seq<char>>)
    requires
        s.is_running,
        lines.len() > 0,
    ensures
        after_cancel(s).should_stop,
        !after_line(after_cancel(s), lines[0]).is_running,
        drained(after_cancel(s), lines) == after_line(after_cancel(s), lines[0]),
{
}

/// A line changes neither the counters of the run nor a request to cancel.
pub proof fn line_keeps_the_counters(s: RunView, line: Seq<char>)
    ensures
        after_line(s, line).current_index == s.current_index,
        after_line(s, line).total_count == s.total_count,
        after_line(s, line).should_stop == s.should_stop,
        after_line(s, line).error == s.error,
        s.logs.is_prefix_of(after_line(s, line).logs),
        after_line(s, line).logs[s.logs.len() as int] == line,
{
}

/// A secret takes the identity that waits: after it none waits, so that no
/// identity is paired twice.
pub proof fn secret_takes_the_identity(s: RunView, line: Seq<char>, next: Seq<char>)
    requires
        secret_prefix().is_prefix_of(line),
        !identity_prefix().is_prefix_of(next),
    ensures
        after_line(s, line).pending_email is None,
        line_disclosure(after_line(s, line), next) is None,
{
    prefixes_exclude_each_other(line);
}

} // verus!
