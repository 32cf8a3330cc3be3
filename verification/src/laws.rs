//! The session loop's laws: what holds of every transition of [`step`], and
//! of every sequence of transitions, stated and proved once for all drivers.

use vstd::prelude::*;
use crate::msg::user_msg;
use crate::render::{echo_renders, RenderV};
use crate::session::{
    outcome_appends, outcome_renders, session_inv, step, EventV, OutcomeV, SessionV,
};

verus! {

/// Law: every step keeps the transcript well formed — the fixed system
/// message stays first and is never duplicated or removed — and the old
/// transcript is a prefix of the new one: turns are only ever appended.
pub proof fn lemma_step_preserves_inv(s: SessionV, e: EventV)
    requires
        session_inv(s),
    ensures
        session_inv(step(s, e).next),
        s.history.is_prefix_of(step(s, e).next.history),
{
    let h2 = step(s, e).next.history;
    match e {
        EventV::Submitted(t) => {
            assert(h2 =~= s.history);
        },
        EventV::StartNext => {
            if !s.in_flight && s.queue.len() > 0 {
                assert(h2 == s.history.push(user_msg(s.queue[0])));
                assert(s.history.is_prefix_of(h2)) by {
                    assert(h2.subrange(0, s.history.len() as int) =~= s.history);
                }
            } else {
                assert(h2 =~= s.history);
            }
        },
        EventV::Resolved(o) => {
            if h2 == s.history {
                assert(h2 =~= s.history);
            } else {
                assert(h2.subrange(0, s.history.len() as int) =~= s.history);
            }
        },
    }
}

/// Law: when a step starts work on a submitted line, the line enters the
/// transcript as one user turn in that very step — before its outcome is
/// known, so it stays there even if the completion attempt then fails — and
/// the request carries exactly that new transcript as its snapshot.
pub proof fn lemma_user_turn_recorded(s: SessionV)
    requires
        !s.in_flight,
        s.queue.len() > 0,
    ensures
        ({
            let out = step(s, EventV::StartNext);
            &&& out.next.history == s.history.push(user_msg(s.queue[0]))
            &&& out.request matches Some(rq) && rq.history == out.next.history
                && rq.model == s.model
            &&& out.renders == echo_renders(s.queue[0])
            &&& out.next.queue == s.queue.drop_first()
        }),
{
}

/// Law: a step starts a completion request only when none is in flight; the
/// state then records one in flight until a resolution, and nothing else,
/// clears it. So no two requests are ever in flight together.
pub proof fn lemma_request_only_when_idle(s: SessionV, e: EventV)
    ensures
        step(s, e).request is Some ==> !s.in_flight && step(s, e).next.in_flight,
        s.in_flight && !(e is Resolved) ==> step(s, e).next.in_flight
            && step(s, e).request is None,
        step(s, e).next.in_flight != s.in_flight ==> (e is StartNext || e is Resolved),
{
}

/// Run a sequence of events from a state, step by step.
pub open spec fn run(s: SessionV, es: Seq<EventV>) -> SessionV
    decreases es.len(),
{
    if es.len() == 0 {
        s
    } else {
        run(step(s, es[0]).next, es.drop_first())
    }
}

/// Law: over any sequence of events whatsoever, the transcript invariant
/// holds and the transcript only grows — however many completions succeed
/// or fail, the fixed system message stays its first element, exactly once.
pub proof fn lemma_run_preserves_inv(s: SessionV, es: Seq<EventV>)
    requires
        session_inv(s),
    ensures
        session_inv(run(s, es)),
        s.history.is_prefix_of(run(s, es).history),
    decreases es.len(),
{
    if es.len() == 0 {
        assert(run(s, es).history.subrange(0, s.history.len() as int) =~= s.history);
    } else {
        let s1 = step(s, es[0]).next;
        lemma_step_preserves_inv(s, es[0]);
        lemma_run_preserves_inv(s1, es.drop_first());
        let h3 = run(s, es).history;
        assert(h3.subrange(0, s.history.len() as int) =~= s.history) by {
            assert(s.history =~= s1.history.subrange(0, s.history.len() as int));
            assert(s1.history =~= h3.subrange(0, s1.history.len() as int));
        }
    }
}

/// How many completion requests the steps of a sequence of events start.
pub open spec fn requests_started(s: SessionV, es: Seq<EventV>) -> nat
    decreases es.len(),
{
    if es.len() == 0 {
        0
    } else {
        (if step(s, es[0]).request is Some {
            1nat
        } else {
            0nat
        }) + requests_started(step(s, es[0]).next, es.drop_first())
    }
}

/// Whether no event of the sequence is a resolution.
pub open spec fn no_resolution(es: Seq<EventV>) -> bool {
    forall|k: int| 0 <= k < es.len() ==> !(es[k] is Resolved)
}

/// Law: over any burst of submissions and start attempts — any events with
/// no resolution among them — at most one completion request is started, and
/// none at all if one was already in flight. A rapid burst of submitted
/// lines therefore never puts two requests in flight.
pub proof fn lemma_single_request_in_flight(s: SessionV, es: Seq<EventV>)
    requires
        no_resolution(es),
    ensures
        s.in_flight ==> requests_started(s, es) == 0 && run(s, es).in_flight,
        requests_started(s, es) <= 1,
    decreases es.len(),
{
    if es.len() > 0 {
        let s1 = step(s, es[0]).next;
        assert(no_resolution(es.drop_first())) by {
            assert(forall|k: int| 0 <= k < es.drop_first().len()
                ==> es.drop_first()[k] == es[k + 1]);
        }
        lemma_request_only_when_idle(s, es[0]);
        lemma_single_request_in_flight(s1, es.drop_first());
    }
}

/// Law: what each outcome appends. A reply appends exactly one assistant
/// turn whose text is the first candidate trimmed of leading and trailing
/// whitespace; an error, a timeout, or an empty candidate list appends
/// nothing, and the transcript stands exactly as it did after the user turn.
pub proof fn lemma_outcome_appended(s: SessionV, o: OutcomeV)
    ensures
        step(s, EventV::Resolved(o)).next.history == outcome_appends(s.history, o),
        o matches OutcomeV::Completed(cands) && cands.len() > 0
            ==> step(s, EventV::Resolved(o)).next.history.len() == s.history.len() + 1,
        !(o matches OutcomeV::Completed(cands) && cands.len() > 0)
            ==> step(s, EventV::Resolved(o)).next.history == s.history,
        step(s, EventV::Resolved(o)).next.in_flight == false,
        step(s, EventV::Resolved(o)).next.queue == s.queue,
{
}

/// Law: rendering happens exactly once per thing rendered. Queueing a line
/// renders nothing; a step that starts work renders exactly the one echo of
/// the line it took up, and a step that starts nothing renders nothing; a
/// resolution renders exactly its one outcome, never zero and never two.
pub proof fn lemma_render_discipline(s: SessionV, e: EventV)
    ensures
        e is Submitted ==> step(s, e).renders == Seq::<RenderV>::empty(),
        e is StartNext ==> ((step(s, e).request is Some) == (!s.in_flight && s.queue.len() > 0)),
        e is StartNext && step(s, e).request is Some
            ==> step(s, e).renders == echo_renders(s.queue[0]),
        e is StartNext && step(s, e).request is None
            ==> step(s, e).renders == Seq::<RenderV>::empty(),
        e matches EventV::Resolved(o)
            ==> step(s, e).renders == outcome_renders(o) && step(s, e).renders.len() >= 1,
{
    match e {
        EventV::Resolved(o) => {
            assert(outcome_renders(o).len() >= 1);
        },
        _ => {},
    }
}

/// Everything a sequence of events renders, in order.
pub open spec fn run_renders(s: SessionV, es: Seq<EventV>) -> Seq<RenderV>
    decreases es.len(),
{
    if es.len() == 0 {
        Seq::empty()
    } else {
        step(s, es[0]).renders + run_renders(step(s, es[0]).next, es.drop_first())
    }
}

/// Law: one submission, processed to its outcome, renders exactly one echo
/// of the user's line and then exactly one rendered outcome — never zero of
/// either, never two.
pub proof fn lemma_one_echo_one_outcome(s: SessionV, t: Seq<char>, o: OutcomeV)
    requires
        !s.in_flight,
        s.queue.len() == 0,
    ensures
        run_renders(
            s,
            seq![EventV::Submitted(t), EventV::StartNext, EventV::Resolved(o)],
        ) == echo_renders(t) + outcome_renders(o),
{
    let es = seq![EventV::Submitted(t), EventV::StartNext, EventV::Resolved(o)];
    let s1 = step(s, es[0]).next;
    assert(es.drop_first() =~= seq![EventV::StartNext, EventV::Resolved(o)]);
    assert(s1.queue =~= seq![t]);
    let es1 = seq![EventV::StartNext, EventV::Resolved(o)];
    let s2 = step(s1, es1[0]).next;
    assert(es1.drop_first() =~= seq![EventV::Resolved(o)]);
    let es2 = seq![EventV::Resolved(o)];
    assert(es2.drop_first() =~= Seq::<EventV>::empty());
    assert(run_renders(step(s2, es2[0]).next, es2.drop_first())
        =~= Seq::<RenderV>::empty());
    assert(run_renders(s2, es2) == step(s2, es2[0]).renders + run_renders(
        step(s2, es2[0]).next,
        es2.drop_first(),
    ));
    assert(run_renders(s1, es1) == step(s1, es1[0]).renders + run_renders(s2, es2));
    assert(run_renders(s, es) == step(s, es[0]).renders + run_renders(s1, es1));
    assert(step(s, es[0]).renders =~= Seq::<RenderV>::empty());
    assert(step(s1, es1[0]).renders == echo_renders(t));
    assert(step(s2, es2[0]).renders == outcome_renders(o));
    assert(run_renders(s, es) =~= echo_renders(t) + outcome_renders(o));
}

/// Law: lines are worked on strictly in submission order. If a second line
/// arrives while the first's request is in flight, nothing starts for it:
/// the transcript still ends with the first line's user turn. Only once the
/// first attempt resolves does the second line enter the transcript, and
/// only then does its request start — with the first line's turn, and the
/// first reply if there was one, already before it.
pub proof fn lemma_fifo_two_submissions(s: SessionV, t1: Seq<char>, t2: Seq<char>, o: OutcomeV)
    requires
        !s.in_flight,
        s.queue.len() == 0,
    ensures
        ({
            let s1 = step(s, EventV::Submitted(t1)).next;
            let first = step(s1, EventV::StartNext);
            let s2 = step(first.next, EventV::Submitted(t2)).next;
            let blocked = step(s2, EventV::StartNext);
            let s3 = step(blocked.next, EventV::Resolved(o)).next;
            let second = step(s3, EventV::StartNext);
            // the first line starts at once, with its user turn recorded
            &&& first.request matches Some(q1)
                && q1.history == s.history.push(user_msg(t1))
            // while it is in flight, the second line starts nothing and is
            // not yet in the transcript
            &&& blocked.request is None
            &&& blocked.next == s2
            &&& s2.history == s.history.push(user_msg(t1))
            // after the resolution the second line starts, its user turn
            // standing after the first line's turn and the first outcome
            &&& second.request matches Some(q2)
            &&& q2.history == outcome_appends(s.history.push(user_msg(t1)), o).push(
                user_msg(t2),
            )
            &&& second.next.history == q2.history
            &&& s.history.push(user_msg(t1)).is_prefix_of(second.next.history)
            &&& second.next.history.last() == user_msg(t2)
        }),
{
    let s1 = step(s, EventV::Submitted(t1)).next;
    let first = step(s1, EventV::StartNext);
    let s2 = step(first.next, EventV::Submitted(t2)).next;
    let blocked = step(s2, EventV::StartNext);
    let s3 = step(blocked.next, EventV::Resolved(o)).next;
    let second = step(s3, EventV::StartNext);
    assert(s1.queue =~= seq![t1]);
    assert(s1.queue.drop_first() =~= Seq::<Seq<char>>::empty());
    assert(s2.queue =~= seq![t2]);
    assert(blocked.next =~= s2);
    assert(s3.queue =~= seq![t2]);
    let h1 = s.history.push(user_msg(t1));
    assert(second.request matches Some(q2)
        && q2.history == outcome_appends(h1, o).push(user_msg(t2)));
    assert(h1.is_prefix_of(outcome_appends(h1, o).push(user_msg(t2)))) by {
        let h3 = outcome_appends(h1, o).push(user_msg(t2));
        assert(h3.subrange(0, h1.len() as int) =~= h1);
    }
}

} // verus!
