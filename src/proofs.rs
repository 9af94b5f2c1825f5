use vstd::prelude::*;

use crate::config::ConfigView;
use crate::workflow::{
    advance, error_kind, handed_out, initial, password_selector, pending, plan, run, step_of,
    username_selector, ActionView, ErrorKind, EventView, SessionView, StatusView, Step,
};

verus! {

/// `k` reports that each action completed.
pub open spec fn all_done(k: nat) -> Seq<EventView> {
    Seq::new(k, |i: int| EventView::Done)
}

/// The run reached by `k` completed actions from the start.
pub open spec fn after_done(c: ConfigView, k: nat) -> SessionView {
    SessionView {
        config: c,
        next: k,
        status: if k == plan(c).len() {
            StatusView::Succeeded
        } else {
            StatusView::Running
        },
    }
}

/// Reporting events in two batches is reporting them all at once.
pub proof fn lemma_run_append(s: SessionView, a: Seq<EventView>, b: Seq<EventView>)
    ensures
        run(s, a + b) == run(run(s, a), b),
    decreases a.len(),
{
    if a.len() > 0 {
        assert((a + b)[0] == a[0]);
        assert((a + b).drop_first() =~= a.drop_first() + b);
        lemma_run_append(advance(s, a[0]), a.drop_first(), b);
    } else {
        assert(a + b =~= b);
    }
}

/// Reporting a single event on a run that waits on an action hands that
/// action out and advances the run once.
pub proof fn lemma_run_one(s: SessionView, e: EventView)
    requires
        pending(s) is Some,
    ensures
        run(s, seq![e]) == advance(s, e),
        handed_out(s, seq![e]) == seq![pending(s)->0],
{
    let one = seq![e];
    assert(one[0] == e);
    assert(one.drop_first() =~= Seq::<EventView>::empty());
    assert(run(advance(s, e), one.drop_first()) == advance(s, e));
    assert(handed_out(advance(s, e), one.drop_first()) == Seq::<ActionView>::empty());
    assert(seq![pending(s)->0] + Seq::<ActionView>::empty() =~= seq![pending(s)->0]);
}

/// A run that has ended hands out nothing more and no report changes it.
pub proof fn lemma_ended_run_stays(s: SessionView, events: Seq<EventView>)
    requires
        pending(s) is None,
    ensures
        run(s, events) == s,
        handed_out(s, events) == Seq::<ActionView>::empty(),
    decreases events.len(),
{
    if events.len() > 0 {
        lemma_ended_run_stays(advance(s, events[0]), events.drop_first());
    }
}

/// The actions handed out over two batches of events are those of the first
/// batch followed by those of the second.
pub proof fn lemma_handed_out_append(s: SessionView, a: Seq<EventView>, b: Seq<EventView>)
    ensures
        handed_out(s, a + b) == handed_out(s, a) + handed_out(run(s, a), b),
    decreases a.len(),
{
    if a.len() == 0 {
        assert(a + b =~= b);
        assert(handed_out(s, a) + handed_out(s, b) =~= handed_out(s, b));
    } else if pending(s) is None {
        lemma_ended_run_stays(s, a);
        lemma_ended_run_stays(s, b);
        lemma_ended_run_stays(s, a + b);
    } else {
        assert((a + b)[0] == a[0]);
        assert((a + b).drop_first() =~= a.drop_first() + b);
        lemma_handed_out_append(advance(s, a[0]), a.drop_first(), b);
        assert(handed_out(s, a + b) =~= handed_out(s, a) + handed_out(run(s, a), b));
    }
}

/// After `k` completed actions the run has handed out the first `k` actions
/// of the plan and waits on the next, or has succeeded after the last.
pub proof fn lemma_done_prefix(c: ConfigView, k: nat)
    requires
        k <= plan(c).len(),
    ensures
        run(initial(c), all_done(k)) == after_done(c, k),
        handed_out(initial(c), all_done(k)) == plan(c).take(k as int),
    decreases k,
{
    if k == 0 {
        assert(plan(c).take(0) =~= Seq::<ActionView>::empty());
    } else {
        let j = (k - 1) as nat;
        lemma_done_prefix(c, j);
        let one = seq![EventView::Done];
        assert(all_done(k) =~= all_done(j) + one);
        lemma_run_append(initial(c), all_done(j), one);
        lemma_handed_out_append(initial(c), all_done(j), one);
        let s = after_done(c, j);
        lemma_run_one(s, EventView::Done);

        assert(plan(c).take(k as int) =~= plan(c).take(j as int) + seq![plan(c)[j as int]]);
    }
}

/// From a run that has handed out `s.next` actions, the actions handed out
/// next are the plan's following ones, in order.
pub proof fn lemma_handed_out_continues_plan(s: SessionView, events: Seq<EventView>)
    requires
        s.next <= plan(s.config).len(),
    ensures
        s.next + handed_out(s, events).len() <= plan(s.config).len(),
        handed_out(s, events) == plan(s.config).subrange(
            s.next as int,
            s.next + handed_out(s, events).len() as int,
        ),
    decreases events.len(),
{
    let p = plan(s.config);
    if events.len() == 0 || pending(s) is None {
        assert(p.subrange(s.next as int, s.next as int) =~= Seq::<ActionView>::empty());
    } else {
        let t = advance(s, events[0]);
        let rest = events.drop_first();
        lemma_handed_out_continues_plan(t, rest);
        let m = handed_out(t, rest).len();
        if events[0] is Done {
            assert(seq![p[s.next as int]] + p.subrange(t.next as int, t.next + m as int) =~= p.subrange(
                s.next as int,
                s.next + 1 + m as int,
            ));
        } else {
            assert(pending(t) is None);
            assert(handed_out(t, rest) == Seq::<ActionView>::empty());
            assert(seq![p[s.next as int]] + Seq::<ActionView>::empty() =~= p.subrange(
                s.next as int,
                s.next + 1 as int,
            ));
        }
    }
}

/// Whatever the driver reports, a run hands out the actions of the plan in
/// their order, with none skipped, repeated or added: a prefix of the plan.
pub proof fn lemma_run_follows_plan(c: ConfigView, events: Seq<EventView>)
    ensures
        handed_out(initial(c), events).len() <= plan(c).len(),
        handed_out(initial(c), events) == plan(c).take(handed_out(initial(c), events).len() as int),
{
    lemma_handed_out_continues_plan(initial(c), events);
}

/// When every action completes, a run hands out exactly the plan, in order,
/// and ends in success.
pub proof fn lemma_all_done_succeeds(c: ConfigView)
    ensures
        handed_out(initial(c), all_done(plan(c).len())) == plan(c),
        run(initial(c), all_done(plan(c).len())).status is Succeeded,
{
    lemma_done_prefix(c, plan(c).len());
    assert(plan(c).take(plan(c).len() as int) =~= plan(c));
}

/// When action `k` of the plan is the first that does not complete, the run
/// fails at that action's step, with the kind of failure that the action and
/// the report give, and hands out nothing after it, whatever is reported
/// later.
pub proof fn lemma_first_failure_ends_run(
    c: ConfigView,
    k: nat,
    e: EventView,
    later: Seq<EventView>,
)
    requires
        k < plan(c).len(),
        !(e is Done),
    ensures
        ({
            let events = all_done(k).push(e) + later;
            &&& run(initial(c), events).status matches StatusView::Failed(f) && f.step == step_of(
                k as int,
            ) && f.action == plan(c)[k as int] && f.kind == error_kind(
                plan(c)[k as int],
                step_of(k as int),
                e is TimedOut,
            )
            &&& handed_out(initial(c), events) == plan(c).take(k as int + 1)
        }),
{
    let one = seq![e];
    let first = all_done(k).push(e);
    assert(first =~= all_done(k) + one);
    lemma_done_prefix(c, k);
    lemma_run_append(initial(c), all_done(k), one);
    lemma_handed_out_append(initial(c), all_done(k), one);
    let s = after_done(c, k);
    lemma_run_one(s, e);
    let t = run(initial(c), first);
    assert(pending(t) is None);
    lemma_run_append(initial(c), first, later);
    lemma_handed_out_append(initial(c), first, later);
    lemma_ended_run_stays(t, later);
    assert(plan(c).take(k as int + 1) =~= plan(c).take(k as int) + seq![plan(c)[k as int]]);
    assert(handed_out(initial(c), first) + Seq::<ActionView>::empty() =~= handed_out(
        initial(c),
        first,
    ));
}

/// When the gateway page cannot be reached, so that an action of the
/// navigation step fails, the run fails at that step, as a navigation error
/// unless the action timed out, and no action of a later step is handed out.
pub proof fn lemma_unreachable_gateway(c: ConfigView, k: nat, e: EventView, later: Seq<EventView>)
    requires
        1 <= k <= 3,
        !(e is Done),
    ensures
        ({
            let events = all_done(k).push(e) + later;
            let handed = handed_out(initial(c), events);
            &&& run(initial(c), events).status matches StatusView::Failed(f) && f.step
                == Step::Navigate && (e is Failed ==> f.kind == ErrorKind::Navigation)
            &&& forall|i: int|
                0 <= i < handed.len() ==> #[trigger] step_of(i) == Step::Launch || step_of(i)
                    == Step::Navigate
        }),
{
    lemma_first_failure_ends_run(c, k, e, later);
}

/// When the username field never appears, the run fails at its third step
/// with an element-not-found error on that field's selector, and the password
/// field is never asked for.
pub proof fn lemma_missing_username_field(c: ConfigView, d: Seq<char>, later: Seq<EventView>)
    ensures
        ({
            let events = all_done(4).push(EventView::TimedOut(d)) + later;
            let handed = handed_out(initial(c), events);
            &&& run(initial(c), events).status matches StatusView::Failed(f) && f.step.spec_number()
                == 3 && f.kind == ErrorKind::ElementNotFound && f.action == ActionView::ClickElement(
                username_selector(),
            )
            &&& forall|i: int|
                0 <= i < handed.len() ==> #[trigger] handed[i] != ActionView::ClickElement(
                    password_selector(),
                )
        }),
{
    lemma_first_failure_ends_run(c, 4, EventView::TimedOut(d), later);
    reveal_strlit("#loginform-username");
    reveal_strlit("#loginform-password");
    assert(username_selector()[11] != password_selector()[11]);
    assert(username_selector() != password_selector());
}

/// When the navigation that the login causes never completes, the run fails
/// at its fifth step with a timeout.
pub proof fn lemma_login_never_navigates(c: ConfigView, d: Seq<char>, later: Seq<EventView>)
    ensures
        run(initial(c), all_done(10).push(EventView::TimedOut(d)) + later).status matches StatusView::Failed(f)
            && f.step.spec_number() == 5 && f.kind == ErrorKind::Timeout,
{
    lemma_first_failure_ends_run(c, 10, EventView::TimedOut(d), later);
}

} // verus!
