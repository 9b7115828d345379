//! The lookups of one resolver as they interleave: a model of who has the
//! state cell when, and the laws that hold of every interleaving.
//!
//! A resolver is shared by giving each lookup exclusive access to it for the
//! length of its `resolve`: in Rust that is the `&mut` that `resolve` takes,
//! however the caller comes by it. A lookup thus goes through these steps.
//! It waits for the access and is given it. It runs `resolve`, which looks at
//! the state cell and builds the engine if there is none; what comes back
//! borrows nothing from the resolver, so the access ends there. Then its
//! query is out, and at last answered. The steps of different lookups come in
//! any order that gives the access to one lookup at a time.
//!
//! The state cell changes in the model by the same functions by which
//! `resolve` states its effect.

use crate::resolver::after_resolve;
use crate::resolver::must_construct;
use crate::resolver::resolver_after;
use crate::resolver::InitError;
use crate::resolver::State;
use std::sync::Arc;
use vstd::prelude::*;

verus! {

/// How far one lookup has come.
pub enum Phase<R> {
    /// It waits for exclusive access to the state cell.
    Waiting,
    /// It has exclusive access: it is in `resolve`.
    Exclusive,
    /// It has given the access up and its query is out, to this engine.
    Querying(Arc<R>),
    /// Its query, to this engine, has been answered.
    Answered(Arc<R>),
    /// It got no engine, or its caller gave it up.
    Dropped,
}

/// A resolver and the lookups that share it.
pub struct Lookups<R> {
    /// The state cell.
    pub state: State<R>,
    /// The lookup that has exclusive access to the state cell, if one has.
    pub holder: Option<int>,
    /// The phase of each lookup.
    pub phases: Seq<Phase<R>>,
    /// How often the construction routine has run.
    pub attempts: nat,
    /// How often it has run and failed.
    pub failures: nat,
}

/// One step of one lookup.
pub enum Event<R, E, X> {
    /// The lookup is given exclusive access.
    Acquire { call: int },
    /// The lookup goes through `resolve` and gives the access up. `built` is
    /// what building an engine gives if this `resolve` has to build one.
    Resolve { call: int, built: Result<Arc<R>, InitError<E, X>> },
    /// The query of the lookup is answered.
    Answer { call: int },
    /// The caller gives the lookup up, while it waits or while its query is
    /// out.
    Abandon { call: int },
}

/// The engine that a lookup in this phase has.
pub open spec fn engine_of<R>(phase: Phase<R>) -> Option<Arc<R>> {
    match phase {
        Phase::Querying(resolver) => Some(resolver),
        Phase::Answered(resolver) => Some(resolver),
        _ => None,
    }
}

/// The engine in what building gave, if it gave one.
pub open spec fn engine_in<R, E, X>(built: Result<Arc<R>, InitError<E, X>>) -> Option<Arc<R>> {
    match built {
        Ok(resolver) => Some(resolver),
        Err(_) => None,
    }
}

/// A fresh resolver with `calls` lookups, all of them waiting.
pub open spec fn initial<R>(calls: nat) -> Lookups<R> {
    Lookups {
        state: State::Init,
        holder: None,
        phases: Seq::new(calls, |i: int| Phase::Waiting),
        attempts: 0,
        failures: 0,
    }
}

/// Whether the step can be taken. Exclusive access is given only while
/// nobody has it, and only its holder goes through `resolve`.
pub open spec fn enabled<R, E, X>(w: Lookups<R>, event: Event<R, E, X>) -> bool {
    match event {
        Event::Acquire { call } => {
            &&& 0 <= call < w.phases.len()
            &&& w.phases[call] is Waiting
            &&& w.holder is None
        },
        Event::Resolve { call, built } => {
            &&& 0 <= call < w.phases.len()
            &&& w.phases[call] is Exclusive
            &&& w.holder == Some(call)
        },
        Event::Answer { call } => {
            &&& 0 <= call < w.phases.len()
            &&& w.phases[call] is Querying
        },
        Event::Abandon { call } => {
            &&& 0 <= call < w.phases.len()
            &&& (w.phases[call] is Waiting || w.phases[call] is Querying)
        },
    }
}

/// What the step leaves. The state cell changes as `resolve` changes it,
/// and a lookup that comes out of `resolve` has given its access up.
pub open spec fn step<R, E, X>(w: Lookups<R>, event: Event<R, E, X>) -> Lookups<R> {
    match event {
        Event::Acquire { call } => Lookups {
            holder: Some(call),
            phases: w.phases.update(call, Phase::Exclusive),
            ..w
        },
        Event::Resolve { call, built } => Lookups {
            state: after_resolve(w.state, engine_in(built)),
            holder: None,
            phases: w.phases.update(
                call,
                match resolver_after(w.state, engine_in(built)) {
                    Some(resolver) => Phase::Querying(resolver),
                    None => Phase::Dropped,
                },
            ),
            attempts: if must_construct(w.state) && !(built matches Err(InitError::Config(_))) {
                w.attempts + 1
            } else {
                w.attempts
            },
            failures: if must_construct(w.state) && built matches Err(InitError::Construct(_)) {
                w.failures + 1
            } else {
                w.failures
            },
        },
        Event::Answer { call } => Lookups {
            phases: w.phases.update(
                call,
                match w.phases[call] {
                    Phase::Querying(resolver) => Phase::Answered(resolver),
                    _ => Phase::Dropped,
                },
            ),
            ..w
        },
        Event::Abandon { call } => Lookups { phases: w.phases.update(call, Phase::Dropped), ..w },
    }
}

/// Whether the steps can be taken one after the other, from `w` on.
pub open spec fn admissible<R, E, X>(w: Lookups<R>, events: Seq<Event<R, E, X>>) -> bool
    decreases events.len(),
{
    events.len() == 0 || (admissible(w, events.drop_last()) && enabled(
        run(w, events.drop_last()),
        events.last(),
    ))
}

/// What the steps leave, taken one after the other from `w` on.
pub open spec fn run<R, E, X>(w: Lookups<R>, events: Seq<Event<R, E, X>>) -> Lookups<R>
    decreases events.len(),
{
    if events.len() == 0 {
        w
    } else {
        step(run(w, events.drop_last()), events.last())
    }
}

/// What holds of a resolver and its lookups at every moment: the holder of
/// the exclusive access is the one lookup that is in `resolve`; a lookup
/// that has an engine has the one in the state cell; and the construction
/// routine has succeeded once if the state cell is ready, never if not.
pub open spec fn consistent<R>(w: Lookups<R>) -> bool {
    &&& w.holder matches Some(call) ==> 0 <= call < w.phases.len() && w.phases[call] is Exclusive
    &&& forall|i: int|
        0 <= i < w.phases.len() && #[trigger] w.phases[i] is Exclusive ==> w.holder == Some(i)
    &&& forall|i: int|
        0 <= i < w.phases.len() ==> (engine_of(#[trigger] w.phases[i]) matches Some(resolver)
            ==> w.state == State::Ready(resolver))
    &&& w.attempts == w.failures + if w.state is Ready {
        1nat
    } else {
        0nat
    }
}

/// Whether building an engine never fails in these steps.
pub open spec fn construction_succeeds<R, E, X>(events: Seq<Event<R, E, X>>) -> bool {
    forall|k: int|
        0 <= k < events.len() ==> (#[trigger] events[k] matches Event::Resolve { built, .. }
            ==> built is Ok)
}

/// Whether a lookup goes through `resolve` in these steps.
pub open spec fn some_resolve<R, E, X>(events: Seq<Event<R, E, X>>) -> bool {
    exists|k: int| 0 <= k < events.len() && #[trigger] events[k] is Resolve
}

/// The lookup that takes the step.
pub open spec fn call_of<R, E, X>(event: Event<R, E, X>) -> int {
    match event {
        Event::Acquire { call } => call,
        Event::Resolve { call, .. } => call,
        Event::Answer { call } => call,
        Event::Abandon { call } => call,
    }
}

/// A step that can be taken keeps a resolver and its lookups consistent.
pub proof fn law_step_keeps_consistent<R, E, X>(w: Lookups<R>, event: Event<R, E, X>)
    requires
        consistent(w),
        enabled(w, event),
    ensures
        consistent(step(w, event)),
{
    let after = step(w, event);
    let call = call_of(event);
    assert forall|i: int|
        0 <= i < after.phases.len() && #[trigger] after.phases[i] is Exclusive implies after.holder
        == Some(i) by {
        if i != call {
            assert(w.phases[i] is Exclusive);
        }
    }
    assert forall|i: int| 0 <= i < after.phases.len() implies (engine_of(
        #[trigger] after.phases[i],
    ) matches Some(resolver) ==> after.state == State::Ready(resolver)) by {
        if i != call {
            assert(after.phases[i] == w.phases[i]);
        } else if event is Answer {
            assert(engine_of(after.phases[i]) == engine_of(w.phases[i]));
        }
    }
}

/// Steps that can be taken one after the other keep a resolver and its
/// lookups consistent, however the lookups interleave.
pub proof fn law_run_keeps_consistent<R, E, X>(w: Lookups<R>, events: Seq<Event<R, E, X>>)
    requires
        consistent(w),
        admissible(w, events),
    ensures
        consistent(run(w, events)),
    decreases events.len(),
{
    if events.len() > 0 {
        law_run_keeps_consistent(w, events.drop_last());
        law_step_keeps_consistent(run(w, events.drop_last()), events.last());
    }
}

/// Taking one more step: the steps before it, then that one.
proof fn lemma_one_more_step<R, E, X>(
    w: Lookups<R>,
    events: Seq<Event<R, E, X>>,
    event: Event<R, E, X>,
)
    ensures
        run(w, events.push(event)) == step(run(w, events), event),
        admissible(w, events.push(event)) == (admissible(w, events) && enabled(
            run(w, events),
            event,
        )),
{
    assert(events.push(event).drop_last() =~= events);
}

/// Where building never fails, no failure is counted, and the state cell
/// is ready as soon as one lookup has gone through `resolve`.
proof fn lemma_first_resolve_builds<R, E, X>(calls: nat, events: Seq<Event<R, E, X>>)
    requires
        admissible(initial::<R>(calls), events),
        construction_succeeds(events),
    ensures
        run(initial::<R>(calls), events).failures == 0,
        some_resolve(events) ==> run(initial::<R>(calls), events).state is Ready,
    decreases events.len(),
{
    if events.len() > 0 {
        let prefix = events.drop_last();
        let last = events.last();
        assert(construction_succeeds(prefix)) by {
            assert forall|k: int| 0 <= k < prefix.len() implies (#[trigger] prefix[k] matches Event::Resolve {
                built,
                ..
            } ==> built is Ok) by {
                assert(prefix[k] == events[k]);
            }
        }
        lemma_first_resolve_builds(calls, prefix);
        assert(last == events[events.len() - 1]);
        if some_resolve(events) {
            let k = choose|k: int| 0 <= k < events.len() && #[trigger] events[k] is Resolve;
            if k < events.len() - 1 {
                assert(prefix[k] == events[k]);
                assert(some_resolve(prefix));
            }
        }
    }
}

/// However the lookups of a resolver interleave, the construction routine
/// has run once for each time it failed and once more if the resolver is
/// ready, so that at most one run has succeeded; and all lookups that have
/// an engine have the same one: the one in the state cell.
pub proof fn law_one_engine<R, E, X>(calls: nat, events: Seq<Event<R, E, X>>)
    requires
        admissible(initial::<R>(calls), events),
    ensures
        ({
            let w = run(initial::<R>(calls), events);
            &&& w.attempts == w.failures + if w.state is Ready {
                1nat
            } else {
                0nat
            }
            &&& forall|i: int|
                0 <= i < w.phases.len() ==> (engine_of(#[trigger] w.phases[i]) matches Some(
                    resolver,
                ) ==> w.state == State::Ready(resolver))
            &&& forall|i: int, j: int|
                0 <= i < w.phases.len() && 0 <= j < w.phases.len() && engine_of(
                    #[trigger] w.phases[i],
                ) is Some && engine_of(#[trigger] w.phases[j]) is Some ==> engine_of(w.phases[i])
                    == engine_of(w.phases[j])
        }),
{
    law_run_keeps_consistent(initial::<R>(calls), events);
}

/// However the first lookups of a resolver interleave, where building an
/// engine does not fail, the construction routine runs at most once, and
/// exactly once as soon as one lookup has gone through `resolve`.
pub proof fn law_engine_is_built_once<R, E, X>(calls: nat, events: Seq<Event<R, E, X>>)
    requires
        admissible(initial::<R>(calls), events),
        construction_succeeds(events),
    ensures
        run(initial::<R>(calls), events).attempts <= 1,
        some_resolve(events) ==> run(initial::<R>(calls), events).attempts == 1,
{
    law_run_keeps_consistent(initial::<R>(calls), events);
    lemma_first_resolve_builds(calls, events);
}

/// A lookup whose query is out does not have the exclusive access, and
/// neither does one that waits: whoever has it is in `resolve`.
pub proof fn law_query_holds_no_access<R>(w: Lookups<R>)
    requires
        consistent(w),
    ensures
        forall|i: int|
            0 <= i < w.phases.len() && !(#[trigger] w.phases[i] is Exclusive) ==> w.holder
                != Some(i),
{
}

/// Queries that are out hold no lookup up. Where the resolver is ready and
/// no lookup is in `resolve`, a waiting lookup can take all its steps, one
/// after the other, while every other lookup stays where it is, for however
/// long its query is out: it gets the shared engine and its answer, nothing
/// is built, and the others are as they were.
pub proof fn law_ready_lookup_is_not_held_up<R, E, X>(
    w: Lookups<R>,
    call: int,
    built: Result<Arc<R>, InitError<E, X>>,
)
    requires
        consistent(w),
        w.state is Ready,
        0 <= call < w.phases.len(),
        w.phases[call] is Waiting,
        forall|i: int| 0 <= i < w.phases.len() ==> !(#[trigger] w.phases[i] is Exclusive),
    ensures
        ({
            let events = seq![
                Event::Acquire { call },
                Event::Resolve { call, built },
                Event::Answer { call },
            ];
            let after = run(w, events);
            &&& admissible(w, events)
            &&& after.phases[call] matches Phase::Answered(resolver) && w.state == State::Ready(
                resolver,
            )
            &&& forall|i: int|
                0 <= i < w.phases.len() && i != call ==> #[trigger] after.phases[i] == w.phases[i]
            &&& after.state == w.state
            &&& after.attempts == w.attempts
            &&& after.holder is None
        }),
{
    let acquire = Event::<R, E, X>::Acquire { call };
    let resolve = Event::<R, E, X>::Resolve { call, built };
    let answer = Event::<R, E, X>::Answer { call };
    let none = Seq::<Event<R, E, X>>::empty();
    assert(seq![acquire, resolve, answer] =~= none.push(acquire).push(resolve).push(answer));
    lemma_one_more_step(w, none, acquire);
    lemma_one_more_step(w, none.push(acquire), resolve);
    lemma_one_more_step(w, none.push(acquire).push(resolve), answer);
    assert(w.holder is None) by {
        if w.holder is Some {
            assert(w.phases[w.holder.unwrap()] is Exclusive);
        }
    }
}

/// A lookup that is given up while it waits leaves no trace but its own
/// end: it never had the exclusive access, and the state cell, the holder
/// and the other lookups are as they were.
pub proof fn law_abandoned_wait_changes_nothing<R, E, X>(w: Lookups<R>, call: int)
    requires
        consistent(w),
        0 <= call < w.phases.len(),
        w.phases[call] is Waiting,
    ensures
        ({
            let event = Event::<R, E, X>::Abandon { call };
            let after = step(w, event);
            &&& enabled(w, event)
            &&& w.holder != Some(call)
            &&& after.state == w.state
            &&& after.holder == w.holder
            &&& after.attempts == w.attempts
            &&& forall|i: int|
                0 <= i < w.phases.len() && i != call ==> #[trigger] after.phases[i] == w.phases[i]
        }),
{
}

/// A construction that fails leaves the resolver without an engine, and
/// the lookup without one; the next lookup that goes through `resolve` runs
/// the construction routine again.
pub proof fn law_failed_construction_is_retried<R, E, X>(w: Lookups<R>, call: int, error: X)
    requires
        w.state is Init,
        enabled(w, Event::<R, E, X>::Resolve { call, built: Err(InitError::Construct(error)) }),
    ensures
        ({
            let after = step(
                w,
                Event::<R, E, X>::Resolve { call, built: Err(InitError::Construct(error)) },
            );
            &&& after.state is Init
            &&& must_construct(after.state)
            &&& after.phases[call] is Dropped
            &&& after.attempts == w.attempts + 1
            &&& after.failures == w.failures + 1
            &&& after.holder is None
        }),
{
}

} // verus!
