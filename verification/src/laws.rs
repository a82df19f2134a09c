use vstd::prelude::*;
use crate::coordinator::SessionState;
use crate::events::Event;
use crate::message_loop::LoopView;
use crate::message_loop::dispatch_all_step;
use crate::message_loop::dispatch_step;
use crate::message_loop::init_view;
use crate::message_loop::inject_step;
use crate::message_loop::subscribe_ok_step;
use crate::message_loop::unsubscribe_step;

verus! {

/// The loop view after a sequence of subscriptions whose installations
/// succeed, applied oldest first; `logs0[k]` is what the `k`-th subscribed
/// consumer had observed before joining.
pub open spec fn apply_subscribes(v: LoopView, logs0: Seq<Seq<Event>>) -> LoopView
    decreases logs0.len(),
{
    if logs0.len() == 0 {
        v
    } else {
        apply_subscribes(subscribe_ok_step(v, logs0[0]), logs0.drop_first())
    }
}

/// The loop view after a sequence of handle releases, applied oldest first.
pub open spec fn apply_unsubscribes(v: LoopView, order: Seq<usize>) -> LoopView
    decreases order.len(),
{
    if order.len() == 0 {
        v
    } else {
        apply_unsubscribes(unsubscribe_step(v, order[0]), order.drop_first())
    }
}

/// Once an episode is live, further subscriptions keep it live and create
/// no thread: the episode's thread counts stay exactly one each.
proof fn lemma_apply_subscribes_keeps_episode(v: LoopView, logs0: Seq<Seq<Event>>)
    requires
        v.state == SessionState::Active,
        v.captures_spawned == 1,
        v.dispatchers_spawned == 1,
        v.capture_alive,
        v.dispatcher_alive,
    ensures
        ({
            let v2 = apply_subscribes(v, logs0);
            &&& v2.state == SessionState::Active
            &&& v2.captures_spawned == 1
            &&& v2.dispatchers_spawned == 1
            &&& v2.capture_alive
            &&& v2.dispatcher_alive
        }),
    decreases logs0.len(),
{
    if logs0.len() > 0 {
        lemma_apply_subscribes_keeps_episode(subscribe_ok_step(v, logs0[0]), logs0.drop_first());
    }
}

/// For every sequence of subscriptions racing on an idle loop, exactly one
/// capture thread and one dispatcher thread are created, no matter how many
/// callers raced to be first: the first call starts the episode, every
/// later call joins it and creates nothing.
pub proof fn lemma_racing_subscribes_spawn_one_thread_each(logs0: Seq<Seq<Event>>)
    requires
        logs0.len() >= 1,
    ensures
        ({
            let v2 = apply_subscribes(init_view(), logs0);
            &&& v2.state == SessionState::Active
            &&& v2.captures_spawned == 1
            &&& v2.dispatchers_spawned == 1
        }),
{
    let v1 = subscribe_ok_step(init_view(), logs0[0]);
    lemma_apply_subscribes_keeps_episode(v1, logs0.drop_first());
}

/// A single event injected while consumers are registered and the channel
/// is quiet is observed by every one of them exactly once -- each
/// observation sequence grows by exactly that event -- and by no fewer:
/// delivery reaches the whole registry.
pub proof fn lemma_single_event_reaches_every_consumer(v: LoopView, e: Event)
    requires
        v.wf(),
        v.state == SessionState::Active,
        v.pending.len() == 0,
    ensures
        ({
            let v2 = dispatch_step(inject_step(v, e));
            &&& v2.ids == v.ids
            &&& v2.logs.len() == v.logs.len()
            &&& (forall|i: int| 0 <= i < v.logs.len() ==> v2.logs[i] == v.logs[i].push(e))
            &&& v2.pending.len() == 0
        }),
{
    assert(inject_step(v, e).pending =~= seq![e]);
    assert(dispatch_step(inject_step(v, e)).pending =~= Seq::<Event>::empty());
}

/// Event delivery order matches production order: when `e1` is produced
/// before `e2`, draining the channel makes every consumer observe `e1`
/// before `e2`, right after everything it had observed before.
pub proof fn lemma_delivery_in_production_order(v: LoopView, e1: Event, e2: Event)
    requires
        v.wf(),
        v.state == SessionState::Active,
        v.pending.len() == 0,
    ensures
        ({
            let v2 = dispatch_all_step(inject_step(inject_step(v, e1), e2));
            &&& v2.logs.len() == v.logs.len()
            &&& (forall|i: int|
                0 <= i < v.logs.len() ==> v2.logs[i] == v.logs[i] + seq![e1, e2])
            &&& v2.pending.len() == 0
        }),
{
    assert(inject_step(inject_step(v, e1), e2).pending =~= seq![e1, e2]);
}


/// A consumer subscribed while the session is already active receives no
/// event dispatched before its insertion completed -- right after joining it
/// has observed only what it brought along -- and misses none dispatched
/// after it: the next dispatch reaches it exactly like every consumer that
/// was there before.
pub proof fn lemma_late_subscriber_sees_only_later_events(v: LoopView, log0: Seq<Event>, e: Event)
    requires
        v.wf(),
        v.state == SessionState::Active,
        v.pending.len() == 0,
    ensures
        ({
            let joined = subscribe_ok_step(v, log0);
            let delivered = dispatch_step(inject_step(joined, e));
            &&& joined.logs.len() == v.logs.len() + 1
            &&& joined.logs.last() == log0
            &&& delivered.logs.last() == log0.push(e)
            &&& (forall|i: int|
                0 <= i < v.logs.len() ==> delivered.logs[i] == v.logs[i].push(e))
        }),
{
    let joined = subscribe_ok_step(v, log0);
    assert(inject_step(joined, e).pending =~= seq![e]);
}

/// Releasing all registered handles, in any order and interleaving, brings
/// the loop back to idle: both threads are gone, and any further
/// subscription starts a fresh episode with one new capture thread and one
/// new dispatcher thread.
pub proof fn lemma_releasing_all_handles_stops_the_loop(v: LoopView, order: Seq<usize>)
    requires
        v.wf(),
        v.state == SessionState::Active,
        v.ids.len() >= 1,
        order.to_multiset() == v.ids.to_multiset(),
    ensures
        ({
            let v2 = apply_unsubscribes(v, order);
            &&& v2.state == SessionState::Idle
            &&& !v2.capture_alive
            &&& !v2.dispatcher_alive
            &&& v2.captures_spawned == 0
            &&& v2.dispatchers_spawned == 0
            &&& (forall|log0: Seq<Event>| {
                let v3 = #[trigger] subscribe_ok_step(v2, log0);
                &&& v3.state == SessionState::Active
                &&& v3.captures_spawned == 1
                &&& v3.dispatchers_spawned == 1
            })
        }),
    decreases order.len(),
{
    order.to_multiset_ensures();
    v.ids.to_multiset_ensures();
    assert(order.len() >= 1 && order.len() == v.ids.len()) by {
        assert(order.to_multiset().len() == v.ids.to_multiset().len());
    }
    let id = order[0];
    assert(v.ids.contains(id)) by {
        assert(order.to_multiset().count(id) > 0) by {
            assert(order.contains(id));
        }
    }
    if v.ids.len() == 1 {
        assert(order.len() == 1);
        assert(apply_unsubscribes(v, order) == unsubscribe_step(v, id));
    } else {
        let i = v.ids.index_of(id);
        let v1 = unsubscribe_step(v, id);
        assert(v1.ids == v.ids.remove(i));
        assert(v1.ids.to_multiset() =~= order.drop_first().to_multiset()) by {
            assert(v.ids.remove(i).to_multiset() =~= v.ids.to_multiset().remove(v.ids[i]));
            assert(order.remove(0).to_multiset() =~= order.to_multiset().remove(id));
            assert(order.remove(0) =~= order.drop_first());
        }
        assert(v1.wf()) by {
            assert forall|a: int, b: int| 0 <= a < b < v1.ids.len() implies v1.ids[a]
                < v1.ids[b] by {
                v.ids.remove_ensures(i);
                assert(v1.ids.len() == v.ids.len() - 1);
            }
            assert forall|a: int| 0 <= a < v1.ids.len() implies v1.ids[a] < v1.next_id by {
                v.ids.remove_ensures(i);
            }
        }
        lemma_releasing_all_handles_stops_the_loop(v1, order.drop_first());
    }
}

} // verus!
