use vstd::prelude::*;
use crate::coordinator::Coordinator;
use crate::coordinator::SessionState;
use crate::error::WindowsError;
use crate::events::Event;
use crate::events::EventConsumer;
use crate::events::HandlerHandle;
use crate::registry::HandlerRegistry;
use crate::translate::raw_keyboard_event;
use crate::translate::raw_mouse_events;
use crate::translate::translate_raw_keyboard;
use crate::translate::translate_raw_mouse;
use crate::vk::vk_of_code;

verus! {

/// An error that can be produced when a capture episode is started.
#[derive(Clone, Debug)]
pub enum MessageLoopError {
    /// Only one capture episode can exist at any given time. This error is
    /// produced when an exclusive start is attempted even though the message
    /// loop is already active.
    AlreadyActive,
    /// The operating system refused to install a required hook. The attempt
    /// is fully undone before this error surfaces.
    OsError(WindowsError),
}

/// The abstract state of the whole capture subsystem, as one value: the
/// session state and the threads it owns, the registered subscriber ids,
/// what each registered consumer has observed, the captured events not yet
/// dispatched, and the next subscriber id to hand out.
///
/// Every operation of [`MessageLoop`] is specified as a transformation of
/// this view, and the subsystem's laws are stated and proved over it.
#[verifier::ext_equal]
pub ghost struct LoopView {
    /// The session state.
    pub state: SessionState,
    /// Whether the episode's capture thread exists.
    pub capture_alive: bool,
    /// Whether the episode's dispatcher thread exists.
    pub dispatcher_alive: bool,
    /// How many capture threads the current episode has created.
    pub captures_spawned: int,
    /// How many dispatcher threads the current episode has created.
    pub dispatchers_spawned: int,
    /// The registered subscriber ids, in insertion order.
    pub ids: Seq<usize>,
    /// The observation sequence of each registered consumer, in the same
    /// order as `ids`.
    pub logs: Seq<Seq<Event>>,
    /// The captured events that have not been dispatched yet, oldest first.
    pub pending: Seq<Event>,
    /// The next subscriber id to hand out; ids are never reused, not even
    /// across episodes.
    pub next_id: int,
}

impl LoopView {
    /// Well-formed: ids are strictly increasing and below the id counter,
    /// every id has an observation sequence, and the threads match the
    /// session state. Between calls the session is either `Idle` or
    /// `Active`; the other states only exist within one call.
    pub open spec fn wf(self) -> bool {
        &&& forall|i: int, j: int| 0 <= i < j < self.ids.len() ==> self.ids[i] < self.ids[j]
        &&& forall|i: int| 0 <= i < self.ids.len() ==> self.ids[i] < self.next_id
        &&& self.logs.len() == self.ids.len()
        &&& 0 <= self.next_id <= usize::MAX
        &&& match self.state {
            SessionState::Idle => {
                &&& self.ids.len() == 0
                &&& self.pending.len() == 0
                &&& !self.capture_alive
                &&& !self.dispatcher_alive
                &&& self.captures_spawned == 0
                &&& self.dispatchers_spawned == 0
            },
            SessionState::Active => {
                &&& self.capture_alive
                &&& self.dispatcher_alive
                &&& self.captures_spawned == 1
                &&& self.dispatchers_spawned == 1
            },
            _ => false,
        }
    }
}

/// The view of a message loop that has never been started.
pub open spec fn init_view() -> LoopView {
    LoopView {
        state: SessionState::Idle,
        capture_alive: false,
        dispatcher_alive: false,
        captures_spawned: 0,
        dispatchers_spawned: 0,
        ids: Seq::<usize>::empty(),
        logs: Seq::<Seq<Event>>::empty(),
        pending: Seq::<Event>::empty(),
        next_id: 0,
    }
}

/// One subscription whose hook installation (if one is needed) succeeds.
///
/// The first subscriber of an idle loop starts the episode: exactly one
/// capture thread and one dispatcher thread come into existence and the
/// consumer is registered in a fresh registry. A subscriber of an active
/// loop joins it: its consumer is registered and no thread is created.
/// `log0` is what the subscribed consumer has observed before joining.
pub open spec fn subscribe_ok_step(v: LoopView, log0: Seq<Event>) -> LoopView {
    if v.state == SessionState::Idle {
        LoopView {
            state: SessionState::Active,
            capture_alive: true,
            dispatcher_alive: true,
            captures_spawned: 1,
            dispatchers_spawned: 1,
            ids: v.ids.push(v.next_id as usize),
            logs: v.logs.push(log0),
            next_id: v.next_id + 1,
            ..v
        }
    } else if v.state == SessionState::Active {
        LoopView {
            ids: v.ids.push(v.next_id as usize),
            logs: v.logs.push(log0),
            next_id: v.next_id + 1,
            ..v
        }
    } else {
        v
    }
}

/// One release of the handle `id`. Removing a registered id removes exactly
/// its consumer; removing the last one tears the whole episode down:
/// both threads exit and the loop is idle again, ready for a fresh episode.
/// Releasing an id that is not registered changes nothing.
pub open spec fn unsubscribe_step(v: LoopView, id: usize) -> LoopView {
    if v.state == SessionState::Active && v.ids.contains(id) {
        if v.ids.len() == 1 {
            LoopView {
                state: SessionState::Idle,
                capture_alive: false,
                dispatcher_alive: false,
                captures_spawned: 0,
                dispatchers_spawned: 0,
                ids: Seq::<usize>::empty(),
                logs: Seq::<Seq<Event>>::empty(),
                pending: Seq::<Event>::empty(),
                next_id: v.next_id,
            }
        } else {
            let i = v.ids.index_of(id);
            LoopView { ids: v.ids.remove(i), logs: v.logs.remove(i), ..v }
        }
    } else {
        v
    }
}

/// An exclusive start whose hook installation succeeds: the episode begins
/// with an empty registry and its two threads.
pub open spec fn start_ok_step(v: LoopView) -> LoopView {
    if v.state == SessionState::Idle {
        LoopView {
            state: SessionState::Active,
            capture_alive: true,
            dispatcher_alive: true,
            captures_spawned: 1,
            dispatchers_spawned: 1,
            ..v
        }
    } else {
        v
    }
}

/// A forced stop: whatever the episode holds is torn down and the loop is
/// idle again. Stopping an idle loop changes nothing.
pub open spec fn stop_step(v: LoopView) -> LoopView {
    if v.state == SessionState::Idle {
        v
    } else {
        LoopView {
            state: SessionState::Idle,
            capture_alive: false,
            dispatcher_alive: false,
            captures_spawned: 0,
            dispatchers_spawned: 0,
            ids: Seq::<usize>::empty(),
            logs: Seq::<Seq<Event>>::empty(),
            pending: Seq::<Event>::empty(),
            next_id: v.next_id,
        }
    }
}

/// The capture side produced one event: it joins the back of the pending
/// queue.
pub open spec fn inject_step(v: LoopView, e: Event) -> LoopView {
    LoopView { pending: v.pending.push(e), ..v }
}

/// The capture side produced a batch of events, in order.
pub open spec fn inject_all_step(v: LoopView, es: Seq<Event>) -> LoopView {
    LoopView { pending: v.pending + es, ..v }
}

/// The dispatcher drained one event: the oldest pending event leaves the
/// queue and is appended to the observation sequence of every registered
/// consumer, exactly once each.
pub open spec fn dispatch_step(v: LoopView) -> LoopView {
    if v.pending.len() == 0 {
        v
    } else {
        LoopView {
            pending: v.pending.drop_first(),
            logs: Seq::new(v.logs.len(), |i: int| v.logs[i].push(v.pending[0])),
            ..v
        }
    }
}

/// The dispatcher drained the whole queue: every registered consumer
/// observes every pending event, in production order.
pub open spec fn dispatch_all_step(v: LoopView) -> LoopView {
    LoopView {
        pending: Seq::<Event>::empty(),
        logs: Seq::new(v.logs.len(), |i: int| v.logs[i] + v.pending),
        ..v
    }
}

/// The capture and dispatch subsystem as one explicit service object: the
/// lifecycle coordinator, the registry of event consumers, the channel of
/// captured events, and the monotone subscriber id counter.
///
/// The process-wide global state (one coordinator and one registry per
/// process) is modelled as this single value with controlled construction,
/// so the design stays testable; making it the process-wide singleton is
/// the caller's concern.
pub struct MessageLoop<H> {
    coord: Coordinator,
    registry: HandlerRegistry<H>,
    pending: Vec<Event>,
    next_id: usize,
}

impl<H: EventConsumer> View for MessageLoop<H> {
    type V = LoopView;

    closed spec fn view(&self) -> LoopView {
        LoopView {
            state: self.coord.state,
            capture_alive: self.coord.capture_alive,
            dispatcher_alive: self.coord.dispatcher_alive,
            captures_spawned: self.coord.captures_spawned as int,
            dispatchers_spawned: self.coord.dispatchers_spawned as int,
            ids: self.registry.ids_seq(),
            logs: self.registry.logs(),
            pending: self.pending@,
            next_id: self.next_id as int,
        }
    }
}

impl<H: EventConsumer> MessageLoop<H> {
    /// Well-formed: the coordinator, the registry and the view they present
    /// are all consistent.
    pub closed spec fn inv(&self) -> bool {
        &&& self.coord.wf()
        &&& self.registry.wf()
        &&& self@.wf()
    }

    /// A well-formed message loop presents a well-formed view.
    pub proof fn lemma_inv_wf(&self)
        requires
            self.inv(),
        ensures
            self@.wf(),
    {
    }

    /// Creates a message loop that has never been started.
    pub fn new() -> (r: Self)
        ensures
            r.inv(),
            r@ == init_view(),
    {
        let r = MessageLoop {
            coord: Coordinator::new(),
            registry: HandlerRegistry::new(),
            pending: Vec::new(),
            next_id: 0,
        };
        proof {
            assert(r@ =~= init_view());
        }
        r
    }

    /// Checks if the message loop is currently active. While it is, an
    /// exclusive [`MessageLoop::start`] always produces an error.
    pub fn is_active(&self) -> (r: bool)
        ensures
            r == (self@.state != SessionState::Idle),
    {
        self.coord.is_active()
    }

    /// Subscribes a consumer. If the loop is idle this call is the one that
    /// begins the episode, and `install` is the outcome the capture thread
    /// reported for the installation of the two hooks: on success the
    /// consumer is registered, with its id, in a freshly created registry;
    /// on failure everything is torn back down before the error surfaces,
    /// and the loop is idle the moment this call returns, with no
    /// dispatcher in existence. If the loop is already active the consumer
    /// joins the running episode under the coordinator's mutation window,
    /// no installation is attempted, and no thread is created.
    pub fn subscribe_handler(&mut self, handler: H, install: Result<(), WindowsError>) -> (r:
        Result<HandlerHandle, MessageLoopError>)
        requires
            old(self).inv(),
            old(self)@.next_id < usize::MAX,
        ensures
            final(self).inv(),
            old(self)@.state == SessionState::Idle ==> {
                &&& install is Ok ==> {
                    &&& final(self)@ == subscribe_ok_step(old(self)@, handler.observed())
                    &&& r == Ok::<HandlerHandle, MessageLoopError>(
                        HandlerHandle(old(self)@.next_id as usize),
                    )
                }
                &&& install matches Err(e) ==> {
                    &&& final(self)@ == old(self)@
                    &&& final(self)@.state == SessionState::Idle
                    &&& !final(self)@.capture_alive
                    &&& !final(self)@.dispatcher_alive
                    &&& r == Err::<HandlerHandle, MessageLoopError>(MessageLoopError::OsError(e))
                }
            },
            old(self)@.state == SessionState::Active ==> {
                &&& final(self)@ == subscribe_ok_step(old(self)@, handler.observed())
                &&& r == Ok::<HandlerHandle, MessageLoopError>(
                    HandlerHandle(old(self)@.next_id as usize),
                )
            },
            old(self)@.state != SessionState::Idle && old(self)@.state != SessionState::Active
                ==> {
                &&& final(self)@ == old(self)@
                &&& r == Err::<HandlerHandle, MessageLoopError>(MessageLoopError::AlreadyActive)
            },
    {
        let st = self.coord.state;
        if st == SessionState::Idle {
            let _outcome = self.coord.try_begin_episode();
            match install {
                Ok(()) => {
                    self.coord.advance_to_active();
                    let id = self.next_id;
                    self.next_id = id + 1;
                    self.coord.begin_unsubscribe();
                    self.registry.insert(id, handler);
                    self.coord.end_unsubscribe();
                    proof {
                        assert(final(self)@ =~= subscribe_ok_step(
                            old(self)@,
                            handler.observed(),
                        ));
                    }
                    Ok(HandlerHandle(id))
                },
                Err(e) => {
                    self.coord.abort_start();
                    proof {
                        assert(final(self)@ =~= old(self)@);
                    }
                    Err(MessageLoopError::OsError(e))
                },
            }
        } else if st == SessionState::Active {
            let id = self.next_id;
            self.next_id = id + 1;
            self.coord.begin_unsubscribe();
            self.registry.insert(id, handler);
            self.coord.end_unsubscribe();
            proof {
                assert(final(self)@ =~= subscribe_ok_step(old(self)@, handler.observed()));
            }
            Ok(HandlerHandle(id))
        } else {
            Err(MessageLoopError::AlreadyActive)
        }
    }

    /// Unsubscribes the consumer registered under `handle` and hands it
    /// back, with everything it observed. Releasing the last handle drives
    /// the shutdown and blocks the caller until the dispatcher and the
    /// capture thread have fully exited and the loop is idle again;
    /// releasing any other handle removes only its own entry and returns
    /// immediately. Releasing a handle that is not registered (in
    /// particular, releasing one twice) is rejected and changes nothing.
    pub fn unsubscribe_handler(&mut self, handle: HandlerHandle) -> (r: Option<H>)
        requires
            old(self).inv(),
        ensures
            final(self).inv(),
            final(self)@ == unsubscribe_step(old(self)@, handle.0),
            (r is Some) == (old(self)@.state == SessionState::Active
                && old(self)@.ids.contains(handle.0)),
            old(self)@.state == SessionState::Active && old(self)@.ids.contains(handle.0)
                ==> (r matches Some(consumer) && consumer.observed() == old(self)@.logs[old(
                self,
            )@.ids.index_of(handle.0)]),
    {
        let st = self.coord.state;
        if st != SessionState::Active {
            return None;
        }
        self.coord.begin_unsubscribe();
        let removed = self.registry.remove(handle.0);
        match removed {
            None => {
                self.coord.end_unsubscribe();
                proof {
                    assert(final(self)@ =~= old(self)@);
                }
                None
            },
            Some(consumer) => {
                if self.registry.is_empty() {
                    self.coord.request_shutdown();
                    self.coord.acknowledge_shutdown();
                    self.coord.finish_shutdown();
                    self.pending.clear();
                    proof {
                        assert(final(self)@ =~= unsubscribe_step(old(self)@, handle.0));
                    }
                } else {
                    self.coord.end_unsubscribe();
                    proof {
                        assert(final(self)@ =~= unsubscribe_step(old(self)@, handle.0));
                    }
                }
                Some(consumer)
            },
        }
    }

    /// The number of registered consumers.
    pub fn subscriber_count(&self) -> (r: usize)
        requires
            self.inv(),
        ensures
            r == self@.ids.len(),
    {
        self.registry.len()
    }
}

impl<H: EventConsumer> MessageLoop<H> {
    /// Starts an exclusive capture episode with no consumers registered;
    /// `install` is the outcome the capture thread reported for the hook
    /// installation. This fails with [`MessageLoopError::AlreadyActive`]
    /// whenever the loop is not idle: only one capture episode can exist at
    /// any given time, and an exclusive start never joins a running one. On
    /// installation failure everything is torn back down before the error
    /// surfaces: the loop is idle and no dispatcher exists the moment this
    /// call returns.
    pub fn start(&mut self, install: Result<(), WindowsError>) -> (r: Result<
        (),
        MessageLoopError,
    >)
        requires
            old(self).inv(),
        ensures
            final(self).inv(),
            old(self)@.state != SessionState::Idle ==> {
                &&& final(self)@ == old(self)@
                &&& r == Err::<(), MessageLoopError>(MessageLoopError::AlreadyActive)
            },
            old(self)@.state == SessionState::Idle ==> {
                &&& install is Ok ==> {
                    &&& final(self)@ == start_ok_step(old(self)@)
                    &&& r is Ok
                }
                &&& install matches Err(e) ==> {
                    &&& final(self)@ == old(self)@
                    &&& final(self)@.state == SessionState::Idle
                    &&& !final(self)@.capture_alive
                    &&& !final(self)@.dispatcher_alive
                    &&& r == Err::<(), MessageLoopError>(MessageLoopError::OsError(e))
                }
            },
    {
        let st = self.coord.state;
        if st != SessionState::Idle {
            return Err(MessageLoopError::AlreadyActive);
        }
        let _outcome = self.coord.try_begin_episode();
        match install {
            Ok(()) => {
                self.coord.advance_to_active();
                proof {
                    assert(final(self)@ =~= start_ok_step(old(self)@));
                }
                Ok(())
            },
            Err(e) => {
                self.coord.abort_start();
                proof {
                    assert(final(self)@ =~= old(self)@);
                }
                Err(MessageLoopError::OsError(e))
            },
        }
    }

    /// Stops the message loop: asks the episode to shut down and blocks
    /// until the dispatcher and the capture thread have exited and the loop
    /// is idle again. Whatever the episode still holds -- registered
    /// consumers and undispatched events -- is torn down with it. Stopping
    /// an idle loop does nothing.
    pub fn stop(&mut self)
        requires
            old(self).inv(),
        ensures
            final(self).inv(),
            final(self)@ == stop_step(old(self)@),
    {
        let st = self.coord.state;
        if st == SessionState::Idle {
            return;
        }
        self.coord.begin_unsubscribe();
        self.coord.request_shutdown();
        self.coord.acknowledge_shutdown();
        self.coord.finish_shutdown();
        self.registry = HandlerRegistry::new();
        self.pending.clear();
        proof {
            assert(final(self)@ =~= stop_step(old(self)@));
        }
    }

    /// Hands one captured event to the channel. Only the capture side of a
    /// live episode produces events.
    pub fn inject_event(&mut self, event: Event)
        requires
            old(self).inv(),
            old(self)@.state == SessionState::Active,
        ensures
            final(self).inv(),
            final(self)@ == inject_step(old(self)@, event),
    {
        self.pending.push(event);
        proof {
            assert(final(self)@ =~= inject_step(old(self)@, event));
        }
    }

    /// Translates one raw-input keyboard payload and hands its event to the
    /// channel, as the capture callback does.
    pub fn capture_keyboard(&mut self, vkey: u16, make_code: u16, flags: u16)
        requires
            old(self).inv(),
            old(self)@.state == SessionState::Active,
            vk_of_code(vkey as u8) is Some,
        ensures
            final(self).inv(),
            final(self)@ == inject_step(old(self)@, raw_keyboard_event(vkey, make_code, flags)),
    {
        let event = translate_raw_keyboard(vkey, make_code, flags);
        self.inject_event(event);
    }

    /// Translates one raw-input mouse payload and hands every event it
    /// stands for to the channel, in order, as the capture callback does.
    pub fn capture_raw_mouse(
        &mut self,
        us_flags: u16,
        button_flags: u16,
        button_data: u16,
        last_x: i32,
        last_y: i32,
    )
        requires
            old(self).inv(),
            old(self)@.state == SessionState::Active,
        ensures
            final(self).inv(),
            final(self)@ == inject_all_step(
                old(self)@,
                raw_mouse_events(us_flags, button_flags, button_data, last_x, last_y),
            ),
    {
        let mut events = translate_raw_mouse(us_flags, button_flags, button_data, last_x, last_y);
        self.pending.append(&mut events);
        proof {
            assert(final(self)@ =~= inject_all_step(
                old(self)@,
                raw_mouse_events(us_flags, button_flags, button_data, last_x, last_y),
            ));
        }
    }

    /// One turn of the dispatcher loop: drains the oldest pending event, if
    /// any, and delivers it to every registered consumer in registration
    /// order, under the registry's shared side. Returns the delivered event.
    pub fn dispatch_next(&mut self) -> (r: Option<Event>)
        requires
            old(self).inv(),
            old(self)@.state == SessionState::Active,
        ensures
            final(self).inv(),
            final(self)@ == dispatch_step(old(self)@),
            old(self)@.pending.len() == 0 ==> r is None,
            old(self)@.pending.len() > 0 ==> r == Some(old(self)@.pending[0]),
    {
        if self.pending.len() == 0 {
            proof {
                assert(final(self)@ =~= dispatch_step(old(self)@));
            }
            return None;
        }
        let event = self.pending.remove(0);
        self.registry.deliver_to_all(event);
        proof {
            assert(old(self)@.pending.drop_first() =~= old(self)@.pending.remove(0));
            assert(final(self)@ =~= dispatch_step(old(self)@));
        }
        Some(event)
    }

    /// Drains the whole pending queue, delivering every event to every
    /// registered consumer in production order.
    pub fn dispatch_pending(&mut self)
        requires
            old(self).inv(),
            old(self)@.state == SessionState::Active,
        ensures
            final(self).inv(),
            final(self)@ == dispatch_all_step(old(self)@),
    {
        let ghost mut processed: Seq<Event> = Seq::<Event>::empty();
        proof {
            assert(old(self)@.pending =~= processed + self@.pending);
            assert forall|i: int| 0 <= i < self@.logs.len() implies #[trigger] self@.logs[i]
                =~= old(self)@.logs[i] + processed by {}
        }
        while self.pending.len() > 0
            invariant
                self.inv(),
                self@.state == SessionState::Active,
                self@.ids == old(self)@.ids,
                self@.logs.len() == old(self)@.logs.len(),
                self@.capture_alive == old(self)@.capture_alive,
                self@.dispatcher_alive == old(self)@.dispatcher_alive,
                self@.captures_spawned == old(self)@.captures_spawned,
                self@.dispatchers_spawned == old(self)@.dispatchers_spawned,
                self@.next_id == old(self)@.next_id,
                old(self)@.pending == processed + self@.pending,
                forall|i: int|
                    0 <= i < self@.logs.len() ==> self@.logs[i] == old(self)@.logs[i] + processed,
            decreases self@.pending.len(),
        {
            let ghost pre = self@;
            let ghost pre_processed = processed;
            let _drained = self.dispatch_next();
            proof {
                let e = pre.pending[0];
                processed = processed.push(e);
                assert(old(self)@.pending =~= processed + self@.pending);
                assert forall|i: int|
                    0 <= i < self@.logs.len() implies #[trigger] self@.logs[i] == old(
                    self,
                )@.logs[i] + processed by {
                    assert(self@.logs[i] == pre.logs[i].push(e));
                    assert(pre.logs[i] == old(self)@.logs[i] + pre_processed);
                    assert((old(self)@.logs[i] + pre_processed).push(e) =~= old(self)@.logs[i]
                        + pre_processed.push(e));
                }
            }
        }
        proof {
            assert(processed =~= old(self)@.pending);
            assert(final(self)@ =~= dispatch_all_step(old(self)@));
        }
    }

    /// Discards all the events stored in the channel without processing
    /// them; does nothing when the loop is idle.
    pub fn clear(&mut self)
        requires
            old(self).inv(),
        ensures
            final(self).inv(),
            old(self)@.state == SessionState::Idle ==> final(self)@ == old(self)@,
            old(self)@.state != SessionState::Idle ==> final(self)@ == (LoopView {
                pending: Seq::<Event>::empty(),
                ..old(self)@
            }),
    {
        let st = self.coord.state;
        if st != SessionState::Idle {
            self.pending.clear();
            proof {
                assert(final(self)@ =~= (LoopView {
                    pending: Seq::<Event>::empty(),
                    ..old(self)@
                }));
            }
        }
    }

    /// Receives the oldest captured event that no receiver call has taken
    /// yet, without blocking; `None` when no event is pending yet.
    pub fn try_next_event(&mut self) -> (r: Option<Event>)
        requires
            old(self).inv(),
            old(self)@.state == SessionState::Active,
        ensures
            final(self).inv(),
            old(self)@.pending.len() == 0 ==> r is None && final(self)@ == old(self)@,
            old(self)@.pending.len() > 0 ==> {
                &&& r == Some(old(self)@.pending[0])
                &&& final(self)@ == (LoopView {
                    pending: old(self)@.pending.drop_first(),
                    ..old(self)@
                })
            },
    {
        if self.pending.len() == 0 {
            return None;
        }
        let event = self.pending.remove(0);
        proof {
            assert(final(self)@ =~= (LoopView {
                pending: old(self)@.pending.drop_first(),
                ..old(self)@
            }));
        }
        Some(event)
    }

    /// Receives the oldest pending captured event. The operating-system
    /// loop in front of this queue blocks until one arrives; the queue
    /// itself hands out an event that is already there.
    pub fn next_event(&mut self) -> (r: Event)
        requires
            old(self).inv(),
            old(self)@.state == SessionState::Active,
            old(self)@.pending.len() > 0,
        ensures
            final(self).inv(),
            r == old(self)@.pending[0],
            final(self)@ == (LoopView { pending: old(self)@.pending.drop_first(), ..old(self)@ }),
    {
        match self.try_next_event() {
            Some(event) => event,
            None => unreached(),
        }
    }

    /// Receives the oldest pending captured event, giving up after the
    /// given wait. The wait only matters to the operating-system loop in
    /// front of this queue: here an event is returned exactly when one is
    /// already pending, and `None` stands for the elapsed wait.
    pub fn next_event_timeout(&mut self, timeout_ms: u64) -> (r: Option<Event>)
        requires
            old(self).inv(),
            old(self)@.state == SessionState::Active,
        ensures
            final(self).inv(),
            old(self)@.pending.len() == 0 ==> r is None && final(self)@ == old(self)@,
            old(self)@.pending.len() > 0 ==> {
                &&& r == Some(old(self)@.pending[0])
                &&& final(self)@ == (LoopView {
                    pending: old(self)@.pending.drop_first(),
                    ..old(self)@
                })
            },
    {
        let _ = timeout_ms;
        self.try_next_event()
    }
}

} // verus!
