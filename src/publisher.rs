//! The command publisher: the decisions that keep the single writer handle in
//! use by at most one publication at a time. The task that owns the handle
//! feeds it events and performs the actions it returns.
use vstd::prelude::*;
use crate::model::{SensorConfig, SensorFields, zero_fields};
use crate::bridge::{Reply, config_reply, config_reply_spec};

verus! {

/// What happened: a caller submitted a command under a ticket, or the
/// publication in flight finished, accepted by the bus or not.
pub enum PublisherEvent {
    Submit { ticket: u64, command: SensorConfig },
    Published { ok: bool },
}

/// What to do: publish a command through the writer handle, or answer the
/// caller that holds a ticket.
#[derive(Debug, PartialEq, Eq)]
pub enum PublisherAction {
    Publish { ticket: u64, command: SensorConfig },
    Respond { ticket: u64, reply: Reply<SensorConfig> },
}

/// An event as mathematical values.
pub enum EventView {
    Submit { ticket: u64, command: SensorFields },
    Published { ok: bool },
}

/// An action as mathematical values; an answer carries its reply's code and body.
pub enum ActionView {
    Publish { ticket: u64, command: SensorFields },
    Respond { ticket: u64, code: u16, body: SensorFields },
}

impl View for PublisherEvent {
    type V = EventView;

    open spec fn view(&self) -> EventView {
        match self {
            PublisherEvent::Submit { ticket, command } => EventView::Submit {
                ticket: *ticket,
                command: command@,
            },
            PublisherEvent::Published { ok } => EventView::Published { ok: *ok },
        }
    }
}

impl View for PublisherAction {
    type V = ActionView;

    open spec fn view(&self) -> ActionView {
        match self {
            PublisherAction::Publish { ticket, command } => ActionView::Publish {
                ticket: *ticket,
                command: command@,
            },
            PublisherAction::Respond { ticket, reply } => ActionView::Respond {
                ticket: *ticket,
                code: reply.code,
                body: reply.body@,
            },
        }
    }
}

/// The actions as mathematical values, in order.
pub open spec fn actions_view(acts: Seq<PublisherAction>) -> Seq<ActionView> {
    acts.map_values(|a: PublisherAction| a@)
}

/// The publisher's state: the command whose publication holds the writer
/// handle, if any, and the commands waiting for it, oldest first.
pub struct PublisherState {
    pub in_flight: Option<(u64, SensorFields)>,
    pub pending: Seq<(u64, SensorFields)>,
}

/// Nothing waits while the writer handle is free.
pub open spec fn publisher_wf(s: PublisherState) -> bool {
    s.in_flight is None ==> s.pending.len() == 0
}

/// Whether the writer handle is held.
pub open spec fn writer_held(s: PublisherState) -> bool {
    s.in_flight is Some
}

/// The answer owed to a finished publication.
pub open spec fn respond_view(ticket: u64, command: SensorFields, ok: bool) -> ActionView {
    ActionView::Respond {
        ticket,
        code: config_reply_spec(command, ok).0,
        body: config_reply_spec(command, ok).1,
    }
}

/// One decision: a submission takes the free handle or waits its turn; a
/// finished publication answers its caller and hands the handle to the
/// oldest waiting command. A finish with nothing in flight changes nothing.
pub open spec fn step_spec(s: PublisherState, e: EventView) -> (PublisherState, Seq<ActionView>) {
    match e {
        EventView::Submit { ticket, command } => {
            if s.in_flight is None {
                (
                    PublisherState { in_flight: Some((ticket, command)), pending: s.pending },
                    seq![ActionView::Publish { ticket, command }],
                )
            } else {
                (
                    PublisherState { in_flight: s.in_flight, pending: s.pending.push((ticket, command)) },
                    Seq::empty(),
                )
            }
        },
        EventView::Published { ok } => {
            match s.in_flight {
                None => (s, Seq::empty()),
                Some(held) => {
                    let answer = respond_view(held.0, held.1, ok);
                    if s.pending.len() == 0 {
                        (PublisherState { in_flight: None, pending: s.pending }, seq![answer])
                    } else {
                        let next = s.pending[0];
                        (
                            PublisherState { in_flight: Some(next), pending: s.pending.drop_first() },
                            seq![answer, ActionView::Publish { ticket: next.0, command: next.1 }],
                        )
                    }
                },
            }
        },
    }
}

/// The executable publisher; its view is the `PublisherState` it stands for.
pub struct CommandPublisher {
    in_flight: Option<(u64, SensorConfig)>,
    pending: Vec<(u64, SensorConfig)>,
}

/// A ticketed command as mathematical values.
pub open spec fn entry_view(p: (u64, SensorConfig)) -> (u64, SensorFields) {
    (p.0, p.1@)
}

impl View for CommandPublisher {
    type V = PublisherState;

    closed spec fn view(&self) -> PublisherState {
        PublisherState {
            in_flight: match self.in_flight {
                Some(p) => Some(entry_view(p)),
                None => None,
            },
            pending: self.pending@.map_values(|p: (u64, SensorConfig)| entry_view(p)),
        }
    }
}

impl CommandPublisher {
    /// A publisher whose writer handle is free and which has nothing waiting.
    pub fn new() -> (r: Self)
        ensures
            r@.in_flight is None,
            r@.pending.len() == 0,
            publisher_wf(r@),
    {
        CommandPublisher { in_flight: None, pending: Vec::new() }
    }

    /// Whether a publication holds the writer handle.
    pub fn is_busy(&self) -> (r: bool)
        ensures
            r == writer_held(self@),
    {
        self.in_flight.is_some()
    }

    /// Whether nothing waits while the writer handle is free.
    pub fn is_well_formed(&self) -> (r: bool)
        ensures
            r == publisher_wf(self@),
    {
        self.in_flight.is_some() || self.pending.len() == 0
    }

    /// Takes one event and returns the actions to perform, in order.
    pub fn step(&mut self, event: PublisherEvent) -> (acts: Vec<PublisherAction>)
        requires
            publisher_wf(old(self)@),
        ensures
            publisher_wf(final(self)@),
            (final(self)@, actions_view(acts@)) == step_spec(old(self)@, event@),
    {
        let ghost s0 = self@;
        let ghost e = event@;
        match event {
            PublisherEvent::Submit { ticket, command } => {
                if self.in_flight.is_none() {
                    let c2 = command.clone();
                    self.in_flight = Some((ticket, command));
                    let acts = vec![PublisherAction::Publish { ticket, command: c2 }];
                    proof {
                        assert(self@.pending =~= s0.pending);
                        assert(actions_view(acts@) =~= step_spec(s0, e).1);
                    }
                    acts
                } else {
                    self.pending.push((ticket, command));
                    proof {
                        assert(self@.pending =~= s0.pending.push((ticket, command@)));
                    }
                    let acts: Vec<PublisherAction> = Vec::new();
                    proof {
                        assert(actions_view(acts@) =~= step_spec(s0, e).1);
                    }
                    acts
                }
            },
            PublisherEvent::Published { ok } => {
                let held = self.in_flight.take();
                match held {
                    None => {
                        let acts: Vec<PublisherAction> = Vec::new();
                        proof {
                            assert(actions_view(acts@) =~= step_spec(s0, e).1);
                        }
                        acts
                    },
                    Some((ticket, command)) => {
                        let answer = PublisherAction::Respond {
                            ticket,
                            reply: config_reply(command, ok),
                        };
                        if self.pending.len() == 0 {
                            let acts = vec![answer];
                            proof {
                                assert(actions_view(acts@) =~= step_spec(s0, e).1);
                            }
                            acts
                        } else {
                            let (t2, c2) = self.pending.remove(0);
                            let c3 = c2.clone();
                            self.in_flight = Some((t2, c2));
                            let acts = vec![answer, PublisherAction::Publish { ticket: t2, command: c3 }];
                            proof {
                                assert(self@.pending =~= s0.pending.drop_first());
                                assert(actions_view(acts@) =~= step_spec(s0, e).1);
                            }
                            acts
                        }
                    },
                }
            },
        }
    }
}

/// Replays the actions on the writer handle: a publication takes it, an
/// answer gives it back. `Some(h)` when every publication found the handle
/// free and every answer found it held, `h` telling whether it is held at
/// the end; `None` when two uses of the handle would overlap.
pub open spec fn writer_trace(held: bool, acts: Seq<ActionView>) -> Option<bool>
    decreases acts.len(),
{
    if acts.len() == 0 {
        Some(held)
    } else {
        match acts[0] {
            ActionView::Publish { .. } => if held {
                None
            } else {
                writer_trace(true, acts.drop_first())
            },
            ActionView::Respond { .. } => if held {
                writer_trace(false, acts.drop_first())
            } else {
                None
            },
        }
    }
}

/// The state after a sequence of events and all the actions taken on the way.
pub open spec fn run_spec(s: PublisherState, events: Seq<EventView>) -> (PublisherState, Seq<ActionView>)
    decreases events.len(),
{
    if events.len() == 0 {
        (s, Seq::empty())
    } else {
        let (s1, a1) = step_spec(s, events[0]);
        let (s2, a2) = run_spec(s1, events.drop_first());
        (s2, a1 + a2)
    }
}

proof fn lemma_writer_trace_append(held: bool, a: Seq<ActionView>, b: Seq<ActionView>)
    ensures
        writer_trace(held, a + b) == match writer_trace(held, a) {
            Some(h) => writer_trace(h, b),
            None => None,
        },
    decreases a.len(),
{
    if a.len() == 0 {
        assert(a + b =~= b);
    } else {
        assert((a + b).drop_first() =~= a.drop_first() + b);
        lemma_writer_trace_append(
            match a[0] {
                ActionView::Publish { .. } => true,
                ActionView::Respond { .. } => false,
            },
            a.drop_first(),
            b,
        );
    }
}

proof fn lemma_step_exclusive(s: PublisherState, e: EventView)
    requires
        publisher_wf(s),
    ensures
        publisher_wf(step_spec(s, e).0),
        writer_trace(writer_held(s), step_spec(s, e).1) == Some(writer_held(step_spec(s, e).0)),
{
    let (s1, acts) = step_spec(s, e);
    match e {
        EventView::Submit { ticket, command } => {
            if s.in_flight is None {
                assert(acts.drop_first() =~= Seq::<ActionView>::empty());
                assert(writer_trace(true, acts.drop_first()) == Some(true));
            }
        },
        EventView::Published { ok } => {
            if s.in_flight is Some {
                assert(writer_trace(false, Seq::<ActionView>::empty()) == Some(false));
                if s.pending.len() == 0 {
                    assert(acts.drop_first() =~= Seq::<ActionView>::empty());
                } else {
                    let tail = acts.drop_first();
                    assert(tail.drop_first() =~= Seq::<ActionView>::empty());
                    assert(writer_trace(true, tail.drop_first()) == Some(true));
                    assert(writer_trace(false, tail) == Some(true));
                }
            }
        },
    }
}

/// The writer handle is never used by two publications at once: over any
/// sequence of events, every publication starts with the handle free and
/// every answer releases it, and the replay ends in the state's own holding.
pub proof fn lemma_writer_exclusive(s: PublisherState, events: Seq<EventView>)
    requires
        publisher_wf(s),
    ensures
        publisher_wf(run_spec(s, events).0),
        writer_trace(writer_held(s), run_spec(s, events).1) == Some(
            writer_held(run_spec(s, events).0),
        ),
    decreases events.len(),
{
    if events.len() > 0 {
        let (s1, a1) = step_spec(s, events[0]);
        lemma_step_exclusive(s, events[0]);
        lemma_writer_exclusive(s1, events.drop_first());
        lemma_writer_trace_append(writer_held(s), a1, run_spec(s1, events.drop_first()).1);
    }
}

/// A command submitted while the handle is free is published at once; when
/// the publication finishes its caller gets the command back with a success
/// code if the bus accepted it, and the zero-valued record with a failure
/// code if not. Either way the handle is free again, so that the next command
/// is published at once.
pub proof fn lemma_submit_outcome(
    s: PublisherState,
    t: u64,
    c: SensorFields,
    ok: bool,
    t2: u64,
    c2: SensorFields,
)
    requires
        publisher_wf(s),
        !writer_held(s),
    ensures
        run_spec(s, seq![EventView::Submit { ticket: t, command: c }, EventView::Published { ok }])
            == (s, seq![ActionView::Publish { ticket: t, command: c }, respond_view(t, c, ok)]),
        ok ==> respond_view(t, c, ok) == (ActionView::Respond { ticket: t, code: 200, body: c }),
        !ok ==> respond_view(t, c, ok) == (ActionView::Respond {
            ticket: t,
            code: 500,
            body: zero_fields(),
        }),
        step_spec(s, EventView::Submit { ticket: t2, command: c2 }).1 == seq![
            ActionView::Publish { ticket: t2, command: c2 },
        ],
{
    let events = seq![EventView::Submit { ticket: t, command: c }, EventView::Published { ok }];
    let (s1, a1) = step_spec(s, events[0]);
    let rest = events.drop_first();
    assert(rest =~= seq![EventView::Published { ok }]);
    assert(rest.drop_first() =~= Seq::<EventView>::empty());
    let (s2, a2) = step_spec(s1, rest[0]);
    assert(s2 =~= s);
    assert(run_spec(s2, rest.drop_first()) == (s2, Seq::<ActionView>::empty()));
    assert(run_spec(s1, rest).1 =~= a2);
    assert(a1 + a2 =~= seq![ActionView::Publish { ticket: t, command: c }, respond_view(t, c, ok)]);
}

} // verus!
