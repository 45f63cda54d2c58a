//! The relay as a state machine: from its phase and the outcome of the work
//! last asked for, it decides the next phase and the next piece of work.
//!
//! Setup runs store connection (when messages are stored), broker connection,
//! channel, queue declaration and consumer registration in that order; then
//! each delivery is pulled, acknowledged, decoded and handled, one at a time.
//! Every failure ends the run, except a payload that is not UTF-8 (dropped
//! after its acknowledgment) and a failed print.
use vstd::prelude::*;
use vstd::utf8::{decode_utf8, valid_utf8};
use crate::config::Mode;
use crate::payload::decode_payload;

verus! {

/// Why a run ended.
#[derive(Clone, Copy, Debug, PartialEq, Eq, Structural)]
pub enum Fault {
    StoreConnect,
    BrokerConnect,
    ChannelOpen,
    QueueDeclare,
    ConsumerRegister,
    DeliveryPull,
    StreamEnded,
    Acknowledge,
    Handler,
}

/// The outcome of the work that the relay last asked for.
#[derive(Debug, PartialEq, Eq)]
pub enum Event {
    /// The connection, setup step, acknowledgment or handler call succeeded.
    Succeeded,
    /// It failed.
    Failed,
    /// The pull yielded a delivery with this payload.
    Delivered(Vec<u8>),
    /// The pull itself failed.
    PullFailed,
    /// The sequence of deliveries ended.
    StreamEnded,
}

/// The work that the relay asks for next.
#[derive(Debug, PartialEq, Eq)]
pub enum Action {
    ConnectStore,
    ConnectBroker,
    OpenChannel,
    DeclareQueue,
    RegisterConsumer,
    /// Wait for the next delivery.
    Pull,
    /// Acknowledge the delivery in hand.
    Acknowledge,
    /// Call the handler with this text.
    Handle(String),
    /// Nothing: the event did not answer the pending work.
    Wait,
    /// End the process.
    Stop(Fault),
}

/// Where the relay stands.
#[derive(Debug)]
pub enum Phase {
    ConnectingStore,
    ConnectingBroker,
    OpeningChannel,
    DeclaringQueue,
    RegisteringConsumer,
    AwaitingDelivery,
    /// A delivery with this payload is being acknowledged.
    Acknowledging(Vec<u8>),
    Handling,
    Terminated(Fault),
}

/// Model of an [`Event`].
pub enum EventView {
    Succeeded,
    Failed,
    Delivered(Seq<u8>),
    PullFailed,
    StreamEnded,
}

/// Model of an [`Action`].
pub enum ActionView {
    ConnectStore,
    ConnectBroker,
    OpenChannel,
    DeclareQueue,
    RegisterConsumer,
    Pull,
    Acknowledge,
    Handle(Seq<char>),
    Wait,
    Stop(Fault),
}

/// Model of a [`Phase`].
pub enum PhaseView {
    ConnectingStore,
    ConnectingBroker,
    OpeningChannel,
    DeclaringQueue,
    RegisteringConsumer,
    AwaitingDelivery,
    Acknowledging(Seq<u8>),
    Handling,
    Terminated(Fault),
}

impl View for Event {
    type V = EventView;

    open spec fn view(&self) -> EventView {
        match self {
            Event::Succeeded => EventView::Succeeded,
            Event::Failed => EventView::Failed,
            Event::Delivered(p) => EventView::Delivered(p@),
            Event::PullFailed => EventView::PullFailed,
            Event::StreamEnded => EventView::StreamEnded,
        }
    }
}

impl View for Action {
    type V = ActionView;

    open spec fn view(&self) -> ActionView {
        match self {
            Action::ConnectStore => ActionView::ConnectStore,
            Action::ConnectBroker => ActionView::ConnectBroker,
            Action::OpenChannel => ActionView::OpenChannel,
            Action::DeclareQueue => ActionView::DeclareQueue,
            Action::RegisterConsumer => ActionView::RegisterConsumer,
            Action::Pull => ActionView::Pull,
            Action::Acknowledge => ActionView::Acknowledge,
            Action::Handle(t) => ActionView::Handle(t@),
            Action::Wait => ActionView::Wait,
            Action::Stop(f) => ActionView::Stop(*f),
        }
    }
}

impl View for Phase {
    type V = PhaseView;

    open spec fn view(&self) -> PhaseView {
        match self {
            Phase::ConnectingStore => PhaseView::ConnectingStore,
            Phase::ConnectingBroker => PhaseView::ConnectingBroker,
            Phase::OpeningChannel => PhaseView::OpeningChannel,
            Phase::DeclaringQueue => PhaseView::DeclaringQueue,
            Phase::RegisteringConsumer => PhaseView::RegisteringConsumer,
            Phase::AwaitingDelivery => PhaseView::AwaitingDelivery,
            Phase::Acknowledging(p) => PhaseView::Acknowledging(p@),
            Phase::Handling => PhaseView::Handling,
            Phase::Terminated(f) => PhaseView::Terminated(*f),
        }
    }
}

/// The exit status of a process whose run ended with `f`.
pub open spec fn exit_status(f: Fault) -> i32 {
    1
}

impl Fault {
    /// The exit status of the process after this fault.
    pub fn exit_code(&self) -> (r: i32)
        ensures
            r == exit_status(*self),
    {
        1
    }
}

/// The phase a run starts in, and the first work it asks for.
pub open spec fn initial(mode: Mode) -> (PhaseView, ActionView) {
    match mode {
        Mode::Persist => (PhaseView::ConnectingStore, ActionView::ConnectStore),
        Mode::Print => (PhaseView::ConnectingBroker, ActionView::ConnectBroker),
    }
}

/// Ending the run with `f`.
pub open spec fn halt(f: Fault) -> (PhaseView, ActionView) {
    (PhaseView::Terminated(f), ActionView::Stop(f))
}

/// Moving on after a successful setup step.
pub open spec fn setup_step(
    ev: EventView,
    here: PhaseView,
    then: PhaseView,
    work: ActionView,
    fault: Fault,
) -> (PhaseView, ActionView) {
    match ev {
        EventView::Succeeded => (then, work),
        EventView::Failed => halt(fault),
        _ => (here, ActionView::Wait),
    }
}

/// One transition of the relay.
pub open spec fn next(mode: Mode, phase: PhaseView, ev: EventView) -> (PhaseView, ActionView) {
    match phase {
        PhaseView::ConnectingStore => setup_step(
            ev,
            phase,
            PhaseView::ConnectingBroker,
            ActionView::ConnectBroker,
            Fault::StoreConnect,
        ),
        PhaseView::ConnectingBroker => setup_step(
            ev,
            phase,
            PhaseView::OpeningChannel,
            ActionView::OpenChannel,
            Fault::BrokerConnect,
        ),
        PhaseView::OpeningChannel => setup_step(
            ev,
            phase,
            PhaseView::DeclaringQueue,
            ActionView::DeclareQueue,
            Fault::ChannelOpen,
        ),
        PhaseView::DeclaringQueue => setup_step(
            ev,
            phase,
            PhaseView::RegisteringConsumer,
            ActionView::RegisterConsumer,
            Fault::QueueDeclare,
        ),
        PhaseView::RegisteringConsumer => setup_step(
            ev,
            phase,
            PhaseView::AwaitingDelivery,
            ActionView::Pull,
            Fault::ConsumerRegister,
        ),
        PhaseView::AwaitingDelivery => match ev {
            EventView::Delivered(p) => (PhaseView::Acknowledging(p), ActionView::Acknowledge),
            EventView::PullFailed => halt(Fault::DeliveryPull),
            EventView::StreamEnded => halt(Fault::StreamEnded),
            _ => (phase, ActionView::Wait),
        },
        PhaseView::Acknowledging(p) => match ev {
            EventView::Succeeded => if valid_utf8(p) {
                (PhaseView::Handling, ActionView::Handle(decode_utf8(p)))
            } else {
                (PhaseView::AwaitingDelivery, ActionView::Pull)
            },
            EventView::Failed => halt(Fault::Acknowledge),
            _ => (phase, ActionView::Wait),
        },
        PhaseView::Handling => match ev {
            EventView::Succeeded => (PhaseView::AwaitingDelivery, ActionView::Pull),
            EventView::Failed => if mode == Mode::Persist {
                halt(Fault::Handler)
            } else {
                (PhaseView::AwaitingDelivery, ActionView::Pull)
            },
            _ => (phase, ActionView::Wait),
        },
        PhaseView::Terminated(f) => halt(f),
    }
}

/// The phase reached and the work asked for when `events` come in order.
pub open spec fn run(mode: Mode, phase: PhaseView, events: Seq<EventView>) -> (
    PhaseView,
    Seq<ActionView>,
)
    decreases events.len(),
{
    if events.len() == 0 {
        (phase, Seq::empty())
    } else {
        let (after_first, first_work) = next(mode, phase, events[0]);
        let (last, rest) = run(mode, after_first, events.drop_first());
        (last, seq![first_work] + rest)
    }
}

/// The models of a sequence of events.
pub open spec fn event_views(events: Seq<Event>) -> Seq<EventView> {
    events.map_values(|e: Event| e@)
}

/// The models of a sequence of actions.
pub open spec fn action_views(actions: Seq<Action>) -> Seq<ActionView> {
    actions.map_values(|a: Action| a@)
}

/// A run over `events` followed by `ev` is a run over `events` and then one
/// transition.
pub proof fn lemma_run_snoc(mode: Mode, phase: PhaseView, events: Seq<EventView>, ev: EventView)
    ensures
        run(mode, phase, events.push(ev)) == (
            next(mode, run(mode, phase, events).0, ev).0,
            run(mode, phase, events).1.push(next(mode, run(mode, phase, events).0, ev).1),
        ),
    decreases events.len(),
{
    let all = events.push(ev);
    if events.len() == 0 {
        assert(all[0] == ev);
        assert(all.drop_first() =~= Seq::<EventView>::empty());
        assert(run(mode, next(mode, phase, ev).0, Seq::<EventView>::empty()).1 =~= Seq::<
            ActionView,
        >::empty());
        assert(seq![next(mode, phase, ev).1] + Seq::<ActionView>::empty() =~= Seq::<
            ActionView,
        >::empty().push(next(mode, phase, ev).1));
    } else {
        let after_first = next(mode, phase, events[0]).0;
        let first_work = next(mode, phase, events[0]).1;
        assert(all[0] == events[0]);
        assert(all.drop_first() =~= events.drop_first().push(ev));
        lemma_run_snoc(mode, after_first, events.drop_first(), ev);
        let mid = run(mode, after_first, events.drop_first());
        assert(run(mode, phase, events) == (mid.0, seq![first_work] + mid.1));
        assert(seq![first_work] + mid.1.push(next(mode, mid.0, ev).1) =~= (seq![first_work] + mid.1).push(
            next(mode, mid.0, ev).1,
        ));
    }
}

fn setup_transition(ev: Event, here: Phase, then: Phase, work: Action, fault: Fault) -> (r: (
    Phase,
    Action,
))
    ensures
        (r.0@, r.1@) == setup_step(ev@, here@, then@, work@, fault),
{
    match ev {
        Event::Succeeded => (then, work),
        Event::Failed => (Phase::Terminated(fault), Action::Stop(fault)),
        _ => (here, Action::Wait),
    }
}

fn transition(mode: Mode, phase: Phase, ev: Event) -> (r: (Phase, Action))
    ensures
        (r.0@, r.1@) == next(mode, phase@, ev@),
{
    match phase {
        Phase::ConnectingStore => setup_transition(
            ev,
            Phase::ConnectingStore,
            Phase::ConnectingBroker,
            Action::ConnectBroker,
            Fault::StoreConnect,
        ),
        Phase::ConnectingBroker => setup_transition(
            ev,
            Phase::ConnectingBroker,
            Phase::OpeningChannel,
            Action::OpenChannel,
            Fault::BrokerConnect,
        ),
        Phase::OpeningChannel => setup_transition(
            ev,
            Phase::OpeningChannel,
            Phase::DeclaringQueue,
            Action::DeclareQueue,
            Fault::ChannelOpen,
        ),
        Phase::DeclaringQueue => setup_transition(
            ev,
            Phase::DeclaringQueue,
            Phase::RegisteringConsumer,
            Action::RegisterConsumer,
            Fault::QueueDeclare,
        ),
        Phase::RegisteringConsumer => setup_transition(
            ev,
            Phase::RegisteringConsumer,
            Phase::AwaitingDelivery,
            Action::Pull,
            Fault::ConsumerRegister,
        ),
        Phase::AwaitingDelivery => match ev {
            Event::Delivered(p) => (Phase::Acknowledging(p), Action::Acknowledge),
            Event::PullFailed => (
                Phase::Terminated(Fault::DeliveryPull),
                Action::Stop(Fault::DeliveryPull),
            ),
            Event::StreamEnded => (
                Phase::Terminated(Fault::StreamEnded),
                Action::Stop(Fault::StreamEnded),
            ),
            _ => (Phase::AwaitingDelivery, Action::Wait),
        },
        Phase::Acknowledging(p) => match ev {
            Event::Succeeded => match decode_payload(p) {
                Some(text) => (Phase::Handling, Action::Handle(text)),
                None => (Phase::AwaitingDelivery, Action::Pull),
            },
            Event::Failed => (
                Phase::Terminated(Fault::Acknowledge),
                Action::Stop(Fault::Acknowledge),
            ),
            _ => (Phase::Acknowledging(p), Action::Wait),
        },
        Phase::Handling => match ev {
            Event::Succeeded => (Phase::AwaitingDelivery, Action::Pull),
            Event::Failed => match mode {
                Mode::Persist => (Phase::Terminated(Fault::Handler), Action::Stop(Fault::Handler)),
                Mode::Print => (Phase::AwaitingDelivery, Action::Pull),
            },
            _ => (Phase::Handling, Action::Wait),
        },
        Phase::Terminated(f) => (Phase::Terminated(f), Action::Stop(f)),
    }
}

/// Model of a [`Relay`].
pub struct RelayState {
    pub mode: Mode,
    pub phase: PhaseView,
}

/// A relay run: its mode and where it stands.
pub struct Relay {
    mode: Mode,
    phase: Phase,
}

impl View for Relay {
    type V = RelayState;

    closed spec fn view(&self) -> RelayState {
        RelayState { mode: self.mode, phase: self.phase@ }
    }
}

impl Relay {
    /// Starts a run in `mode`, with the first work it asks for.
    pub fn start(mode: Mode) -> (r: (Relay, Action))
        ensures
            r.0@.mode == mode,
            (r.0@.phase, r.1@) == initial(mode),
    {
        match mode {
            Mode::Persist => (Relay { mode, phase: Phase::ConnectingStore }, Action::ConnectStore),
            Mode::Print => (Relay { mode, phase: Phase::ConnectingBroker }, Action::ConnectBroker),
        }
    }

    /// Takes in the outcome of the pending work and returns the next work.
    pub fn step(&mut self, ev: Event) -> (a: Action)
        ensures
            final(self)@.mode == old(self)@.mode,
            (final(self)@.phase, a@) == next(old(self)@.mode, old(self)@.phase, ev@),
    {
        let mut phase = Phase::Handling;
        core::mem::swap(&mut self.phase, &mut phase);
        let (after, action) = transition(self.mode, phase, ev);
        self.phase = after;
        action
    }

    /// Takes in several outcomes in order and returns the work asked for
    /// after each.
    pub fn feed(&mut self, events: Vec<Event>) -> (actions: Vec<Action>)
        ensures
            final(self)@.mode == old(self)@.mode,
            final(self)@.phase == run(old(self)@.mode, old(self)@.phase, event_views(events@)).0,
            action_views(actions@) == run(
                old(self)@.mode,
                old(self)@.phase,
                event_views(events@),
            ).1,
    {
        let ghost all = event_views(events@);
        let ghost start = self@.phase;
        let mut events = events;
        let mut actions: Vec<Action> = Vec::new();
        let n: usize = events.len();
        let mut i: usize = 0;
        while i < n
            invariant
                n == all.len(),
                i <= n,
                events@.len() == n - i,
                event_views(events@) == all.subrange(i as int, n as int),
                self@.mode == old(self)@.mode,
                self@.phase == run(self@.mode, start, all.subrange(0, i as int)).0,
                action_views(actions@) == run(self@.mode, start, all.subrange(0, i as int)).1,
            decreases n - i,
        {
            let ghost rest = events@;
            assert(event_views(rest)[0] == rest[0]@);
            let ev = events.remove(0);
            proof {
                assert(ev@ == all[i as int]);
                assert(all.subrange(0, i + 1) =~= all.subrange(0, i as int).push(ev@));
                lemma_run_snoc(self@.mode, start, all.subrange(0, i as int), ev@);
                assert(events@ =~= rest.drop_first());
                assert forall|k: int| 0 <= k < events@.len() implies event_views(events@)[k]
                    == all.subrange(i + 1, n as int)[k] by {
                    assert(event_views(rest)[k + 1] == rest[k + 1]@);
                }
                assert(event_views(events@) =~= all.subrange(i + 1, n as int));
            }
            let ghost before = actions@;
            let a = self.step(ev);
            actions.push(a);
            proof {
                assert(action_views(actions@) =~= action_views(before).push(a@));
            }
            i = i + 1;
        }
        assert(all.subrange(0, n as int) =~= all);
        actions
    }

    /// Whether the run has ended.
    pub fn is_terminated(&self) -> (r: bool)
        ensures
            r == (self@.phase is Terminated),
    {
        match self.phase {
            Phase::Terminated(_) => true,
            _ => false,
        }
    }
}

} // verus!
