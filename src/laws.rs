//! What holds of every run of the relay, proved over its transition model.
use vstd::prelude::*;
use vstd::utf8::{decode_utf8, decode_utf8_encode_utf8, encode_utf8, valid_utf8};
use crate::config::Mode;
use crate::relay::{exit_status, initial, next, run, ActionView, EventView, Fault, PhaseView};

verus! {

/// A run over `ev` followed by `rest` is one transition and then a run over `rest`.
pub proof fn lemma_run_cons(mode: Mode, phase: PhaseView, ev: EventView, rest: Seq<EventView>)
    ensures
        run(mode, phase, seq![ev] + rest) == (
            run(mode, next(mode, phase, ev).0, rest).0,
            seq![next(mode, phase, ev).1] + run(mode, next(mode, phase, ev).0, rest).1,
        ),
{
    let events = seq![ev] + rest;
    assert(events[0] == ev);
    assert(events.drop_first() =~= rest);
}

/// Once a run has ended with `f`, every later event only repeats the order
/// to stop with `f`.
pub proof fn lemma_ended_run_only_stops(mode: Mode, f: Fault, events: Seq<EventView>)
    ensures
        run(mode, PhaseView::Terminated(f), events) == (
            PhaseView::Terminated(f),
            Seq::new(events.len(), |i: int| ActionView::Stop(f)),
        ),
    decreases events.len(),
{
    if events.len() > 0 {
        let rest = events.drop_first();
        lemma_ended_run_only_stops(mode, f, rest);
        assert(seq![ActionView::Stop(f)] + Seq::new(rest.len(), |i: int| ActionView::Stop(f))
            =~= Seq::new(events.len(), |i: int| ActionView::Stop(f)));
    }
}

/// A delivery whose payload is valid UTF-8 is acknowledged first, then the
/// handler is called once with the decoded text, and only once the handler
/// has returned is the next delivery pulled. The text encodes back to the
/// payload.
pub proof fn valid_payload_is_acknowledged_then_handled_once(mode: Mode, payload: Seq<u8>)
    requires
        valid_utf8(payload),
    ensures
        run(
            mode,
            PhaseView::AwaitingDelivery,
            seq![EventView::Delivered(payload), EventView::Succeeded, EventView::Succeeded],
        ) == (
            PhaseView::AwaitingDelivery,
            seq![
                ActionView::Acknowledge,
                ActionView::Handle(decode_utf8(payload)),
                ActionView::Pull,
            ],
        ),
        encode_utf8(decode_utf8(payload)) == payload,
{
    let tail = seq![EventView::Succeeded];
    lemma_run_cons(mode, PhaseView::Handling, EventView::Succeeded, Seq::empty());
    assert(seq![EventView::Succeeded] + Seq::<EventView>::empty() =~= tail);
    lemma_run_cons(mode, PhaseView::Acknowledging(payload), EventView::Succeeded, tail);
    assert(seq![EventView::Succeeded] + tail =~= seq![EventView::Succeeded, EventView::Succeeded]);
    lemma_run_cons(
        mode,
        PhaseView::AwaitingDelivery,
        EventView::Delivered(payload),
        seq![EventView::Succeeded, EventView::Succeeded],
    );
    assert(seq![EventView::Delivered(payload)] + seq![EventView::Succeeded, EventView::Succeeded]
        =~= seq![EventView::Delivered(payload), EventView::Succeeded, EventView::Succeeded]);
    assert(seq![ActionView::Pull] + Seq::<ActionView>::empty() =~= seq![ActionView::Pull]);
    assert(seq![ActionView::Handle(decode_utf8(payload))] + seq![ActionView::Pull] =~= seq![
        ActionView::Handle(decode_utf8(payload)),
        ActionView::Pull,
    ]);
    assert(seq![ActionView::Acknowledge] + seq![
        ActionView::Handle(decode_utf8(payload)),
        ActionView::Pull,
    ] =~= seq![
        ActionView::Acknowledge,
        ActionView::Handle(decode_utf8(payload)),
        ActionView::Pull,
    ]);
    decode_utf8_encode_utf8(payload);
}

/// A delivery whose payload is not valid UTF-8 is acknowledged, the handler
/// is not called, and the relay goes back to waiting for the next delivery.
pub proof fn invalid_payload_is_acknowledged_and_dropped(mode: Mode, payload: Seq<u8>)
    requires
        !valid_utf8(payload),
    ensures
        run(mode, PhaseView::AwaitingDelivery, seq![EventView::Delivered(payload), EventView::Succeeded])
            == (PhaseView::AwaitingDelivery, seq![ActionView::Acknowledge, ActionView::Pull]),
{
    lemma_run_cons(mode, PhaseView::Acknowledging(payload), EventView::Succeeded, Seq::empty());
    lemma_run_cons(
        mode,
        PhaseView::AwaitingDelivery,
        EventView::Delivered(payload),
        seq![EventView::Succeeded],
    );
    assert(seq![EventView::Succeeded] + Seq::<EventView>::empty() =~= seq![EventView::Succeeded]);
    assert(seq![EventView::Delivered(payload)] + seq![EventView::Succeeded] =~= seq![
        EventView::Delivered(payload),
        EventView::Succeeded,
    ]);
    assert(seq![ActionView::Pull] + Seq::<ActionView>::empty() =~= seq![ActionView::Pull]);
    assert(seq![ActionView::Acknowledge] + seq![ActionView::Pull] =~= seq![
        ActionView::Acknowledge,
        ActionView::Pull,
    ]);
}

/// When the broker cannot be reached, the run ends with exit status 1 and,
/// whatever happens next, neither declares the queue nor registers a consumer:
/// its only order is to stop.
pub proof fn unreachable_broker_ends_run(mode: Mode, later: Seq<EventView>)
    ensures
        run(mode, PhaseView::ConnectingBroker, seq![EventView::Failed] + later) == (
            PhaseView::Terminated(Fault::BrokerConnect),
            Seq::new(later.len() + 1, |i: int| ActionView::Stop(Fault::BrokerConnect)),
        ),
        exit_status(Fault::BrokerConnect) == 1,
{
    let f = Fault::BrokerConnect;
    lemma_run_cons(mode, PhaseView::ConnectingBroker, EventView::Failed, later);
    lemma_ended_run_only_stops(mode, f, later);
    assert(seq![ActionView::Stop(f)] + Seq::new(later.len(), |i: int| ActionView::Stop(f))
        =~= Seq::new(later.len() + 1, |i: int| ActionView::Stop(f)));
}

/// A run that stores messages first connects to the store; when that fails,
/// it ends with exit status 1 and never connects to the broker.
pub proof fn store_comes_before_broker(later: Seq<EventView>)
    ensures
        initial(Mode::Persist) == (PhaseView::ConnectingStore, ActionView::ConnectStore),
        run(Mode::Persist, PhaseView::ConnectingStore, seq![EventView::Failed] + later) == (
            PhaseView::Terminated(Fault::StoreConnect),
            Seq::new(later.len() + 1, |i: int| ActionView::Stop(Fault::StoreConnect)),
        ),
        exit_status(Fault::StoreConnect) == 1,
{
    let f = Fault::StoreConnect;
    lemma_run_cons(Mode::Persist, PhaseView::ConnectingStore, EventView::Failed, later);
    lemma_ended_run_only_stops(Mode::Persist, f, later);
    assert(seq![ActionView::Stop(f)] + Seq::new(later.len(), |i: int| ActionView::Stop(f))
        =~= Seq::new(later.len() + 1, |i: int| ActionView::Stop(f)));
}

/// When storing a message fails, the run ends and, whatever happens next, no
/// further delivery is pulled, acknowledged or handled.
pub proof fn failed_insert_ends_consumption(later: Seq<EventView>)
    ensures
        run(Mode::Persist, PhaseView::Handling, seq![EventView::Failed] + later) == (
            PhaseView::Terminated(Fault::Handler),
            Seq::new(later.len() + 1, |i: int| ActionView::Stop(Fault::Handler)),
        ),
        exit_status(Fault::Handler) == 1,
{
    let f = Fault::Handler;
    lemma_run_cons(Mode::Persist, PhaseView::Handling, EventView::Failed, later);
    lemma_ended_run_only_stops(Mode::Persist, f, later);
    assert(seq![ActionView::Stop(f)] + Seq::new(later.len(), |i: int| ActionView::Stop(f))
        =~= Seq::new(later.len() + 1, |i: int| ActionView::Stop(f)));
}

/// When every setup step succeeds, the broker run opens a channel, declares
/// the queue once, registers the consumer once, and only then pulls the
/// first delivery.
pub proof fn setup_runs_in_order(mode: Mode)
    ensures
        run(
            mode,
            PhaseView::ConnectingBroker,
            seq![EventView::Succeeded, EventView::Succeeded, EventView::Succeeded, EventView::Succeeded],
        ) == (
            PhaseView::AwaitingDelivery,
            seq![
                ActionView::OpenChannel,
                ActionView::DeclareQueue,
                ActionView::RegisterConsumer,
                ActionView::Pull,
            ],
        ),
{
    let s = EventView::Succeeded;
    let none = Seq::<EventView>::empty();
    lemma_run_cons(mode, PhaseView::RegisteringConsumer, s, none);
    assert(seq![s] + none =~= seq![s]);
    lemma_run_cons(mode, PhaseView::DeclaringQueue, s, seq![s]);
    assert(seq![s] + seq![s] =~= seq![s, s]);
    lemma_run_cons(mode, PhaseView::OpeningChannel, s, seq![s, s]);
    assert(seq![s] + seq![s, s] =~= seq![s, s, s]);
    lemma_run_cons(mode, PhaseView::ConnectingBroker, s, seq![s, s, s]);
    assert(seq![s] + seq![s, s, s] =~= seq![s, s, s, s]);
    assert(seq![ActionView::Pull] + Seq::<ActionView>::empty() =~= seq![ActionView::Pull]);
    assert(seq![ActionView::RegisterConsumer] + seq![ActionView::Pull] =~= seq![
        ActionView::RegisterConsumer,
        ActionView::Pull,
    ]);
    assert(seq![ActionView::DeclareQueue] + seq![ActionView::RegisterConsumer, ActionView::Pull]
        =~= seq![ActionView::DeclareQueue, ActionView::RegisterConsumer, ActionView::Pull]);
    assert(seq![ActionView::OpenChannel] + seq![
        ActionView::DeclareQueue,
        ActionView::RegisterConsumer,
        ActionView::Pull,
    ] =~= seq![
        ActionView::OpenChannel,
        ActionView::DeclareQueue,
        ActionView::RegisterConsumer,
        ActionView::Pull,
    ]);
}

} // verus!
