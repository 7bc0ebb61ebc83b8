//! What a run of the ingestion loop writes, over any sequence of deliveries.

use vstd::prelude::*;
use crate::ingest::{transition, ActionView, EventView, Phase, PAUSE_MILLIS};
use crate::record::utf8_text;
use crate::schema::{listed, standard_layout};

verus! {

/// The phase reached and the actions handed out when `events` are fed to the
/// loop one after the other, starting in `phase`.
pub open spec fn run(phase: Phase, events: Seq<EventView>, table: Seq<char>) -> (Phase, Seq<ActionView>)
    decreases events.len(),
{
    if events.len() == 0 {
        (phase, Seq::empty())
    } else {
        let before = run(phase, events.drop_last(), table);
        let next = transition(before.0, events.last(), table);
        (next.0, before.1.push(next.1))
    }
}

/// The message texts of the writes among `actions`, in order.
pub open spec fn writes(actions: Seq<ActionView>) -> Seq<Seq<char>>
    decreases actions.len(),
{
    if actions.len() == 0 {
        Seq::empty()
    } else {
        match actions.last() {
            ActionView::Write(_, text) => writes(actions.drop_last()).push(text),
            _ => writes(actions.drop_last()),
        }
    }
}

/// One message's turn of the loop: the polls that came back empty (`true`)
/// or failed (`false`) before it arrived, its payload, and whether its write
/// succeeded.
pub struct Delivery {
    pub idle_polls: Seq<bool>,
    pub payload: Seq<u8>,
    pub write_ok: bool,
}

/// The texts of the delivered payloads that decode as UTF-8, in order.
pub open spec fn decoded_texts(deliveries: Seq<Delivery>) -> Seq<Seq<char>>
    decreases deliveries.len(),
{
    if deliveries.len() == 0 {
        Seq::empty()
    } else {
        match utf8_text(deliveries.last().payload) {
            Some(text) => decoded_texts(deliveries.drop_last()).push(text),
            None => decoded_texts(deliveries.drop_last()),
        }
    }
}

/// The events of polls that bring no message, each followed by the pause.
pub open spec fn idle_events(polls: Seq<bool>) -> Seq<EventView>
    decreases polls.len(),
{
    if polls.len() == 0 {
        Seq::empty()
    } else {
        idle_events(polls.drop_last()) + seq![
            if polls.last() { EventView::PollEmpty } else { EventView::PollFailed },
            EventView::Paused,
        ]
    }
}

/// The events of a poll that receives `payload`: the delivery, the write's
/// outcome where the payload decodes, and the end of the pause.
pub open spec fn arrival(payload: Seq<u8>, write_ok: bool) -> Seq<EventView> {
    if utf8_text(payload) is Some {
        seq![
            EventView::Delivered(payload),
            if write_ok { EventView::Written } else { EventView::WriteFailed },
            EventView::Paused,
        ]
    } else {
        seq![EventView::Delivered(payload), EventView::Paused]
    }
}

/// The events of one delivery, idle polls first.
pub open spec fn iteration(d: Delivery) -> Seq<EventView> {
    idle_events(d.idle_polls) + arrival(d.payload, d.write_ok)
}

/// The events of consecutive deliveries.
pub open spec fn iterations(deliveries: Seq<Delivery>) -> Seq<EventView>
    decreases deliveries.len(),
{
    if deliveries.len() == 0 {
        Seq::empty()
    } else {
        iterations(deliveries.drop_last()) + iteration(deliveries.last())
    }
}

proof fn run_concat(phase: Phase, a: Seq<EventView>, b: Seq<EventView>, table: Seq<char>)
    ensures
        run(phase, a + b, table) == ({
            let mid = run(phase, a, table);
            let rest = run(mid.0, b, table);
            (rest.0, mid.1 + rest.1)
        }),
    decreases b.len(),
{
    let mid = run(phase, a, table);
    if b.len() == 0 {
        assert(a + b =~= a);
        assert(mid.1 + Seq::<ActionView>::empty() =~= mid.1);
    } else {
        assert((a + b).drop_last() =~= a + b.drop_last());
        assert((a + b).last() == b.last());
        run_concat(phase, a, b.drop_last(), table);
        let rest = run(mid.0, b.drop_last(), table);
        assert((mid.1 + rest.1).push(transition(rest.0, b.last(), table).1)
            =~= mid.1 + rest.1.push(transition(rest.0, b.last(), table).1));
    }
}

proof fn writes_concat(a: Seq<ActionView>, b: Seq<ActionView>)
    ensures
        writes(a + b) == writes(a) + writes(b),
    decreases b.len(),
{
    if b.len() == 0 {
        assert(a + b =~= a);
        assert(writes(a) + Seq::<Seq<char>>::empty() =~= writes(a));
    } else {
        assert((a + b).drop_last() =~= a + b.drop_last());
        writes_concat(a, b.drop_last());
        match b.last() {
            ActionView::Write(_, text) => {
                assert((writes(a) + writes(b.drop_last())).push(text) =~= writes(a) + writes(b.drop_last()).push(text));
            },
            _ => {},
        }
    }
}

proof fn one_arrival(payload: Seq<u8>, write_ok: bool, table: Seq<char>)
    ensures
        run(Phase::Polling, arrival(payload, write_ok), table).0 == Phase::Polling,
        writes(run(Phase::Polling, arrival(payload, write_ok), table).1) == match utf8_text(payload) {
            Some(text) => seq![text],
            None => Seq::<Seq<char>>::empty(),
        },
{
    let evs = arrival(payload, write_ok);
    reveal_with_fuel(run, 4);
    reveal_with_fuel(writes, 4);
    if utf8_text(payload) is Some {
        assert(evs.drop_last().drop_last().drop_last() =~= Seq::<EventView>::empty());
        assert(evs.drop_last().drop_last() =~= seq![EventView::Delivered(payload)]);
        let acts = run(Phase::Polling, evs, table).1;
        assert(acts.drop_last().drop_last().drop_last() =~= Seq::<ActionView>::empty());
        assert(writes(acts) =~= seq![utf8_text(payload)->0]);
    } else {
        assert(evs.drop_last().drop_last() =~= Seq::<EventView>::empty());
        assert(evs.drop_last() =~= seq![EventView::Delivered(payload)]);
        let acts = run(Phase::Polling, evs, table).1;
        assert(acts.drop_last().drop_last() =~= Seq::<ActionView>::empty());
        assert(writes(acts) =~= Seq::<Seq<char>>::empty());
    }
}

proof fn idle_polls_write_nothing(polls: Seq<bool>, table: Seq<char>)
    ensures
        run(Phase::Polling, idle_events(polls), table).0 == Phase::Polling,
        writes(run(Phase::Polling, idle_events(polls), table).1) == Seq::<Seq<char>>::empty(),
    decreases polls.len(),
{
    if polls.len() == 0 {
        assert(writes(Seq::<ActionView>::empty()) == Seq::<Seq<char>>::empty());
    } else {
        let before = idle_events(polls.drop_last());
        let poll = if polls.last() { EventView::PollEmpty } else { EventView::PollFailed };
        let last = seq![poll, EventView::Paused];
        idle_polls_write_nothing(polls.drop_last(), table);
        run_concat(Phase::Polling, before, last, table);
        reveal_with_fuel(run, 3);
        reveal_with_fuel(writes, 3);
        assert(last.drop_last().drop_last() =~= Seq::<EventView>::empty());
        assert(last.drop_last() =~= seq![poll]);
        let acts = run(Phase::Polling, last, table).1;
        assert(acts.drop_last().drop_last() =~= Seq::<ActionView>::empty());
        writes_concat(run(Phase::Polling, before, table).1, acts);
        assert(Seq::<Seq<char>>::empty() + Seq::<Seq<char>>::empty() =~= Seq::<Seq<char>>::empty());
    }
}

proof fn one_iteration(d: Delivery, table: Seq<char>)
    ensures
        run(Phase::Polling, iteration(d), table).0 == Phase::Polling,
        writes(run(Phase::Polling, iteration(d), table).1) == match utf8_text(d.payload) {
            Some(text) => seq![text],
            None => Seq::<Seq<char>>::empty(),
        },
{
    idle_polls_write_nothing(d.idle_polls, table);
    one_arrival(d.payload, d.write_ok, table);
    run_concat(Phase::Polling, idle_events(d.idle_polls), arrival(d.payload, d.write_ok), table);
    writes_concat(
        run(Phase::Polling, idle_events(d.idle_polls), table).1,
        run(Phase::Polling, arrival(d.payload, d.write_ok), table).1,
    );
    assert(Seq::<Seq<char>>::empty() + Seq::<Seq<char>>::empty() =~= Seq::<Seq<char>>::empty());
    if let Some(text) = utf8_text(d.payload) {
        assert(Seq::<Seq<char>>::empty() + seq![text] =~= seq![text]);
    }
}

proof fn deliveries_write_decoded(deliveries: Seq<Delivery>, table: Seq<char>)
    ensures
        run(Phase::Polling, iterations(deliveries), table).0 == Phase::Polling,
        writes(run(Phase::Polling, iterations(deliveries), table).1) == decoded_texts(deliveries),
    decreases deliveries.len(),
{
    if deliveries.len() == 0 {
        assert(writes(Seq::<ActionView>::empty()) == Seq::<Seq<char>>::empty());
    } else {
        let ds = deliveries.drop_last();
        deliveries_write_decoded(ds, table);
        let before = iterations(ds);
        let last = iteration(deliveries.last());
        run_concat(Phase::Polling, before, last, table);
        one_iteration(deliveries.last(), table);
        writes_concat(run(Phase::Polling, before, table).1, run(Phase::Polling, last, table).1);
        match utf8_text(deliveries.last().payload) {
            Some(text) => {
                assert(decoded_texts(ds) + seq![text] =~= decoded_texts(ds).push(text));
            },
            None => {
                assert(decoded_texts(ds) + Seq::<Seq<char>>::empty() =~= decoded_texts(ds));
            },
        }
    }
}

/// Delivery law: fed one message after another from the polling phase, with
/// any number of empty or failed polls before each message and after the last,
/// the loop writes exactly the messages that decode as UTF-8, each once and in
/// the order received, whatever became of each write, and is back to polling
/// at the end. So every decodable message reaches the store when the writes
/// succeed, and neither an undecodable message, a broker error nor a failed
/// write stops the ones after it.
pub proof fn delivery_law(deliveries: Seq<Delivery>, trailing_polls: Seq<bool>, table: Seq<char>)
    ensures
        run(Phase::Polling, iterations(deliveries) + idle_events(trailing_polls), table).0 == Phase::Polling,
        writes(run(Phase::Polling, iterations(deliveries) + idle_events(trailing_polls), table).1)
            == decoded_texts(deliveries),
{
    deliveries_write_decoded(deliveries, table);
    idle_polls_write_nothing(trailing_polls, table);
    run_concat(Phase::Polling, iterations(deliveries), idle_events(trailing_polls), table);
    writes_concat(
        run(Phase::Polling, iterations(deliveries), table).1,
        run(Phase::Polling, idle_events(trailing_polls), table).1,
    );
    assert(decoded_texts(deliveries) + Seq::<Seq<char>>::empty() =~= decoded_texts(deliveries));
}

/// A payload that is not UTF-8 is dropped: no write, a pause, and the next poll.
pub proof fn undecodable_payload_is_skipped(payload: Seq<u8>, table: Seq<char>)
    requires
        utf8_text(payload) is None,
    ensures
        run(Phase::Polling, seq![EventView::Delivered(payload), EventView::Paused], table)
            == (Phase::Polling, seq![ActionView::Pause(PAUSE_MILLIS), ActionView::Poll]),
{
    let evs = seq![EventView::Delivered(payload), EventView::Paused];
    reveal_with_fuel(run, 3);
    assert(evs.drop_last().drop_last() =~= Seq::<EventView>::empty());
    assert(evs.drop_last() =~= seq![EventView::Delivered(payload)]);
    assert(run(Phase::Polling, evs, table).1 =~= seq![ActionView::Pause(PAUSE_MILLIS), ActionView::Poll]);
}

/// A write that the store rejects is not retried: the loop pauses and polls
/// for the next message.
pub proof fn failed_write_moves_on(table: Seq<char>)
    ensures
        run(Phase::Writing, seq![EventView::WriteFailed, EventView::Paused], table)
            == (Phase::Polling, seq![ActionView::Pause(PAUSE_MILLIS), ActionView::Poll]),
{
    let evs = seq![EventView::WriteFailed, EventView::Paused];
    reveal_with_fuel(run, 3);
    assert(evs.drop_last().drop_last() =~= Seq::<EventView>::empty());
    assert(evs.drop_last() =~= seq![EventView::WriteFailed]);
    assert(run(Phase::Writing, evs, table).1 =~= seq![ActionView::Pause(PAUSE_MILLIS), ActionView::Poll]);
}

/// Provisioning survives a create race: when the listing does not show the
/// table but the create is refused because another process made it meanwhile,
/// the loop goes on to poll instead of aborting.
pub proof fn create_race_is_not_fatal(names: Seq<String>, table: Seq<char>)
    requires
        !listed(names, table),
    ensures
        run(Phase::Listing, seq![EventView::TablesListed(names), EventView::TableExists], table) == (
            Phase::Polling,
            seq![ActionView::CreateTable(table, standard_layout()), ActionView::Poll],
        ),
{
    let evs = seq![EventView::TablesListed(names), EventView::TableExists];
    reveal_with_fuel(run, 3);
    assert(evs.drop_last().drop_last() =~= Seq::<EventView>::empty());
    assert(evs.drop_last() =~= seq![EventView::TablesListed(names)]);
    assert(run(Phase::Listing, evs, table).1
        =~= seq![ActionView::CreateTable(table, standard_layout()), ActionView::Poll]);
}

} // verus!
