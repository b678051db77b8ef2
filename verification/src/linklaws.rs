//! What goes over the link, and what the client remembers of it.
//!
//! Everything here is said of what waits, of what is sent and of what the game believes
//! after it.
use crate::link::{
    analogs_reset, analogs_write, broken_line, buttons_reset, buttons_write, closed_line, drawn,
    fared_badly, heard_back, label, parted, picture_requests, ran, resync_counted, round_requests, took_off, went_on,
    Farewell, FarewellStep, LinkAction, LinkEvent, Pipeline, Pump, Reply, Round, Stage, Step,
};
use crate::known::named;
use crate::queuelaws::{agree, queueing_keeps_agreement, sending_keeps_agreement, told};
use crate::single::Single;
use crate::spiceapi::{
    backlog_is_news, batches, batches_keep_the_queue_in_order, distinct, drop_is_news, edge_taken,
    levels_taken, lists, remembered, slow, Client, Edge, IoModel, Pending, Queued,
};
use crate::wire::{value_text, ParamsModel, RequestModel};
use vstd::prelude::*;

verus! {

/// The edges that requests carry, in the order they are sent in.
pub open spec fn edges_sent(r: Seq<RequestModel>) -> Seq<(Seq<char>, bool)>
    decreases r.len(),
{
    if r.len() == 0 {
        Seq::empty()
    } else {
        (match r.first().params {
            ParamsModel::Buttons(v) => v,
            ParamsModel::Levels(_) => Seq::empty(),
        }) + edges_sent(r.drop_first())
    }
}

/// What a game believes of the buttons after it heard these edges.
pub open spec fn heard(picture: Map<Seq<char>, bool>, edges: Seq<(Seq<char>, bool)>) -> Map<
    Seq<char>,
    bool,
>
    decreases edges.len(),
{
    if edges.len() == 0 {
        picture
    } else {
        heard(picture, edges.drop_last()).insert(edges.last().0, edges.last().1)
    }
}

/// Whether a request sets both faders, the left one first.
pub open spec fn sets_faders(
    r: RequestModel,
    left: serde_json::Value,
    right: serde_json::Value,
) -> bool {
    &&& r.module == "analogs"@
    &&& r.function == "write"@
    &&& r.params == ParamsModel::Levels(
        seq![("Fader-L"@, value_text(left)), ("Fader-R"@, value_text(right))],
    )
}

/// Whether a request sets buttons to these edges, in this order.
pub open spec fn sets_buttons(r: RequestModel, edges: Seq<Edge>) -> bool {
    &&& r.module == "buttons"@
    &&& r.function == "write"@
    &&& r.params matches ParamsModel::Buttons(v) && v.len() == edges.len() && forall|j: int|
        0 <= j < edges.len() ==> #[trigger] v[j] == (edges[j].0@, edges[j].1)
}

proof fn lemma_names(a: Seq<Edge>, b: Seq<Edge>)
    ensures
        named(a + b) == named(a) + named(b),
{
    assert(named(a + b) =~= named(a) + named(b));
}

proof fn lemma_edges_sent(
    b: Seq<Seq<Edge>>,
    levels: Option<(serde_json::Value, serde_json::Value)>,
)
    ensures
        edges_sent(round_requests(b, levels)) == named(b.flatten()),
    decreases b.len(),
{
    let r = round_requests(b, levels);
    if b.len() == 0 {
        assert(b.flatten() =~= Seq::<Edge>::empty());
        assert(named(b.flatten()) =~= Seq::<(Seq<char>, bool)>::empty());
        if levels is Some {
            assert(r.drop_first() =~= Seq::<RequestModel>::empty());
            assert(edges_sent(r.drop_first()) =~= Seq::<(Seq<char>, bool)>::empty());
            assert(edges_sent(r) =~= Seq::<(Seq<char>, bool)>::empty());
        }
    } else {
        lemma_edges_sent(b.drop_first(), levels);
        assert(r.drop_first() =~= round_requests(b.drop_first(), levels));
        assert(r.first() == buttons_write(named(b.first())));
        lemma_names(b.first(), b.drop_first().flatten());
    }
}

/// A round sends one request for each batch and one for the levels where there are any:
/// request `i` sets the buttons of batch `i`, and the levels go last. The edges of the
/// requests, one request behind the other, are the batches, one behind the other.
pub proof fn every_batch_is_a_request(
    b: Seq<Seq<Edge>>,
    levels: Option<(serde_json::Value, serde_json::Value)>,
    i: int,
)
    ensures
        round_requests(b, levels).len() == b.len() + (if levels is Some {
            1int
        } else {
            0
        }),
        0 <= i < b.len() ==> sets_buttons(round_requests(b, levels)[i], b[i]),
        levels matches Some((left, right)) ==> sets_faders(
            round_requests(b, levels).last(),
            left,
            right,
        ),
        edges_sent(round_requests(b, levels)).len() == b.flatten().len(),
        forall|j: int|
            0 <= j < b.flatten().len() ==> #[trigger] edges_sent(round_requests(b, levels))[j] == (
                b.flatten()[j].0@,
                b.flatten()[j].1,
            ),
{
    lemma_edges_sent(b, levels);
    if let Some((left, right)) = levels {
        lemma_sets_faders(left, right);
    }
}

proof fn lemma_sets_faders(left: serde_json::Value, right: serde_json::Value)
    ensures
        sets_faders(analogs_write(left, right), left, right),
{
    let r = analogs_write(left, right);
    assert(r.params =~= ParamsModel::Levels(
        seq![("Fader-L"@, value_text(left)), ("Fader-R"@, value_text(right))],
    ));
}

proof fn lemma_heard(picture: Map<Seq<char>, bool>, queue: Seq<Edge>)
    ensures
        heard(picture, named(queue)) == told(picture, queue),
    decreases queue.len(),
{
    if queue.len() > 0 {
        lemma_heard(picture, queue.drop_last());
        assert(named(queue).drop_last() =~= named(queue.drop_last()));
    }
}

/// A round sends the whole queue: the edges of its requests are those that waited, all of
/// them and in their order, so a game that hears them believes what the queue tells. No
/// request holds a button twice.
pub proof fn a_round_sends_the_whole_queue(
    pump: Pump,
    pump_after: Pump,
    p: Pending,
    p_after: Pending,
    timed_out: bool,
    round: Round,
    levels: Option<(serde_json::Value, serde_json::Value)>,
    believed: Map<Seq<char>, bool>,
)
    requires
        drawn(pump, pump_after, p, p_after, timed_out, round),
    ensures
        ({
            let r = round_requests(lists(round.batches@), levels);
            &&& edges_sent(r).len() == p.buttons@.len()
            &&& forall|j: int|
                0 <= j < p.buttons@.len() ==> #[trigger] edges_sent(r)[j] == (
                    p.buttons@[j].0@,
                    p.buttons@[j].1,
                )
            &&& heard(believed, edges_sent(r)) == told(believed, p.buttons@)
            &&& forall|i: int| #![trigger round.batches@[i]]
                0 <= i < round.batches@.len() ==> distinct(round.batches@[i]@)
                    && round.batches@[i]@.len() > 0 && sets_buttons(r[i], round.batches@[i]@)
        }),
        p_after.buttons@.len() == 0,
        round.analogs == p.analogs,
        p_after.analogs is None,
        p_after.known == p.known && p_after.known_analogs == p.known_analogs,
        p_after.stop == p.stop && p_after.dropped_offline == p.dropped_offline,
{
    batches_keep_the_queue_in_order(p.buttons@);
    lemma_edges_sent(lists(round.batches@), levels);
    lemma_heard(believed, p.buttons@);
    let r = round_requests(lists(round.batches@), levels);
    assert forall|i: int| #![trigger round.batches@[i]] 0 <= i < round.batches@.len() implies distinct(
        round.batches@[i]@,
    ) && round.batches@[i]@.len() > 0 && sets_buttons(r[i], round.batches@[i]@) by {
        assert(lists(round.batches@)[i] == round.batches@[i]@);
        every_batch_is_a_request(lists(round.batches@), levels, i);
    }
}

/// The picture stays due until it was sent: it becomes due after the link was idle for
/// long enough, goes out in the first round without edges unless the link is being closed,
/// and is due no more after that. Numbers are not used up by it.
pub proof fn the_picture_is_due_until_it_is_sent(
    pump: Pump,
    pump_after: Pump,
    p: Pending,
    p_after: Pending,
    timed_out: bool,
    round: Round,
)
    requires
        drawn(pump, pump_after, p, p_after, timed_out, round),
    ensures
        round.resync <==> (pump.resync_due || timed_out) && p.buttons@.len() == 0 && !p.stop,
        pump_after.resync_due <==> (pump.resync_due || timed_out) && !round.resync,
        pump_after.id == pump.id,
        round.stop == p.stop,
        round.parts().contains(Stage::Picture) <==> round.resync,
        round.parts().contains(Stage::HangUp) <==> round.stop,
        round.parts().contains(Stage::Write) <==> !round.stop,
        round.resync ==> round.parts().first() == Stage::Picture,
        round.parts().len() <= 2,
        pump.idle(p) <==> !p.stop && p.buttons@.len() == 0 && p.analogs is None && !pump.resync_due,
{
    let parts = round.parts();
    assert(parts.contains(parts[0]));
    assert(parts.contains(parts.last()));
    if round.resync {
        assert(parts[0] == Stage::Picture);
        assert(parts[1] == parts.last());
    }
}

/// The picture tells a game every button that is known and both faders, the buttons in one
/// request and the faders behind it; where no button is known only the faders go out.
pub proof fn the_picture_tells_everything(
    p: Pending,
    left: serde_json::Value,
    right: serde_json::Value,
    believed: Map<Seq<char>, bool>,
)
    ensures
        ({
            let r = picture_requests(p, left, right);
            &&& r.len() == (if p.known.entries@.len() == 0 {
                1int
            } else {
                2
            })
            &&& sets_faders(r.last(), left, right)
            &&& p.known.entries@.len() > 0 ==> sets_buttons(r[0], p.known.entries@)
            &&& edges_sent(r) == named(p.known.entries@)
            &&& heard(believed, edges_sent(r)) == told(believed, p.known.entries@)
        }),
{
    let r = picture_requests(p, left, right);
    let all = p.known.entries@;
    lemma_sets_faders(left, right);
    lemma_heard(believed, all);
    let last = seq![analogs_write(left, right)];
    assert(last.drop_first() =~= Seq::<RequestModel>::empty());
    reveal_with_fuel(edges_sent, 3);
    if all.len() == 0 {
        assert(named(all) =~= Seq::<(Seq<char>, bool)>::empty());
        assert(edges_sent(r) =~= named(all));
    } else {
        assert(r.drop_first() =~= last);
        assert(edges_sent(r) =~= named(all));
    }
}

/// Hanging up asks the game to reset its buttons and its faders, and sets none.
pub proof fn a_farewell_resets(r: RequestModel)
    requires
        r == buttons_reset() || r == analogs_reset(),
    ensures
        r.function == "write_reset"@,
        edges_sent(seq![r]).len() == 0,
        r == buttons_reset() ==> r.module == "buttons"@,
        r == analogs_reset() ==> r.module == "analogs"@,
{
    assert(seq![r].drop_first() =~= Seq::<RequestModel>::empty());
    assert(edges_sent(seq![r].drop_first()).len() == 0);
}

/// Whether the queue is what is left to tell of the picture, and the levels that wait, where
/// any do, are the ones known last.
pub open spec fn in_step(p: Pending) -> bool {
    &&& agree(p.buttons@, p.known@)
    &&& p.analogs matches Some(levels) ==> levels == p.known_analogs
}

/// A button that goes down or up is known from then on, link or no link, and nothing else
/// of the picture changes. With a link its edge waits behind all others; without one it is
/// counted and nothing waits. The queue and the picture stay in step.
pub proof fn a_button_is_always_known(
    c: Client,
    after: Client,
    name: &'static str,
    down: bool,
    r: Queued,
    other: Seq<char>,
)
    requires
        edge_taken(c, after, name, down, r),
        c.connected || c.pending.buttons@.len() == 0,
        in_step(c.pending),
        other != name@,
    ensures
        after.pending.known@.contains_key(name@) && after.pending.known@[name@] == down,
        after.pending.known@.contains_key(other) == c.pending.known@.contains_key(other),
        c.pending.known@.contains_key(other) ==> after.pending.known@[other]
            == c.pending.known@[other],
        in_step(after.pending),
        c.connected ==> after.pending.buttons@.len() == c.pending.buttons@.len() + 1
            && after.pending.buttons@.last() == (name, down)
            && after.pending.buttons@.drop_last() == c.pending.buttons@
            && after.pending.dropped_offline == c.pending.dropped_offline
            && (r matches Queued::Behind(n) && n == after.pending.buttons@.len() as usize),
        !c.connected ==> after.pending.buttons@.len() == 0 && after.pending.dropped_offline
            == c.pending.dropped_offline + 1 && r == Queued::Offline(after.pending.dropped_offline),
        after.pending.analogs == c.pending.analogs && after.pending.known_analogs
            == c.pending.known_analogs && after.pending.stop == c.pending.stop,
        after.connected == c.connected && after.port == c.port && after.stats == c.stats
            && after.status == c.status && after.status_epoch == c.status_epoch,
{
    if c.connected {
        queueing_keeps_agreement(c.pending.buttons@, c.pending.known@, name, down);
        assert(after.pending.buttons@.drop_last() =~= c.pending.buttons@);
    }
}

/// The worker connects, waits or ends by whether the link is being closed, and tells about
/// it: it is connected exactly after the game took the connection, a new connection starts
/// with an empty queue and the whole picture, and no event touches what is known or the
/// levels that wait.
pub proof fn a_connection_starts_from_the_picture(
    c: Client,
    after: Client,
    event: LinkEvent,
    r: LinkAction,
)
    requires
        ran(c, after, event, r),
        c.pending.buttons@.len() <= usize::MAX,
        in_step(c.pending),
    ensures
        after.pending.known == c.pending.known,
        after.pending.known_analogs == c.pending.known_analogs,
        after.pending.analogs == c.pending.analogs,
        after.pending.stop == c.pending.stop,
        after.port == c.port,
        in_step(after.pending),
        event is Connected ==> after.connected && after.pending.buttons@.len() == 0
            && after.pending.dropped_offline == 0 && (r matches LinkAction::Talk(stale, offline)
            && stale == c.pending.buttons@.len() && offline == c.pending.dropped_offline),
        !(event is Connected) ==> after.pending == c.pending,
        event is Refused || event is Ended ==> !after.connected,
        event is Begun || event is Waited ==> after == c,
        r == LinkAction::Exit <==> c.pending.stop && !(event is Connected),
        r == LinkAction::Connect <==> !c.pending.stop && (event is Begun || event is Waited),
        r == LinkAction::Wait <==> !c.pending.stop && (event is Refused || event is Ended),
        event is Connected || event is Refused || event is Ended ==> after.status_epoch
            != c.status_epoch,
{
    if event is Connected {
        sending_keeps_agreement(
            c.pending.buttons@,
            c.pending.known@,
            c.pending.buttons@.len() as int,
        );
        assert(after.pending.buttons@ =~= c.pending.buttons@.skip(
            c.pending.buttons@.len() as int,
        ));
    }
}

/// A round keeps the queue and the picture in step.
pub proof fn a_round_keeps_in_step(
    pump: Pump,
    pump_after: Pump,
    p: Pending,
    p_after: Pending,
    timed_out: bool,
    round: Round,
)
    requires
        drawn(pump, pump_after, p, p_after, timed_out, round),
        in_step(p),
    ensures
        in_step(p_after),
        round.analogs matches Some(levels) ==> levels == p_after.known_analogs,
{
}

/// The last lines: with one more there is one more, up to 48; the new one is last, and the
/// others are the latest of those before, in their order.
pub proof fn one_more_line_is_remembered(recent: Seq<Seq<char>>, line: Seq<char>, i: int)
    requires
        recent.len() <= 48,
    ensures
        ({
            let after = remembered(recent, line);
            &&& recent.len() < 48 ==> after.len() == recent.len() + 1
            &&& recent.len() == 48 ==> after.len() == 48
            &&& after.last() == line
            &&& 0 <= i < after.len() - 1 ==> after[i] == recent[recent.len() - after.len() + 1 + i]
        }),
{
}

/// An answer counts once: it is one more good request and no failure, slow from 50.0 on, the
/// last round trip, and the longest where none was longer. Nothing else changes but the
/// lines.
pub proof fn an_answer_counts_once(m: IoModel, rtt: Single, line: Seq<char>)
    requires
        m.wf(),
        m.req_ok < u64::MAX,
        m.slow_req < u64::MAX,
        !rtt.nan(),
        !m.max_rtt_ms.nan(),
    ensures
        ({
            let after = m.answered(rtt, line);
            &&& after.req_ok == m.req_ok + 1
            &&& after.req_fail == m.req_fail
            &&& after.resyncs == m.resyncs
            &&& after.last_rtt_ms == rtt
            &&& rtt.at_most(after.max_rtt_ms) && m.max_rtt_ms.at_most(after.max_rtt_ms)
            &&& after.max_rtt_ms == rtt || after.max_rtt_ms == m.max_rtt_ms
            &&& (Single { bits: 0x4248_0000 }).at_most(rtt) ==> after.slow_req == m.slow_req + 1
            &&& rtt.below(Single { bits: 0x4248_0000 }) ==> after.slow_req == m.slow_req
            &&& slow(rtt) <==> (Single { bits: 0x4248_0000 }).at_most(rtt)
            &&& after.recent.last() == line
            &&& after.last_module == m.last_module
            &&& after.in_flight_since == m.in_flight_since
            &&& after.in_flight_label == m.in_flight_label
        }),
{
}

/// A request without a good reply is one more failure, is in flight no more, and leaves a
/// line; it is no good request and no round trip.
pub proof fn a_bad_reply_counts_once(m: IoModel, name: Seq<char>, reply: Reply)
    requires
        m.wf(),
        m.req_fail < u64::MAX,
        !(reply is Answered),
    ensures
        ({
            let after = fared_badly(m, name, reply);
            &&& after.req_fail == m.req_fail + 1
            &&& after.req_ok == m.req_ok && after.slow_req == m.slow_req
            &&& after.resyncs == m.resyncs
            &&& after.last_rtt_ms == m.last_rtt_ms && after.max_rtt_ms == m.max_rtt_ms
            &&& after.in_flight_since is None && after.in_flight_label.len() == 0
            &&& after.last_module == m.last_module
            &&& m.recent.len() < 48 ==> after.recent.len() == m.recent.len() + 1
            &&& m.recent.len() == 48 ==> after.recent.len() == 48
        }),
        m.landed().failed().req_fail == m.req_fail + 1,
        m.landed().failed().req_ok == m.req_ok,
        m.landed().failed().in_flight_since is None,
        m.landed().failed().in_flight_label.len() == 0,
        m.landed().failed().recent == m.recent,
        m.landed().req_fail == m.req_fail && m.landed().req_ok == m.req_ok && m.landed().recent
            == m.recent,
{
}

/// A request that takes off is in flight from then on under its own name, and landing ends
/// that; neither counts as an answer or a failure.
pub proof fn what_takes_off_lands(m: IoModel, req: RequestModel, id: nat, now: u64)
    ensures
        ({
            let up = took_off(m, req, id, now);
            let down = up.landed();
            &&& up.in_flight_since == Some(now)
            &&& up.in_flight_label == label(req, id)
            &&& req.module.is_prefix_of(up.in_flight_label)
            &&& up.last_module.len() == req.module.len() + 1 + req.function.len()
            &&& up.last_module.is_prefix_of(up.in_flight_label)
            &&& up.req_ok == m.req_ok && up.req_fail == m.req_fail && up.slow_req == m.slow_req
            &&& up.recent == m.recent && up.resyncs == m.resyncs
            &&& up.last_rtt_ms == m.last_rtt_ms && up.max_rtt_ms == m.max_rtt_ms
            &&& down.in_flight_since is None
            &&& down.in_flight_label.len() == 0
            &&& down.last_module == up.last_module
        }),
{
    reveal_strlit(".");
    reveal_strlit(" id=");
    let up = took_off(m, req, id, now);
    let name = up.in_flight_label;
    assert(req.module =~= name.subrange(0, req.module.len() as int));
    assert(up.last_module =~= name.subrange(0, up.last_module.len() as int));
}

/// Dropped edges are worth a warning at the first, the twenty-fifth and every two hundred
/// and fiftieth, and at no other.
pub proof fn drops_are_reported_ever_more_rarely(n: u64, k: u64)
    requires
        n == 250 * k,
        k < 1_000_000_000,
    ensures
        drop_is_news(1),
        drop_is_news(25),
        drop_is_news(n),
        forall|j: u64|
            n < j < n + 250 && j != 1 && j != 25 ==> !(#[trigger] drop_is_news(j)),
{
}

/// A backlog is worth a warning when it reaches twenty, fifty and a hundred, and never
/// again.
pub proof fn a_backlog_is_reported_three_times(q: usize)
    ensures
        q < 20 ==> !backlog_is_news(q),
        20 < q < 50 ==> !backlog_is_news(q),
        50 < q < 100 ==> !backlog_is_news(q),
        q > 100 ==> !backlog_is_news(q),
        q == 20 || q == 50 || q == 100 ==> backlog_is_news(q),
{
}

/// A run writes its requests in their order, each once and under the number that follows the
/// one before; it waits for a reply only once all are written, and is done exactly once each
/// was answered. What is in flight meanwhile is the request whose reply is awaited.
pub proof fn a_run_writes_all_before_it_reads(
    p: Pipeline,
    p_after: Pipeline,
    id: u64,
    id_after: u64,
    m: IoModel,
    after: IoModel,
    r: Step,
)
    requires
        p.wf(),
        p_after.wf(),
        id == p.first + p.labels@.len(),
        went_on(p, p_after, id, id_after, m, after, r),
    ensures
        ({
            let n = p.labels@.len() as int;
            &&& r is Write <==> n < p.reqs@.len()
            &&& r is Read <==> n == p.reqs@.len() && p.replies < n
            &&& r is Done <==> n == p.reqs@.len() && p.replies == n
            &&& !(r is Failed)
            &&& r matches Step::Write(b) ==> b@ == p.reqs@[n]@.message((p.first + n) as nat)
                && id_after == id + 1 && p_after.labels@.len() == n + 1 && after == m
            &&& !(r is Write) ==> id_after == id && p_after.labels == p.labels
            &&& id_after == p_after.first + p_after.labels@.len()
            &&& r is Read ==> after.in_flight_label == label(
                p.reqs@[p.replies as int]@,
                (p.first + p.replies) as nat,
            )
            &&& r is Read && p.replies == 0 ==> after.in_flight_since == Some(p.started)
            &&& r is Done && n > 0 ==> after.in_flight_since is None && after.in_flight_label.len()
                == 0
            &&& p_after.reqs == p.reqs && p_after.replies == p.replies && p_after.first == p.first
            &&& after.req_ok == m.req_ok && after.req_fail == m.req_fail && after.recent
                == m.recent && after.resyncs == m.resyncs
        }),
{
}

/// An answer is the next reply of the run and counts as one; anything else ends the run
/// where it is and counts as a failure, with a reason.
pub proof fn an_answer_is_the_next_reply(
    p: Pipeline,
    p_after: Pipeline,
    m: IoModel,
    after: IoModel,
    reply: Reply,
    r: Result<bool, String>,
)
    requires
        p.wf(),
        p.replies < p.labels@.len() <= usize::MAX,
        m.wf(),
        m.req_ok < u64::MAX,
        m.req_fail < u64::MAX,
        heard_back(p, p_after, m, after, reply, r),
    ensures
        r is Ok <==> reply is Answered,
        reply is Answered ==> p_after.replies == p.replies + 1 && after.req_ok == m.req_ok + 1
            && after.req_fail == m.req_fail,
        reply matches Reply::Answered(rtt, _) ==> after.last_rtt_ms == rtt && r == Ok::<
            bool,
            String,
        >((Single { bits: 0x4248_0000 }).at_most(rtt)),
        !(reply is Answered) ==> p_after == p && after.req_ok == m.req_ok && after.req_fail
            == m.req_fail + 1 && after.in_flight_since is None,
        reply matches Reply::Closed(_) ==> (r matches Err(why) && why@ == "connection closed"@),
        reply matches Reply::Broken(_, _, error) ==> (r matches Err(why) && why@ == "read: "@
            + error@),
        p_after.reqs == p.reqs && p_after.labels == p.labels && p_after.first == p.first,
{
}

/// Hanging up is two requests and an end: the buttons are reset first and the faders second,
/// each under the next number, and then the talk ends and nothing more is sent.
pub proof fn a_farewell_is_two_requests_and_an_end(
    pump: Pump,
    pump_after: Pump,
    m: IoModel,
    after: IoModel,
    at: Farewell,
    at_after: Farewell,
    now: u64,
    r: FarewellStep,
)
    requires
        at != Farewell::FadersDone ==> pump.id < u64::MAX,
        parted(pump, pump_after, m, after, at, at_after, now, r),
    ensures
        r is End <==> at == Farewell::FadersDone,
        r matches FarewellStep::Send(req, message, name) ==> {
            &&& req@.function == "write_reset"@
            &&& req@.module == (if at == Farewell::Begun {
                "buttons"@
            } else {
                "analogs"@
            })
            &&& message@ == req@.message(pump.id as nat)
            &&& name@ == label(req@, pump.id as nat)
            &&& pump_after.id == pump.id + 1
            &&& after.in_flight_since == Some(now)
            &&& after.in_flight_label == name@
        },
        at == Farewell::Begun ==> at_after == Farewell::ButtonsDone,
        at == Farewell::ButtonsDone ==> at_after == Farewell::FadersDone,
        at == Farewell::FadersDone ==> at_after == at && pump_after == pump && after == m,
        pump_after.resync_due == pump.resync_due,
        after.req_ok == m.req_ok && after.req_fail == m.req_fail && after.recent == m.recent,
{
}

/// Sending the picture is counted, and worth a line the first time and whenever a button is
/// held.
pub proof fn pictures_are_counted(m: IoModel, after: IoModel, held: bool, r: (u64, bool))
    requires
        m.resyncs < u64::MAX,
        resync_counted(m, after, held, r),
    ensures
        after.resyncs == m.resyncs + 1,
        r.0 == after.resyncs,
        m.resyncs == 0 ==> r.1,
        m.resyncs > 0 ==> r.1 == held,
        after.req_ok == m.req_ok && after.req_fail == m.req_fail && after.slow_req == m.slow_req,
        after.recent == m.recent && after.in_flight_since == m.in_flight_since,
        after.last_rtt_ms == m.last_rtt_ms && after.max_rtt_ms == m.max_rtt_ms,
{
}

/// Only the last levels count: they are the ones that wait and the ones that are known, left
/// and right, and nothing else changes.
pub proof fn only_the_last_levels_wait(
    c: Client,
    left: Single,
    right: Single,
    left2: Single,
    right2: Single,
)
    ensures
        ({
            let after = levels_taken(c, left, right);
            &&& after.pending.analogs matches Some((l, r)) && l == left && r == right
            &&& after.pending.known_analogs.0 == left && after.pending.known_analogs.1 == right
            &&& after.pending.buttons == c.pending.buttons && after.pending.known
                == c.pending.known && after.pending.stop == c.pending.stop
                && after.pending.dropped_offline == c.pending.dropped_offline
            &&& after.connected == c.connected && after.port == c.port && after.stats == c.stats
                && after.status == c.status && after.status_epoch == c.status_epoch
            &&& in_step(c.pending) ==> in_step(after.pending)
            &&& levels_taken(after, left2, right2) == levels_taken(c, left2, right2)
        }),
{
}

/// What is remembered of a request without a good reply begins with its name and tells a
/// timeout from any other failure; the error stands at the end, after how long it took.
pub proof fn a_timeout_is_told_from_a_failure(
    name: Seq<char>,
    timed_out: bool,
    ms: Seq<char>,
    error: Seq<char>,
)
    ensures
        ({
            let line = broken_line(name, timed_out, ms, error);
            let closed = closed_line(name, ms);
            &&& timed_out ==> ("spiceapi "@ + name + " READ TIMEOUT after "@ + ms).is_prefix_of(line)
            &&& !timed_out ==> ("spiceapi "@ + name + " read error after "@ + ms).is_prefix_of(line)
            &&& ("spiceapi "@ + name + " connection closed after "@ + ms).is_prefix_of(closed)
            &&& line.len() >= error.len() && line.skip(line.len() - error.len()) == error
        }),
{
    let line = broken_line(name, timed_out, ms, error);
    let closed = closed_line(name, ms);
    let late = "spiceapi "@ + name + " READ TIMEOUT after "@ + ms;
    let bad = "spiceapi "@ + name + " read error after "@ + ms;
    let shut = "spiceapi "@ + name + " connection closed after "@ + ms;
    if timed_out {
        assert(late =~= line.subrange(0, late.len() as int));
    } else {
        assert(bad =~= line.subrange(0, bad.len() as int));
    }
    assert(shut =~= closed.subrange(0, shut.len() as int));
    assert(line.skip(line.len() - error.len()) =~= error);
}

/// Taking from the queue touches nothing but the queue.
pub proof fn only_the_queue_is_drained(p: Pending, after: Pending)
    requires
        after.but_for_buttons(p),
    ensures
        after.analogs == p.analogs && after.stop == p.stop && after.known == p.known,
        after.known_analogs == p.known_analogs && after.dropped_offline == p.dropped_offline,
{
}

} // verus!
