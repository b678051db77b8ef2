//! The queue, the wire and the worker behind the link.
use pchordpad::link::{
    held_buttons, note_resync, request, request_replied, reset_requests, resync, write_failed,
    write_requests, Farewell, FarewellStep, LinkAction, LinkEvent, Pipeline, Pump, Reply, Stage, Step,
};
use pchordpad::single::Single;
use pchordpad::spiceapi::{
    backlog_warns, drain_button_batches, offline_warns, take_button_batch, Client, Figures,
    IoStats, Pending, Queued, RECENT_CAP,
};
use pchordpad::wire::{encode, Params, Request, SeenErrors};
use serde_json::Value;

fn s(v: f32) -> Single {
    Single::from_bits(v.to_bits())
}

fn pending(edges: &[(&'static str, bool)]) -> Pending {
    Pending {
        buttons: edges.to_vec(),
        ..Default::default()
    }
}

fn raw(v: f32) -> Value {
    Value::from(v)
}

fn json(message: &[u8]) -> Value {
    assert_eq!(message.last(), Some(&0), "messages must be NUL-terminated");
    serde_json::from_slice(&message[..message.len() - 1]).expect("json")
}

fn text(message: &[u8]) -> String {
    assert_eq!(message.last(), Some(&0));
    String::from_utf8(message[..message.len() - 1].to_vec()).expect("utf-8")
}

#[test]
fn discard_stale_drops_queued_edges_but_keeps_the_known_picture() {
    let mut p = pending(&[("Button 1", true), ("Button 1", false), ("Button 2", true)]);
    p.known.insert("Button 1", false);
    p.known.insert("Button 2", true);
    p.dropped_offline = 7;

    assert_eq!(p.discard_stale(), (3, 7));
    assert!(p.buttons.is_empty(), "stale edges must not be replayed");
    assert_eq!(p.dropped_offline, 0, "the offline count is consumed");
    assert_eq!(p.known.get("Button 1"), Some(false));
    assert_eq!(p.known.get("Button 2"), Some(true));
    assert_eq!(p.discard_stale(), (0, 0), "and it is idempotent");
}

#[test]
fn edges_pressed_while_offline_are_dropped_but_still_remembered() {
    let mut client = Client::start(1);
    assert!(!client.connected(), "nothing is listening");

    assert_eq!(client.button("Button 4", true), Queued::Offline(1));
    assert_eq!(client.button("Button 4", false), Queued::Offline(2));
    assert_eq!(client.button("Button 9", true), Queued::Offline(3));

    let p = &client.pending;
    assert!(
        p.buttons.is_empty(),
        "offline edges must not queue up to be replayed at the next game"
    );
    assert_eq!(p.dropped_offline, 3);
    assert_eq!(p.known.get("Button 4"), Some(false));
    assert_eq!(p.known.get("Button 9"), Some(true));
}

#[test]
fn distinct_buttons_go_out_together() {
    let mut p = pending(&[("Button 1", true), ("Button 2", true), ("Button 3", true)]);
    assert_eq!(take_button_batch(&mut p).len(), 3);
    assert!(p.buttons.is_empty());
}

#[test]
fn a_press_and_release_of_one_button_are_split() {
    let mut p = pending(&[("Button 5", true), ("Button 5", false)]);
    let first = take_button_batch(&mut p);
    assert_eq!(first, vec![("Button 5", true)]);
    let second = take_button_batch(&mut p);
    assert_eq!(second, vec![("Button 5", false)]);
    assert!(p.buttons.is_empty());
}

#[test]
fn the_split_keeps_everything_before_the_repeat() {
    let mut p = pending(&[("Button 1", true), ("Button 2", true), ("Button 1", false)]);
    assert_eq!(take_button_batch(&mut p).len(), 2);
    assert_eq!(p.buttons.len(), 1);
    assert_eq!(take_button_batch(&mut p), vec![("Button 1", false)]);
}

#[test]
fn draining_splits_repeats_into_ordered_batches() {
    let mut p = pending(&[
        ("Button 1", true),
        ("Button 2", true),
        ("Button 1", false),
        ("Button 3", true),
    ]);
    let batches = drain_button_batches(&mut p);
    assert_eq!(
        batches,
        vec![
            vec![("Button 1", true), ("Button 2", true)],
            vec![("Button 1", false), ("Button 3", true)],
        ]
    );
    assert!(p.buttons.is_empty());
}

fn online(port: u16) -> Client {
    let mut client = Client::start(port);
    assert_eq!(client.run(LinkEvent::Begun), LinkAction::Connect);
    assert_eq!(client.run(LinkEvent::Connected), LinkAction::Talk(0, 0));
    client
}

/// Runs a pipeline against a game that answers every request, and returns what it
/// was sent.
fn answered(reqs: Vec<Request>, id: &mut u64, st: &mut IoStats) -> Vec<Vec<u8>> {
    let n = reqs.len();
    let mut run = Pipeline::start(reqs, *id, 7);
    let mut written = Vec::new();
    loop {
        match run.send_pipeline(id, st) {
            Step::Write(b) => written.push(b),
            Step::Read => {
                assert_eq!(written.len(), n, "every request goes out before any reply");
                let reply = Reply::Answered(s(1.0), "1.0".to_string());
                assert_eq!(run.replied(st, reply), Ok(false));
            }
            Step::Done => return written,
            Step::Failed(why) => panic!("{why}"),
        }
    }
}

#[test]
fn a_pipeline_writes_every_request_before_reading_any_reply() {
    let reqs = vec![
        Request {
            module: "buttons",
            function: "write",
            params: Params::Buttons(vec![("Button 1", true)]),
        },
        Request {
            module: "buttons",
            function: "write",
            params: Params::Buttons(vec![("Button 1", false)]),
        },
        Request {
            module: "analogs",
            function: "write",
            params: Params::Levels(vec![("Fader-L", raw(0.5))]),
        },
    ];
    let mut st = IoStats::default();
    let mut id = 1u64;
    let written = answered(reqs, &mut id, &mut st);
    assert_eq!(id, 4, "three request ids consumed");
    let ids: Vec<u64> = written
        .iter()
        .map(|b| json(b)["id"].as_u64().unwrap())
        .collect();
    assert_eq!(ids, vec![1, 2, 3]);
    assert_eq!(st.req_ok, 3);
    assert_eq!(st.last_module, "analogs.write");
    assert!(st.in_flight_since.is_none());
}

#[test]
fn an_idle_link_re_asserts_the_full_button_picture() {
    let mut client = online(1337);
    let mut pump = Pump::new();
    assert!(pump.round(&mut client.pending, false).resync, "a fresh link");
    client.button("Button 3", true);
    client.button("Button 7", true);
    client.button("Button 7", false);
    let round = pump.round(&mut client.pending, false);
    assert!(!round.resync);
    assert_eq!(round.batches.len(), 2);

    assert!(pump.should_wait(&client.pending));
    let round = pump.round(&mut client.pending, true);
    assert!(round.resync && round.batches.is_empty());
    let mut id = 5;
    let written = answered(
        resync(&client.pending, raw(0.5), raw(0.5)),
        &mut id,
        &mut client.stats,
    );
    assert_eq!(
        text(&written[0]),
        "{\"function\":\"write\",\"id\":5,\"module\":\"buttons\",\
         \"params\":[[\"Button 3\",true],[\"Button 7\",false]]}"
    );
    assert_eq!(held_buttons(&client.pending), vec![("Button 3", true)]);
}

#[test]
fn speaks_the_wire_protocol() {
    let mut client = online(1337);
    assert_eq!(client.button("Button 7", true), Queued::Behind(1));
    client.faders(s(1.0), s(-1.0));

    let mut pump = Pump::new();
    let round = pump.round(&mut client.pending, false);
    assert!(round.analogs == Some((s(1.0), s(-1.0))));
    let mut id = pump.id;
    let msgs: Vec<Value> = answered(
        write_requests(round.batches, Some((raw(1.0), raw(0.0)))),
        &mut id,
        &mut client.stats,
    )
    .iter()
    .map(|b| json(b))
    .collect();

    assert_eq!(msgs[0]["module"], "buttons");
    assert_eq!(msgs[0]["function"], "write");
    assert_eq!(msgs[0]["params"].to_string(), "[[\"Button 7\",true]]");
    assert_eq!(msgs[1]["module"], "analogs");
    assert_eq!(msgs[1]["function"], "write");
    assert_eq!(
        msgs[1]["params"].to_string(),
        "[[\"Fader-L\",1.0],[\"Fader-R\",0.0]]"
    );
    let ids: Vec<u64> = msgs
        .iter()
        .map(|v| v["id"].as_u64().expect("id must be an unsigned int"))
        .collect();
    assert!(
        ids.windows(2).all(|w| w[1] > w[0]),
        "ids must rise: {ids:?}"
    );

    let snap = client.debug_snapshot(&Figures {
        in_flight_ms: "0".to_string(),
        last_rtt: "1.0".to_string(),
        max_rtt: "1.0".to_string(),
    });
    assert!(snap.contains("connected=true"), "{snap}");
    assert!(snap.contains("req_ok="), "{snap}");
}

#[test]
fn a_fresh_link_centres_the_faders_before_any_input() {
    let mut client = online(1337);
    let mut pump = Pump::new();
    assert!(!pump.should_wait(&client.pending));
    let round = pump.round(&mut client.pending, false);
    assert!(round.resync);
    assert!(client.pending.known_analogs == (s(0.0), s(0.0)));
    let mut id = pump.id;
    let written = answered(
        resync(&client.pending, raw(0.5), raw(0.5)),
        &mut id,
        &mut client.stats,
    );
    assert_eq!(written.len(), 1, "no button is known yet");
    assert_eq!(
        text(&written[0]),
        "{\"function\":\"write\",\"id\":1,\"module\":\"analogs\",\
         \"params\":[[\"Fader-L\",0.5],[\"Fader-R\",0.5]]}"
    );
}

#[test]
fn the_picture_waits_for_the_edges() {
    let mut p = pending(&[("Button 1", true)]);
    let mut pump = Pump::new();
    assert_eq!(pump.round(&mut p, false).pump(), vec![Stage::Write]);
    assert!(pump.resync_due);
    assert_eq!(
        pump.round(&mut p, false).pump(),
        vec![Stage::Picture, Stage::Write]
    );
    assert!(!pump.resync_due);
    p.stop = true;
    let last = pump.round(&mut p, true);
    assert!(last.stop && !last.resync);
    assert_eq!(last.pump(), vec![Stage::HangUp]);
}

#[test]
fn a_level_that_is_no_number_is_null() {
    let b = encode(
        9,
        &Request {
            module: "analogs",
            function: "write",
            params: Params::Levels(vec![("Fader-L", raw(f32::NAN)), ("Fader-R", raw(0.25))]),
        },
    )
    .expect("encodes");
    assert_eq!(
        text(&b),
        "{\"function\":\"write\",\"id\":9,\"module\":\"analogs\",\
         \"params\":[[\"Fader-L\",null],[\"Fader-R\",0.25]]}"
    );
}

#[test]
fn names_are_escaped_so_that_a_message_holds_one_nul() {
    let b = encode(
        u64::MAX,
        &Request {
            module: "mo\"d\\",
            function: "\u{1}\n\t\r\u{8}\u{c}\u{1f}é×\u{7f}/",
            params: Params::Buttons(vec![("a\0b", true)]),
        },
    )
    .expect("encodes");
    assert_eq!(b.iter().filter(|c| **c == 0).count(), 1);
    assert_eq!(
        text(&b),
        "{\"function\":\"\\u0001\\n\\t\\r\\b\\f\\u001fé×\u{7f}/\",\"id\":18446744073709551615,\
         \"module\":\"mo\\\"d\\\\\",\"params\":[[\"a\\u0000b\",true]]}"
    );
}

#[test]
fn hanging_up_resets_buttons_and_faders() {
    let (a, b) = reset_requests();
    assert_eq!(
        text(&encode(3, &a).unwrap()),
        "{\"function\":\"write_reset\",\"id\":3,\"module\":\"buttons\",\"params\":[]}"
    );
    assert_eq!(
        text(&encode(4, &b).unwrap()),
        "{\"function\":\"write_reset\",\"id\":4,\"module\":\"analogs\",\"params\":[]}"
    );
    let mut st = IoStats::default();
    let mut id = 3;
    let (name, message) = request(&mut st, &a, &mut id, 50);
    assert_eq!(id, 4);
    assert_eq!(json(&message)["id"], 3);
    assert_eq!(name, "buttons.write_reset id=3");
    assert_eq!(st.in_flight_since, Some(50));
    assert_eq!(st.in_flight_label, name);
    assert_eq!(st.last_module, "buttons.write_reset");
    let reply = Reply::Answered(s(50.0), "50.0".to_string());
    assert_eq!(request_replied(&mut st, &name, reply), Ok(true));
    assert!(st.in_flight_since.is_none());
    assert_eq!(st.slow_req, 1);
    assert_eq!(st.recent[0], "spiceapi buttons.write_reset id=3 rtt=50.0ms");
}

#[test]
fn a_link_that_closes_resets_the_game_and_says_so() {
    let mut client = online(1337);
    client.button("Button 1", true);
    client.stop();
    let mut talk = Pump::new();
    let round = talk.round(&mut client.pending, false);
    assert_eq!(round.pump(), vec![Stage::HangUp]);

    let mut at = Farewell::Begun;
    let mut written = Vec::new();
    let why = loop {
        match talk.hang_up(&mut client.stats, &mut at, 9) {
            FarewellStep::Send(req, message, name) => {
                assert_eq!(name, client.stats.in_flight_label);
                assert_eq!(client.stats.in_flight_since, Some(9));
                written.push(text(&message));
                let failed = Reply::Closed("1".to_string());
                assert!(request_replied(&mut client.stats, &name, failed).is_err());
                assert_eq!(req.function, "write_reset");
            }
            FarewellStep::End(why) => break why,
        }
    };
    assert_eq!(why, "shutting down");
    assert_eq!(
        written,
        vec![
            "{\"function\":\"write_reset\",\"id\":1,\"module\":\"buttons\",\"params\":[]}",
            "{\"function\":\"write_reset\",\"id\":2,\"module\":\"analogs\",\"params\":[]}",
        ]
    );
    assert_eq!(talk.id, 3);
    assert_eq!(client.stats.req_fail, 2);
}

fn one_request() -> Vec<Request> {
    vec![Request {
        module: "buttons",
        function: "write",
        params: Params::Buttons(vec![("Button 1", true)]),
    }]
}

fn broken(reply: Reply) -> (Result<bool, String>, IoStats) {
    let mut st = IoStats::default();
    let mut id = 1;
    let mut run = Pipeline::start(one_request(), id, 7);
    assert!(matches!(run.send_pipeline(&mut id, &mut st), Step::Write(_)));
    assert!(matches!(run.send_pipeline(&mut id, &mut st), Step::Read));
    assert_eq!(st.in_flight_since, Some(7));
    assert_eq!(st.in_flight_label, "buttons.write id=1");
    (run.replied(&mut st, reply), st)
}

#[test]
fn a_request_without_a_good_reply_ends_the_talk() {
    let (r, st) = broken(Reply::Closed("12".to_string()));
    assert_eq!(r, Err("connection closed".to_string()));
    assert_eq!(
        st.recent[0],
        "spiceapi buttons.write id=1 connection closed after 12ms"
    );
    assert_eq!((st.req_ok, st.req_fail), (0, 1));
    assert!(st.in_flight_since.is_none());

    let (r, st) = broken(Reply::Broken(true, "2000".to_string(), "timed out".to_string()));
    assert_eq!(r, Err("read: timed out".to_string()));
    assert_eq!(
        st.recent[0],
        "spiceapi buttons.write id=1 READ TIMEOUT after 2000ms: timed out"
    );

    let (r, st) = broken(Reply::Broken(false, "3".to_string(), "reset".to_string()));
    assert_eq!(r, Err("read: reset".to_string()));
    assert_eq!(
        st.recent[0],
        "spiceapi buttons.write id=1 read error after 3ms: reset"
    );
    assert_eq!(st.req_fail, 1);
}

#[test]
fn a_request_that_cannot_be_written_ends_the_talk() {
    let mut st = IoStats::default();
    assert_eq!(write_failed(&mut st, "broken pipe"), "write: broken pipe");
    assert_eq!(st.req_fail, 1);
}

#[test]
fn an_empty_pipeline_is_done_at_once() {
    let mut st = IoStats::default();
    st.in_flight_label = "something".to_string();
    let mut id = 4;
    assert!(answered(Vec::new(), &mut id, &mut st).is_empty());
    assert_eq!(id, 4);
    assert_eq!(st.in_flight_label, "something");
}

#[test]
fn the_worker_connects_talks_waits_and_exits() {
    let mut c = Client::start(1337);
    assert_eq!(c.status(), "connecting to 127.0.0.1:1337");
    assert_eq!(c.status_epoch(), 1);
    assert_eq!(c.port(), 1337);
    assert_eq!(c.run(LinkEvent::Begun), LinkAction::Connect);
    assert_eq!(c.run(LinkEvent::Refused), LinkAction::Wait);
    assert_eq!(c.status(), "no game on :1337");
    assert_eq!(c.status_epoch(), 2);
    c.button("Button 1", true);
    assert_eq!(c.run(LinkEvent::Waited), LinkAction::Connect);
    assert_eq!(c.run(LinkEvent::Connected), LinkAction::Talk(0, 1));
    assert_eq!(c.status(), "connected :1337");
    assert!(c.connected());
    c.button("Button 2", true);
    assert_eq!(
        c.run(LinkEvent::Ended("connection closed".to_string())),
        LinkAction::Wait
    );
    assert!(!c.connected());
    assert_eq!(c.status(), "disconnected (connection closed)");
    assert_eq!(c.run(LinkEvent::Connected), LinkAction::Talk(1, 0));
    c.stop();
    assert_eq!(
        c.run(LinkEvent::Ended("shutting down".to_string())),
        LinkAction::Exit
    );
    assert_eq!(c.run(LinkEvent::Waited), LinkAction::Exit);
    assert_eq!(
        c.stats.recent,
        vec![
            "spiceapi connected :1337",
            "spiceapi disconnected: connection closed",
            "spiceapi connected :1337",
            "spiceapi disconnected: shutting down",
        ]
    );
}

#[test]
fn snapshots_spell_everything_out() {
    let mut c = Client::start(1337);
    c.set_status(true, "a \"quoted\" status".to_string());
    c.button("Button 1", true);
    let figures = Figures {
        in_flight_ms: "31".to_string(),
        last_rtt: "0.5".to_string(),
        max_rtt: "2.5".to_string(),
    };
    c.stats.push_recent("one".to_string());
    c.stats.push_recent("two".to_string());
    assert_eq!(
        c.debug_snapshot(&figures),
        "spiceapi snapshot port=1337 connected=true status=\"a \\\"quoted\\\" status\" \
         q_buttons=1 q_analogs=false stop=false req_ok=0 req_fail=0 slow>=50ms=0 resyncs=0 \
         last_rtt=0.5ms max_rtt=2.5ms last_module= in_flight=[idle] recent=[\n  one\n  two\n]"
    );
    c.stats.in_flight_since = Some(1);
    c.stats.in_flight_label = "buttons.write id=1".to_string();
    assert!(c
        .debug_snapshot(&figures)
        .contains("in_flight=[buttons.write id=1 for 31ms]"));
}

#[test]
fn only_the_last_lines_are_remembered() {
    let mut st = IoStats::default();
    for i in 0..50 {
        st.push_recent(format!("line {i}"));
    }
    assert_eq!(st.recent.len(), RECENT_CAP);
    assert_eq!(st.recent[0], "line 2");
    assert_eq!(st.recent[47], "line 49");
}

#[test]
fn round_trips_are_kept_and_slow_ones_counted() {
    let mut st = IoStats::default();
    assert!(!st.record_rtt("a", s(49.9), "49.9"));
    assert!(st.record_rtt("b", s(50.0), "50.0"));
    assert!(!st.record_rtt("c", s(1.0), "1.0"));
    assert_eq!(st.req_ok, 3);
    assert_eq!(st.slow_req, 1);
    assert!(st.max_rtt_ms == s(50.0));
    assert!(st.last_rtt_ms == s(1.0));
}

#[test]
fn the_picture_is_announced_first_and_whenever_something_is_held() {
    let mut st = IoStats::default();
    assert_eq!(note_resync(&mut st, false), (1, true));
    assert_eq!(note_resync(&mut st, false), (2, false));
    assert_eq!(note_resync(&mut st, true), (3, true));
}

#[test]
fn warnings_are_rationed() {
    let offline: Vec<u64> = (1..=600).filter(|n| offline_warns(*n)).collect();
    assert_eq!(offline, vec![1, 25, 250, 500]);
    let backlog: Vec<usize> = (1..=200).filter(|n| backlog_warns(*n)).collect();
    assert_eq!(backlog, vec![20, 50, 100]);
}

#[test]
fn the_picture_stands_in_the_order_of_names() {
    let mut p = pending(&[]);
    for name in ["Button 2", "Button 10", "Aux", "Button 2", "Zed", "Button 1"] {
        p.known.insert(name, true);
    }
    p.known.insert("Aux", false);
    assert_eq!(
        p.known.entries,
        vec![
            ("Aux", false),
            ("Button 1", true),
            ("Button 10", true),
            ("Button 2", true),
            ("Zed", true),
        ]
    );
    assert_eq!(p.known.get("Button 3"), None);
}

#[test]
fn complaints_are_reported_once() {
    let mut seen = SeenErrors::new();
    let reply = b"{\"id\":1,\"errors\":[\"no such \\\"button\\\"\",3],\"data\":[]}\0".to_vec();
    let line = seen.report_errors(&reply, "buttons", "write");
    assert_eq!(
        line,
        Some("buttons.write: [String(\"no such \\\"button\\\"\"), Number(3)]".to_string())
    );
    assert_eq!(seen.report_errors(&reply, "buttons", "write"), None);
    assert!(seen.report_errors(&reply, "analogs", "write").is_some());
    let calm = b"{\"id\":1,\"errors\":[],\"data\":[]}\0".to_vec();
    assert_eq!(seen.report_errors(&calm, "buttons", "write"), None);
    let other = b"{\"id\":1}".to_vec();
    assert_eq!(seen.report_errors(&other, "buttons", "write"), None);
    let junk = b"not json\0".to_vec();
    assert_eq!(seen.report_errors(&junk, "buttons", "write"), None);
    assert_eq!(seen.report_errors(&Vec::new(), "buttons", "write"), None);
}

#[test]
fn replies_that_are_no_utf8_are_read_all_the_same() {
    let mut seen = SeenErrors::new();
    let reply = b"{\"errors\":[\"\xff\"]}\0".to_vec();
    assert_eq!(
        seen.report_errors(&reply, "a", "b"),
        Some("a.b: [String(\"\u{fffd}\")]".to_string())
    );
}

#[test]
fn given_complaints_are_noted_once() {
    let mut seen = SeenErrors::new();
    let given = || Some(vec!["x".to_string(), "y".to_string()]);
    assert_eq!(seen.note("m", "f", given()), Some("m.f: [x, y]".to_string()));
    assert_eq!(seen.note("m", "f", given()), None);
    assert_eq!(seen.note("m", "f", Some(Vec::new())), None);
    assert_eq!(seen.note("m", "f", None), None);
}

#[test]
fn messages_can_be_told_apart_in_a_stream() {
    let (a, b) = reset_requests();
    let (a, b) = (encode(1, &a).unwrap(), encode(2, &b).unwrap());
    let stream: Vec<u8> = a.iter().chain(b.iter()).copied().collect();
    let parts: Vec<&[u8]> = stream.split(|c| *c == 0).collect();
    assert_eq!(
        parts,
        vec![&a[..a.len() - 1], &b[..b.len() - 1], &[] as &[u8]]
    );
}

#[test]
fn the_game_ends_up_believing_the_picture() {
    let mut client = online(1337);
    for (name, down) in [
        ("Button 1", true),
        ("Button 2", true),
        ("Button 1", false),
        ("Button 3", true),
        ("Button 1", true),
        ("Button 2", false),
    ] {
        client.button(name, down);
    }
    let mut believed = std::collections::BTreeMap::new();
    for batch in drain_button_batches(&mut client.pending) {
        let names: std::collections::BTreeSet<&str> = batch.iter().map(|e| e.0).collect();
        assert_eq!(names.len(), batch.len(), "no button twice in a batch");
        believed.extend(batch);
    }
    let believed: Vec<(&str, bool)> = believed.into_iter().collect();
    assert_eq!(believed, client.pending.known.entries);
}
