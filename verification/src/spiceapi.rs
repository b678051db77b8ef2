//! The link to the game: what is queued for it, what is known of the buttons, and
//! how the link has fared.
use crate::known::Known;
use crate::single::{Single, ZERO};
use crate::text::{contents, dec, decimal, join, joined};
use std::collections::VecDeque;
use vstd::prelude::*;
use vstd::string::*;

verus! {

/// The port that the game listens on unless told otherwise.
pub const DEFAULT_PORT: u16 = 1337;

/// How long to wait for a reply, in milliseconds.
pub const READ_TIMEOUT_MS: u64 = 2000;

/// How long to wait before connecting again, in milliseconds.
pub const RECONNECT_WAIT_MS: u64 = 750;

/// How long the link may be idle before the picture is sent again, in milliseconds.
pub const RESYNC_INTERVAL_MS: u64 = 500;

/// The round trip of 50.0 ms from which a request counts as slow.
pub const SLOW_RTT: u32 = 0x4248_0000;

/// How many lines the link remembers about itself.
pub const RECENT_CAP: usize = 48;

/// A button going down or up.
pub type Edge = (&'static str, bool);

/// Whether some edge is about this button.
pub open spec fn mentions(s: Seq<Edge>, name: Seq<char>) -> bool {
    exists|i: int| 0 <= i < s.len() && (#[trigger] s[i]).0@ == name
}

/// Whether no two edges are about the same button.
pub open spec fn distinct(s: Seq<Edge>) -> bool {
    forall|i: int, j: int|
        0 <= i < j < s.len() ==> (#[trigger] s[i]).0@ != (#[trigger] s[j]).0@
}

/// How many edges, from `n` on, can go out before a button comes up a second time.
pub open spec fn batch_len(s: Seq<Edge>, n: int) -> int
    decreases s.len() - n,
{
    if n < 0 || n >= s.len() || mentions(s.take(n), s[n].0@) {
        n
    } else {
        batch_len(s, n + 1)
    }
}

/// A queue of edges, cut wherever a button comes up a second time.
pub open spec fn batches(s: Seq<Edge>) -> Seq<Seq<Edge>>
    decreases s.len(),
{
    let n = batch_len(s, 0);
    if s.len() == 0 || n <= 0 || n > s.len() {
        Seq::empty()
    } else {
        seq![s.take(n)] + batches(s.skip(n))
    }
}

/// What the lists of a list hold.
pub open spec fn lists(v: Seq<Vec<Edge>>) -> Seq<Seq<Edge>> {
    v.map_values(|b: Vec<Edge>| b@)
}

proof fn lemma_batch_len(s: Seq<Edge>, n: int)
    requires
        0 <= n <= s.len(),
        distinct(s.take(n)),
    ensures
        n <= batch_len(s, n) <= s.len(),
        distinct(s.take(batch_len(s, n))),
        batch_len(s, n) < s.len() ==> mentions(
            s.take(batch_len(s, n)),
            s[batch_len(s, n)].0@,
        ),
        s.len() > 0 && n == 0 ==> batch_len(s, n) > 0,
    decreases s.len() - n,
{
    if n < s.len() && !mentions(s.take(n), s[n].0@) {
        let next = s.take(n + 1);
        assert forall|i: int, j: int| 0 <= i < j < next.len() implies (#[trigger] next[i]).0@ != (
        #[trigger] next[j]).0@ by {
            assert(s.take(n)[i] == next[i]);
            if j < n {
                assert(s.take(n)[j] == next[j]);
            }
        }
        lemma_batch_len(s, n + 1);
    }
}

/// What waits to be sent, and what is known.
pub struct Pending {
    pub buttons: Vec<Edge>,
    pub analogs: Option<(Single, Single)>,
    pub stop: bool,
    pub known: Known,
    pub known_analogs: (Single, Single),
    pub dropped_offline: u64,
}

impl Default for Pending {
    /// Nothing waits, nothing is known, and the faders are at rest.
    fn default() -> (r: Pending)
        ensures
            r.wf(),
            r.buttons@.len() == 0,
            r.analogs is None,
            !r.stop,
            r.known@ == Map::<Seq<char>, bool>::empty(),
            r.known_analogs == (Single { bits: ZERO }, Single { bits: ZERO }),
            r.dropped_offline == 0,
    {
        Pending {
            buttons: Vec::new(),
            analogs: None,
            stop: false,
            known: Known::new(),
            known_analogs: (Single { bits: ZERO }, Single { bits: ZERO }),
            dropped_offline: 0,
        }
    }
}

impl Pending {
    /// The picture is in order.
    pub open spec fn wf(self) -> bool {
        self.known.wf()
    }

    /// Everything but the queue is as in `other`.
    pub open spec fn but_for_buttons(self, other: Pending) -> bool {
        self == (Pending { buttons: self.buttons, ..other })
    }

    /// Forgets what was queued for a link that is gone, and how much was dropped
    /// while there was none. Returns both counts.
    pub fn discard_stale(&mut self) -> (r: (usize, u64))
        ensures
            r.0 == old(self).buttons@.len(),
            r.1 == old(self).dropped_offline,
            final(self).buttons@.len() == 0,
            final(self).dropped_offline == 0,
            *final(self) == (Pending {
                buttons: final(self).buttons,
                dropped_offline: 0,
                ..*old(self)
            }),
    {
        let stale = self.buttons.len();
        self.buttons.clear();
        let dropped = self.dropped_offline;
        self.dropped_offline = 0;
        (stale, dropped)
    }
}

fn mentioned(s: &Vec<Edge>, n: usize, name: &str) -> (r: bool)
    requires
        n <= s@.len(),
    ensures
        r == mentions(s@.take(n as int), name@),
{
    let mut i: usize = 0;
    while i < n
        invariant
            i <= n <= s@.len(),
            forall|j: int| 0 <= j < i ==> (#[trigger] s@.take(n as int)[j]).0@ != name@,
        decreases n - i,
    {
        assert(s@.take(n as int)[i as int] == s@[i as int]);
        if crate::text::same(s[i].0, name) {
            return true;
        }
        i = i + 1;
    }
    false
}

/// Takes as many edges off the front of the queue as can go out together.
pub fn take_button_batch(p: &mut Pending) -> (batch: Vec<Edge>)
    ensures
        batch@ == old(p).buttons@.take(batch_len(old(p).buttons@, 0)),
        final(p).buttons@ == old(p).buttons@.skip(batch_len(old(p).buttons@, 0)),
        final(p).but_for_buttons(*old(p)),
{
    let mut n: usize = 0;
    proof {
        lemma_batch_len(p.buttons@, 0);
    }
    while n < p.buttons.len() && !mentioned(&p.buttons, n, p.buttons[n].0)
        invariant
            n <= p.buttons@.len(),
            p == old(p),
            batch_len(p.buttons@, 0) == batch_len(p.buttons@, n as int),
        decreases p.buttons@.len() - n,
    {
        n = n + 1;
    }
    let rest = p.buttons.split_off(n);
    let mut batch = rest;
    std::mem::swap(&mut batch, &mut p.buttons);
    batch
}

/// Empties the queue into batches that can each go out together.
pub fn drain_button_batches(p: &mut Pending) -> (out: Vec<Vec<Edge>>)
    ensures
        lists(out@) == batches(old(p).buttons@),
        final(p).buttons@.len() == 0,
        final(p).but_for_buttons(*old(p)),
{
    let mut out: Vec<Vec<Edge>> = Vec::new();
    assert(lists(out@) + batches(p.buttons@) =~= batches(p.buttons@));
    while p.buttons.len() > 0
        invariant
            lists(out@) + batches(p.buttons@) == batches(old(p).buttons@),
            p.but_for_buttons(*old(p)),
        decreases p.buttons@.len(),
    {
        let ghost before = p.buttons@;
        let ghost done = lists(out@);
        proof {
            lemma_batch_len(before, 0);
        }
        let batch = take_button_batch(p);
        out.push(batch);
        assert(lists(out@) =~= done.push(batch@));
        assert(batches(before) == seq![batch@] + batches(p.buttons@));
        assert(lists(out@) + batches(p.buttons@) =~= done + batches(before));
    }
    assert(batches(p.buttons@) =~= Seq::<Seq<Edge>>::empty());
    assert(lists(out@) =~= batches(old(p).buttons@));
    out
}

/// Cutting a queue loses and reorders nothing: the batches one behind the other
/// are the queue. No batch is empty, no batch holds a button twice, and a batch
/// ends only where its successor begins with a button that it holds; so a press and
/// a release of one button never go out together, and everything else does.
pub proof fn batches_keep_the_queue_in_order(s: Seq<Edge>)
    ensures
        batches(s).flatten() == s,
        forall|i: int| 0 <= i < batches(s).len() ==> (#[trigger] batches(s)[i]).len() > 0,
        forall|i: int| 0 <= i < batches(s).len() ==> distinct(#[trigger] batches(s)[i]),
        forall|i: int|
            0 < i < batches(s).len() ==> mentions(
                batches(s)[i - 1],
                (#[trigger] batches(s)[i])[0].0@,
            ),
    decreases s.len(),
{
    lemma_batch_len(s, 0);
    if s.len() > 0 {
        let n = batch_len(s, 0);
        let rest = s.skip(n);
        batches_keep_the_queue_in_order(rest);
        let all = batches(s);
        assert(all =~= seq![s.take(n)] + batches(rest));
        assert(all.first() == s.take(n));
        assert(all.drop_first() =~= batches(rest));
        assert(all.flatten() == s.take(n) + rest);
        assert(s.take(n) + rest =~= s);
        assert forall|i: int| 0 <= i < all.len() implies (#[trigger] all[i]).len() > 0 && distinct(
            all[i],
        ) by {
            if i > 0 {
                assert(all[i] == batches(rest)[i - 1]);
            }
        }
        assert forall|i: int| 0 < i < all.len() implies mentions(
            all[i - 1],
            (#[trigger] all[i])[0].0@,
        ) by {
            assert(all[i] == batches(rest)[i - 1]);
            if i == 1 {
                lemma_batch_len(rest, 0);
                assert(batches(rest)[0] == rest.take(batch_len(rest, 0)));
                assert(all[1][0] == s[n]);
            } else {
                assert(all[i - 1] == batches(rest)[i - 2]);
            }
        }
    } else {
        assert(batches(s).flatten() =~= s);
    }
}

/// How the link has fared.
#[verifier::ext_equal]
pub struct IoModel {
    pub req_ok: u64,
    pub req_fail: u64,
    pub slow_req: u64,
    pub last_rtt_ms: Single,
    pub max_rtt_ms: Single,
    pub last_module: Seq<char>,
    pub resyncs: u64,
    pub in_flight_since: Option<u64>,
    pub in_flight_label: Seq<char>,
    pub recent: Seq<Seq<char>>,
}

/// The last lines after one more: the oldest gives way once there are
/// [`RECENT_CAP`] of them.
pub open spec fn remembered(recent: Seq<Seq<char>>, line: Seq<char>) -> Seq<Seq<char>> {
    if recent.len() == RECENT_CAP {
        recent.drop_first().push(line)
    } else {
        recent.push(line)
    }
}

impl IoModel {
    /// The link remembers only so much about itself.
    pub open spec fn wf(self) -> bool {
        self.recent.len() <= RECENT_CAP
    }

    /// Nothing is in flight.
    pub open spec fn landed(self) -> IoModel {
        IoModel { in_flight_since: None, in_flight_label: Seq::empty(), ..self }
    }

    /// One more request failed.
    pub open spec fn failed(self) -> IoModel {
        IoModel { req_fail: (self.req_fail + 1) as u64, ..self }
    }

    /// One more line is remembered.
    pub open spec fn noted(self, line: Seq<char>) -> IoModel {
        IoModel { recent: remembered(self.recent, line), ..self }
    }

    /// One more request was answered, after this round trip.
    pub open spec fn answered(self, rtt: Single, line: Seq<char>) -> IoModel {
        IoModel {
            req_ok: (self.req_ok + 1) as u64,
            last_rtt_ms: rtt,
            max_rtt_ms: if self.max_rtt_ms.below(rtt) {
                rtt
            } else {
                self.max_rtt_ms
            },
            slow_req: if slow(rtt) {
                (self.slow_req + 1) as u64
            } else {
                self.slow_req
            },
            ..self
        }.noted(line)
    }

    /// Whether the counts that grow with an answer after this round trip can.
    pub open spec fn has_room(self, rtt: Single) -> bool {
        self.req_ok < u64::MAX && (slow(rtt) ==> self.slow_req < u64::MAX)
    }
}

/// Whether a round trip counts as slow.
pub open spec fn slow(rtt: Single) -> bool {
    (Single { bits: SLOW_RTT }).at_most(rtt)
}

/// What is remembered of a round trip.
pub open spec fn rtt_line(label: Seq<char>, rtt_text: Seq<char>) -> Seq<char> {
    "spiceapi "@ + label + " rtt="@ + rtt_text + "ms"@
}

/// How the link has fared.
pub struct IoStats {
    pub req_ok: u64,
    pub req_fail: u64,
    pub slow_req: u64,
    pub last_rtt_ms: Single,
    pub max_rtt_ms: Single,
    pub last_module: String,
    pub resyncs: u64,
    pub in_flight_since: Option<u64>,
    pub in_flight_label: String,
    pub recent: VecDeque<String>,
}

impl View for IoStats {
    type V = IoModel;

    open spec fn view(&self) -> IoModel {
        IoModel {
            req_ok: self.req_ok,
            req_fail: self.req_fail,
            slow_req: self.slow_req,
            last_rtt_ms: self.last_rtt_ms,
            max_rtt_ms: self.max_rtt_ms,
            last_module: self.last_module@,
            resyncs: self.resyncs,
            in_flight_since: self.in_flight_since,
            in_flight_label: self.in_flight_label@,
            recent: contents(self.recent@),
        }
    }
}

/// A link that has not fared at all.
pub open spec fn fresh_io() -> IoModel {
    IoModel {
        req_ok: 0,
        req_fail: 0,
        slow_req: 0,
        last_rtt_ms: Single { bits: ZERO },
        max_rtt_ms: Single { bits: ZERO },
        last_module: Seq::empty(),
        resyncs: 0,
        in_flight_since: None,
        in_flight_label: Seq::empty(),
        recent: Seq::empty(),
    }
}

impl Default for IoStats {
    fn default() -> (r: IoStats)
        ensures
            r@ == fresh_io(),
    {
        let r = IoStats {
            req_ok: 0,
            req_fail: 0,
            slow_req: 0,
            last_rtt_ms: Single { bits: ZERO },
            max_rtt_ms: Single { bits: ZERO },
            last_module: String::new(),
            resyncs: 0,
            in_flight_since: None,
            in_flight_label: String::new(),
            recent: VecDeque::new(),
        };
        assert(r@ =~= fresh_io());
        r
    }
}

impl IoStats {
    /// Remembers a line.
    pub fn push_recent(&mut self, line: String)
        requires
            old(self)@.wf(),
        ensures
            final(self)@.wf(),
            final(self)@ == old(self)@.noted(line@),
    {
        if self.recent.len() == RECENT_CAP {
            self.recent.pop_front();
        }
        self.recent.push_back(line);
        assert(contents(self.recent@) =~= remembered(contents(old(self).recent@), line@));
        assert(self@ =~= old(self)@.noted(line@));
    }

    /// Nothing is in flight any more.
    pub fn clear_in_flight(&mut self)
        ensures
            final(self)@ == old(self)@.landed(),
    {
        self.in_flight_since = None;
        self.in_flight_label = String::new();
        assert(self@ =~= old(self)@.landed());
    }

    /// One more request failed.
    pub fn bump_fail(&mut self)
        requires
            old(self)@.req_fail < u64::MAX,
        ensures
            final(self)@ == old(self)@.failed(),
    {
        self.req_fail = self.req_fail + 1;
    }

    /// One more request was answered, after this round trip. Returns whether it was
    /// slow.
    pub fn record_rtt(&mut self, label: &str, rtt: Single, rtt_text: &str) -> (r: bool)
        requires
            old(self)@.wf(),
            old(self)@.has_room(rtt),
        ensures
            final(self)@.wf(),
            final(self)@ == old(self)@.answered(rtt, rtt_line(label@, rtt_text@)),
            r == slow(rtt),
    {
        self.req_ok = self.req_ok + 1;
        self.last_rtt_ms = rtt;
        if rtt.gt(self.max_rtt_ms) {
            self.max_rtt_ms = rtt;
        }
        let slow = rtt.ge(Single { bits: SLOW_RTT });
        if slow {
            self.slow_req = self.slow_req + 1;
        }
        let mut line = "spiceapi ".to_owned();
        line.append(label);
        line.append(" rtt=");
        line.append(rtt_text);
        line.append("ms");
        self.push_recent(line);
        assert(self@ =~= old(self)@.answered(rtt, rtt_line(label@, rtt_text@)));
        slow
    }
}

/// The last lines are the last lines: never more than [`RECENT_CAP`], the newest
/// at the end, and what stays keeps its order.
pub proof fn the_last_lines_are_remembered(recent: Seq<Seq<char>>, line: Seq<char>)
    requires
        recent.len() <= RECENT_CAP,
    ensures
        remembered(recent, line).len() <= RECENT_CAP,
        remembered(recent, line).last() == line,
        remembered(recent, line).drop_last().is_suffix_of(recent),
        recent.len() < RECENT_CAP ==> remembered(recent, line).drop_last() == recent,
{
    let kept = remembered(recent, line).drop_last();
    if recent.len() == RECENT_CAP {
        assert(kept =~= recent.drop_first());
        assert(kept =~= recent.subrange(recent.len() - kept.len(), recent.len() as int));
    } else {
        assert(kept =~= recent);
        assert(kept =~= recent.subrange(recent.len() - kept.len(), recent.len() as int));
    }
}

/// Text as `Debug` quotes it.
pub uninterp spec fn quoted_text(s: Seq<char>) -> Seq<char>;

/// Quotes text by `Debug` of `str`. Claims that the result depends on the text alone
/// ([`quoted_text`]).
#[verifier::external_body]
fn quoted(s: &str) -> (r: String)
    ensures
        r@ == quoted_text(s@),
{
    format!("{:?}", s)
}

/// What became of a button's edge.
#[derive(Debug, Clone, Copy, PartialEq, Eq)]
pub enum Queued {
    /// There is no link: it was dropped, as the so-manieth, and is remembered.
    Offline(u64),
    /// It was queued, behind so many others that the queue is now this long.
    Behind(usize),
}

/// The figures of a snapshot that are rendered elsewhere: how long a request has
/// been in flight (whole milliseconds), and the last and the longest round trip
/// (with one decimal).
pub struct Figures {
    pub in_flight_ms: String,
    pub last_rtt: String,
    pub max_rtt: String,
}

/// The link's client: its port, what waits, whether there is a link, what to tell
/// about it, and how it has fared.
pub struct Client {
    pub port: u16,
    pub pending: Pending,
    pub connected: bool,
    pub status: String,
    pub status_epoch: u64,
    pub stats: IoStats,
}

/// A truth value in words.
pub open spec fn yes_no(b: bool) -> Seq<char> {
    if b {
        "true"@
    } else {
        "false"@
    }
}

fn bool_text(b: bool) -> (r: &'static str)
    ensures
        r@ == yes_no(b),
{
    if b {
        "true"
    } else {
        "false"
    }
}

/// Words followed by a port.
pub open spec fn about_port(words: Seq<char>, port: u16) -> Seq<char> {
    words + dec(port as nat)
}

fn with_port(words: &str, port: u16) -> (r: String)
    ensures
        r@ == about_port(words@, port),
{
    let mut r = words.to_owned();
    r.append(decimal(port as u128).as_str());
    r
}

/// The client after the faders moved.
pub open spec fn levels_taken(c: Client, left: Single, right: Single) -> Client {
    Client {
        pending: Pending {
            analogs: Some((left, right)),
            known_analogs: (left, right),
            ..c.pending
        },
        ..c
    }
}

/// What a button going down or up does to the client, and what becomes of the edge.
pub open spec fn edge_taken(
    c: Client,
    after: Client,
    name: &'static str,
    down: bool,
    r: Queued,
) -> bool {
    &&& after == (Client { pending: after.pending, ..c })
    &&& after.pending == (Pending {
        known: after.pending.known,
        buttons: after.pending.buttons,
        dropped_offline: after.pending.dropped_offline,
        ..c.pending
    })
    &&& after.pending.known@ == c.pending.known@.insert(name@, down)
    &&& if c.connected {
        &&& after.pending.buttons@ == c.pending.buttons@.push((name, down))
        &&& after.pending.dropped_offline == c.pending.dropped_offline
        &&& r == Queued::Behind((c.pending.buttons@.len() + 1) as usize)
    } else {
        &&& after.pending.buttons == c.pending.buttons
        &&& after.pending.dropped_offline == c.pending.dropped_offline + 1
        &&& r == Queued::Offline((c.pending.dropped_offline + 1) as u64)
    }
}

impl Client {
    /// The queue's picture and the memory of the link are in order.
    pub open spec fn wf(self) -> bool {
        self.pending.wf() && self.stats@.wf()
    }

    /// Everything but what is told about the link is as in `other`.
    pub open spec fn but_for_status(self, other: Client) -> bool {
        self == (Client {
            connected: self.connected,
            status: self.status,
            status_epoch: self.status_epoch,
            ..other
        })
    }

    /// What is told about the link is this, as of a new epoch.
    pub open spec fn tells(self, before: Client, connected: bool, status: Seq<char>) -> bool {
        &&& self.connected == connected
        &&& self.status@ == status
        &&& self.status_epoch == (before.status_epoch + 1) % 0x1_0000_0000_0000_0000
    }

    /// A client that has not connected yet.
    pub fn start(port: u16) -> (r: Client)
        ensures
            r.wf(),
            r.port == port,
            r.pending.buttons@.len() == 0,
            r.pending.analogs is None,
            !r.pending.stop,
            r.pending.known@ == Map::<Seq<char>, bool>::empty(),
            r.pending.known_analogs == (Single { bits: ZERO }, Single { bits: ZERO }),
            r.pending.dropped_offline == 0,
            !r.connected,
            r.status@ == about_port("connecting to 127.0.0.1:"@, port),
            r.status_epoch == 1,
            r.stats@ == fresh_io(),
    {
        Client {
            port,
            pending: Pending::default(),
            connected: false,
            status: with_port("connecting to 127.0.0.1:", port),
            status_epoch: 1,
            stats: IoStats::default(),
        }
    }

    /// The port that the client talks to.
    pub fn port(&self) -> (r: u16)
        ensures
            r == self.port,
    {
        self.port
    }

    /// A button went down or up. It is remembered in any case, and queued where
    /// there is a link.
    pub fn button(&mut self, name: &'static str, down: bool) -> (r: Queued)
        requires
            old(self).wf(),
            !old(self).connected ==> old(self).pending.dropped_offline < u64::MAX,
        ensures
            final(self).wf(),
            edge_taken(*old(self), *final(self), name, down, r),
    {
        self.pending.known.insert(name, down);
        if !self.connected {
            self.pending.dropped_offline = self.pending.dropped_offline + 1;
            return Queued::Offline(self.pending.dropped_offline);
        }
        self.pending.buttons.push((name, down));
        Queued::Behind(self.pending.buttons.len())
    }

    /// The faders moved. Only the last levels wait to be sent.
    pub fn faders(&mut self, left: Single, right: Single)
        requires
            old(self).wf(),
        ensures
            final(self).wf(),
            *final(self) == levels_taken(*old(self), left, right),
    {
        self.pending.analogs = Some((left, right));
        self.pending.known_analogs = (left, right);
    }

    /// The link is to be closed.
    pub fn stop(&mut self)
        requires
            old(self).wf(),
        ensures
            final(self).wf(),
            *final(self) == (Client {
                pending: Pending { stop: true, ..old(self).pending },
                ..*old(self)
            }),
    {
        self.pending.stop = true;
    }

    /// What to tell about the link.
    pub fn status(&self) -> (r: String)
        ensures
            r@ == self.status@,
    {
        self.status.clone()
    }

    /// A number that changes whenever there is something new to tell.
    pub fn status_epoch(&self) -> (r: u64)
        ensures
            r == self.status_epoch,
    {
        self.status_epoch
    }

    /// Whether there is a link.
    pub fn connected(&self) -> (r: bool)
        ensures
            r == self.connected,
    {
        self.connected
    }

    /// There is something new to tell about the link.
    pub fn set_status(&mut self, connected: bool, msg: String)
        requires
            old(self).wf(),
        ensures
            final(self).wf(),
            final(self).but_for_status(*old(self)),
            final(self).tells(*old(self), connected, msg@),
    {
        self.connected = connected;
        self.status = msg;
        self.status_epoch = self.status_epoch.wrapping_add(1);
    }

    /// The whole state of the link, for a stall report.
    pub fn debug_snapshot(&self, figures: &Figures) -> (r: String)
        ensures
            r@ == snapshot(*self, *figures),
    {
        let mut r = "spiceapi snapshot port=".to_owned();
        r.append(decimal(self.port as u128).as_str());
        r.append(" connected=");
        r.append(bool_text(self.connected));
        r.append(" status=");
        r.append(quoted(self.status.as_str()).as_str());
        r.append(" q_buttons=");
        r.append(decimal(self.pending.buttons.len() as u128).as_str());
        r.append(" q_analogs=");
        r.append(bool_text(self.pending.analogs.is_some()));
        r.append(" stop=");
        r.append(bool_text(self.pending.stop));
        r.append(" req_ok=");
        r.append(decimal(self.stats.req_ok as u128).as_str());
        r.append(" req_fail=");
        r.append(decimal(self.stats.req_fail as u128).as_str());
        r.append(" slow>=50ms=");
        r.append(decimal(self.stats.slow_req as u128).as_str());
        r.append(" resyncs=");
        r.append(decimal(self.stats.resyncs as u128).as_str());
        r.append(" last_rtt=");
        r.append(figures.last_rtt.as_str());
        r.append("ms max_rtt=");
        r.append(figures.max_rtt.as_str());
        r.append("ms last_module=");
        r.append(self.stats.last_module.as_str());
        r.append(" in_flight=[");
        r.append(self.in_flight_text(figures).as_str());
        r.append("] recent=[\n  ");
        r.append(self.recent_text().as_str());
        r.append("\n]");
        r
    }

    fn in_flight_text(&self, figures: &Figures) -> (r: String)
        ensures
            r@ == in_flight(*self, *figures),
    {
        if self.stats.in_flight_since.is_some() {
            let mut r = self.stats.in_flight_label.clone();
            r.append(" for ");
            r.append(figures.in_flight_ms.as_str());
            r.append("ms");
            r
        } else {
            "idle".to_owned()
        }
    }

    fn recent_text(&self) -> (r: String)
        ensures
            r@ == joined(self.stats@.recent, "\n  "@),
    {
        let mut lines: Vec<String> = Vec::new();
        let mut i: usize = 0;
        while i < self.stats.recent.len()
            invariant
                i <= self.stats.recent@.len(),
                contents(lines@) == contents(self.stats.recent@).take(i as int),
            decreases self.stats.recent@.len() - i,
        {
            let ghost before = contents(lines@);
            lines.push(self.stats.recent[i].clone());
            assert(contents(lines@) =~= before.push(self.stats.recent@[i as int]@));
            assert(contents(self.stats.recent@).take(i + 1) =~= contents(
                self.stats.recent@,
            ).take(i as int).push(self.stats.recent@[i as int]@));
            i = i + 1;
        }
        assert(contents(self.stats.recent@).take(i as int) =~= contents(self.stats.recent@));
        join(&lines, "\n  ")
    }
}

/// What a snapshot says is in flight.
pub open spec fn in_flight(c: Client, figures: Figures) -> Seq<char> {
    if c.stats@.in_flight_since is Some {
        c.stats@.in_flight_label + " for "@ + figures.in_flight_ms@ + "ms"@
    } else {
        "idle"@
    }
}

/// A snapshot of the link.
pub open spec fn snapshot(c: Client, figures: Figures) -> Seq<char> {
    "spiceapi snapshot port="@ + dec(c.port as nat) + " connected="@ + yes_no(c.connected)
        + " status="@ + quoted_text(c.status@) + " q_buttons="@ + dec(c.pending.buttons@.len())
        + " q_analogs="@ + yes_no(c.pending.analogs is Some) + " stop="@ + yes_no(c.pending.stop)
        + " req_ok="@ + dec(c.stats@.req_ok as nat) + " req_fail="@ + dec(c.stats@.req_fail as nat)
        + " slow>=50ms="@ + dec(c.stats@.slow_req as nat) + " resyncs="@ + dec(
        c.stats@.resyncs as nat,
    ) + " last_rtt="@ + figures.last_rtt@ + "ms max_rtt="@ + figures.max_rtt@
        + "ms last_module="@ + c.stats@.last_module + " in_flight=["@ + in_flight(c, figures)
        + "] recent=[\n  "@ + joined(c.stats@.recent, "\n  "@) + "\n]"@
}

/// Whether the so-manieth edge dropped without a link is worth a warning.
pub open spec fn drop_is_news(n: u64) -> bool {
    n == 1 || n == 25 || n % 250 == 0
}

/// Whether the so-manieth edge dropped without a link is worth a warning.
pub fn offline_warns(n: u64) -> (r: bool)
    ensures
        r == drop_is_news(n),
{
    n == 1 || n == 25 || n % 250 == 0
}

/// Whether a queue of this length is worth a warning.
pub open spec fn backlog_is_news(q: usize) -> bool {
    q == 20 || q == 50 || q == 100
}

/// Whether a queue of this length is worth a warning.
pub fn backlog_warns(q: usize) -> (r: bool)
    ensures
        r == backlog_is_news(q),
{
    q == 20 || q == 50 || q == 100
}

} // verus!
