//! The worker behind the link: when to connect, what to send in which order, and
//! what a reply or its absence means.
//!
//! The worker itself only connects, waits, writes and reads. After each of these it
//! asks here what comes next.
use crate::known::named;
use crate::single::Single;
use crate::spiceapi::{
    about_port, batches, drain_button_batches, lists, rtt_line, Client, Edge, IoModel, IoStats,
    Pending,
};
use crate::text::{dec, decimal};
use crate::wire::{
    encode, framed, leveled, requests, Params, ParamsModel, Request, RequestModel,
};
use vstd::prelude::*;
use vstd::string::*;

verus! {

/// What happened to the worker.
pub enum LinkEvent {
    /// It has just been started.
    Begun,
    /// The game took the connection.
    Connected,
    /// There is no game.
    Refused,
    /// The connection ended, and why.
    Ended(String),
    /// It has waited long enough, or was woken.
    Waited,
}

/// What the worker does next.
#[derive(Debug, Clone, Copy, PartialEq, Eq)]
pub enum LinkAction {
    Connect,
    /// Talk over the new connection; so many stale edges were discarded, and so many
    /// were pressed while there was no link.
    Talk(usize, u64),
    Wait,
    Exit,
}

/// What is told of a connection that ended.
pub open spec fn ended_status(why: Seq<char>) -> Seq<char> {
    "disconnected ("@ + why + ")"@
}

/// What an event does to the client, and what the worker does next.
pub open spec fn ran(c: Client, after: Client, event: LinkEvent, r: LinkAction) -> bool {
    let then = if c.pending.stop {
        LinkAction::Exit
    } else {
        LinkAction::Wait
    };
    match event {
        LinkEvent::Begun | LinkEvent::Waited => {
            &&& after == c
            &&& r == (if c.pending.stop {
                LinkAction::Exit
            } else {
                LinkAction::Connect
            })
        },
        LinkEvent::Connected => {
            &&& r == LinkAction::Talk(c.pending.buttons@.len() as usize, c.pending.dropped_offline)
            &&& after.port == c.port
            &&& after.pending.buttons@.len() == 0
            &&& after.pending == (Pending {
                buttons: after.pending.buttons,
                dropped_offline: 0,
                ..c.pending
            })
            &&& after.tells(c, true, about_port("connected :"@, c.port))
            &&& after.stats@ == c.stats@.noted(about_port("spiceapi connected :"@, c.port))
        },
        LinkEvent::Refused => {
            &&& r == then
            &&& after.but_for_status(c)
            &&& after.tells(c, false, about_port("no game on :"@, c.port))
        },
        LinkEvent::Ended(why) => {
            &&& r == then
            &&& after.port == c.port
            &&& after.pending == c.pending
            &&& after.tells(c, false, ended_status(why@))
            &&& after.stats@ == c.stats@.noted("spiceapi disconnected: "@ + why@)
        },
    }
}

impl Client {
    /// The worker's next action after an event. A new connection starts from the
    /// picture: whatever was queued for the last one is discarded.
    pub fn run(&mut self, event: LinkEvent) -> (r: LinkAction)
        requires
            old(self).wf(),
        ensures
            final(self).wf(),
            ran(*old(self), *final(self), event, r),
    {
        match event {
            LinkEvent::Begun | LinkEvent::Waited => {
                if self.pending.stop {
                    LinkAction::Exit
                } else {
                    LinkAction::Connect
                }
            },
            LinkEvent::Connected => {
                let mut line = "spiceapi connected :".to_owned();
                line.append(decimal(self.port as u128).as_str());
                self.stats.push_recent(line);
                let (stale, offline) = self.pending.discard_stale();
                let mut status = "connected :".to_owned();
                status.append(decimal(self.port as u128).as_str());
                self.set_status(true, status);
                LinkAction::Talk(stale, offline)
            },
            LinkEvent::Refused => {
                let mut status = "no game on :".to_owned();
                status.append(decimal(self.port as u128).as_str());
                self.set_status(false, status);
                self.pause()
            },
            LinkEvent::Ended(why) => {
                let mut status = "disconnected (".to_owned();
                status.append(why.as_str());
                status.append(")");
                self.set_status(false, status);
                let mut line = "spiceapi disconnected: ".to_owned();
                line.append(why.as_str());
                self.stats.push_recent(line);
                self.pause()
            },
        }
    }

    fn pause(&self) -> (r: LinkAction)
        ensures
            r == (if self.pending.stop {
                LinkAction::Exit
            } else {
                LinkAction::Wait
            }),
    {
        if self.pending.stop {
            LinkAction::Exit
        } else {
            LinkAction::Wait
        }
    }
}

/// What one round of talking sends.
pub struct Round {
    /// Send the whole picture first.
    pub resync: bool,
    /// Reset the game's buttons and faders and hang up.
    pub stop: bool,
    /// Edges to send, batch by batch.
    pub batches: Vec<Vec<Edge>>,
    /// Fader levels to send, behind the edges.
    pub analogs: Option<(Single, Single)>,
}

/// A part of a round.
#[derive(Debug, Clone, Copy, PartialEq, Eq, Structural)]
pub enum Stage {
    /// The whole picture is sent.
    Picture,
    /// Edges and levels are sent.
    Write,
    /// The game's buttons and faders are reset, and the talk ends.
    HangUp,
}

impl Round {
    /// The parts of the round, in order: the picture where it is due, and then either
    /// what waits or the end.
    pub open spec fn parts(self) -> Seq<Stage> {
        let last = if self.stop {
            Stage::HangUp
        } else {
            Stage::Write
        };
        if self.resync {
            seq![Stage::Picture, last]
        } else {
            seq![last]
        }
    }

    /// The parts of the round, in order.
    pub fn pump(&self) -> (r: Vec<Stage>)
        ensures
            r@ == self.parts(),
    {
        let mut r: Vec<Stage> = Vec::new();
        if self.resync {
            r.push(Stage::Picture);
        }
        r.push(
            if self.stop {
                Stage::HangUp
            } else {
                Stage::Write
            },
        );
        assert(r@ =~= self.parts());
        r
    }
}

/// The talk over one connection.
#[derive(Debug, Clone, Copy, PartialEq, Eq)]
pub struct Pump {
    /// The number of the next request.
    pub id: u64,
    /// Whether the picture is due.
    pub resync_due: bool,
}

impl Pump {
    /// A talk that has not begun: the picture is due before anything else.
    pub fn new() -> (r: Pump)
        ensures
            r.id == 1,
            r.resync_due,
    {
        Pump { id: 1, resync_due: true }
    }

    /// Whether there is nothing to send but to wait for.
    pub open spec fn idle(self, p: Pending) -> bool {
        !p.stop && p.buttons@.len() == 0 && p.analogs is None && !self.resync_due
    }

    /// Whether there is nothing to send but to wait for.
    pub fn should_wait(&self, p: &Pending) -> (r: bool)
        ensures
            r == self.idle(*p),
    {
        !p.stop && p.buttons.len() == 0 && p.analogs.is_none() && !self.resync_due
    }

    /// Whether the next round begins with the picture: it is due, no edge waits, and
    /// the link is not being closed.
    pub open spec fn resyncs(self, p: Pending, timed_out: bool) -> bool {
        (self.resync_due || timed_out) && p.buttons@.len() == 0 && !p.stop
    }

    /// Takes everything that waits into one round. The picture is due after the link
    /// was idle for long enough; it is sent in the first round without edges.
    pub fn round(&mut self, p: &mut Pending, timed_out: bool) -> (r: Round)
        ensures
            drawn(*old(self), *final(self), *old(p), *final(p), timed_out, r),
    {
        if timed_out {
            self.resync_due = true;
        }
        let out = drain_button_batches(p);
        let analogs = p.analogs;
        p.analogs = None;
        let stop = p.stop;
        proof {
            crate::spiceapi::batches_keep_the_queue_in_order(old(p).buttons@);
            assert(lists(out@).len() == out@.len());
            if old(p).buttons@.len() > 0 && batches(old(p).buttons@).len() == 0 {
                assert(batches(old(p).buttons@).flatten() =~= Seq::<Edge>::empty());
            }
        }
        let resync = self.resync_due && out.len() == 0 && !stop;
        if resync {
            self.resync_due = false;
        }
        Round { resync, stop, batches: out, analogs }
    }
}

/// What one round takes out of what waits, and what it leaves.
pub open spec fn drawn(
    pump: Pump,
    pump_after: Pump,
    p: Pending,
    p_after: Pending,
    timed_out: bool,
    r: Round,
) -> bool {
    &&& lists(r.batches@) == batches(p.buttons@)
    &&& r.analogs == p.analogs
    &&& r.stop == p.stop
    &&& r.resync == pump.resyncs(p, timed_out)
    &&& pump_after == (Pump {
        resync_due: (pump.resync_due || timed_out) && !r.resync,
        ..pump
    })
    &&& p_after.buttons@.len() == 0
    &&& p_after == (Pending { buttons: p_after.buttons, analogs: None, ..p })
}

/// A request that sets buttons.
pub open spec fn buttons_write(edges: Seq<(Seq<char>, bool)>) -> RequestModel {
    RequestModel { module: "buttons"@, function: "write"@, params: ParamsModel::Buttons(edges) }
}

/// A request that sets both faders.
pub open spec fn analogs_write(
    left: serde_json::Value,
    right: serde_json::Value,
) -> RequestModel {
    RequestModel {
        module: "analogs"@,
        function: "write"@,
        params: ParamsModel::Levels(leveled(seq![("Fader-L", left), ("Fader-R", right)])),
    }
}

fn copied(edges: &Vec<Edge>) -> (r: Vec<Edge>)
    ensures
        r@ == edges@,
{
    let mut r: Vec<Edge> = Vec::new();
    let mut i: usize = 0;
    while i < edges.len()
        invariant
            i <= edges@.len(),
            r@ == edges@.take(i as int),
        decreases edges@.len() - i,
    {
        r.push(edges[i]);
        assert(edges@.take(i + 1) =~= edges@.take(i as int).push(edges@[i as int]));
        i = i + 1;
    }
    assert(edges@.take(i as int) =~= edges@);
    r
}

fn set_buttons(edges: Vec<Edge>) -> (r: Request)
    ensures
        r@ == buttons_write(named(edges@)),
{
    Request { module: "buttons", function: "write", params: Params::Buttons(edges) }
}

fn set_faders(left: serde_json::Value, right: serde_json::Value) -> (r: Request)
    ensures
        r@ == analogs_write(left, right),
{
    let mut v: Vec<(&'static str, serde_json::Value)> = Vec::new();
    v.push(("Fader-L", left));
    v.push(("Fader-R", right));
    assert(v@ =~= seq![("Fader-L", left), ("Fader-R", right)]);
    Request { module: "analogs", function: "write", params: Params::Levels(v) }
}

/// The requests of a round: one for each batch, and one for the faders where they
/// moved.
pub open spec fn round_requests(
    b: Seq<Seq<Edge>>,
    levels: Option<(serde_json::Value, serde_json::Value)>,
) -> Seq<RequestModel> {
    let buttons = b.map_values(|e: Seq<Edge>| buttons_write(named(e)));
    match levels {
        Some((left, right)) => buttons.push(analogs_write(left, right)),
        None => buttons,
    }
}

/// The requests of a round, where `levels` are the fader levels as the game takes
/// them.
pub fn write_requests(
    out: Vec<Vec<Edge>>,
    levels: Option<(serde_json::Value, serde_json::Value)>,
) -> (r: Vec<Request>)
    ensures
        requests(r@) == round_requests(lists(out@), levels),
{
    let mut r: Vec<Request> = Vec::new();
    let mut i: usize = 0;
    while i < out.len()
        invariant
            i <= out@.len(),
            r@.len() == i,
            forall|j: int| 0 <= j < i ==> (#[trigger] r@[j])@ == buttons_write(named(out@[j]@)),
        decreases out@.len() - i,
    {
        let req = set_buttons(copied(&out[i]));
        r.push(req);
        i = i + 1;
    }
    if let Some((left, right)) = levels {
        r.push(set_faders(left, right));
    }
    assert(requests(r@) =~= round_requests(lists(out@), levels));
    r
}

/// The requests that state the whole picture: every button that is known, where
/// there is one, and both faders.
pub open spec fn picture_requests(
    p: Pending,
    left: serde_json::Value,
    right: serde_json::Value,
) -> Seq<RequestModel> {
    if p.known.entries@.len() == 0 {
        seq![analogs_write(left, right)]
    } else {
        seq![buttons_write(named(p.known.entries@)), analogs_write(left, right)]
    }
}

/// The requests that state the whole picture, where `left` and `right` are the last
/// levels as the game takes them.
pub fn resync(
    p: &Pending,
    left: serde_json::Value,
    right: serde_json::Value,
) -> (r: Vec<Request>)
    ensures
        requests(r@) == picture_requests(*p, left, right),
{
    let mut r: Vec<Request> = Vec::new();
    if p.known.entries.len() > 0 {
        r.push(set_buttons(copied(&p.known.entries)));
    }
    r.push(set_faders(left, right));
    assert(requests(r@) =~= picture_requests(*p, left, right));
    r
}

/// The buttons that are known to be down, in the order of names.
pub fn held_buttons(p: &Pending) -> (r: Vec<Edge>)
    ensures
        r@ == p.known.entries@.filter(|e: Edge| e.1),
{
    let mut r: Vec<Edge> = Vec::new();
    let ghost down = |e: Edge| e.1;
    let mut i: usize = 0;
    assert(p.known.entries@.take(0).filter(down) =~= Seq::<Edge>::empty());
    while i < p.known.entries.len()
        invariant
            i <= p.known.entries@.len(),
            down == (|e: Edge| e.1),
            r@ == p.known.entries@.take(i as int).filter(down),
        decreases p.known.entries@.len() - i,
    {
        let e = p.known.entries[i];
        proof {
            let next = p.known.entries@.take(i + 1);
            assert(next.drop_last() =~= p.known.entries@.take(i as int));
            reveal(Seq::filter);
        }
        if e.1 {
            r.push(e);
        }
        i = i + 1;
    }
    assert(p.known.entries@.take(i as int) =~= p.known.entries@);
    r
}

/// What sending the whole picture one more time does to the count.
pub open spec fn resync_counted(m: IoModel, after: IoModel, held: bool, r: (u64, bool)) -> bool {
    &&& after == (IoModel { resyncs: (m.resyncs + 1) as u64, ..m })
    &&& r.0 == m.resyncs + 1
    &&& r.1 == (r.0 == 1 || held)
}

/// One more time the whole picture is sent. Returns the count, and whether it is
/// worth a line: the first time, and whenever a button is held.
pub fn note_resync(st: &mut IoStats, held: bool) -> (r: (u64, bool))
    requires
        old(st)@.resyncs < u64::MAX,
    ensures
        resync_counted(old(st)@, final(st)@, held, r),
{
    st.resyncs = st.resyncs + 1;
    (st.resyncs, st.resyncs == 1 || held)
}

/// The request that lets go of every button.
pub open spec fn buttons_reset() -> RequestModel {
    RequestModel {
        module: "buttons"@,
        function: "write_reset"@,
        params: ParamsModel::Buttons(Seq::empty()),
    }
}

/// The request that lets go of the faders.
pub open spec fn analogs_reset() -> RequestModel {
    RequestModel {
        module: "analogs"@,
        function: "write_reset"@,
        params: ParamsModel::Buttons(Seq::empty()),
    }
}

/// The two requests before hanging up: let go of every button, and of the faders.
pub fn reset_requests() -> (r: (Request, Request))
    ensures
        r.0@ == buttons_reset(),
        r.1@ == analogs_reset(),
{
    let a = Request {
        module: "buttons",
        function: "write_reset",
        params: Params::Buttons(Vec::new()),
    };
    let b = Request {
        module: "analogs",
        function: "write_reset",
        params: Params::Buttons(Vec::new()),
    };
    assert(a@.params =~= ParamsModel::Buttons(Seq::empty()));
    assert(b@.params =~= ParamsModel::Buttons(Seq::empty()));
    (a, b)
}

/// How waiting for a reply ended. Durations are whole milliseconds, rendered.
pub enum Reply {
    /// The game hung up.
    Closed(String),
    /// A reply came, after this round trip, rendered with one decimal.
    Answered(Single, String),
    /// Reading failed: whether it timed out, after how long, and the error.
    Broken(bool, String, String),
}

/// The call that a request makes.
pub open spec fn call(r: RequestModel) -> Seq<char> {
    r.module + "."@ + r.function
}

/// What a request is called while it is in flight.
pub open spec fn label(r: RequestModel, id: nat) -> Seq<char> {
    call(r) + " id="@ + dec(id)
}

fn call_text(req: &Request) -> (r: String)
    ensures
        r@ == call(req@),
{
    let mut r = req.module.to_owned();
    r.append(".");
    r.append(req.function);
    r
}

fn label_text(req: &Request, id: u64) -> (r: String)
    ensures
        r@ == label(req@, id as nat),
{
    let mut r = call_text(req);
    r.append(" id=");
    r.append(decimal(id as u128).as_str());
    r
}

/// What is remembered of a request that the game hung up on.
pub open spec fn closed_line(name: Seq<char>, ms: Seq<char>) -> Seq<char> {
    "spiceapi "@ + name + " connection closed after "@ + ms + "ms"@
}

/// What is remembered of a request whose reply could not be read.
pub open spec fn broken_line(
    name: Seq<char>,
    timed_out: bool,
    ms: Seq<char>,
    error: Seq<char>,
) -> Seq<char> {
    "spiceapi "@ + name + (if timed_out {
        " READ TIMEOUT after "@
    } else {
        " read error after "@
    }) + ms + "ms: "@ + error
}

/// Whether the counts that grow with this reply can.
pub open spec fn has_room(m: IoModel, reply: Reply) -> bool {
    match reply {
        Reply::Answered(rtt, text) => m.has_room(rtt),
        _ => m.req_fail < u64::MAX,
    }
}

/// How the link has fared after a request without a good reply.
pub open spec fn fared_badly(m: IoModel, name: Seq<char>, reply: Reply) -> IoModel {
    match reply {
        Reply::Closed(ms) => m.landed().failed().noted(closed_line(name, ms@)),
        Reply::Answered(rtt, text) => m,
        Reply::Broken(timed_out, ms, error) => m.landed().failed().noted(
            broken_line(name, timed_out, ms@, error@),
        ),
    }
}

/// Why the talk ends after a request without a good reply.
pub open spec fn why_ended(reply: Reply) -> Seq<char> {
    match reply {
        Reply::Closed(ms) => "connection closed"@,
        Reply::Answered(rtt, text) => Seq::empty(),
        Reply::Broken(timed_out, ms, error) => "read: "@ + error@,
    }
}

fn fare_badly(st: &mut IoStats, name: &str, reply: &Reply) -> (r: String)
    requires
        old(st)@.wf(),
        old(st)@.req_fail < u64::MAX,
        !(reply is Answered),
    ensures
        final(st)@.wf(),
        final(st)@ == fared_badly(old(st)@, name@, *reply),
        r@ == why_ended(*reply),
{
    st.clear_in_flight();
    st.bump_fail();
    let mut line = "spiceapi ".to_owned();
    line.append(name);
    match reply {
        Reply::Closed(ms) => {
            line.append(" connection closed after ");
            line.append(ms.as_str());
            line.append("ms");
            st.push_recent(line);
            "connection closed".to_owned()
        },
        Reply::Broken(timed_out, ms, error) => {
            line.append(
                if *timed_out {
                    " READ TIMEOUT after "
                } else {
                    " read error after "
                },
            );
            line.append(ms.as_str());
            line.append("ms: ");
            line.append(error.as_str());
            st.push_recent(line);
            let mut why = "read: ".to_owned();
            why.append(error.as_str());
            why
        },
        Reply::Answered(_, _) => String::new(),
    }
}

/// A request could not be written. Returns why the talk ends.
pub fn write_failed(st: &mut IoStats, error: &str) -> (r: String)
    requires
        old(st)@.wf(),
        old(st)@.req_fail < u64::MAX,
    ensures
        final(st)@.wf(),
        final(st)@ == old(st)@.landed().failed(),
        r@ == "write: "@ + error@,
{
    st.clear_in_flight();
    st.bump_fail();
    let mut why = "write: ".to_owned();
    why.append(error);
    why
}

/// What a run of requests does next.
pub enum Step {
    /// Write this message.
    Write(Vec<u8>),
    /// Read a reply.
    Read,
    /// Every request was answered.
    Done,
    /// The talk ends, and why.
    Failed(String),
}

/// Requests that go out together: all of them are written before the first reply
/// is read.
pub struct Pipeline {
    pub reqs: Vec<Request>,
    /// What the requests that were written are called.
    pub labels: Vec<String>,
    /// How many replies came.
    pub replies: usize,
    /// The number of the first request.
    pub first: u64,
    /// When the run began.
    pub started: u64,
}

/// What a run's next step is, and what it does to the run, the numbers and the count.
pub open spec fn went_on(
    p: Pipeline,
    p_after: Pipeline,
    id: u64,
    id_after: u64,
    m: IoModel,
    after: IoModel,
    r: Step,
) -> bool {
    let n = p.labels@.len() as int;
    let all = p.reqs@.len() as int;
    &&& p_after.reqs == p.reqs
    &&& p_after.replies == p.replies
    &&& p_after.first == p.first
    &&& p_after.started == p.started
    &&& if n < all {
        // The next request takes the next number, and goes out under it.
        &&& id_after == id + 1
        &&& after == m
        &&& r matches Step::Write(b)
        &&& b@ == p.reqs@[n]@.message(id as nat)
        &&& framed(b@)
        &&& p_after.labels@.len() == n + 1
        &&& forall|k: int|
            0 <= k < n ==> p_after.labels@[k] == p.labels@[k]
    } else if p.replies < n {
        // Everything is written: wait for the next reply.
        &&& r is Read
        &&& id_after == id
        &&& p_after.labels == p.labels
        &&& after == (IoModel {
            in_flight_since: if p.replies == 0 {
                Some(p.started)
            } else {
                m.in_flight_since
            },
            last_module: if p.replies == 0 {
                call(p.reqs@[all - 1]@)
            } else {
                m.last_module
            },
            in_flight_label: p.labels@[p.replies as int]@,
            ..m
        })
    } else {
        &&& r is Done
        &&& id_after == id
        &&& p_after.labels == p.labels
        &&& after == (if all == 0 {
            m
        } else {
            m.landed()
        })
    }
}

/// What the end of waiting for a reply does to the run and the count.
pub open spec fn heard_back(
    p: Pipeline,
    p_after: Pipeline,
    m: IoModel,
    after: IoModel,
    reply: Reply,
    r: Result<bool, String>,
) -> bool {
    let name = p.labels@[p.replies as int]@;
    match reply {
        Reply::Answered(rtt, text) => {
            &&& r == Ok::<bool, String>(crate::spiceapi::slow(rtt))
            &&& after == m.answered(rtt, rtt_line(name, text@))
            &&& p_after == (Pipeline {
                replies: (p.replies + 1) as usize,
                ..p
            })
        },
        _ => {
            &&& r matches Err(why) && why@ == why_ended(reply)
            &&& after == fared_badly(m, name, reply)
            &&& p_after == p
        },
    }
}

impl Pipeline {
    /// Requests are numbered from `first` on and written in order, and replies are
    /// awaited only once the last request was written.
    pub open spec fn wf(self) -> bool {
        &&& self.labels@.len() <= self.reqs@.len()
        &&& self.replies <= self.labels@.len()
        &&& self.replies > 0 ==> self.labels@.len() == self.reqs@.len()
        &&& self.first + self.reqs@.len() <= u64::MAX
        &&& forall|k: int|
            0 <= k < self.labels@.len() ==> (#[trigger] self.labels@[k])@ == label(
                self.reqs@[k]@,
                (self.first + k) as nat,
            )
    }

    /// The number of the next request.
    pub open spec fn next_id(self) -> int {
        self.first + self.labels@.len()
    }

    /// Begins a run of requests, numbered from `first` on.
    pub fn start(reqs: Vec<Request>, first: u64, now: u64) -> (r: Pipeline)
        requires
            first + reqs@.len() <= u64::MAX,
        ensures
            r.wf(),
            r.reqs == reqs,
            r.labels@.len() == 0,
            r.replies == 0,
            r.first == first,
            r.started == now,
    {
        Pipeline { reqs, labels: Vec::new(), replies: 0, first, started: now }
    }

    /// What the run does next. `id` is the connection's next number.
    pub fn send_pipeline(&mut self, id: &mut u64, st: &mut IoStats) -> (r: Step)
        requires
            old(self).wf(),
            *old(id) == old(self).next_id(),
        ensures
            final(self).wf(),
            went_on(*old(self), *final(self), *old(id), *final(id), old(st)@, final(st)@, r),
    {
        let n = self.labels.len();
        let all = self.reqs.len();
        if n < all {
            let number = *id;
            *id = number + 1;
            match encode(number, &self.reqs[n]) {
                Ok(b) => {
                    let name = label_text(&self.reqs[n], number);
                    self.labels.push(name);
                    Step::Write(b)
                },
                Err(why) => Step::Failed(why),
            }
        } else if self.replies < n {
            if self.replies == 0 {
                st.in_flight_since = Some(self.started);
                st.last_module = call_text(&self.reqs[all - 1]);
            }
            st.in_flight_label = self.labels[self.replies].clone();
            Step::Read
        } else {
            if all > 0 {
                st.clear_in_flight();
            }
            Step::Done
        }
    }

    /// Waiting for a reply ended. Returns why the talk ends, where it does.
    pub fn replied(&mut self, st: &mut IoStats, reply: Reply) -> (r: Result<bool, String>)
        requires
            old(self).wf(),
            old(self).replies < old(self).labels@.len(),
            old(self).labels@.len() == old(self).reqs@.len(),
            old(st)@.wf(),
            has_room(old(st)@, reply),
        ensures
            final(self).wf(),
            final(st)@.wf(),
            heard_back(*old(self), *final(self), old(st)@, final(st)@, reply, r),
    {
        let name = self.labels[self.replies].clone();
        match reply {
            Reply::Answered(rtt, text) => {
                let slow = st.record_rtt(name.as_str(), rtt, text.as_str());
                assert(self.replies < self.labels.len());
                self.replies = self.replies + 1;
                Ok(slow)
            },
            _ => Err(fare_badly(st, name.as_str(), &reply)),
        }
    }
}

/// How the link stands once a request took off under a number.
pub open spec fn took_off(m: IoModel, req: RequestModel, id: nat, now: u64) -> IoModel {
    IoModel {
        in_flight_since: Some(now),
        in_flight_label: label(req, id),
        last_module: call(req),
        ..m
    }
}

/// A single request takes off under the next number: it is in flight from before it is
/// written. Returns what it is called, and the message to write.
pub fn request(st: &mut IoStats, req: &Request, id: &mut u64, now: u64) -> (r: (String, Vec<u8>))
    requires
        *old(id) < u64::MAX,
    ensures
        *final(id) == *old(id) + 1,
        r.0@ == label(req@, *old(id) as nat),
        r.1@ == req@.message(*old(id) as nat),
        framed(r.1@),
        final(st)@ == took_off(old(st)@, req@, *old(id) as nat, now),
{
    let number = *id;
    let name = label_text(req, number);
    st.in_flight_since = Some(now);
    st.in_flight_label = name.clone();
    st.last_module = call_text(req);
    assert(st@ =~= took_off(old(st)@, req@, number as nat, now));
    *id = number + 1;
    let message = encode(number, req).unwrap();
    (name, message)
}

/// How far hanging up has come.
#[derive(Debug, Clone, Copy, PartialEq, Eq, Structural)]
pub enum Farewell {
    Begun,
    /// The game was asked to let go of the buttons, whatever came of it.
    ButtonsDone,
    /// The game was asked to let go of the faders, whatever came of it.
    FadersDone,
}

/// What hanging up does next.
pub enum FarewellStep {
    /// Send a request: the request, its message, and what it is called.
    Send(Request, Vec<u8>, String),
    /// The talk ends, and why.
    End(String),
}

/// Whether a step sends a request under a number.
pub open spec fn sends(r: FarewellStep, req: RequestModel, id: nat) -> bool {
    r matches FarewellStep::Send(sent, message, name) && sent@ == req && message@ == req.message(id)
        && framed(message@) && name@ == label(req, id)
}

/// What hanging up does next, and what that does to the numbers and the count.
pub open spec fn parted(
    pump: Pump,
    pump_after: Pump,
    m: IoModel,
    after: IoModel,
    at: Farewell,
    at_after: Farewell,
    now: u64,
    r: FarewellStep,
) -> bool {
    match at {
        Farewell::Begun => {
            &&& sends(r, buttons_reset(), pump.id as nat)
            &&& at_after == Farewell::ButtonsDone
            &&& pump_after == (Pump { id: (pump.id + 1) as u64, ..pump })
            &&& after == took_off(m, buttons_reset(), pump.id as nat, now)
        },
        Farewell::ButtonsDone => {
            &&& sends(r, analogs_reset(), pump.id as nat)
            &&& at_after == Farewell::FadersDone
            &&& pump_after == (Pump { id: (pump.id + 1) as u64, ..pump })
            &&& after == took_off(m, analogs_reset(), pump.id as nat, now)
        },
        Farewell::FadersDone => {
            &&& r matches FarewellStep::End(why) && why@ == "shutting down"@
            &&& at_after == Farewell::FadersDone
            &&& pump_after == pump
            &&& after == m
        },
    }
}

impl Pump {
    /// What hanging up does next: the game is asked to let go of the buttons, then of the
    /// faders, each under the next number, and the talk ends. Whether it did so, or
    /// answered at all, is not asked.
    pub fn hang_up(&mut self, st: &mut IoStats, at: &mut Farewell, now: u64) -> (r: FarewellStep)
        requires
            *old(at) != Farewell::FadersDone ==> old(self).id < u64::MAX,
        ensures
            parted(*old(self), *final(self), old(st)@, final(st)@, *old(at), *final(at), now, r),
    {
        let (buttons, analogs) = reset_requests();
        match *at {
            Farewell::Begun => {
                *at = Farewell::ButtonsDone;
                let (name, message) = request(st, &buttons, &mut self.id, now);
                FarewellStep::Send(buttons, message, name)
            },
            Farewell::ButtonsDone => {
                *at = Farewell::FadersDone;
                let (name, message) = request(st, &analogs, &mut self.id, now);
                FarewellStep::Send(analogs, message, name)
            },
            Farewell::FadersDone => FarewellStep::End("shutting down".to_owned()),
        }
    }
}

/// A single request has landed. Returns whether it was slow, or why the talk ends.
pub fn request_replied(st: &mut IoStats, name: &str, reply: Reply) -> (r: Result<bool, String>)
    requires
        old(st)@.wf(),
        has_room(old(st)@, reply),
    ensures
        final(st)@.wf(),
        match reply {
            Reply::Answered(rtt, text) => {
                &&& r == Ok::<bool, String>(crate::spiceapi::slow(rtt))
                &&& final(st)@ == old(st)@.landed().answered(rtt, rtt_line(name@, text@))
            },
            _ => {
                &&& r matches Err(why) && why@ == why_ended(reply)
                &&& final(st)@ == fared_badly(old(st)@, name@, reply)
            },
        },
{
    match reply {
        Reply::Answered(rtt, text) => {
            st.clear_in_flight();
            Ok(st.record_rtt(name, rtt, text.as_str()))
        },
        _ => Err(fare_badly(st, name, &reply)),
    }
}

/// A link that was idle for long enough states its picture, and so does a fresh one
/// over which no edge waits: a talk begins with the picture due. The picture always
/// states both faders, whether or not any button was ever pressed.
pub proof fn an_idle_or_fresh_link_states_its_picture(
    pump: Pump,
    p: Pending,
    timed_out: bool,
    left: serde_json::Value,
    right: serde_json::Value,
)
    requires
        pump.resync_due || timed_out,
        p.buttons@.len() == 0,
        !p.stop,
    ensures
        pump.resyncs(p, timed_out),
        picture_requests(p, left, right).len() > 0,
        picture_requests(p, left, right).last() == analogs_write(left, right),
{
}

/// A link that is being closed does nothing but hang up: no picture is sent, and none of
/// the edges and levels that waited.
pub proof fn a_link_that_closes_only_hangs_up(pump: Pump, p: Pending, timed_out: bool, round: Round)
    requires
        p.stop,
        round.stop == p.stop,
        round.resync == pump.resyncs(p, timed_out),
    ensures
        !pump.resyncs(p, timed_out),
        round.parts() == seq![Stage::HangUp],
{
}

/// The picture names every button that is known, with what is known of it, and names
/// no other.
pub proof fn the_picture_names_every_known_button(
    p: Pending,
    left: serde_json::Value,
    right: serde_json::Value,
    name: Seq<char>,
    down: bool,
)
    requires
        p.wf(),
    ensures
        (p.known@.contains_key(name) && p.known@[name] == down) <==> named(
            p.known.entries@,
        ).contains((name, down)),
        p.known.entries@.len() > 0 ==> picture_requests(p, left, right)[0] == buttons_write(
            named(p.known.entries@),
        ),
{
    let l = named(p.known.entries@);
    crate::known::lemma_entries(p.known);
    if p.known@.contains_key(name) && p.known@[name] == down {
        let i = choose|i: int| 0 <= i < l.len() && (#[trigger] l[i]).0 == name;
        assert(l[i] == (name, down));
    }
    if l.contains((name, down)) {
        let i = choose|i: int| 0 <= i < l.len() && l[i] == (name, down);
        assert(l[i].0 == name);
    }
}

/// Every request of a run is written before any reply is read, and the requests are
/// numbered in a row: of two requests, the later one has the higher number.
pub proof fn a_run_is_written_before_it_is_read(p: Pipeline, i: int, j: int)
    requires
        p.wf(),
        0 <= i < j < p.labels@.len(),
    ensures
        p.replies > 0 ==> p.labels@.len() == p.reqs@.len(),
        p.labels@[i]@ == label(p.reqs@[i]@, (p.first + i) as nat),
        p.labels@[j]@ == label(p.reqs@[j]@, (p.first + j) as nat),
        p.first + i < p.first + j <= u64::MAX,
{
}

} // verus!
