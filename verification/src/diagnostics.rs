//! The diagnostics panel: which keys are lit, what happened last, and how long
//! things took.
use crate::logging::{stamp, stamped};
use crate::single::Single;
use crate::text::{contents, dec, decimal, pad_right, padded_right};
use crate::touchbridge::KEY_COUNT;
use std::collections::VecDeque;
use vstd::prelude::*;
use vstd::string::*;

verus! {

/// How many lines the panel shows.
pub const LOG_LINES: usize = 5;

/// What the panel holds.
#[verifier::ext_equal]
pub struct PanelModel {
    pub keys: Seq<bool>,
    pub log: Seq<Seq<char>>,
    pub digital_events: u64,
    pub analog_events: u64,
    pub latency: Seq<Single>,
}

/// The diagnostics panel.
pub struct Diagnostics {
    pub keys: [bool; KEY_COUNT],
    pub log: VecDeque<String>,
    pub digital_events: u64,
    pub analog_events: u64,
    pub latency: Vec<Single>,
}

impl View for Diagnostics {
    type V = PanelModel;

    open spec fn view(&self) -> PanelModel {
        PanelModel {
            keys: self.keys@,
            log: contents(self.log@),
            digital_events: self.digital_events,
            analog_events: self.analog_events,
            latency: self.latency@,
        }
    }
}

/// The value of a run of decimal digits, or nothing where it is empty or holds
/// anything else.
pub open spec fn digits_value(s: Seq<char>) -> Option<nat>
    decreases s.len(),
{
    if s.len() == 0 {
        None
    } else if !('0' <= s.last() <= '9') {
        None
    } else if s.len() == 1 {
        Some((s.last() as int - '0' as int) as nat)
    } else {
        match digits_value(s.drop_last()) {
            Some(v) => Some((v * 10 + (s.last() as int - '0' as int)) as nat),
            None => None,
        }
    }
}

/// The value of a decimal number, which a plus sign may stand in front of.
pub open spec fn number_value(s: Seq<char>) -> Option<nat> {
    if s.len() > 1 && s[0] == '+' {
        digits_value(s.skip(1))
    } else {
        digits_value(s)
    }
}

/// The lamp of a button: the buttons numbered from 1 to 12 have one.
pub open spec fn lamp(name: Seq<char>) -> Option<usize> {
    if "Button "@.is_prefix_of(name) {
        match number_value(name.skip(7)) {
            Some(n) => if 1 <= n <= 12 {
                Some((n - 1) as usize)
            } else {
                None
            },
            None => None,
        }
    } else {
        None
    }
}

fn has_prefix(name: &str, prefix: &str) -> (r: bool)
    ensures
        r == prefix@.is_prefix_of(name@),
{
    let n: usize = prefix.unicode_len();
    if name.unicode_len() < n {
        return false;
    }
    let mut i: usize = 0;
    while i < n
        invariant
            i <= n == prefix@.len(),
            n <= name@.len(),
            forall|j: int| 0 <= j < i ==> prefix@[j] == name@[j],
        decreases n - i,
    {
        if prefix.get_char(i) != name.get_char(i) {
            assert(prefix@[i as int] != name@.take(n as int)[i as int]);
            return false;
        }
        i = i + 1;
    }
    assert(prefix@ =~= name@.subrange(0, n as int));
    true
}

/// The value of a run of digits where it is below 13, else 13.
fn small_value(name: &str, from: usize) -> (r: Option<u8>)
    requires
        from <= name@.len(),
    ensures
        match digits_value(name@.skip(from as int)) {
            Some(v) => r == Some(
                if v < 13 {
                    v as u8
                } else {
                    13u8
                },
            ),
            None => r is None,
        },
{
    let n: usize = name.unicode_len();
    let ghost all = name@.skip(from as int);
    if from == n {
        return None;
    }
    let mut v: u8 = 0;
    let mut i: usize = from;
    while i < n
        invariant
            from <= i <= n,
            from < n == name@.len(),
            all == name@.skip(from as int),
            i == from ==> v == 0,
            i > from ==> (digits_value(all.take(i - from)) matches Some(w) && v == (if w < 13 {
                w
            } else {
                13
            })),
        decreases n - i,
    {
        let c = name.get_char(i);
        let ghost next = all.take(i + 1 - from);
        assert(next.drop_last() =~= all.take(i - from));
        assert(next.last() == c);
        if !('0' <= c && c <= '9') {
            proof {
                lemma_not_digits(all, i - from);
            }
            return None;
        }
        let d: u8 = (c as u32 - 48) as u8;
        v = if v >= 13 || v * 10 + d >= 13 {
            13
        } else {
            v * 10 + d
        };
        i = i + 1;
    }
    assert(all.take(n - from) =~= all);
    Some(v)
}

proof fn lemma_not_digits(s: Seq<char>, at: int)
    requires
        0 <= at < s.len(),
        !('0' <= s[at] <= '9'),
    ensures
        digits_value(s) is None,
    decreases s.len(),
{
    if at < s.len() - 1 {
        lemma_not_digits(s.drop_last(), at);
    }
}

/// The lamp of a button.
pub fn button_index(name: &str) -> (r: Option<usize>)
    ensures
        r == lamp(name@),
{
    proof {
        reveal_strlit("Button ");
    }
    if !has_prefix(name, "Button ") {
        return None;
    }
    let len: usize = name.unicode_len();
    let ghost rest = name@.skip(7);
    let v = if len > 8 && name.get_char(7) == '+' {
        assert(rest.skip(1) =~= name@.skip(8));
        small_value(name, 8)
    } else {
        small_value(name, 7)
    };
    match v {
        Some(n) => {
            if 1 <= n && n <= 12 {
                Some((n - 1) as usize)
            } else {
                None
            }
        },
        None => None,
    }
}

/// A line about a button.
pub open spec fn event_line(ms: nat, name: Seq<char>, down: bool) -> Seq<char> {
    stamped(ms) + "  "@ + padded_right(name, ' ', 14) + " "@ + (if down {
        "DOWN"@
    } else {
        "up"@
    })
}

/// The lines shown after one more: the oldest gives way once the panel is full.
pub open spec fn shown(log: Seq<Seq<char>>, line: Seq<char>) -> Seq<Seq<char>> {
    if log.len() == LOG_LINES {
        log.drop_first().push(line)
    } else {
        log.push(line)
    }
}

impl PanelModel {
    /// The panel shows only so many lines.
    pub open spec fn wf(self) -> bool {
        self.keys.len() == KEY_COUNT && self.log.len() <= LOG_LINES
    }

    /// The panel after a button went down or up.
    pub open spec fn pressed(self, name: Seq<char>, down: bool, ms: nat) -> PanelModel {
        PanelModel {
            keys: match lamp(name) {
                Some(i) => self.keys.update(i as int, down),
                None => self.keys,
            },
            log: shown(self.log, event_line(ms, name, down)),
            digital_events: (self.digital_events + 1) as u64,
            ..self
        }
    }
}

/// A panel that has seen nothing.
pub open spec fn dark_panel() -> PanelModel {
    PanelModel {
        keys: Seq::new(KEY_COUNT as nat, |i: int| false),
        log: Seq::empty(),
        digital_events: 0,
        analog_events: 0,
        latency: Seq::empty(),
    }
}

/// Numbers in order, with one more behind those that are not greater.
pub open spec fn placed(s: Seq<Single>, v: Single) -> Seq<Single>
    decreases s.len(),
{
    if s.len() == 0 || !v.below(s.last()) {
        s.push(v)
    } else {
        placed(s.drop_last(), v).push(s.last())
    }
}

/// Numbers in order; equal ones stay as they were.
pub open spec fn ordered(s: Seq<Single>) -> Seq<Single>
    decreases s.len(),
{
    if s.len() == 0 {
        s
    } else {
        placed(ordered(s.drop_last()), s.last())
    }
}

/// Whether every one of them is a number.
pub open spec fn numbers(s: Seq<Single>) -> bool {
    forall|i: int| 0 <= i < s.len() ==> !(#[trigger] s[i]).nan()
}

/// Whether numbers are in order.
pub open spec fn ascending(s: Seq<Single>) -> bool {
    forall|i: int, j: int| 0 <= i <= j < s.len() ==> (#[trigger] s[i]).at_most(#[trigger] s[j])
}

proof fn lemma_placed(s: Seq<Single>, v: Single)
    requires
        ascending(s),
        numbers(s),
        !v.nan(),
    ensures
        ascending(placed(s, v)),
        numbers(placed(s, v)),
        placed(s, v).len() == s.len() + 1,
        placed(s, v).to_multiset() == s.to_multiset().insert(v),
        s.len() > 0 ==> placed(s, v).last() == s.last() || placed(s, v).last() == v,
        s.len() > 0 && v.below(s.last()) ==> placed(s, v).last() == s.last(),
    decreases s.len(),
{
    broadcast use vstd::seq_lib::group_to_multiset_ensures;

    if s.len() > 0 && v.below(s.last()) {
        let rest = s.drop_last();
        lemma_placed(rest, v);
        let p = placed(rest, v);
        assert(placed(s, v) =~= p.push(s.last()));
        assert(rest.push(s.last()) =~= s);
        assert(s.to_multiset() =~= rest.to_multiset().insert(s.last()));
        assert(p.push(s.last()).to_multiset() =~= s.to_multiset().insert(v));
        assert(p.last().at_most(s.last())) by {
            if rest.len() == 0 {
                assert(p.last() == v);
            } else {
                assert(rest.last() == s[s.len() - 2]);
            }
        }
        assert forall|i: int, j: int| 0 <= i <= j < p.push(s.last()).len() implies (
        #[trigger] p.push(s.last())[i]).at_most(#[trigger] p.push(s.last())[j]) by {
            if j == p.len() && i < j {
                assert(p[i].at_most(p[p.len() - 1]));
            }
        }
    } else {
        let p = s.push(v);
        assert forall|i: int, j: int| 0 <= i <= j < p.len() implies (#[trigger] p[i]).at_most(
            #[trigger] p[j],
        ) by {
            if j == s.len() && i < j {
                assert(s[i].at_most(s[s.len() - 1]));
            }
        }
    }
}

/// Putting numbers in order loses none and adds none, and leaves them in order: the
/// first is the least and the last is the greatest.
pub proof fn ordering_keeps_every_number(s: Seq<Single>)
    requires
        numbers(s),
    ensures
        ascending(ordered(s)),
        numbers(ordered(s)),
        ordered(s).len() == s.len(),
        ordered(s).to_multiset() == s.to_multiset(),
    decreases s.len(),
{
    broadcast use vstd::seq_lib::group_to_multiset_ensures;

    if s.len() > 0 {
        let rest = s.drop_last();
        ordering_keeps_every_number(rest);
        lemma_placed(ordered(rest), s.last());
        assert(rest.push(s.last()) =~= s);
        assert(s.to_multiset() =~= rest.to_multiset().insert(s.last()));
    }
}

proof fn lemma_insert_places(s: Seq<Single>, v: Single, k: int)
    requires
        0 <= k <= s.len(),
        forall|j: int| k <= j < s.len() ==> v.below(#[trigger] s[j]),
        k > 0 ==> !v.below(s[k - 1]),
    ensures
        s.insert(k, v) == placed(s, v),
    decreases s.len(),
{
    if k < s.len() {
        let rest = s.drop_last();
        lemma_insert_places(rest, v, k);
        assert(s.insert(k, v) =~= rest.insert(k, v).push(s.last()));
    } else {
        assert(s.insert(k, v) =~= s.push(v));
    }
}

fn place(s: &mut Vec<Single>, v: Single)
    requires
        ascending(old(s)@),
        numbers(old(s)@),
        !v.nan(),
    ensures
        final(s)@ == placed(old(s)@, v),
{
    let mut lo: usize = 0;
    let mut hi: usize = s.len();
    while lo < hi
        invariant
            lo <= hi <= s@.len(),
            s == old(s),
            ascending(s@),
            numbers(s@),
            !v.nan(),
            forall|j: int| 0 <= j < lo ==> !v.below(#[trigger] s@[j]),
            forall|j: int| hi <= j < s@.len() ==> v.below(#[trigger] s@[j]),
        decreases hi - lo,
    {
        let mid: usize = lo + (hi - lo) / 2;
        if v.lt(s[mid]) {
            assert forall|j: int| mid <= j < s@.len() implies v.below(#[trigger] s@[j]) by {
                assert(s@[mid as int].at_most(s@[j]));
            }
            hi = mid;
        } else {
            assert forall|j: int| 0 <= j <= mid implies !v.below(#[trigger] s@[j]) by {
                assert(s@[j].at_most(s@[mid as int]));
            }
            lo = mid + 1;
        }
    }
    proof {
        lemma_insert_places(s@, v, lo as int);
    }
    s.insert(lo, v);
}

/// What a round of measurements comes to: the middle one in order, the greatest, and
/// how many there are.
pub struct Latency {
    pub p50: Single,
    pub max: Single,
    pub n: usize,
}

/// Whether this is what measurements come to.
pub open spec fn figured(latency: Seq<Single>, r: Option<Latency>) -> bool {
    &&& r is None <==> latency.len() == 0
    &&& r matches Some(f) ==> {
        let s = ordered(latency);
        &&& s.len() > 0
        &&& f.p50 == s[s.len() as int / 2]
        &&& f.max == s.last()
        &&& f.n == s.len()
    }
}

impl Diagnostics {
    /// A panel that has seen nothing.
    pub fn new() -> (r: Diagnostics)
        ensures
            r@.wf(),
            r@ == dark_panel(),
    {
        let r = Diagnostics {
            keys: [false;12],
            log: VecDeque::new(),
            digital_events: 0,
            analog_events: 0,
            latency: Vec::new(),
        };
        assert(r@ =~= dark_panel());
        r
    }

    /// Which lamps are lit.
    pub fn keys(&self) -> (r: [bool; KEY_COUNT])
        ensures
            r@ == self@.keys,
    {
        self.keys
    }

    /// How often a button went down or up.
    pub fn digital_events(&self) -> (r: u64)
        ensures
            r == self@.digital_events,
    {
        self.digital_events
    }

    /// How often a fader moved.
    pub fn analog_events(&self) -> (r: u64)
        ensures
            r == self@.analog_events,
    {
        self.analog_events
    }

    /// The lines that the panel shows.
    pub fn log_lines(&self) -> (r: Vec<String>)
        ensures
            contents(r@) == self@.log,
    {
        let mut r: Vec<String> = Vec::new();
        let mut i: usize = 0;
        while i < self.log.len()
            invariant
                i <= self.log@.len(),
                r@.len() == i,
                forall|j: int| 0 <= j < i ==> (#[trigger] r@[j])@ == self.log@[j]@,
            decreases self.log@.len() - i,
        {
            r.push(self.log[i].clone());
            i = i + 1;
        }
        assert(contents(r@) =~= contents(self.log@));
        r
    }

    /// A button went down or up. Returns the line about it.
    pub fn on_digital(&mut self, name: &str, down: bool, ms: u128) -> (line: String)
        requires
            old(self)@.wf(),
            old(self)@.digital_events < u64::MAX,
        ensures
            final(self)@.wf(),
            final(self)@ == old(self)@.pressed(name@, down, ms as nat),
            line@ == event_line(ms as nat, name@, down),
    {
        self.digital_events = self.digital_events + 1;
        if let Some(i) = button_index(name) {
            self.keys[i] = down;
        }
        proof {
            reveal_strlit(" ");
        }
        let mut line = stamp(ms);
        line.append("  ");
        line.append(pad_right(name, " ", 14).as_str());
        line.append(" ");
        line.append(
            if down {
                "DOWN"
            } else {
                "up"
            },
        );
        self.push(line.clone());
        assert(self@ =~= old(self)@.pressed(name@, down, ms as nat));
        line
    }

    /// A fader moved.
    pub fn on_analog(&mut self, _name: &str, _value: Single)
        requires
            old(self)@.wf(),
            old(self)@.analog_events < u64::MAX,
        ensures
            final(self)@.wf(),
            final(self)@ == (PanelModel {
                analog_events: (old(self)@.analog_events + 1) as u64,
                ..old(self)@
            }),
    {
        self.analog_events = self.analog_events + 1;
    }

    /// Something took so long.
    pub fn on_latency(&mut self, ms: Single)
        requires
            old(self)@.wf(),
        ensures
            final(self)@.wf(),
            final(self)@ == (PanelModel { latency: old(self)@.latency.push(ms), ..old(self)@ }),
    {
        self.latency.push(ms);
    }

    /// What the measurements come to, where there are any.
    pub fn latency_figures(&self) -> (r: Option<Latency>)
        requires
            numbers(self@.latency),
        ensures
            figured(self@.latency, r),
    {
        let mut s: Vec<Single> = Vec::new();
        let mut i: usize = 0;
        assert(ordered(self.latency@.take(0)) =~= s@);
        while i < self.latency.len()
            invariant
                i <= self.latency@.len(),
                numbers(self.latency@),
                s@ == ordered(self.latency@.take(i as int)),
            decreases self.latency@.len() - i,
        {
            assert(self.latency@.take(i + 1).drop_last() =~= self.latency@.take(i as int));
            proof {
                ordering_keeps_every_number(self.latency@.take(i as int));
            }
            place(&mut s, self.latency[i]);
            i = i + 1;
        }
        proof {
            assert(self.latency@.take(i as int) =~= self.latency@);
            ordering_keeps_every_number(self.latency@);
        }
        if s.len() == 0 {
            return None;
        }
        Some(Latency { p50: s[s.len() / 2], max: s[s.len() - 1], n: s.len() })
    }

    /// What the measurements come to, in words, where `p50` and `max` are the figures
    /// rendered with one decimal.
    pub fn latency_summary(&self, p50: &str, max: &str) -> (r: String)
        ensures
            r@ == (if self@.latency.len() == 0 {
                "—"@
            } else {
                "p50 "@ + p50@ + " ms · max "@ + max@ + " ms · n="@ + dec(self@.latency.len())
            }),
    {
        if self.latency.len() == 0 {
            return "—".to_owned();
        }
        let mut r = "p50 ".to_owned();
        r.append(p50);
        r.append(" ms · max ");
        r.append(max);
        r.append(" ms · n=");
        r.append(decimal(self.latency.len() as u128).as_str());
        r
    }

    fn push(&mut self, line: String)
        requires
            old(self)@.wf(),
        ensures
            final(self)@.wf(),
            final(self)@ == (PanelModel { log: shown(old(self)@.log, line@), ..old(self)@ }),
    {
        if self.log.len() == LOG_LINES {
            self.log.pop_front();
        }
        self.log.push_back(line);
        assert(contents(self.log@) =~= shown(contents(old(self).log@), line@));
        assert(self@ =~= (PanelModel { log: shown(old(self)@.log, line@), ..old(self)@ }));
    }
}

/// A lamp is lit while its button is down and no other event touches it: an event
/// sets the lamp of its own button and no other lamp.
pub proof fn an_event_sets_one_lamp(m: PanelModel, name: Seq<char>, down: bool, ms: nat)
    requires
        m.wf(),
        m.digital_events < u64::MAX,
    ensures
        m.pressed(name, down, ms).wf(),
        lamp(name) matches Some(i) ==> i < KEY_COUNT && m.pressed(name, down, ms).keys[i as int]
            == down,
        forall|k: int|
            0 <= k < KEY_COUNT && lamp(name) != Some(k as usize) ==> (#[trigger] m.pressed(
                name,
                down,
                ms,
            ).keys[k]) == m.keys[k],
{
}

/// The panel's log is bounded, and its newest line is the last.
pub proof fn the_panel_stays_small(log: Seq<Seq<char>>, line: Seq<char>)
    requires
        log.len() <= LOG_LINES,
    ensures
        shown(log, line).len() <= LOG_LINES,
        shown(log, line).last() == line,
{
}

} // verus!
