//! The contact table: every finger on the pad, the keys and faders it holds, and
//! the one contact that drives the cursor.
//!
//! Coordinates arrive as measured, together with what only arithmetic can tell
//! about them (see [`Sense`]); everything that is decided about a contact is
//! decided here. Times are nanoseconds on one clock.
use crate::faders::{fresh_faders, FaderModel, Faders, Reading, FADER_COUNT};
use crate::single::{Single, ONE, ZERO};
use std::collections::HashMap;
use vstd::prelude::*;

verus! {

/// The title by which the pad finds its own window.
pub const WINDOW_TITLE: &'static str = "PChordPad";

/// How many keys the pad has.
pub const KEY_COUNT: usize = 12;

/// How many contacts the table holds.
pub const MAX_CONTACTS: usize = 16;

/// The contact that stands for the mouse.
pub const MOUSE_CONTACT: u32 = 0xFFFF_FFFE;

/// How long a pointer contact may be silent before it is looked after.
pub const CONTACT_SILENT: u64 = 400_000_000;

/// How long a touch contact may be silent before it is looked after.
pub const TOUCH_SILENT: u64 = 1_500_000_000;

/// What the cursor does in answer to a contact.
#[derive(Debug, Clone, Copy, PartialEq)]
pub enum CursorAction {
    Nothing,
    Press(Single, Single),
    Move(Single, Single),
    Release(Single, Single),
}

/// How full the table is, was at most, and how often it was too full.
#[derive(Debug, Clone, Copy, PartialEq, Eq)]
pub struct Stats {
    pub live: usize,
    pub peak: usize,
    pub dropped: u64,
}

impl Default for Stats {
    fn default() -> (r: Stats)
        ensures
            r == (Stats { live: 0, peak: 0, dropped: 0 }),
    {
        Stats { live: 0, peak: 0, dropped: 0 }
    }
}

/// The stretch of the row that a contact on a key has to leave before the key
/// lets go of it: from `lo`, and up to but without `hi`.
#[derive(Debug, Clone, Copy, PartialEq)]
pub struct Slot {
    pub lo: Single,
    pub hi: Single,
}

/// Where the row of keys is.
#[derive(Debug, Clone, Copy, PartialEq)]
pub struct KeyGeom {
    pub x: Single,
    pub y: Single,
    pub w: Single,
    pub h: Single,
    pub key_w: Single,
    pub gap: Single,
    /// The right edge, `x + w`.
    pub right: Single,
    /// The bottom edge, `y + h`.
    pub bottom: Single,
    /// Half a pitch (at least 1.0) to either side of each key's centre.
    pub slots: [Slot; KEY_COUNT],
}

impl Default for KeyGeom {
    /// No row at all.
    fn default() -> (r: KeyGeom)
        ensures
            r.nowhere(),
            !r.usable(),
    {
        let z = Single { bits: ZERO };
        let s = Slot { lo: z, hi: z };
        KeyGeom {
            x: z,
            y: z,
            w: z,
            h: z,
            key_w: z,
            gap: z,
            right: z,
            bottom: z,
            slots: [s, s, s, s, s, s, s, s, s, s, s, s],
        }
    }
}

impl KeyGeom {
    /// Whether every measure is 0.0.
    pub open spec fn nowhere(self) -> bool {
        &&& self.x.bits == ZERO
        &&& self.y.bits == ZERO
        &&& self.w.bits == ZERO
        &&& self.h.bits == ZERO
        &&& self.key_w.bits == ZERO
        &&& self.gap.bits == ZERO
        &&& self.right.bits == ZERO
        &&& self.bottom.bits == ZERO
        &&& forall|i: int|
            0 <= i < KEY_COUNT ==> #[trigger] self.slots@[i] == (Slot {
                lo: Single { bits: ZERO },
                hi: Single { bits: ZERO },
            })
    }

    /// Whether there is a row worth hitting.
    pub open spec fn usable(self) -> bool {
        let one = Single { bits: ONE };
        one.below(self.w) && one.below(self.h) && one.below(self.key_w)
    }

    /// Whether a point lies on the row; the right and bottom edges do not.
    pub open spec fn band(self, x: Single, y: Single) -> bool {
        self.usable() && self.x.at_most(x) && x.below(self.right) && self.y.at_most(y) && y.below(
            self.bottom,
        )
    }

    /// The key of a contact in column `column` that was on key `prev` before. A
    /// jump over more than one key counts as it is. Otherwise the contact stays on
    /// its key until it leaves the key's slot, and then goes to the neighbour.
    pub open spec fn key_at(
        self,
        x: Single,
        y: Single,
        column: i32,
        prev: Option<usize>,
    ) -> Option<usize> {
        if !self.usable() || y.below(self.y) || self.bottom.at_most(y) || x.below(self.x)
            || self.right.at_most(x) {
            None
        } else if !(0 <= column < KEY_COUNT) {
            None
        } else if prev is None || prev->0 >= KEY_COUNT {
            Some(column as usize)
        } else {
            let p = prev->0;
            if column - p > 1 || p - column > 1 {
                Some(column as usize)
            } else if x.below(self.slots@[p as int].lo) {
                Some(
                    if p == 0 {
                        0
                    } else {
                        (p - 1) as usize
                    },
                )
            } else if self.slots@[p as int].hi.at_most(x) {
                Some(
                    if p == KEY_COUNT - 1 {
                        p
                    } else {
                        (p + 1) as usize
                    },
                )
            } else {
                Some(p)
            }
        }
    }

    /// Whether every measure is equal, as numbers.
    pub open spec fn agrees(self, other: KeyGeom) -> bool {
        &&& self.x.equals(other.x)
        &&& self.y.equals(other.y)
        &&& self.w.equals(other.w)
        &&& self.h.equals(other.h)
        &&& self.key_w.equals(other.key_w)
        &&& self.gap.equals(other.gap)
    }

    /// Whether there is a row worth hitting.
    pub fn valid(&self) -> (r: bool)
        ensures
            r == self.usable(),
    {
        let one = Single { bits: ONE };
        self.w.gt(one) && self.h.gt(one) && self.key_w.gt(one)
    }

    /// Whether a point lies on the row.
    pub fn in_band(&self, x: Single, y: Single) -> (r: bool)
        ensures
            r == self.band(x, y),
    {
        self.valid() && x.ge(self.x) && x.lt(self.right) && y.ge(self.y) && y.lt(self.bottom)
    }

    /// The key of a contact, where `column` counts whole pitches (at least 1.0 each)
    /// from the left edge of the row and `prev` is the key it was on.
    pub fn hit(&self, x: Single, y: Single, column: i32, prev: Option<usize>) -> (r: Option<usize>)
        ensures
            r == self.key_at(x, y, column, prev),
    {
        if !self.valid() || y.lt(self.y) || y.ge(self.bottom) {
            return None;
        }
        if x.lt(self.x) || x.ge(self.right) {
            return None;
        }
        if column < 0 || column >= KEY_COUNT as i32 {
            return None;
        }
        let n = column as usize;
        match prev {
            Some(p) => {
                if p >= KEY_COUNT {
                    return Some(n);
                }
                let apart = if n > p {
                    n - p
                } else {
                    p - n
                };
                if apart > 1 {
                    return Some(n);
                }
                if x.lt(self.slots[p].lo) {
                    return Some(
                        if p == 0 {
                            0
                        } else {
                            p - 1
                        },
                    );
                }
                if x.ge(self.slots[p].hi) {
                    return Some(
                        if p + 1 < KEY_COUNT {
                            p + 1
                        } else {
                            KEY_COUNT - 1
                        },
                    );
                }
                Some(p)
            },
            None => Some(n),
        }
    }

    /// Whether every measure is equal, as numbers.
    pub fn same(&self, other: &KeyGeom) -> (r: bool)
        ensures
            r == self.agrees(*other),
    {
        self.x.same(other.x) && self.y.same(other.y) && self.w.same(other.w) && self.h.same(
            other.h,
        ) && self.key_w.same(other.key_w) && self.gap.same(other.gap)
    }
}

/// What arithmetic tells about a contact's coordinates, measured against the pad
/// as it stands before the contact is taken in.
#[derive(Debug, Clone, Copy)]
pub struct Sense {
    /// Whole pitches from the left edge of the row of keys.
    pub column: i32,
    /// What the contact amounts to for each fader.
    pub readings: [Reading; FADER_COUNT],
}

/// One finger on the pad.
#[derive(Debug, Clone, Copy)]
pub struct Contact {
    pub x: Single,
    pub y: Single,
    pub seen: u64,
    pub key: Option<usize>,
}

/// What follows from a contact: keys that went down or up, fader levels to
/// announce, and what the cursor does.
pub struct Ingest {
    pub key_edges: Vec<(usize, bool)>,
    pub analog: Option<[Single; FADER_COUNT]>,
    pub cursor: CursorAction,
}

/// By which kind of message contacts arrive.
#[derive(Debug, Clone, Copy, PartialEq, Eq, Structural)]
pub enum Route {
    Unknown,
    Pointer,
    Touch,
}

impl Default for Route {
    fn default() -> (r: Route)
        ensures
            r == Route::Unknown,
    {
        Route::Unknown
    }
}

/// A window's place on the desktop.
#[derive(Debug, Clone, Copy, PartialEq, Eq, Structural)]
pub struct PinRect {
    pub left: i32,
    pub top: i32,
    pub width: i32,
    pub height: i32,
}

/// Whether some contact is on key `k`.
pub open spec fn pressed(contacts: Map<u32, Contact>, k: int) -> bool {
    exists|id: u32| #[trigger] contacts.contains_key(id) && contacts[id].key == Some(k as usize)
}

/// Which keys are held: those with a contact on them, while keys are enabled.
pub open spec fn held_picture(contacts: Map<u32, Contact>, enabled: bool) -> Seq<bool> {
    Seq::new(KEY_COUNT as nat, |k: int| enabled && pressed(contacts, k))
}

/// The changes among the first `n` keys from one picture to another, in the order
/// of the keys.
pub open spec fn edges_upto(before: Seq<bool>, after: Seq<bool>, n: int) -> Seq<(usize, bool)>
    decreases n,
{
    if n <= 0 {
        Seq::empty()
    } else if before[n - 1] != after[n - 1] {
        edges_upto(before, after, n - 1).push(((n - 1) as usize, after[n - 1]))
    } else {
        edges_upto(before, after, n - 1)
    }
}

/// The changes from one picture of the keys to another.
pub open spec fn edges(before: Seq<bool>, after: Seq<bool>) -> Seq<(usize, bool)> {
    edges_upto(before, after, KEY_COUNT as int)
}

/// How long a contact has been silent.
pub open spec fn silence(c: Contact, now: u64) -> int {
    if now >= c.seen {
        now - c.seen
    } else {
        0
    }
}

/// What a pad is.
#[verifier::ext_equal]
pub struct PadModel {
    pub hwnd: isize,
    pub thread_known: bool,
    pub thread_mismatch_logged: bool,
    pub contacts: Map<u32, Contact>,
    pub cursor: Option<u32>,
    pub stats: Stats,
    pub key_geom: KeyGeom,
    pub keys_enabled: bool,
    pub held: Seq<bool>,
    pub faders: FaderModel,
    pub last_analog: Seq<Single>,
    pub pinned: Option<PinRect>,
    pub vetoed: u64,
    pub minimized: bool,
    pub route: Route,
    pub expired: u64,
    pub displays_changed: bool,
}

impl PadModel {
    /// What holds of every pad: the picture of held keys is the one that the
    /// contacts make, the counts are the table's, the table is not overfull, the
    /// cursor and the faders belong to contacts that are there, and a contact on a
    /// key holds no fader.
    pub open spec fn wf(self) -> bool {
        &&& self.faders.wf()
        &&& self.contacts.dom().finite()
        &&& self.held == held_picture(self.contacts, self.keys_enabled)
        &&& self.stats.live == self.contacts.len()
        &&& self.stats.live <= MAX_CONTACTS
        &&& self.stats.live <= self.stats.peak
        &&& self.last_analog.len() == FADER_COUNT
        &&& self.cursor matches Some(c) ==> self.contacts.contains_key(c) && c != MOUSE_CONTACT
        &&& forall|i: int|
            0 <= i < 2 ==> ((#[trigger] self.faders.faders[i]).owner matches Some(o)
                ==> self.keys_enabled && self.contacts.contains_key(o))
        &&& forall|id: u32| #[trigger]
            self.contacts.contains_key(id) ==> (self.contacts[id].key matches Some(k)
                ==> self.keys_enabled && k < KEY_COUNT && !self.faders.held_by(id))
    }

    /// Whether the table has no room for contact `id`.
    pub open spec fn refuses(self, id: u32) -> bool {
        !self.contacts.contains_key(id) && self.contacts.len() >= MAX_CONTACTS
    }

    /// Whether a point is neither on a key nor on a fader; with keys disabled every
    /// point is.
    pub open spec fn chrome(self, x: Single, y: Single) -> bool {
        !self.keys_enabled || !(self.faders.touched(x, y) || self.key_geom.band(x, y))
    }

    /// The pad with its counts and its picture of held keys brought up to date.
    pub open spec fn refreshed(self) -> PadModel {
        PadModel {
            stats: self.recounted(),
            held: held_picture(self.contacts, self.keys_enabled),
            ..self
        }
    }

    /// The counts brought up to date.
    pub open spec fn recounted(self) -> Stats {
        let live = self.contacts.len() as usize;
        Stats {
            live,
            peak: if self.stats.peak < live {
                live
            } else {
                self.stats.peak
            },
            ..self.stats
        }
    }

    /// The key that contact `id` was on.
    pub open spec fn key_of(self, id: u32) -> Option<usize> {
        if self.contacts.contains_key(id) {
            self.contacts[id].key
        } else {
            None
        }
    }

    /// The faders after contact `id` was seen; nobody touches them while keys are
    /// disabled.
    pub open spec fn faders_after(self, id: u32, x: Single, y: Single, s: Sense) -> FaderModel {
        if self.keys_enabled {
            self.faders.offered(id, x, y, s.readings@)
        } else {
            self.faders
        }
    }

    /// The key of contact `id`: none while keys are disabled or while it holds a
    /// fader.
    pub open spec fn key_after(self, id: u32, x: Single, y: Single, s: Sense) -> Option<usize> {
        if self.keys_enabled && !self.faders_after(id, x, y, s).held_by(id) {
            self.key_geom.key_at(x, y, s.column, self.key_of(id))
        } else {
            None
        }
    }

    /// Whether contact `id` becomes the cursor: a contact that has just come down
    /// on a free spot while there is no cursor, but never the mouse.
    pub open spec fn claims_cursor(self, id: u32, x: Single, y: Single) -> bool {
        id != MOUSE_CONTACT && !self.contacts.contains_key(id) && self.cursor is None
            && self.chrome(x, y)
    }

    /// The pad after contact `id` was seen at a point.
    pub open spec fn seen(self, id: u32, x: Single, y: Single, now: u64, s: Sense) -> PadModel {
        if self.refuses(id) {
            PadModel {
                stats: Stats { dropped: (self.stats.dropped + 1) as u64, ..self.stats },
                ..self
            }
        } else {
            PadModel {
                faders: self.faders_after(id, x, y, s),
                contacts: self.contacts.insert(
                    id,
                    Contact { x, y, seen: now, key: self.key_after(id, x, y, s) },
                ),
                cursor: if self.claims_cursor(id, x, y) {
                    Some(id)
                } else {
                    self.cursor
                },
                ..self
            }.refreshed()
        }
    }

    /// What the cursor does when contact `id` is seen at a point.
    pub open spec fn cursor_when_seen(self, id: u32, x: Single, y: Single) -> CursorAction {
        if self.refuses(id) || id == MOUSE_CONTACT {
            CursorAction::Nothing
        } else if self.cursor == Some(id) {
            CursorAction::Move(x, y)
        } else if self.claims_cursor(id, x, y) {
            CursorAction::Press(x, y)
        } else {
            CursorAction::Nothing
        }
    }

    /// Whether a fader moves when contact `id` is seen at a point.
    pub open spec fn analog_when_seen(self, id: u32, x: Single, y: Single, s: Sense) -> bool {
        !self.refuses(id) && self.keys_enabled && self.faders.offer_moves(id, x, y, s.readings@)
    }

    /// The pad after contact `id` has lifted.
    pub open spec fn lifted(self, id: u32) -> PadModel {
        PadModel {
            contacts: self.contacts.remove(id),
            faders: self.faders.released(id),
            cursor: if id != MOUSE_CONTACT && self.cursor == Some(id) {
                None
            } else {
                self.cursor
            },
            ..self
        }.refreshed()
    }

    /// What the cursor does when contact `id` lifts: it is released where the
    /// contact was last seen, or at the given point if it never was.
    pub open spec fn cursor_when_lifted(self, id: u32, x: Single, y: Single) -> CursorAction {
        if id == MOUSE_CONTACT || self.cursor != Some(id) {
            CursorAction::Nothing
        } else if self.contacts.contains_key(id) {
            CursorAction::Release(self.contacts[id].x, self.contacts[id].y)
        } else {
            CursorAction::Release(x, y)
        }
    }

    /// The pad after every contact has lifted.
    pub open spec fn cleared(self) -> PadModel {
        PadModel {
            contacts: Map::empty(),
            faders: self.faders.all_released(),
            cursor: None,
            ..self
        }.refreshed()
    }

    /// The contacts, none of them on a key.
    pub open spec fn off_keys(self) -> Map<u32, Contact> {
        self.contacts.map_values(|c: Contact| Contact { key: None, ..c })
    }

    /// The pad with its keys enabled or disabled. Disabling them takes every
    /// contact off its key and every fader out of its contact's hands.
    pub open spec fn enabled(self, on: bool) -> PadModel {
        let m = if on {
            PadModel { keys_enabled: true, ..self }
        } else {
            PadModel {
                keys_enabled: false,
                faders: if self.keys_enabled {
                    self.faders.all_released()
                } else {
                    self.faders
                },
                contacts: self.off_keys(),
                ..self
            }
        };
        PadModel { held: held_picture(m.contacts, m.keys_enabled), ..m }
    }

    /// Whether contact `id` has been silent for `silent` or longer.
    pub open spec fn quiet(self, id: u32, now: u64, silent: u64) -> bool {
        self.contacts.contains_key(id) && silence(self.contacts[id], now) >= silent
    }

    /// Whether these levels differ from the ones announced last.
    pub open spec fn unannounced(self, levels: Seq<Single>) -> bool {
        !(self.last_analog[0].equals(levels[0]) && self.last_analog[1].equals(levels[1]))
    }

    /// The pad after levels were announced, which happens only where they differ.
    pub open spec fn announced(self, levels: Seq<Single>) -> PadModel {
        if self.unannounced(levels) {
            PadModel { last_analog: levels, ..self }
        } else {
            self
        }
    }
}

/// A pad before anything has happened.
pub open spec fn fresh_pad(geom: KeyGeom) -> PadModel {
    PadModel {
        hwnd: 0,
        thread_known: false,
        thread_mismatch_logged: false,
        contacts: Map::empty(),
        cursor: None,
        stats: Stats { live: 0, peak: 0, dropped: 0 },
        key_geom: geom,
        keys_enabled: true,
        held: Seq::new(KEY_COUNT as nat, |k: int| false),
        faders: fresh_faders(),
        last_analog: seq![Single { bits: ZERO }, Single { bits: ZERO }],
        pinned: None,
        vetoed: 0,
        minimized: false,
        route: Route::Unknown,
        expired: 0,
        displays_changed: false,
    }
}

/// The pad's memory.
pub struct State {
    pub hwnd: isize,
    pub thread_known: bool,
    pub thread_mismatch_logged: bool,
    pub contacts: HashMap<u32, Contact>,
    pub cursor: Option<u32>,
    pub stats: Stats,
    pub key_geom: KeyGeom,
    pub keys_enabled: bool,
    pub held: [bool; KEY_COUNT],
    pub faders: Faders,
    pub last_analog: [Single; FADER_COUNT],
    pub pinned: Option<PinRect>,
    pub vetoed: u64,
    pub minimized: bool,
    pub route: Route,
    pub expired: u64,
    pub displays_changed: bool,
}

impl View for State {
    type V = PadModel;

    open spec fn view(&self) -> PadModel {
        PadModel {
            hwnd: self.hwnd,
            thread_known: self.thread_known,
            thread_mismatch_logged: self.thread_mismatch_logged,
            contacts: self.contacts@,
            cursor: self.cursor,
            stats: self.stats,
            key_geom: self.key_geom,
            keys_enabled: self.keys_enabled,
            held: self.held@,
            faders: self.faders@,
            last_analog: self.last_analog@,
            pinned: self.pinned,
            vetoed: self.vetoed,
            minimized: self.minimized,
            route: self.route,
            expired: self.expired,
            displays_changed: self.displays_changed,
        }
    }
}

impl Default for State {
    /// A pad before anything has happened, with keys enabled but no row yet.
    fn default() -> (r: State)
        ensures
            r@.wf(),
            r.key_geom.nowhere(),
            r@ == fresh_pad(r.key_geom),
    {
        let z = Single { bits: ZERO };
        let r = State {
            hwnd: 0,
            thread_known: false,
            thread_mismatch_logged: false,
            contacts: HashMap::new(),
            cursor: None,
            stats: Stats::default(),
            key_geom: KeyGeom::default(),
            keys_enabled: true,
            held: [false; KEY_COUNT],
            faders: Faders::new(),
            last_analog: [z, z],
            pinned: None,
            vetoed: 0,
            minimized: false,
            route: Route::Unknown,
            expired: 0,
            displays_changed: false,
        };
        assert(r.held@ =~= Seq::new(KEY_COUNT as nat, |k: int| false));
        assert(r.held@ =~= held_picture(r.contacts@, true));
        assert(r.last_analog@ =~= seq![z, z]);
        r
    }
}

/// A contact's silence, as time that has passed.
fn silent_for(c: &Contact, now: u64) -> (r: u64)
    ensures
        r == silence(*c, now),
{
    if now >= c.seen {
        now - c.seen
    } else {
        0
    }
}

impl State {
    fn is_cursor(&self, id: u32) -> (r: bool)
        ensures
            r == (self.cursor == Some(id)),
    {
        match self.cursor {
            Some(c) => c == id,
            None => false,
        }
    }

    /// Takes in one event of a contact: it was seen at a point, or it lifted.
    pub fn ingest(&mut self, id: u32, x: Single, y: Single, alive: bool, now: u64, s: &Sense) -> (r:
        Ingest)
        requires
            old(self)@.wf(),
            alive && old(self)@.refuses(id) ==> old(self)@.stats.dropped < u64::MAX,
        ensures
            final(self)@.wf(),
            final(self)@ == (if alive {
                old(self)@.seen(id, x, y, now, *s)
            } else {
                old(self)@.lifted(id)
            }),
            r.key_edges@ == edges(old(self)@.held, final(self)@.held),
            r.analog is Some == (alive && old(self)@.analog_when_seen(id, x, y, *s)),
            r.analog matches Some(levels) ==> levels@ == final(self)@.faders.levels(),
            r.cursor == (if alive {
                old(self)@.cursor_when_seen(id, x, y)
            } else {
                old(self)@.cursor_when_lifted(id, x, y)
            }),
    {
        if alive {
            self.ingest_alive(id, x, y, now, s)
        } else {
            self.ingest_gone(id, x, y)
        }
    }

    /// A contact was seen at a point.
    pub fn ingest_alive(&mut self, id: u32, x: Single, y: Single, now: u64, s: &Sense) -> (r: Ingest)
        requires
            old(self)@.wf(),
            old(self)@.refuses(id) ==> old(self)@.stats.dropped < u64::MAX,
        ensures
            final(self)@.wf(),
            final(self)@ == old(self)@.seen(id, x, y, now, *s),
            r.key_edges@ == edges(old(self)@.held, final(self)@.held),
            r.analog is Some == old(self)@.analog_when_seen(id, x, y, *s),
            r.analog matches Some(levels) ==> levels@ == final(self)@.faders.levels(),
            r.cursor == old(self)@.cursor_when_seen(id, x, y),
    {
        broadcast use vstd::std_specs::hash::group_hash_axioms;

        let fresh = !self.contacts.contains_key(&id);
        if fresh && self.contacts.len() >= MAX_CONTACTS {
            self.stats.dropped = self.stats.dropped + 1;
            proof {
                lemma_no_edges(self.held@, KEY_COUNT as int);
            }
            return Ingest { key_edges: Vec::new(), analog: None, cursor: CursorAction::Nothing };
        }
        let analog_changed = self.keys_enabled && self.faders.offer(id, x, y, &s.readings);
        let owns_fader = self.faders.owns(id);

        let prev_key = match self.contacts.get(&id) {
            Some(c) => c.key,
            None => None,
        };
        let key = if self.keys_enabled && !owns_fader {
            self.key_geom.hit(x, y, s.column, prev_key)
        } else {
            None
        };
        self.contacts.insert(id, Contact { x, y, seen: now, key });
        self.recount();

        let key_edges = self.recompute_held();
        let analog = if analog_changed {
            Some(self.faders.values())
        } else {
            None
        };
        let cursor = self.cursor_action(id, x, y, true, fresh);
        assert(self@ =~= old(self)@.seen(id, x, y, now, *s));
        Ingest { key_edges, analog, cursor }
    }

    /// A contact lifted.
    pub fn ingest_gone(&mut self, id: u32, x: Single, y: Single) -> (r: Ingest)
        requires
            old(self)@.wf(),
        ensures
            final(self)@.wf(),
            final(self)@ == old(self)@.lifted(id),
            r.key_edges@ == edges(old(self)@.held, final(self)@.held),
            r.analog is None,
            r.cursor == old(self)@.cursor_when_lifted(id, x, y),
    {
        broadcast use vstd::std_specs::hash::group_hash_axioms;

        let last = self.contacts.remove(&id);
        self.faders.release(id);
        self.recount();
        let key_edges = self.recompute_held();
        let (rx, ry) = match last {
            Some(c) => (c.x, c.y),
            None => (x, y),
        };
        let cursor = self.cursor_action(id, rx, ry, false, false);
        assert(self@ =~= old(self)@.lifted(id));
        Ingest { key_edges, analog: None, cursor }
    }

    fn cursor_action(&mut self, id: u32, x: Single, y: Single, alive: bool, fresh: bool) -> (r:
        CursorAction)
        ensures
            ({
                let m = old(self)@;
                let claims = alive && id != MOUSE_CONTACT && fresh && m.cursor is None && m.chrome(
                    x,
                    y,
                );
                let mine = id != MOUSE_CONTACT && m.cursor == Some(id);
                &&& final(self)@ == (PadModel {
                    cursor: if claims {
                        Some(id)
                    } else if !alive && mine {
                        None
                    } else {
                        m.cursor
                    },
                    ..m
                })
                &&& r == (if claims {
                    CursorAction::Press(x, y)
                } else if mine && alive {
                    CursorAction::Move(x, y)
                } else if mine {
                    CursorAction::Release(x, y)
                } else {
                    CursorAction::Nothing
                })
            }),
    {
        if id == MOUSE_CONTACT {
            return CursorAction::Nothing;
        }
        if alive {
            if self.is_cursor(id) {
                return CursorAction::Move(x, y);
            }
            if fresh && self.cursor.is_none() && self.is_chrome_point(x, y) {
                self.cursor = Some(id);
                return CursorAction::Press(x, y);
            }
            CursorAction::Nothing
        } else if self.is_cursor(id) {
            self.cursor = None;
            CursorAction::Release(x, y)
        } else {
            CursorAction::Nothing
        }
    }

    /// Whether a point is neither on a key nor on a fader.
    pub fn is_chrome_point(&self, x: Single, y: Single) -> (r: bool)
        ensures
            r == self@.chrome(x, y),
    {
        if !self.keys_enabled {
            return true;
        }
        !(self.faders.zone_hit(x, y) || self.key_geom.in_band(x, y))
    }

    fn recount(&mut self)
        requires
            old(self)@.contacts.dom().finite(),
        ensures
            final(self)@ == (PadModel { stats: old(self)@.recounted(), ..old(self)@ }),
    {
        broadcast use vstd::std_specs::hash::group_hash_axioms;

        self.stats.live = self.contacts.len();
        if self.stats.peak < self.stats.live {
            self.stats.peak = self.stats.live;
        }
    }

    fn picture(&self) -> (next: [bool; KEY_COUNT])
        ensures
            next@ == held_picture(self@.contacts, self@.keys_enabled),
    {
        broadcast use vstd::std_specs::hash::group_hash_axioms;

        let mut next: [bool; KEY_COUNT] = [false; KEY_COUNT];
        if self.keys_enabled {
            let ghost all = vstd::std_specs::iter::IteratorSpec::remaining(
                &vstd::std_specs::hash::spec_hash_map_iter(&self.contacts),
            );
            for (id, c) in it: self.contacts.iter()
                invariant
                    it.seq() == all,
                    forall|k: int|
                        0 <= k < KEY_COUNT ==> #[trigger] next@[k] == (exists|j: int|
                            0 <= j < it.index() && (#[trigger] all[j]).1.key == Some(k as usize)),
            {
                if let Some(k) = c.key {
                    if k < KEY_COUNT {
                        next[k] = true;
                    }
                }
            }
            assert forall|k: int| 0 <= k < KEY_COUNT implies #[trigger] next@[k] == pressed(
                self.contacts@,
                k,
            ) by {
                if next@[k] {
                    let j = choose|j: int|
                        0 <= j < all.len() && (#[trigger] all[j]).1.key == Some(k as usize);
                    assert(self.contacts@.contains_key(*all[j].0));
                }
                if pressed(self.contacts@, k) {
                    let id = choose|id: u32| #[trigger]
                        self.contacts@.contains_key(id) && self.contacts@[id].key == Some(
                            k as usize,
                        );
                    assert(all.contains((&id, &self.contacts@[id])));
                }
            }
        }
        assert(next@ =~= held_picture(self@.contacts, self@.keys_enabled));
        next
    }

    /// Brings the picture of held keys up to date and returns what changed.
    pub fn recompute_held(&mut self) -> (changes: Vec<(usize, bool)>)
        ensures
            final(self)@ == (PadModel {
                held: held_picture(old(self)@.contacts, old(self)@.keys_enabled),
                ..old(self)@
            }),
            changes@ == edges(old(self)@.held, final(self)@.held),
    {
        let next = self.picture();
        let mut changes: Vec<(usize, bool)> = Vec::new();
        let mut i: usize = 0;
        while i < KEY_COUNT
            invariant
                i <= KEY_COUNT,
                next@ == held_picture(old(self)@.contacts, old(self)@.keys_enabled),
                changes@ == edges_upto(old(self).held@, next@, i as int),
            decreases KEY_COUNT - i,
        {
            let on = next[i];
            if on != self.held[i] {
                changes.push((i, on));
            }
            i = i + 1;
        }
        self.held = next;
        changes
    }

    /// Forgets every contact and returns the keys that went up.
    pub fn reset_contacts(&mut self) -> (changes: Vec<(usize, bool)>)
        requires
            old(self)@.wf(),
        ensures
            final(self)@.wf(),
            final(self)@ == old(self)@.cleared(),
            changes@ == edges(old(self)@.held, final(self)@.held),
    {
        self.contacts.clear();
        self.faders.release_all();
        self.cursor = None;
        self.recount();
        let changes = self.recompute_held();
        assert(self@ =~= old(self)@.cleared());
        changes
    }

    /// The contacts that have been silent for `silent` or longer, in no particular
    /// order.
    pub fn quiet_contacts(&self, now: u64, silent: u64) -> (ids: Vec<u32>)
        ensures
            ids@.no_duplicates(),
            forall|id: u32| #[trigger] ids@.contains(id) <==> self@.quiet(id, now, silent),
    {
        broadcast use vstd::std_specs::hash::group_hash_axioms;

        let mut ids: Vec<u32> = Vec::new();
        let ghost all = vstd::std_specs::iter::IteratorSpec::remaining(
            &vstd::std_specs::hash::spec_hash_map_iter(&self.contacts),
        );
        for (id, c) in it: self.contacts.iter()
            invariant
                it.seq() == all,
                all.no_duplicates(),
                forall|j: int|
                    0 <= j < all.len() ==> self.contacts@.contains_key(*(#[trigger] all[j]).0)
                        && self.contacts@[*all[j].0] == *all[j].1,
                ids@.no_duplicates(),
                forall|i: u32| #[trigger]
                    ids@.contains(i) <==> (exists|j: int|
                        0 <= j < it.index() && *(#[trigger] all[j]).0 == i && silence(
                            *all[j].1,
                            now,
                        ) >= silent),
        {
            let ghost before = ids@;
            let ghost n = it.index();
            assert(all[n] == (id, c));
            if silent_for(c, now) >= silent {
                assert(!before.contains(*id)) by {
                    if before.contains(*id) {
                        let j = choose|j: int|
                            0 <= j < n && *(#[trigger] all[j]).0 == *id && silence(
                                *all[j].1,
                                now,
                            ) >= silent;
                        assert(all[j] == all[n]);
                    }
                }
                ids.push(*id);
                assert(ids@.last() == *id);
                assert forall|i: u32| #[trigger] ids@.contains(i) <==> (before.contains(i) || i
                    == *id) by {
                    if before.contains(i) {
                        let k = choose|k: int| 0 <= k < before.len() && before[k] == i;
                        assert(ids@[k] == i);
                    }
                }
            }
        }
        assert forall|i: u32| #[trigger] ids@.contains(i) <==> self@.quiet(i, now, silent) by {
            if self@.quiet(i, now, silent) {
                assert(all.contains((&i, &self.contacts@[i])));
            }
        }
        ids
    }

    /// Contact `id` has given a sign of life.
    pub fn restamp(&mut self, id: u32, now: u64)
        requires
            old(self)@.wf(),
        ensures
            final(self)@.wf(),
            final(self)@ == (PadModel {
                contacts: if old(self)@.contacts.contains_key(id) {
                    old(self)@.contacts.insert(
                        id,
                        Contact { seen: now, ..old(self)@.contacts[id] },
                    )
                } else {
                    old(self)@.contacts
                },
                ..old(self)@
            }),
    {
        broadcast use vstd::std_specs::hash::group_hash_axioms;

        let found = match self.contacts.get(&id) {
            Some(c) => Some(*c),
            None => None,
        };
        if let Some(c) = found {
            self.contacts.insert(id, Contact { seen: now, ..c });
            proof {
                lemma_same_keys(old(self).contacts@, self.contacts@);
            }
        }
    }
}

impl State {
    /// Takes every contact off its key.
    fn take_off_keys(&mut self)
        ensures
            final(self)@ == (PadModel { contacts: old(self)@.off_keys(), ..old(self)@ }),
    {
        broadcast use vstd::std_specs::hash::group_hash_axioms;

        // Every contact has been silent for no time at all or longer.
        let ids = self.quiet_contacts(0, 0);
        let mut i: usize = 0;
        while i < ids.len()
            invariant
                i <= ids.len(),
                ids@.no_duplicates(),
                forall|id: u32| #[trigger] ids@.contains(id) <==> old(self)@.quiet(id, 0, 0),
                self@ == (PadModel { contacts: self@.contacts, ..old(self)@ }),
                self@.contacts.dom() == old(self)@.contacts.dom(),
                forall|j: int|
                    0 <= j < i ==> self@.contacts[#[trigger] ids@[j]]
                        == old(self)@.off_keys()[ids@[j]],
                forall|j: int|
                    i <= j < ids.len() ==> self@.contacts[#[trigger] ids@[j]]
                        == old(self)@.contacts[ids@[j]],
            decreases ids.len() - i,
        {
            let id = ids[i];
            assert(ids@.contains(id));
            let found = match self.contacts.get(&id) {
                Some(c) => Some(*c),
                None => None,
            };
            if let Some(c) = found {
                self.contacts.insert(id, Contact { key: None, ..c });
            }
            assert(self@.contacts.dom() =~= old(self)@.contacts.dom());
            i = i + 1;
        }
        assert(self@.contacts =~= old(self)@.off_keys()) by {
            assert forall|id: u32| old(self)@.contacts.contains_key(id) implies #[trigger]
                self@.contacts[id] == old(self)@.off_keys()[id] by {
                assert(old(self)@.quiet(id, 0, 0));
                assert(ids@.contains(id));
            }
        }
    }

    /// Enables or disables the keys and returns what changed.
    pub fn set_keys_enabled(&mut self, on: bool) -> (changes: Vec<(usize, bool)>)
        requires
            old(self)@.wf(),
        ensures
            final(self)@.wf(),
            final(self)@ == old(self)@.enabled(on),
            changes@ == edges(old(self)@.held, final(self)@.held),
    {
        let was = self.keys_enabled;
        self.keys_enabled = on;
        if !on {
            if was {
                self.faders.release_all();
            }
            self.take_off_keys();
        }
        let changes = self.recompute_held();
        assert(self@.contacts.dom() =~= old(self)@.contacts.dom());
        assert(self@ =~= old(self)@.enabled(on));
        changes
    }
}

/// Pictures depend on the contacts' keys alone.
proof fn lemma_same_keys(a: Map<u32, Contact>, b: Map<u32, Contact>)
    requires
        forall|id: u32| #[trigger] a.contains_key(id) <==> b.contains_key(id),
        forall|id: u32| #[trigger] a.contains_key(id) ==> a[id].key == b[id].key,
    ensures
        forall|k: int| pressed(a, k) == pressed(b, k),
        forall|on: bool| held_picture(a, on) == held_picture(b, on),
{
    assert forall|k: int| pressed(a, k) == pressed(b, k) by {
        if pressed(a, k) {
            let id = choose|id: u32| #[trigger]
                a.contains_key(id) && a[id].key == Some(k as usize);
            assert(b.contains_key(id));
        }
        if pressed(b, k) {
            let id = choose|id: u32| #[trigger]
                b.contains_key(id) && b[id].key == Some(k as usize);
            assert(a.contains_key(id));
        }
    }
    assert forall|on: bool| held_picture(a, on) == held_picture(b, on) by {
        assert(held_picture(a, on) =~= held_picture(b, on));
    }
}

pub proof fn lemma_no_edges(p: Seq<bool>, n: int)
    ensures
        edges_upto(p, p, n) == Seq::<(usize, bool)>::empty(),
    decreases n,
{
    if n > 0 {
        lemma_no_edges(p, n - 1);
    }
}

} // verus!
