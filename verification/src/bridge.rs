//! The bridge between the window's messages and the pad: it routes contacts into
//! the table, guards the window's place, and says what there is to announce.
//!
//! Nothing here calls back. A method returns the key changes and the fader levels
//! that its caller announces, in this order.
use crate::faders::{FaderCfg, FaderModel, Zone, FADER_COUNT};
use crate::single::{Single, ZERO};
use crate::touchbridge::{
    edges, Contact, CursorAction, Ingest, KeyGeom, PadModel, PinRect, Route, Sense, State, Stats,
    CONTACT_SILENT, KEY_COUNT, MOUSE_CONTACT, TOUCH_SILENT,
};
use vstd::prelude::*;

verus! {

/// The pad behind the window.
pub struct Bridge {
    pub state: State,
}

impl View for Bridge {
    type V = PadModel;

    open spec fn view(&self) -> PadModel {
        self.state@
    }
}

/// What follows from looking whether the window is minimized.
pub struct Restoration {
    /// Keys that went up because the pad went out of sight.
    pub key_edges: Vec<(usize, bool)>,
    /// Whether this is the first look that found the window minimized.
    pub announce: bool,
    /// Whether to bring the window back.
    pub restore: bool,
}

/// What became of a silent contact.
pub enum Expiry {
    /// It is still down and has been given a sign of life.
    Alive,
    /// It was lost, as the so-manieth contact, and has been lifted.
    Lost(u64, Ingest),
}

/// How an attempt to take over a window stands.
#[derive(Debug, Clone, Copy, PartialEq, Eq, Structural)]
pub enum Takeover {
    /// There is no window.
    Missing,
    /// The window is the pad's already.
    Done,
    /// The window was noted as the pad's and is to be hooked.
    Begun,
}

/// How long a contact may be silent on this route; contacts of no known route are
/// not looked after.
pub open spec fn patience(route: Route) -> Option<u64> {
    match route {
        Route::Pointer => Some(CONTACT_SILENT),
        Route::Touch => Some(TOUCH_SILENT),
        Route::Unknown => None,
    }
}

/// Whether a window that moves or resizes as asked would leave its pinned place.
pub open spec fn drifts(
    pinned: PinRect,
    moving: bool,
    sizing: bool,
    x: i32,
    y: i32,
    cx: i32,
    cy: i32,
) -> bool {
    ||| moving && (x != pinned.left || y != pinned.top)
    ||| sizing && (cx != pinned.width || cy != pinned.height)
}

impl Bridge {
    /// A pad before anything has happened.
    pub fn create() -> (r: Bridge)
        ensures
            r@.wf(),
            r@.key_geom.nowhere(),
            r@ == crate::touchbridge::fresh_pad(r@.key_geom),
    {
        Bridge { state: State::default() }
    }

    /// How full the table is.
    pub fn stats(&self) -> (r: Stats)
        ensures
            r == self@.stats,
    {
        self.state.stats
    }

    /// Moves the row of keys.
    pub fn set_key_geom(&mut self, geom: KeyGeom)
        requires
            old(self)@.wf(),
        ensures
            final(self)@.wf(),
            final(self)@ == (PadModel { key_geom: geom, ..old(self)@ }),
    {
        self.state.key_geom = geom;
    }

    /// Moves the zones of the faders.
    pub fn set_fader_geom(&mut self, zones: [Zone; FADER_COUNT])
        requires
            old(self)@.wf(),
        ensures
            final(self)@.wf(),
            final(self)@ == (PadModel {
                faders: FaderModel { zones: zones@, ..old(self)@.faders },
                ..old(self)@
            }),
    {
        self.state.faders.set_zones(zones);
    }

    /// Changes the response of the faders.
    pub fn set_fader_cfg(&mut self, cfg: FaderCfg)
        requires
            old(self)@.wf(),
        ensures
            final(self)@.wf(),
            final(self)@ == (PadModel {
                faders: FaderModel { cfg, ..old(self)@.faders },
                ..old(self)@
            }),
    {
        self.state.faders.set_cfg(cfg);
    }

    /// The levels of the faders, whether each is held, and where each points.
    pub fn fader_snapshot(&self) -> (r: (
        [Single; FADER_COUNT],
        [bool; FADER_COUNT],
        [i32; FADER_COUNT],
    ))
        ensures
            r.0@ == self@.faders.levels(),
            r.1@ == self@.faders.grabs(),
            r.2@ == self@.faders.bearings(),
    {
        (self.state.faders.values(), self.state.faders.grabbed(), self.state.faders.dirs())
    }

    /// Lets the released faders spring back by one step, where `products` is what
    /// each had settled at times the decay factor. Returns levels to announce.
    pub fn tick_faders(&mut self, products: &[Single; FADER_COUNT]) -> (r: Option<
        [Single; FADER_COUNT],
    >)
        requires
            old(self)@.wf(),
        ensures
            final(self)@.wf(),
            ticked(old(self)@, final(self)@, r, products@),
    {
        if self.state.faders.decay_step(products) {
            let levels = self.state.faders.values();
            self.emit_analog(levels)
        } else {
            None
        }
    }

    /// Pins the window to a place, or lets it go.
    pub fn set_pinned(&mut self, rect: Option<PinRect>)
        requires
            old(self)@.wf(),
        ensures
            final(self)@.wf(),
            final(self)@ == (PadModel { pinned: rect, ..old(self)@ }),
    {
        self.state.pinned = rect;
    }

    /// The desktop was rearranged.
    pub fn note_display_change(&mut self)
        requires
            old(self)@.wf(),
        ensures
            final(self)@.wf(),
            final(self)@ == (PadModel { displays_changed: true, ..old(self)@ }),
    {
        self.state.displays_changed = true;
    }

    /// Whether the desktop was rearranged since this was last asked.
    pub fn take_display_change(&mut self) -> (r: bool)
        requires
            old(self)@.wf(),
        ensures
            final(self)@.wf(),
            r == old(self)@.displays_changed,
            final(self)@ == (PadModel { displays_changed: false, ..old(self)@ }),
    {
        let was = self.state.displays_changed;
        self.state.displays_changed = false;
        was
    }

    /// How often the window was kept in its place.
    pub fn vetoed_moves(&self) -> (r: u64)
        ensures
            r == self@.vetoed,
    {
        self.state.vetoed
    }

    /// Looks after a window that is or is not minimized. A minimized pad holds no
    /// key, so the first look that finds it so lifts every contact.
    pub fn restore_if_minimized(&mut self, iconic: bool) -> (r: Restoration)
        requires
            old(self)@.wf(),
        ensures
            final(self)@.wf(),
            restored(old(self)@, final(self)@, iconic, r),
    {
        let first = self.state.hwnd != 0 && iconic && !self.state.minimized;
        proof {
            crate::touchbridge::lemma_no_edges(self@.held, KEY_COUNT as int);
        }
        if self.state.hwnd == 0 {
            return Restoration { key_edges: Vec::new(), announce: false, restore: false };
        }
        self.state.minimized = iconic;
        let key_edges = if first {
            self.state.reset_contacts()
        } else {
            Vec::new()
        };
        Restoration { key_edges, announce: first, restore: iconic }
    }

    /// The contacts that have been silent for longer than their route allows, in no
    /// particular order. Each is to be settled by [`Bridge::settle_suspect`].
    pub fn expire_lost_contacts(&self, now: u64) -> (ids: Vec<u32>)
        requires
            self@.wf(),
        ensures
            ids@.no_duplicates(),
            forall|id: u32| #[trigger]
                ids@.contains(id) <==> (patience(self@.route) matches Some(silent) && self@.quiet(
                    id,
                    now,
                    silent,
                )),
    {
        match self.state.route {
            Route::Pointer => self.state.quiet_contacts(now, CONTACT_SILENT),
            Route::Touch => self.state.quiet_contacts(now, TOUCH_SILENT),
            Route::Unknown => Vec::new(),
        }
    }

    /// Settles a silent contact of a route: a pointer that is still down gets a sign
    /// of life, anything else is lifted so that its key cannot stick.
    pub fn settle_suspect(&mut self, id: u32, route: Route, still_down: bool, now: u64, s: &Sense)
        -> (r: Expiry)
        requires
            old(self)@.wf(),
            !(route == Route::Pointer && still_down) ==> old(self)@.expired < u64::MAX,
        ensures
            final(self)@.wf(),
            settled(old(self)@, final(self)@, id, route, still_down, now, r),
    {
        if route == Route::Pointer && still_down {
            self.state.restamp(id, now);
            return Expiry::Alive;
        }
        self.state.expired = self.state.expired + 1;
        let n = self.state.expired;
        let done = self.release_contact(id, route, now, s);
        Expiry::Lost(n, done)
    }

    /// How many contacts were lost.
    pub fn expired_contacts(&self) -> (r: u64)
        ensures
            r == self@.expired,
    {
        self.state.expired
    }

    /// Enables or disables the keys and returns what changed.
    pub fn set_keys_enabled(&mut self, on: bool) -> (changes: Vec<(usize, bool)>)
        requires
            old(self)@.wf(),
        ensures
            final(self)@.wf(),
            final(self)@ == old(self)@.enabled(on),
            changes@ == edges(old(self)@.held, final(self)@.held),
    {
        self.state.set_keys_enabled(on)
    }

    /// Whether keys are enabled.
    pub fn keys_enabled(&self) -> (r: bool)
        ensures
            r == self@.keys_enabled,
    {
        self.state.keys_enabled
    }

    /// The mouse was seen, or let go, at a point.
    pub fn track_mouse(&mut self, x: Single, y: Single, up: bool, now: u64, s: &Sense) -> (r:
        Ingest)
        requires
            old(self)@.wf(),
            !up && old(self)@.refuses(MOUSE_CONTACT) ==> old(self)@.stats.dropped < u64::MAX,
        ensures
            final(self)@.wf(),
            processed(
                old(self)@,
                final(self)@,
                r,
                MOUSE_CONTACT,
                x,
                y,
                !up,
                Route::Pointer,
                now,
                *s,
            ),
            r.cursor == CursorAction::Nothing,
    {
        self.process(MOUSE_CONTACT, x, y, !up, Route::Pointer, now, s)
    }

    /// Takes in one event of a contact that arrived on a route.
    pub fn process(
        &mut self,
        id: u32,
        x: Single,
        y: Single,
        alive: bool,
        route: Route,
        now: u64,
        s: &Sense,
    ) -> (r: Ingest)
        requires
            old(self)@.wf(),
            alive && old(self)@.refuses(id) ==> old(self)@.stats.dropped < u64::MAX,
        ensures
            final(self)@.wf(),
            processed(old(self)@, final(self)@, r, id, x, y, alive, route, now, *s),
    {
        self.state.route = route;
        let done = self.state.ingest(id, x, y, alive, now, s);
        let analog = match done.analog {
            Some(levels) => self.emit_analog(levels),
            None => None,
        };
        Ingest { key_edges: done.key_edges, analog, cursor: done.cursor }
    }

    /// Lifts a contact that is gone without saying where.
    pub fn release_contact(&mut self, id: u32, route: Route, now: u64, s: &Sense) -> (r: Ingest)
        requires
            old(self)@.wf(),
        ensures
            final(self)@.wf(),
            final(self)@ == (PadModel { route, ..old(self)@ }).lifted(id),
            r.key_edges@ == edges(old(self)@.held, final(self)@.held),
            r.analog is None,
            r.cursor == old(self)@.cursor_when_lifted(
                id,
                Single { bits: ZERO },
                Single { bits: ZERO },
            ),
    {
        let z = Single { bits: ZERO };
        self.process(id, z, z, false, route, now, s)
    }

    /// Levels to announce: none where they are the ones announced last.
    pub fn emit_analog(&mut self, levels: [Single; FADER_COUNT]) -> (r: Option<
        [Single; FADER_COUNT],
    >)
        requires
            old(self)@.wf(),
        ensures
            final(self)@.wf(),
            final(self)@ == old(self)@.announced(levels@),
            r == (if old(self)@.unannounced(levels@) {
                Some(levels)
            } else {
                None
            }),
    {
        if self.state.last_analog[0].same(levels[0]) && self.state.last_analog[1].same(levels[1]) {
            None
        } else {
            self.state.last_analog = levels;
            Some(levels)
        }
    }

    /// Whether a window is the pad's.
    pub fn is_mine(&self, hwnd: isize) -> (r: bool)
        ensures
            r == owns(self@, hwnd),
    {
        self.state.hwnd != 0 && self.state.hwnd == hwnd
    }

    /// Holds a pinned window in its place: where the asked move or resize would take
    /// it elsewhere, the request is rewritten to the pinned place and counted.
    pub fn hold_position(
        &mut self,
        moving: bool,
        sizing: bool,
        x: &mut i32,
        y: &mut i32,
        cx: &mut i32,
        cy: &mut i32,
    ) -> (r: Option<u64>)
        requires
            old(self)@.wf(),
            (old(self)@.pinned matches Some(p) && drifts(
                p,
                moving,
                sizing,
                *old(x),
                *old(y),
                *old(cx),
                *old(cy),
            )) ==> old(self)@.vetoed < u64::MAX,
        ensures
            final(self)@.wf(),
            ({
                let held = old(self)@.pinned matches Some(p) && drifts(
                    p,
                    moving,
                    sizing,
                    *old(x),
                    *old(y),
                    *old(cx),
                    *old(cy),
                );
                if held {
                    let p = old(self)@.pinned->0;
                    &&& r == Some((old(self)@.vetoed + 1) as u64)
                    &&& final(self)@ == (PadModel {
                        vetoed: (old(self)@.vetoed + 1) as u64,
                        ..old(self)@
                    })
                    &&& *final(x) == p.left
                    &&& *final(y) == p.top
                    &&& *final(cx) == p.width
                    &&& *final(cy) == p.height
                } else {
                    &&& r is None
                    &&& final(self)@ == old(self)@
                    &&& *final(x) == *old(x)
                    &&& *final(y) == *old(y)
                    &&& *final(cx) == *old(cx)
                    &&& *final(cy) == *old(cy)
                }
            }),
    {
        match self.state.pinned {
            Some(p) => {
                let drifting = (moving && (*x != p.left || *y != p.top)) || (sizing && (*cx
                    != p.width || *cy != p.height));
                if !drifting {
                    return None;
                }
                *x = p.left;
                *y = p.top;
                *cx = p.width;
                *cy = p.height;
                self.state.vetoed = self.state.vetoed + 1;
                Some(self.state.vetoed)
            },
            None => None,
        }
    }

    /// A callback arrived, on the thread that hooked the window or on another.
    /// Returns whether to complain, which happens once.
    pub fn verify_callback_thread(&mut self, same_thread: bool) -> (r: bool)
        requires
            old(self)@.wf(),
        ensures
            final(self)@.wf(),
            r == mismatched(old(self)@, same_thread),
            final(self)@ == thread_checked(old(self)@, same_thread),
    {
        let mismatch = self.state.thread_known && !same_thread;
        if mismatch && !self.state.thread_mismatch_logged {
            self.state.thread_mismatch_logged = true;
            true
        } else {
            false
        }
    }

    /// The window is gone: forgets it, lifts every contact and returns the keys that
    /// went up.
    pub fn reset(&mut self) -> (changes: Vec<(usize, bool)>)
        requires
            old(self)@.wf(),
        ensures
            final(self)@.wf(),
            final(self)@ == (PadModel { hwnd: 0, thread_known: false, ..old(self)@ }).cleared(),
            changes@ == edges(old(self)@.held, final(self)@.held),
    {
        self.state.hwnd = 0;
        self.state.thread_known = false;
        self.state.reset_contacts()
    }

    /// Takes a window over, unless there is none or it is the pad's already.
    pub fn install(&mut self, hwnd: isize) -> (r: Takeover)
        requires
            old(self)@.wf(),
        ensures
            final(self)@.wf(),
            r == takeover(old(self)@, hwnd),
            final(self)@ == taken_over(old(self)@, hwnd),
    {
        if hwnd == 0 {
            return Takeover::Missing;
        }
        if self.state.hwnd == hwnd {
            return Takeover::Done;
        }
        self.state.hwnd = hwnd;
        self.state.thread_known = true;
        self.state.thread_mismatch_logged = false;
        Takeover::Begun
    }

    /// The hook took, or did not: in which case the window is not the pad's after all.
    pub fn finish_install(&mut self, hooked: bool) -> (r: bool)
        requires
            old(self)@.wf(),
        ensures
            final(self)@.wf(),
            r == hooked,
            final(self)@ == hook_tried(old(self)@, hooked),
    {
        if !hooked {
            self.state.hwnd = 0;
            self.state.thread_known = false;
        }
        hooked
    }
}

/// What looking after a window that is or is not minimized does to the pad.
pub open spec fn restored(m: PadModel, after: PadModel, iconic: bool, r: Restoration) -> bool {
    let first = m.hwnd != 0 && iconic && !m.minimized;
    let looked = PadModel { minimized: iconic, ..m };
    &&& after == (if first {
        looked.cleared()
    } else if m.hwnd != 0 {
        looked
    } else {
        m
    })
    &&& r.announce == first
    &&& r.restore == (m.hwnd != 0 && iconic)
    &&& r.key_edges@ == edges(m.held, after.held)
}

/// What settling a silent contact does to the pad.
pub open spec fn settled(
    m: PadModel,
    after: PadModel,
    id: u32,
    route: Route,
    still_down: bool,
    now: u64,
    r: Expiry,
) -> bool {
    if route == Route::Pointer && still_down {
        &&& r is Alive
        &&& after == (PadModel {
            contacts: if m.contacts.contains_key(id) {
                m.contacts.insert(id, Contact { seen: now, ..m.contacts[id] })
            } else {
                m.contacts
            },
            ..m
        })
    } else {
        let lost = PadModel { expired: (m.expired + 1) as u64, route, ..m };
        &&& after == lost.lifted(id)
        &&& r matches Expiry::Lost(n, done) && n == m.expired + 1 && done.analog is None
            && done.key_edges@ == edges(m.held, after.held) && done.cursor
            == m.cursor_when_lifted(id, Single { bits: ZERO }, Single { bits: ZERO })
    }
}

/// Whether a callback on this thread is worth a complaint.
pub open spec fn mismatched(m: PadModel, same_thread: bool) -> bool {
    m.thread_known && !same_thread && !m.thread_mismatch_logged
}

/// The pad after a callback on this thread.
pub open spec fn thread_checked(m: PadModel, same_thread: bool) -> PadModel {
    PadModel {
        thread_mismatch_logged: m.thread_mismatch_logged || mismatched(m, same_thread),
        ..m
    }
}

/// How an attempt to take over a window stands.
pub open spec fn takeover(m: PadModel, hwnd: isize) -> Takeover {
    if hwnd == 0 {
        Takeover::Missing
    } else if m.hwnd == hwnd {
        Takeover::Done
    } else {
        Takeover::Begun
    }
}

/// The pad after an attempt to take over a window.
pub open spec fn taken_over(m: PadModel, hwnd: isize) -> PadModel {
    if takeover(m, hwnd) == Takeover::Begun {
        PadModel { hwnd, thread_known: true, thread_mismatch_logged: false, ..m }
    } else {
        m
    }
}

/// The pad after the hook took or did not.
pub open spec fn hook_tried(m: PadModel, hooked: bool) -> PadModel {
    if hooked {
        m
    } else {
        PadModel { hwnd: 0, thread_known: false, ..m }
    }
}

/// Whether a window is the pad's.
pub open spec fn owns(m: PadModel, hwnd: isize) -> bool {
    m.hwnd != 0 && m.hwnd == hwnd
}

/// What one decay step makes of the pad, and what follows from it: the faders spring back,
/// and levels are announced only where they are news.
pub open spec fn ticked(
    before: PadModel,
    after: PadModel,
    r: Option<[Single; FADER_COUNT]>,
    products: Seq<Single>,
) -> bool {
    let moved = before.faders.decay_moves(products);
    let relaxed = before.faders.relaxed(products);
    let m = PadModel { faders: relaxed, ..before };
    &&& after == (if moved {
        m.announced(relaxed.levels())
    } else {
        m
    })
    &&& r is Some == (moved && before.unannounced(relaxed.levels()))
    &&& r matches Some(levels) ==> levels@ == relaxed.levels()
}

/// What one event of a contact makes of the pad, and what follows from it: the
/// route is noted, the contact is taken in, and levels are announced only where
/// they are news.
pub open spec fn processed(
    before: PadModel,
    after: PadModel,
    r: Ingest,
    id: u32,
    x: Single,
    y: Single,
    alive: bool,
    route: Route,
    now: u64,
    s: Sense,
) -> bool {
    let m = PadModel { route, ..before };
    let moved = alive && before.analog_when_seen(id, x, y, s);
    let taken = if alive {
        m.seen(id, x, y, now, s)
    } else {
        m.lifted(id)
    };
    &&& after == (if moved {
        taken.announced(taken.faders.levels())
    } else {
        taken
    })
    &&& r.key_edges@ == edges(before.held, after.held)
    &&& r.analog is Some == (moved && before.unannounced(taken.faders.levels()))
    &&& r.analog matches Some(levels) ==> levels@ == taken.faders.levels()
    &&& r.cursor == (if alive {
        before.cursor_when_seen(id, x, y)
    } else {
        before.cursor_when_lifted(id, x, y)
    })
}

} // verus!
