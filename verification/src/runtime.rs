//! What ties the parts together: what each key is called, where the window belongs,
//! what a change of the settings entails, and what a tick of the clock brings.
use crate::bridge::{Bridge, Restoration};
use crate::config::Config;
use crate::diagnostics::{digits_value, lamp};
use crate::faders::{FaderCfg, FaderModel, Zone, FADER_COUNT};
use crate::monitor::{MonInfo, MonModel};
use crate::navmirror::{at_least_one, MirrorModel, NavMirror};
use crate::text::{dec, decimal, digit};
use crate::touchbridge::{
    edges, edges_upto, lemma_no_edges, KeyGeom, PadModel, PinRect, Stats, KEY_COUNT,
};
use vstd::prelude::*;
use vstd::std_specs::cmp::*;
use vstd::string::*;

verus! {

/// How long after the start the window may take to be hooked, in nanoseconds.
pub const INSTALL_PATIENCE: u64 = 5_000_000_000;

/// The time between two ticks above which the clock counts as stalled, in nanoseconds.
pub const TICK_LATE: u64 = 250_000_000;

/// The epoch that stands for a link that is switched off.
pub const DISABLED: u64 = u64::MAX;

/// What a key is called; keys beyond the last are called as the last.
pub open spec fn key_name(index: nat) -> Seq<char> {
    "Button "@ + dec(
        if index < KEY_COUNT {
            index + 1
        } else {
            KEY_COUNT as nat
        },
    )
}

/// What a key is called.
pub fn button_name(index: usize) -> (r: &'static str)
    ensures
        r@ == key_name(index as nat),
{
    proof {
        reveal_strlit("Button ");
        reveal_strlit("Button 1");
        reveal_strlit("Button 2");
        reveal_strlit("Button 3");
        reveal_strlit("Button 4");
        reveal_strlit("Button 5");
        reveal_strlit("Button 6");
        reveal_strlit("Button 7");
        reveal_strlit("Button 8");
        reveal_strlit("Button 9");
        reveal_strlit("Button 10");
        reveal_strlit("Button 11");
        reveal_strlit("Button 12");
        reveal_with_fuel(dec, 3);
    }
    let r = match index {
        0 => "Button 1",
        1 => "Button 2",
        2 => "Button 3",
        3 => "Button 4",
        4 => "Button 5",
        5 => "Button 6",
        6 => "Button 7",
        7 => "Button 8",
        8 => "Button 9",
        9 => "Button 10",
        10 => "Button 11",
        _ => "Button 12",
    };
    assert(r@ =~= key_name(index as nat));
    r
}

proof fn lemma_digits_of_dec(n: nat)
    ensures
        digits_value(dec(n)) == Some(n),
        dec(n).len() > 0,
        dec(n)[0] != '+',
    decreases n,
{
    if n < 10 {
        assert(dec(n).last() == digit(n));
    } else {
        lemma_digits_of_dec(n / 10);
        assert(dec(n).drop_last() =~= dec(n / 10));
        assert(dec(n).last() == digit(n % 10));
        assert(dec(n)[0] == dec(n / 10)[0]);
    }
}

/// Every key lights its own lamp: the name that a key goes by is the name of the
/// lamp with the same number.
pub proof fn every_key_lights_its_own_lamp(index: nat)
    requires
        index < KEY_COUNT,
    ensures
        lamp(key_name(index)) == Some(index as usize),
{
    reveal_strlit("Button ");
    let name = key_name(index);
    lemma_digits_of_dec(index + 1);
    assert("Button "@ =~= name.subrange(0, 7));
    assert(name.skip(7) =~= dec(index + 1));
}

/// A value to set, unless it is the current one already.
pub fn set_if_changed<T: PartialEq>(want: T, current: T) -> (r: Option<T>)
    ensures
        T::obeys_eq_spec() ==> r is Some == !want.eq_spec(&current),
        r matches Some(v) ==> v == want,
{
    if want != current {
        Some(want)
    } else {
        None
    }
}

/// The number of a screen that was asked for.
pub open spec fn screen_asked(asked: i32) -> int {
    if asked < 0 {
        0
    } else {
        asked as int
    }
}

/// The number of a screen that was asked for; there is none below the first.
pub fn screen_number(asked: i32) -> (r: usize)
    ensures
        r == screen_asked(asked),
{
    if asked < 0 {
        0
    } else {
        asked as usize
    }
}

/// The place of a screen, at least one by one in size.
pub open spec fn whole_screen(m: MonModel) -> PinRect {
    PinRect {
        left: m.left,
        top: m.top,
        width: at_least_one(m.width) as i32,
        height: at_least_one(m.height) as i32,
    }
}

/// Where a pad that fills its screen is put.
pub fn pin(m: &MonInfo) -> (r: PinRect)
    ensures
        r == whole_screen(m@),
{
    PinRect {
        left: m.left,
        top: m.top,
        width: if m.width < 1 {
            1
        } else {
            m.width
        },
        height: if m.height < 1 {
            1
        } else {
            m.height
        },
    }
}

/// A length that leaves a margin of 80 on the screen, but is at least `least` and at
/// most `most`.
pub open spec fn windowed_length(screen: i32, least: int, most: int) -> int {
    if screen - 80 < least {
        least
    } else if screen - 80 > most {
        most
    } else {
        screen - 80
    }
}

/// How far in something starts that is centred: half the difference, cut off towards
/// zero.
pub open spec fn margin(outer: int, inner: int) -> int {
    if outer >= inner {
        (outer - inner) / 2
    } else {
        -((inner - outer) / 2)
    }
}

/// Whether the place that is centred on a length of the screen can be told.
pub open spec fn centres(start: i32, screen: i32, least: int, most: int) -> bool {
    let length = windowed_length(screen, least, most);
    &&& i32::MIN <= screen - length
    &&& i32::MIN <= start + margin(screen as int, length) <= i32::MAX
}

/// Whether the place of a window of its own on this screen can be told.
pub open spec fn has_middle(m: MonModel) -> bool {
    centres(m.left, m.width, 900, 1280) && centres(m.top, m.height, 600, 720)
}

/// Whether a pad can be put in a window of its own on this screen.
pub fn can_float(m: &MonInfo) -> (r: bool)
    ensures
        r == has_middle(m@),
{
    centred(m.left, m.width, 900, 1280).is_some() && centred(m.top, m.height, 600, 720).is_some()
}

fn centred(start: i32, screen: i32, least: i32, most: i32) -> (r: Option<(i32, i32)>)
    requires
        0 < least <= most,
    ensures
        r is Some == centres(start, screen, least as int, most as int),
        r matches Some((at, length)) ==> length == windowed_length(
            screen,
            least as int,
            most as int,
        ) && at == start + margin(screen as int, length as int),
{
    let asked: i64 = screen as i64 - 80;
    let length: i64 = if asked < least as i64 {
        least as i64
    } else if asked > most as i64 {
        most as i64
    } else {
        asked
    };
    let rest: i64 = screen as i64 - length;
    let into: i64 = if rest >= 0 {
        rest / 2
    } else {
        -((-rest) / 2)
    };
    let at: i64 = start as i64 + into;
    if rest < i32::MIN as i64 || at < i32::MIN as i64 || at > i32::MAX as i64 {
        return None;
    }
    Some((at as i32, length as i32))
}

/// Whether this is the place of a pad in a window of its own.
pub open spec fn floats(m: MonModel, r: PinRect) -> bool {
    &&& r.width == windowed_length(m.width, 900, 1280)
    &&& r.height == windowed_length(m.height, 600, 720)
    &&& r.left == m.left + margin(m.width as int, r.width as int)
    &&& r.top == m.top + margin(m.height as int, r.height as int)
}

/// Where a pad in a window of its own is put: centred on its screen.
pub fn make_windowed(m: &MonInfo) -> (r: PinRect)
    requires
        has_middle(m@),
    ensures
        floats(m@, r),
{
    let (left, width) = centred(m.left, m.width, 900, 1280).unwrap();
    let (top, height) = centred(m.top, m.height, 600, 720).unwrap();
    PinRect { left, top, width, height }
}

/// Whether a window of this place and size is not where it belongs.
pub open spec fn strayed(m: MonModel, x: i32, y: i32, width: u32, height: u32) -> bool {
    x != m.left || y != m.top || width != at_least_one(m.width) || height != at_least_one(
        m.height,
    )
}

/// Whether a window of this place and size has left the place it belongs.
pub fn repin_if_needed(m: &MonInfo, x: i32, y: i32, width: u32, height: u32) -> (r: bool)
    ensures
        r == strayed(m@, x, y, width, height),
{
    let p = pin(m);
    x != p.left || y != p.top || width != p.width as u32 || height != p.height as u32
}

/// What looking after the window's place comes to.
pub struct Watched {
    pub restoration: Restoration,
    /// Whether to look if the window has left its place.
    pub check: bool,
}

/// What looking after the window's place does to the pad.
pub open spec fn watched(
    m: PadModel,
    after: PadModel,
    windowed: bool,
    iconic: bool,
    pad: Option<&MonInfo>,
    r: Watched,
) -> bool {
    if windowed {
        &&& after == (PadModel { pinned: None, ..m })
        &&& !r.check
        &&& !r.restoration.restore
        &&& !r.restoration.announce
    } else {
        let known = m.hwnd != 0;
        let looked = PadModel { minimized: iconic, ..m };
        &&& r.restoration.restore == (known && iconic)
        &&& r.restoration.announce == (known && iconic && !m.minimized)
        &&& r.check == !r.restoration.restore
        &&& after == (if known && iconic && !m.minimized {
            looked.cleared()
        } else if known && iconic {
            looked
        } else {
            PadModel {
                minimized: if known {
                    iconic
                } else {
                    m.minimized
                },
                pinned: match pad {
                    Some(screen) => Some(whole_screen(screen@)),
                    None => None,
                },
                ..m
            }
        })
    }
}

/// What following up on a rearranged desktop does to the pad.
pub open spec fn followed(
    m: PadModel,
    after: PadModel,
    windowed: bool,
    pad: Option<&MonInfo>,
    r: bool,
) -> bool {
    &&& r == (m.displays_changed && !windowed && pad is Some)
    &&& after == (PadModel {
        displays_changed: false,
        pinned: if r {
            Some(whole_screen(pad->0@))
        } else {
            m.pinned
        },
        ..m
    })
}

/// The pad with its keys as wanted.
pub open spec fn keys_synced(m: PadModel, want: bool) -> PadModel {
    if m.keys_enabled == want {
        m
    } else {
        m.enabled(want)
    }
}

impl Bridge {
    /// Looks after the window's place: a pad in a window of its own is let go; a
    /// minimized one is brought back first; any other is pinned to its screen.
    pub fn start_pin_watch(&mut self, windowed: bool, iconic: bool, pad: Option<&MonInfo>) -> (r:
        Watched)
        requires
            old(self)@.wf(),
        ensures
            final(self)@.wf(),
            r.restoration.key_edges@ == edges(old(self)@.held, final(self)@.held),
            watched(old(self)@, final(self)@, windowed, iconic, pad, r),
    {
        proof {
            lemma_no_edges(self@.held, KEY_COUNT as int);
        }
        if windowed {
            self.set_pinned(None);
            let restoration = Restoration {
                key_edges: Vec::new(),
                announce: false,
                restore: false,
            };
            return Watched { restoration, check: false };
        }
        let restoration = self.restore_if_minimized(iconic);
        if restoration.restore {
            return Watched { restoration, check: false };
        }
        let rect = match pad {
            Some(m) => Some(pin(m)),
            None => None,
        };
        self.set_pinned(rect);
        Watched { restoration, check: true }
    }

    /// Follows up on a rearranged desktop, once: a pad that fills a screen is pinned
    /// to it anew. Returns whether to look if the window has left its place.
    pub fn follow_displays(&mut self, windowed: bool, pad: Option<&MonInfo>) -> (r: bool)
        requires
            old(self)@.wf(),
        ensures
            final(self)@.wf(),
            followed(old(self)@, final(self)@, windowed, pad, r),
    {
        if self.take_display_change() && !windowed {
            if let Some(m) = pad {
                self.set_pinned(Some(pin(m)));
                return true;
            }
        }
        false
    }

    /// Enables or disables the keys where they are not so already, and returns what
    /// changed.
    pub fn sync_keys_enabled(&mut self, want: bool) -> (changes: Vec<(usize, bool)>)
        requires
            old(self)@.wf(),
        ensures
            final(self)@.wf(),
            final(self)@ == keys_synced(old(self)@, want),
            changes@ == edges(old(self)@.held, final(self)@.held),
    {
        if self.keys_enabled() != want {
            self.set_keys_enabled(want)
        } else {
            proof {
                lemma_no_edges(self@.held, KEY_COUNT as int);
            }
            Vec::new()
        }
    }
}

/// Which screen is still upside down once the ones that should not be were turned
/// back.
pub open spec fn still_turned(before: Option<Seq<char>>, flip: bool, pad: Seq<char>) -> Option<
    Seq<char>,
> {
    if before == Some(pad) && flip {
        before
    } else {
        None
    }
}

/// The screen that stands upside down for the pad's sake, by its device.
pub struct Orientation {
    pub rotated: Option<String>,
}

impl View for Orientation {
    type V = Option<Seq<char>>;

    open spec fn view(&self) -> Option<Seq<char>> {
        match self.rotated {
            Some(s) => Some(s@),
            None => None,
        }
    }
}

impl Orientation {
    /// No screen was turned.
    pub fn new() -> (r: Orientation)
        ensures
            r@ is None,
    {
        Orientation { rotated: None }
    }

    /// Before the pad's screen is turned or not: the screen to turn back first, where
    /// one was turned that is not the pad's, or is not to be turned any more.
    pub fn sync_pad_orientation(&mut self, flip: bool, pad: &str) -> (r: Option<String>)
        ensures
            final(self)@ == still_turned(old(self)@, flip, pad@),
            r is Some == (old(self)@ is Some && final(self)@ is None),
            r matches Some(dev) ==> Some(dev@) == old(self)@,
    {
        let back = match &self.rotated {
            Some(dev) => !crate::text::same(dev.as_str(), pad) || !flip,
            None => false,
        };
        if back {
            self.take()
        } else {
            None
        }
    }

    /// The pad's screen was turned upside down, or could not be. Returns what to tell
    /// where it could not.
    pub fn flipped(&mut self, pad: &str, outcome: Result<(), String>) -> (r: Option<String>)
        ensures
            match outcome {
                Ok(()) => final(self)@ == Some(pad@) && r is None,
                Err(why) => final(self)@ == old(self)@ && (r matches Some(text) && text@
                    == "Flip failed: "@ + why@),
            },
    {
        match outcome {
            Ok(()) => {
                self.rotated = Some(pad.to_owned());
                None
            },
            Err(why) => {
                let mut text = "Flip failed: ".to_owned();
                text.append(why.as_str());
                Some(text)
            },
        }
    }

    /// The screen that was turned, to be turned back for good.
    pub fn take(&mut self) -> (r: Option<String>)
        ensures
            final(self)@ is None,
            r is Some == old(self)@ is Some,
            r matches Some(dev) ==> Some(dev@) == old(self)@,
    {
        let was = self.rotated.take();
        was
    }
}

/// Which screen is upside down after the pad's orientation was brought in line, where
/// turning the pad's screen succeeds or not.
pub open spec fn turned(
    before: Option<Seq<char>>,
    flip: bool,
    pad: Seq<char>,
    succeeds: bool,
) -> Option<Seq<char>> {
    if flip && succeeds {
        Some(pad)
    } else {
        still_turned(before, flip, pad)
    }
}

/// No screen but the pad's is ever left upside down, and none at all once the pad is
/// not to be.
pub proof fn no_other_screen_stays_upside_down(
    before: Option<Seq<char>>,
    flip: bool,
    pad: Seq<char>,
    succeeds: bool,
)
    ensures
        turned(before, flip, pad, succeeds) is Some ==> flip && turned(before, flip, pad, succeeds)
            == Some(pad),
        flip && succeeds ==> turned(before, flip, pad, succeeds) == Some(pad),
{
}

/// What switching the mirror on or off comes to.
pub struct Toggled {
    /// Whether the mirror is on.
    pub active: bool,
    /// What to tell instead of what was told.
    pub status: Option<String>,
    /// Keys that changed.
    pub key_edges: Vec<(usize, bool)>,
    /// Where to let go of the mouse button.
    pub release: Option<(i32, i32)>,
}

/// What switching the mirror on or off does to the pad and the mirror.
pub open spec fn toggled(
    m: PadModel,
    after: PadModel,
    shown: MirrorModel,
    shown_after: MirrorModel,
    active: bool,
    nav: Option<MonInfo>,
    pad: Option<&MonInfo>,
    keys_interactive: bool,
    r: Toggled,
) -> bool {
    let known = nav is Some && pad is Some;
    let differ = known && !nav->0@.covers_same(pad->0@);
    if !active {
        &&& !r.active
        &&& r.status matches Some(s) && s@ == ""@
        &&& shown_after == (MirrorModel { running: false, ..shown }).telling("idle"@)
        &&& after == m.enabled(keys_interactive)
        &&& r.release matches Some((x, y)) && x == shown.middle().0 && y == shown.middle().1
    } else if differ {
        &&& r.active
        &&& r.status is None
        &&& r.release is None
        &&& shown_after == (MirrorModel {
            running: true,
            target: Some(nav->0@),
            ..shown
        }).telling("capturing…"@)
        &&& after == m.enabled(false)
    } else {
        &&& !r.active
        &&& r.status matches Some(s) && s@ == (if known {
            "Nav monitor must be different from Pad monitor"@
        } else {
            "invalid monitor selection"@
        })
        &&& r.release is None
        &&& shown_after == shown
        &&& after == m
    }
}

/// Switches the mirror on or off. It goes on only with two screens that differ; the
/// keys are off while it is on, and as `keys_interactive` says once it is off.
pub fn nav_toggled(
    bridge: &mut Bridge,
    mirror: &mut NavMirror,
    active: bool,
    nav: Option<MonInfo>,
    pad: Option<&MonInfo>,
    keys_interactive: bool,
) -> (r: Toggled)
    requires
        old(bridge)@.wf(),
        old(mirror)@.wf(),
        nav matches Some(m) ==> m@.fits(),
    ensures
        final(bridge)@.wf(),
        final(mirror)@.wf(),
        r.key_edges@ == edges(old(bridge)@.held, final(bridge)@.held),
        toggled(
            old(bridge)@,
            final(bridge)@,
            old(mirror)@,
            final(mirror)@,
            active,
            nav,
            pad,
            keys_interactive,
            r,
        ),
{
    proof {
        lemma_no_edges(bridge@.held, KEY_COUNT as int);
    }
    if !active {
        let at = mirror.stop();
        let key_edges = bridge.set_keys_enabled(keys_interactive);
        return Toggled {
            active: false,
            status: Some("".to_owned()),
            key_edges,
            release: Some(at),
        };
    }
    match (nav, pad) {
        (Some(n), Some(p)) => {
            match mirror.start(n, p) {
                Ok(()) => {
                    let key_edges = bridge.set_keys_enabled(false);
                    Toggled { active: true, status: None, key_edges, release: None }
                },
                Err(why) => Toggled {
                    active: false,
                    status: Some(why),
                    key_edges: Vec::new(),
                    release: None,
                },
            }
        },
        _ => Toggled {
            active: false,
            status: Some("invalid monitor selection".to_owned()),
            key_edges: Vec::new(),
            release: None,
        },
    }
}

/// What pointing the mirror at the screen now chosen does to it.
pub open spec fn retargeted(
    m: MirrorModel,
    after: MirrorModel,
    active: bool,
    nav: Option<MonInfo>,
    pad: Option<&MonInfo>,
    r: Option<String>,
) -> bool {
    if active && nav is Some && pad is Some {
        if nav->0@.covers_same(pad->0@) {
            &&& r matches Some(s) && s@ == "Nav monitor must be different from Pad monitor"@
            &&& after == m
        } else {
            &&& r is None
            &&& after == (MirrorModel {
                running: true,
                target: Some(nav->0@),
                ..m
            }).telling("capturing…"@)
        }
    } else {
        r is None && after == m
    }
}

/// Points a mirror that is on at the screen now chosen, where both screens are known.
/// Returns what to tell where that fails; the mirror then stays as it is.
pub fn retarget(
    mirror: &mut NavMirror,
    active: bool,
    nav: Option<MonInfo>,
    pad: Option<&MonInfo>,
) -> (r: Option<String>)
    requires
        old(mirror)@.wf(),
        nav matches Some(m) ==> m@.fits(),
    ensures
        final(mirror)@.wf(),
        retargeted(old(mirror)@, final(mirror)@, active, nav, pad, r),
{
    if !active {
        return None;
    }
    match (nav, pad) {
        (Some(n), Some(p)) => {
            match mirror.start(n, p) {
                Ok(()) => None,
                Err(why) => Some(why),
            }
        },
        _ => None,
    }
}

/// What becomes of the window when the settings change.
#[derive(Debug, Clone, Copy, PartialEq, Eq, Structural)]
pub enum WindowChange {
    /// It is given a place of its own.
    Float,
    /// It is put on its whole screen.
    Fill,
    /// Nothing.
    Stay,
}

/// What a change of the settings entails.
#[derive(Debug, Clone, Copy, PartialEq, Eq, Structural)]
pub struct SettingsChange {
    /// Whether the link is to be opened anew, on the port of the settings.
    pub reconnect: bool,
    pub window: WindowChange,
}

/// What these settings entail.
pub open spec fn entailed(cfg: Config, port: Option<u16>, was_windowed: bool) -> SettingsChange {
    SettingsChange {
        reconnect: port != Some(cfg.api_port),
        window: if !cfg.windowed {
            WindowChange::Fill
        } else if was_windowed {
            WindowChange::Stay
        } else {
            WindowChange::Float
        },
    }
}

/// What a change of the settings entails, where the link is on `port` and the pad was
/// in a window of its own or not.
pub fn settings_changed(cfg: &Config, port: Option<u16>, was_windowed: bool) -> (r: SettingsChange)
    ensures
        r == entailed(*cfg, port, was_windowed),
{
    let reconnect = match port {
        Some(p) => p != cfg.api_port,
        None => true,
    };
    let window = if !cfg.windowed {
        WindowChange::Fill
    } else if was_windowed {
        WindowChange::Stay
    } else {
        WindowChange::Float
    };
    SettingsChange { reconnect, window }
}

/// What is told of a pad without a link.
pub open spec fn no_link() -> Seq<char> {
    "spiceapi client: none"@
}

/// What a stall report says.
pub open spec fn stall_report(touch: Stats, vetoed: u64, expired: u64, link: Seq<char>) -> Seq<
    char,
> {
    "touch live="@ + dec(touch.live as nat) + " peak="@ + dec(touch.peak as nat) + " dropped="@
        + dec(touch.dropped as nat) + " vetoed_moves="@ + dec(vetoed as nat) + " expired="@ + dec(
        expired as nat,
    ) + "\n"@ + link
}

/// What a stall report says, where `link` is a snapshot of the link, if there is one.
pub fn stall_detail(bridge: &Bridge, link: Option<&str>) -> (r: String)
    ensures
        r@ == stall_report(
            bridge@.stats,
            bridge@.vetoed,
            bridge@.expired,
            match link {
                Some(s) => s@,
                None => no_link(),
            },
        ),
{
    let touch = bridge.stats();
    let mut r = "touch live=".to_owned();
    r.append(decimal(touch.live as u128).as_str());
    r.append(" peak=");
    r.append(decimal(touch.peak as u128).as_str());
    r.append(" dropped=");
    r.append(decimal(touch.dropped as u128).as_str());
    r.append(" vetoed_moves=");
    r.append(decimal(bridge.vetoed_moves() as u128).as_str());
    r.append(" expired=");
    r.append(decimal(bridge.expired_contacts() as u128).as_str());
    r.append("\n");
    match link {
        Some(s) => {
            r.append(s);
        },
        None => {
            r.append("spiceapi client: none");
        },
    }
    r
}

/// The lamps whose rows show something else, with what they should show.
pub fn refresh_diagnostics(rows: &[bool; KEY_COUNT], lamps: &[bool; KEY_COUNT]) -> (r: Vec<
    (usize, bool),
>)
    ensures
        r@ == edges(rows@, lamps@),
{
    let mut r: Vec<(usize, bool)> = Vec::new();
    let mut i: usize = 0;
    while i < KEY_COUNT
        invariant
            i <= KEY_COUNT,
            r@ == edges_upto(rows@, lamps@, i as int),
        decreases KEY_COUNT - i,
    {
        if rows[i] != lamps[i] {
            r.push((i, lamps[i]));
        }
        i = i + 1;
    }
    r
}

/// How hooking the window stands.
#[derive(Debug, Clone, Copy, PartialEq, Eq, Structural)]
pub enum Hooking {
    /// It is settled, one way or the other.
    Settled,
    /// The window is hooked: contacts come in, and the mouse is not needed.
    Hooked,
    /// It took too long: the mouse stands in.
    GaveUp,
    /// It is tried again at the next tick.
    Waiting,
}

/// What there is to tell about the link.
#[derive(Debug, Clone, Copy, PartialEq, Eq, Structural)]
pub enum LinkNews {
    Nothing,
    /// The link has something new to tell.
    Fresh,
    /// There is no link any more.
    Disabled,
}

/// What is remembered from one tick of the clock to the next. Times are in
/// nanoseconds.
pub struct Ticker {
    pub installed: bool,
    pub deadline: u64,
    pub last_tick: u64,
    pub last_geom: KeyGeom,
    pub last_zones: [Zone; FADER_COUNT],
    pub last_cfg: FaderCfg,
    pub last_diag_open: bool,
    pub api_epoch: u64,
}

/// What handing the pad the layout does to the clock's memory and the pad.
pub open spec fn laid_out(
    t: Ticker,
    t_after: Ticker,
    m: PadModel,
    after: PadModel,
    geom: KeyGeom,
    zones: [Zone; FADER_COUNT],
    cfg: FaderCfg,
) -> bool {
    let moved = !geom.agrees(t.last_geom);
    let rezoned = !zones@[0].agrees(t.last_zones@[0]) || !zones@[1].agrees(
        t.last_zones@[1],
    );
    let reset = !cfg.agrees(t.last_cfg);
    &&& t_after == (Ticker {
        last_geom: if moved {
            geom
        } else {
            t.last_geom
        },
        last_zones: if rezoned {
            zones
        } else {
            t.last_zones
        },
        last_cfg: if reset {
            cfg
        } else {
            t.last_cfg
        },
        ..t
    })
    &&& after == (PadModel {
        key_geom: if moved {
            geom
        } else {
            m.key_geom
        },
        faders: FaderModel {
            zones: if rezoned {
                zones@
            } else {
                m.faders.zones
            },
            cfg: if reset {
                cfg
            } else {
                m.faders.cfg
            },
            ..m.faders
        },
        ..m
    })
}

/// What asking for news of the link does to the clock's memory.
pub open spec fn told_of(t: Ticker, t_after: Ticker, epoch: Option<u64>, r: LinkNews) -> bool {
    let now = match epoch {
        Some(e) => e,
        None => DISABLED,
    };
    &&& t_after == (Ticker { api_epoch: now, ..t })
    &&& r == (if now == t.api_epoch {
        LinkNews::Nothing
    } else if epoch is Some {
        LinkNews::Fresh
    } else {
        LinkNews::Disabled
    })
}

/// How long the clock stalled between two ticks, where it did.
pub open spec fn stalled(last: u64, now: u64) -> Option<u64> {
    if now - last > TICK_LATE {
        Some((now - last) as u64)
    } else {
        None
    }
}

/// How hooking the window stands after it was tried.
pub open spec fn hook_stands(t: Ticker, hooked: bool, now: u64) -> Hooking {
    if t.installed {
        Hooking::Settled
    } else if hooked {
        Hooking::Hooked
    } else if now > t.deadline {
        Hooking::GaveUp
    } else {
        Hooking::Waiting
    }
}

/// The clock's memory after hooking the window was tried.
pub open spec fn hook_noted(t: Ticker, hooked: bool, now: u64) -> Ticker {
    Ticker { installed: hook_stands(t, hooked, now) != Hooking::Waiting, ..t }
}

/// Whether the diagnostics panel is due.
pub open spec fn panel_due(t: Ticker, dirty: bool, open: bool) -> bool {
    dirty || open != t.last_diag_open
}

/// The clock's memory after it was asked whether the panel is due.
pub open spec fn panel_asked(t: Ticker, dirty: bool, open: bool) -> Ticker {
    Ticker {
        last_diag_open: if dirty {
            t.last_diag_open
        } else {
            open
        },
        ..t
    }
}

impl Ticker {
    /// The clock before its first tick.
    pub fn start_tick(now: u64) -> (r: Ticker)
        requires
            now <= u64::MAX - INSTALL_PATIENCE,
        ensures
            !r.installed,
            r.deadline == now + INSTALL_PATIENCE,
            r.last_tick == now,
            r.last_geom.nowhere(),
            r.last_zones@ == seq![crate::faders::empty_zone(), crate::faders::empty_zone()],
            r.last_cfg == crate::faders::default_cfg(),
            !r.last_diag_open,
            r.api_epoch == 0,
    {
        let z = Zone::default();
        let zones = [z, z];
        assert(zones@ =~= seq![crate::faders::empty_zone(), crate::faders::empty_zone()]);
        Ticker {
            installed: false,
            deadline: now + INSTALL_PATIENCE,
            last_tick: now,
            last_geom: KeyGeom::default(),
            last_zones: zones,
            last_cfg: FaderCfg::default(),
            last_diag_open: false,
            api_epoch: 0,
        }
    }

    /// The clock ticks. Returns how long it stalled, where it did.
    pub fn ticked(&mut self, now: u64) -> (r: Option<u64>)
        ensures
            *final(self) == (Ticker { last_tick: now, ..*old(self) }),
            r == stalled(old(self).last_tick, now),
    {
        let was = self.last_tick;
        self.last_tick = now;
        if now > was && now - was > TICK_LATE {
            Some(now - was)
        } else {
            None
        }
    }

    /// Whether the window is still to be hooked.
    pub fn unsettled(&self) -> (r: bool)
        ensures
            r == !self.installed,
    {
        !self.installed
    }

    /// Hooking the window was tried, and took or did not.
    pub fn hooking(&mut self, hooked: bool, now: u64) -> (r: Hooking)
        ensures
            r == hook_stands(*old(self), hooked, now),
            *final(self) == hook_noted(*old(self), hooked, now),
    {
        if self.installed {
            return Hooking::Settled;
        }
        if hooked {
            self.installed = true;
            Hooking::Hooked
        } else if now > self.deadline {
            self.installed = true;
            Hooking::GaveUp
        } else {
            Hooking::Waiting
        }
    }

    /// Hands the pad the layout and the settings of the faders, as far as they have
    /// changed.
    pub fn follow_layout(
        &mut self,
        bridge: &mut Bridge,
        geom: KeyGeom,
        zones: [Zone; FADER_COUNT],
        cfg: FaderCfg,
    )
        requires
            old(bridge)@.wf(),
        ensures
            final(bridge)@.wf(),
            laid_out(*old(self), *final(self), old(bridge)@, final(bridge)@, geom, zones, cfg),
    {
        if !geom.same(&self.last_geom) {
            self.last_geom = geom;
            bridge.set_key_geom(geom);
        }
        if !zones[0].same(&self.last_zones[0]) || !zones[1].same(&self.last_zones[1]) {
            self.last_zones = zones;
            bridge.set_fader_geom(zones);
        }
        if !cfg.same(&self.last_cfg) {
            self.last_cfg = cfg;
            bridge.set_fader_cfg(cfg);
        }
    }

    /// Whether the diagnostics panel is due: because something happened, or because it
    /// was opened or closed since it was last asked without anything happening.
    pub fn diagnostics_due(&mut self, dirty: bool, open: bool) -> (r: bool)
        ensures
            r == panel_due(*old(self), dirty, open),
            *final(self) == panel_asked(*old(self), dirty, open),
    {
        if dirty {
            return true;
        }
        let was = self.last_diag_open;
        self.last_diag_open = open;
        open != was
    }

    /// Whether the link has something new to tell: `epoch` is its epoch, where there
    /// is a link.
    pub fn link_news(&mut self, epoch: Option<u64>) -> (r: LinkNews)
        ensures
            told_of(*old(self), *final(self), epoch, r),
    {
        let was = self.api_epoch;
        match epoch {
            Some(e) => {
                self.api_epoch = e;
                if e == was {
                    LinkNews::Nothing
                } else {
                    LinkNews::Fresh
                }
            },
            None => {
                self.api_epoch = DISABLED;
                if was == DISABLED {
                    LinkNews::Nothing
                } else {
                    LinkNews::Disabled
                }
            },
        }
    }
}

} // verus!
