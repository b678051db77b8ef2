//! What holds of the window, the mirror's switch and the clock.
use crate::bridge::{
    hook_tried, mismatched, owns, restored, settled, taken_over, takeover, thread_checked, Expiry,
    Restoration, Takeover,
};
use crate::config::Config;
use crate::faders::{FaderCfg, Zone, FADER_COUNT};
use crate::monitor::{MonInfo, MonModel};
use crate::navmirror::MirrorModel;
use crate::padlaws::edges_are_the_changes;
use crate::runtime::{
    entailed, floats, followed, has_middle, hook_noted, hook_stands, key_name, keys_synced,
    laid_out, margin, panel_asked, panel_due, retargeted, screen_asked, stalled, still_turned, strayed, toggled,
    told_of, watched, whole_screen, windowed_length, Hooking, LinkNews, SettingsChange, Ticker, Toggled, Watched,
    WindowChange,
};
use crate::touchbridge::{CursorAction, KeyGeom, PadModel, PinRect, Route};
use vstd::prelude::*;

verus! {

/// A pad that goes out of sight lets go of everything, once: the first look that finds its
/// window minimized lifts every contact, and no other look touches any. The window is
/// brought back as long as it is minimized.
pub proof fn a_minimized_pad_lets_go(
    m: PadModel,
    after: PadModel,
    iconic: bool,
    r: Restoration,
    k: usize,
)
    requires
        m.wf(),
        restored(m, after, iconic, r),
        k < 12,
    ensures
        r.restore <==> m.hwnd != 0 && iconic,
        r.announce <==> m.hwnd != 0 && iconic && !m.minimized,
        r.announce ==> after.contacts.len() == 0 && after.cursor is None && !after.held[k as int]
            && after.minimized,
        r.announce ==> (r.key_edges@.contains((k, false)) <==> m.held[k as int]),
        !r.announce ==> after.contacts == m.contacts && after.cursor == m.cursor && after.held
            == m.held && after.faders == m.faders && r.key_edges@.len() == 0,
        m.hwnd != 0 ==> after.minimized == iconic,
        m.hwnd == 0 ==> after == m,
        after.pinned == m.pinned && after.hwnd == m.hwnd && after.keys_enabled == m.keys_enabled,
{
    edges_are_the_changes(m.held, after.held);
    crate::touchbridge::lemma_no_edges(m.held, 12);
    if r.announce {
        let looked = PadModel { minimized: iconic, ..m };
        assert(looked.cleared().contacts.len() == 0);
        assert(!crate::touchbridge::pressed(after.contacts, k as int));
    }
}

/// A silent contact is settled. A pointer that is still down stays where it is, on its key,
/// and is not silent any more; every other contact is lifted and counted as lost, and moves
/// no fader.
pub proof fn a_silent_contact_is_settled(
    m: PadModel,
    after: PadModel,
    id: u32,
    route: Route,
    still_down: bool,
    now: u64,
    r: Expiry,
    other: u32,
    silent: u64,
    k: usize,
    down: bool,
)
    requires
        m.wf(),
        after.wf(),
        settled(m, after, id, route, still_down, now, r),
        m.expired < u64::MAX,
        m.contacts.contains_key(id),
        other != id,
        silent > 0,
    ensures
        after.contacts.contains_key(other) == m.contacts.contains_key(other),
        m.contacts.contains_key(other) ==> after.contacts[other] == m.contacts[other],
        r is Alive <==> route == Route::Pointer && still_down,
        r is Alive ==> after.contacts.contains_key(id) && after.contacts[id].x == m.contacts[id].x
            && after.contacts[id].y == m.contacts[id].y && after.contacts[id].key
            == m.contacts[id].key && !after.quiet(id, now, silent) && after.expired == m.expired
            && after.held == m.held && after.faders == m.faders && after.cursor == m.cursor,
        r matches Expiry::Lost(n, done) ==> {
            &&& !after.contacts.contains_key(id)
            &&& n == m.expired + 1
            &&& after.expired == n
            &&& after.route == route
            &&& done.analog is None
            &&& done.key_edges@.contains((k, down)) <==> k < 12 && after.held[k as int] == down
                && m.held[k as int] != down
            &&& m.cursor == Some(id) ==> done.cursor == CursorAction::Release(
                m.contacts[id].x,
                m.contacts[id].y,
            )
            &&& m.cursor != Some(id) ==> done.cursor == CursorAction::Nothing
            &&& after.cursor != Some(id)
            &&& after.faders.faders[0].value == m.faders.faders[0].value
            &&& after.faders.faders[1].value == m.faders.faders[1].value
        },
{
    edges_are_the_changes(m.held, after.held);
}

/// A window is taken over once: taken over, it is the pad's, no other is, and taking it over
/// again does nothing. Where the hook does not take, no window is the pad's.
pub proof fn a_window_is_taken_over_once(m: PadModel, hwnd: isize, other: isize)
    ensures
        takeover(m, hwnd) == Takeover::Missing <==> hwnd == 0,
        takeover(m, hwnd) == Takeover::Done <==> hwnd != 0 && m.hwnd == hwnd,
        hwnd != 0 ==> owns(taken_over(m, hwnd), hwnd),
        hwnd != 0 && other != hwnd ==> !owns(taken_over(m, hwnd), other),
        hwnd != 0 ==> takeover(taken_over(m, hwnd), hwnd) == Takeover::Done,
        takeover(m, hwnd) != Takeover::Begun ==> taken_over(m, hwnd) == m,
        !owns(m, 0),
        hook_tried(m, true) == m,
        !owns(hook_tried(m, false), other),
        taken_over(m, hwnd).contacts == m.contacts,
        hook_tried(m, false).contacts == m.contacts,
        taken_over(m, hwnd).held == m.held && hook_tried(m, false).held == m.held,
{
}

/// A callback on the wrong thread is complained about once for each window that is taken
/// over, and one on the right thread never.
pub proof fn a_wrong_thread_is_complained_about_once(m: PadModel, hwnd: isize)
    ensures
        !mismatched(m, true),
        thread_checked(m, true) == m,
        !mismatched(thread_checked(m, false), false) || !m.thread_known,
        m.thread_known && !m.thread_mismatch_logged ==> mismatched(m, false),
        !m.thread_known ==> !mismatched(m, false) && thread_checked(m, false) == m,
        hwnd != 0 && hwnd != m.hwnd ==> mismatched(taken_over(m, hwnd), false),
{
}

/// A pad in a window of its own is pinned nowhere and not looked after. Any other pad is
/// pinned to the whole of its screen, unless it has to be brought back first, and is then
/// looked after.
pub proof fn a_pad_is_pinned_to_its_screen(
    m: PadModel,
    after: PadModel,
    windowed: bool,
    iconic: bool,
    pad: Option<&MonInfo>,
    r: Watched,
)
    requires
        watched(m, after, windowed, iconic, pad, r),
    ensures
        windowed ==> after.pinned is None && !r.check && !r.restoration.restore
            && !r.restoration.announce && after.contacts == m.contacts && after.minimized
            == m.minimized,
        !windowed && m.hwnd != 0 && iconic ==> r.restoration.restore && !r.check && after.pinned
            == m.pinned && after.minimized,
        !windowed && (m.hwnd == 0 || !iconic) ==> r.check && !r.restoration.restore
            && after.contacts == m.contacts && (pad is None ==> after.pinned is None) && (
        pad matches Some(s) ==> (after.pinned matches Some(p) && p.left == s.left && p.top == s.top
            && (s.width >= 1 ==> p.width == s.width) && (s.height >= 1 ==> p.height == s.height)
            && p.width >= 1 && p.height >= 1)),
        !windowed ==> (r.restoration.announce <==> m.hwnd != 0 && iconic && !m.minimized),
        !windowed && m.hwnd != 0 ==> after.minimized == iconic,
{
}

/// A rearranged desktop is followed up once, and a pad that fills a screen is then pinned to
/// that screen.
pub proof fn a_rearranged_desktop_is_followed_once(
    m: PadModel,
    after: PadModel,
    last: PadModel,
    windowed: bool,
    pad: Option<&MonInfo>,
    r: bool,
    again: bool,
)
    requires
        followed(m, after, windowed, pad, r),
        followed(after, last, windowed, pad, again),
    ensures
        r <==> m.displays_changed && !windowed && pad is Some,
        !after.displays_changed,
        !again && last == after,
        r ==> (after.pinned matches Some(p) && p.left == pad->0.left && p.top == pad->0.top && (
        pad->0.width >= 1 ==> p.width == pad->0.width) && (pad->0.height >= 1 ==> p.height
            == pad->0.height)),
        !r ==> after.pinned == m.pinned,
        after.contacts == m.contacts && after.held == m.held && after.faders == m.faders,
{
}

/// A window is where it belongs exactly where its place and size are those of its screen,
/// each at least one long: one that is pinned there has not strayed, and one that differs in
/// anything has.
pub proof fn a_window_strays_in_any_measure(m: MonModel, x: i32, y: i32, width: u32, height: u32)
    ensures
        ({
            let p = whole_screen(m);
            &&& p.left == m.left && p.top == m.top
            &&& p.width >= 1 && p.height >= 1
            &&& m.width >= 1 ==> p.width == m.width
            &&& m.width < 1 ==> p.width == 1
            &&& m.height >= 1 ==> p.height == m.height
            &&& m.height < 1 ==> p.height == 1
            &&& !strayed(m, x, y, width, height) <==> x == p.left && y == p.top && width == p.width
                && height == p.height
        }),
{
}

/// A pad in a window of its own is centred on its screen, to the pixel, and as large as
/// leaves 80 of it free, but never below 900 by 600 nor above 1280 by 720.
pub proof fn a_floating_pad_is_centred(m: MonModel, r: PinRect)
    requires
        floats(m, r),
    ensures
        900 <= r.width <= 1280,
        600 <= r.height <= 720,
        980 <= m.width <= 1360 ==> r.width == m.width - 80,
        680 <= m.height <= 800 ==> r.height == m.height - 80,
        m.width < 980 ==> r.width == 900,
        m.width > 1360 ==> r.width == 1280,
        m.height < 680 ==> r.height == 600,
        m.height > 800 ==> r.height == 720,
        -1 <= (r.left - m.left) - (m.left + m.width - (r.left + r.width)) <= 1,
        -1 <= (r.top - m.top) - (m.top + m.height - (r.top + r.height)) <= 1,
        m.width >= 900 ==> m.left <= r.left,
        m.height >= 600 ==> m.top <= r.top,
{
}

/// A screen that was turned stays turned only where it is the pad's and is to be turned;
/// and nothing is turned that was not.
pub proof fn a_screen_is_turned_back_unless_wanted(
    before: Option<Seq<char>>,
    flip: bool,
    pad: Seq<char>,
)
    ensures
        still_turned(before, flip, pad) is Some <==> before == Some(pad) && flip,
        still_turned(before, flip, pad) is Some ==> still_turned(before, flip, pad) == before,
{
}

/// A screen is counted from the first on, and what is asked for below it is the first.
pub proof fn no_screen_is_below_the_first(asked: i32)
    ensures
        asked >= 0 ==> screen_asked(asked) == asked,
        asked < 0 ==> screen_asked(asked) == 0,
{
}

/// Keys that are as wanted are left alone, and are as wanted afterwards in any case.
pub proof fn keys_are_as_wanted(m: PadModel, want: bool)
    ensures
        keys_synced(m, want).keys_enabled == want,
        m.keys_enabled == want ==> keys_synced(m, want) == m,
        keys_synced(keys_synced(m, want), want) == keys_synced(m, want),
{
}

/// The mirror goes on exactly where it is asked to and both screens are known and differ in
/// place or size. While it is on the keys are off; once it is off they are as they should
/// be, and the mouse button is let go of. Where it does not go on nothing changes, and there
/// is something to tell.
pub proof fn the_mirror_takes_the_keys(
    m: PadModel,
    after: PadModel,
    shown: MirrorModel,
    shown_after: MirrorModel,
    active: bool,
    nav: Option<MonInfo>,
    pad: Option<&MonInfo>,
    keys_interactive: bool,
    r: Toggled,
)
    requires
        toggled(m, after, shown, shown_after, active, nav, pad, keys_interactive, r),
    ensures
        ({
            let differ = nav is Some && pad is Some && (nav->0.left != pad->0.left || nav->0.top
                != pad->0.top || nav->0.width != pad->0.width || nav->0.height != pad->0.height);
            &&& r.active <==> active && differ
            &&& r.active ==> shown_after.running && shown_after.target == Some(nav->0@)
                && !after.keys_enabled && r.release is None && r.status is None
            &&& !active ==> !shown_after.running && after.keys_enabled == keys_interactive
                && r.release is Some
            &&& active && !differ ==> shown_after == shown && after == m && r.release is None && (
            r.status matches Some(s) && s@ == (if nav is Some && pad is Some {
                "Nav monitor must be different from Pad monitor"@
            } else {
                "invalid monitor selection"@
            }))
            &&& shown_after.max_w == shown.max_w && shown_after.frame.bgra == shown.frame.bgra
        }),
{
}

/// A mirror that is on follows the choice of screens wherever they are known and differ in
/// place or size, and otherwise stays as it is.
pub proof fn the_mirror_follows_the_choice(
    m: MirrorModel,
    after: MirrorModel,
    active: bool,
    nav: Option<MonInfo>,
    pad: Option<&MonInfo>,
    r: Option<String>,
)
    requires
        retargeted(m, after, active, nav, pad, r),
    ensures
        ({
            let known = active && nav is Some && pad is Some;
            let differ = known && (nav->0.left != pad->0.left || nav->0.top != pad->0.top
                || nav->0.width != pad->0.width || nav->0.height != pad->0.height);
            &&& differ ==> after.running && after.target == Some(nav->0@) && r is None
            &&& !differ ==> after == m
            &&& r is Some <==> known && !differ
        }),
{
}

/// The link is opened anew exactly where it is not on the port of the settings. A pad that
/// is not to be in a window of its own fills its screen; one that is gets a place only where
/// it was not in one before.
pub proof fn settings_are_followed(cfg: Config, port: Option<u16>, was_windowed: bool)
    ensures
        ({
            let r: SettingsChange = entailed(cfg, port, was_windowed);
            &&& !r.reconnect <==> (port matches Some(p) && p == cfg.api_port)
            &&& r.window == WindowChange::Fill <==> !cfg.windowed
            &&& r.window == WindowChange::Float <==> cfg.windowed && !was_windowed
            &&& r.window == WindowChange::Stay <==> cfg.windowed && was_windowed
        }),
{
}

/// The clock stalled exactly where more than a quarter of a second lies between two ticks,
/// and for that long.
pub proof fn a_stall_is_a_quarter_second(last: u64, now: u64)
    ensures
        stalled(last, now) is Some <==> now > last && now - last > 250_000_000,
        stalled(last, now) matches Some(d) ==> last + d == now,
{
}

/// Hooking the window is settled once: it waits only as long as the hook has not taken and
/// the deadline has not passed, and after that nothing changes any more.
pub proof fn hooking_is_settled_once(t: Ticker, hooked: bool, now: u64, later: u64, again: bool)
    ensures
        hook_stands(t, hooked, now) == Hooking::Settled <==> t.installed,
        hook_stands(t, hooked, now) == Hooking::Hooked <==> !t.installed && hooked,
        hook_stands(t, hooked, now) == Hooking::GaveUp <==> !t.installed && !hooked && now
            > t.deadline,
        hook_stands(t, hooked, now) == Hooking::Waiting <==> !t.installed && !hooked && now
            <= t.deadline,
        hook_noted(t, hooked, now) == (Ticker {
            installed: hook_noted(t, hooked, now).installed,
            ..t
        }),
        !hook_noted(t, hooked, now).installed <==> hook_stands(t, hooked, now) == Hooking::Waiting,
        hook_stands(t, hooked, now) != Hooking::Waiting ==> hook_stands(
            hook_noted(t, hooked, now),
            again,
            later,
        ) == Hooking::Settled,
{
}

/// The panel is due whenever something happened, and once for each time it is opened or
/// closed.
pub proof fn the_panel_is_due_once_for_a_change(t: Ticker, dirty: bool, open: bool)
    ensures
        panel_due(t, true, open),
        panel_due(t, false, open) <==> open != t.last_diag_open,
        !panel_due(panel_asked(t, false, open), false, open),
        panel_asked(t, true, open) == t,
        panel_asked(t, dirty, open) == (Ticker {
            last_diag_open: panel_asked(t, dirty, open).last_diag_open,
            ..t
        }),
{
}

/// The link's news are told once: the same epoch twice is no news, another epoch is, and so
/// is a link that is gone, once.
pub proof fn the_links_news_are_told_once(
    t: Ticker,
    after: Ticker,
    last: Ticker,
    epoch: Option<u64>,
    r: LinkNews,
    again: LinkNews,
)
    requires
        told_of(t, after, epoch, r),
        told_of(after, last, epoch, again),
    ensures
        again == LinkNews::Nothing && last == after,
        epoch matches Some(e) ==> (r == LinkNews::Fresh <==> e != t.api_epoch) && (r
            == LinkNews::Nothing <==> e == t.api_epoch),
        epoch is None ==> (r == LinkNews::Disabled <==> t.api_epoch != 0xFFFF_FFFF_FFFF_FFFF) && (r
            == LinkNews::Nothing <==> t.api_epoch == 0xFFFF_FFFF_FFFF_FFFF),
        after == (Ticker { api_epoch: after.api_epoch, ..t }),
{
}

/// Whether no measure of a layout is other than a number.
pub open spec fn measured(geom: KeyGeom, zones: [Zone; FADER_COUNT], cfg: FaderCfg) -> bool {
    &&& geom.agrees(geom)
    &&& zones@[0].agrees(zones@[0])
    &&& zones@[1].agrees(zones@[1])
    &&& cfg.agrees(cfg)
}

/// The pad has the layout that it was handed last: each part of it is handed on where any
/// measure of it has changed, and handing on the same layout again changes nothing. Nothing
/// else of the pad is touched.
pub proof fn the_pad_has_the_latest_layout(
    t: Ticker,
    t_after: Ticker,
    t_last: Ticker,
    m: PadModel,
    after: PadModel,
    last: PadModel,
    geom: KeyGeom,
    zones: [Zone; FADER_COUNT],
    cfg: FaderCfg,
)
    requires
        m.wf(),
        measured(geom, zones, cfg),
        laid_out(t, t_after, m, after, geom, zones, cfg),
        laid_out(t_after, t_last, after, last, geom, zones, cfg),
        m.key_geom == t.last_geom,
        m.faders.zones == t.last_zones@,
        m.faders.cfg == t.last_cfg,
    ensures
        after.key_geom == t_after.last_geom,
        after.faders.zones == t_after.last_zones@,
        after.faders.cfg == t_after.last_cfg,
        geom.agrees(after.key_geom),
        zones@[0].agrees(after.faders.zones[0]),
        zones@[1].agrees(after.faders.zones[1]),
        cfg.agrees(after.faders.cfg),
        !geom.agrees(t.last_geom) ==> after.key_geom == geom,
        !zones@[0].agrees(t.last_zones@[0]) ==> after.faders.zones == zones@,
        !zones@[1].agrees(t.last_zones@[1]) ==> after.faders.zones == zones@,
        !cfg.agrees(t.last_cfg) ==> after.faders.cfg == cfg,
        t_last == t_after,
        last == after,
        after.faders.faders == m.faders.faders,
        after.contacts == m.contacts && after.held == m.held && after.cursor == m.cursor
            && after.stats == m.stats && after.last_analog == m.last_analog && after.pinned
            == m.pinned,
        t_after.installed == t.installed && t_after.deadline == t.deadline && t_after.last_tick
            == t.last_tick && t_after.api_epoch == t.api_epoch && t_after.last_diag_open
            == t.last_diag_open,
{
}

/// No two keys are called the same, and what lies beyond the last is called as the last.
pub proof fn every_key_has_its_own_name(a: nat, b: nat)
    ensures
        a < 12 && b < 12 && a != b ==> key_name(a) != key_name(b),
        a >= 11 ==> key_name(a) == key_name(11),
{
    if a < 12 && b < 12 {
        crate::runtime::every_key_lights_its_own_lamp(a);
        crate::runtime::every_key_lights_its_own_lamp(b);
    }
}

/// A pad can be put in a window of its own exactly where there is a place for it: one whose
/// corner can be told, on a screen whose lengths can be set against the window's.
pub proof fn a_pad_floats_where_there_is_a_place(m: MonModel)
    ensures
        has_middle(m) <==> (exists|r: PinRect| #[trigger] floats(m, r)) && m.width - 900 >= i32::MIN
            && m.height - 600 >= i32::MIN,
{
    let width = windowed_length(m.width, 900, 1280);
    let height = windowed_length(m.height, 600, 720);
    let r = PinRect {
        left: (m.left + margin(m.width as int, width)) as i32,
        top: (m.top + margin(m.height as int, height)) as i32,
        width: width as i32,
        height: height as i32,
    };
    if has_middle(m) {
        assert(floats(m, r));
    }
}

} // verus!
