//! What a finger does to the keys, the cursor and what is announced.
//!
//! Everything here is said of contacts, held keys and announced levels before and after,
//! and of nothing in between.
use crate::bridge::{drifts, patience, processed, ticked};
use crate::faderlaws::{bits, inside};
use crate::single::Single;
use crate::touchbridge::{
    edges, CursorAction, Ingest, KeyGeom, PadModel, PinRect, Route, Sense, KEY_COUNT,
    MOUSE_CONTACT,
};
use vstd::prelude::*;

verus! {

/// Whether a point lies in the rectangle of a row whose keys are wider than 1.0, and which
/// is wider and higher than 1.0 itself.
pub open spec fn on_row(g: KeyGeom, x: Single, y: Single) -> bool {
    &&& bits(0x3f80_0000).below(g.w)
    &&& bits(0x3f80_0000).below(g.h)
    &&& bits(0x3f80_0000).below(g.key_w)
    &&& g.x.at_most(x)
    &&& x.below(g.right)
    &&& g.y.at_most(y)
    &&& y.below(g.bottom)
}

/// The row is exactly its rectangle: every edge but the right and the bottom one belongs
/// to it.
pub proof fn the_row_is_its_rectangle(g: KeyGeom, x: Single, y: Single)
    ensures
        g.band(x, y) <==> on_row(g, x, y),
        g.usable() <==> bits(0x3f80_0000).below(g.w) && bits(0x3f80_0000).below(g.h) && bits(
            0x3f80_0000,
        ).below(g.key_w),
{
}

/// The key under a finger. Off the row there is none. A finger that comes from nowhere, or
/// from more than one key away, is on the key of its column. One that comes from a key or
/// its neighbour stays on that key within its slot, and else goes to the neighbour on the
/// side that it left the slot on, as far as there is one.
pub proof fn the_key_under_a_finger(g: KeyGeom, x: Single, y: Single, column: i32, p: usize)
    requires
        p < 12,
    ensures
        x.below(g.x) || g.right.at_most(x) || y.below(g.y) || g.bottom.at_most(y)
            ==> g.key_at(x, y, column, None) is None && g.key_at(x, y, column, Some(p)) is None,
        column < 0 || column >= 12 ==> g.key_at(x, y, column, None) is None && g.key_at(
            x,
            y,
            column,
            Some(p),
        ) is None,
        !g.usable() ==> g.key_at(x, y, column, None) is None && g.key_at(
            x,
            y,
            column,
            Some(p),
        ) is None,
        on_row(g, x, y) && 0 <= column < 12 ==> {
            let lo = g.slots@[p as int].lo;
            let hi = g.slots@[p as int].hi;
            let near = column == p || column == p - 1 || column == p + 1;
            let k = g.key_at(x, y, column, Some(p));
            &&& g.key_at(x, y, column, None) == Some(column as usize)
            &&& !near ==> k == Some(column as usize)
            &&& near && !x.below(lo) && !hi.at_most(x) ==> k == Some(p)
            &&& near && x.below(lo) && p > 0 ==> k == Some((p - 1) as usize)
            &&& near && x.below(lo) && p == 0 ==> k == Some(0usize)
            &&& near && !x.below(lo) && hi.at_most(x) && p < 11 ==> k == Some((p + 1) as usize)
            &&& near && !x.below(lo) && hi.at_most(x) && p == 11 ==> k == Some(11usize)
        },
{
}

/// A key is down exactly where keys are enabled and some finger is on it.
pub proof fn a_key_is_down_where_a_finger_is(m: PadModel, k: int)
    requires
        m.wf(),
        0 <= k < 12,
    ensures
        m.held.len() == 12,
        m.held[k] <==> m.keys_enabled && exists|id: u32| #[trigger]
            m.contacts.contains_key(id) && m.contacts[id].key == Some(k as usize),
{
}

/// A finger is on the key under it: where it was seen with keys enabled and holds no fader,
/// it is on the key whose face it is on, and that key is down, whatever key it was on
/// before; and where its column is more than one key from the key before, it is on the key
/// of its column.
pub proof fn a_finger_is_on_the_key_under_it(
    m: PadModel,
    id: u32,
    x: Single,
    y: Single,
    now: u64,
    s: Sense,
    n: usize,
)
    requires
        m.wf(),
        m.contacts.contains_key(id) || m.contacts.len() < 16,
        m.keys_enabled,
        m.faders.faders[0].owner != Some(id),
        m.faders.faders[1].owner != Some(id),
        m.faders.faders[0].owner is Some || !inside(m.faders.zones[0], x, y),
        m.faders.faders[1].owner is Some || !inside(m.faders.zones[1], x, y),
        n < 12,
        on_row(m.key_geom, x, y),
        s.column == n,
    ensures
        ({
            let g = m.key_geom;
            let after = m.seen(id, x, y, now, s);
            let face = !x.below(g.slots@[n as int].lo) && x.below(g.slots@[n as int].hi) && (n > 0
                ==> g.slots@[n - 1].hi.at_most(x) && !x.below(g.slots@[n - 1].lo)) && (n < 11
                ==> x.below(g.slots@[n + 1].lo));
            let fresh = !m.contacts.contains_key(id) || m.contacts[id].key is None;
            let far = !fresh && (m.contacts[id].key->0 > n + 1 || n > m.contacts[id].key->0 + 1);
            &&& after.contacts.contains_key(id)
            &&& face || fresh || far ==> after.contacts[id].key == Some(n) && after.held[n as int]
        }),
{
    let after = m.seen(id, x, y, now, s);
    assert(after.contacts.contains_key(id));
    if after.contacts[id].key == Some(n) {
        assert(crate::touchbridge::pressed(after.contacts, n as int));
    }
}

/// A fast slide is felt: where the finger that alone held a key is seen on another key,
/// the first goes up and the second goes down, and both are reported.
pub proof fn a_slide_lifts_one_key_and_presses_the_other(
    m: PadModel,
    id: u32,
    x: Single,
    y: Single,
    now: u64,
    s: Sense,
    p: usize,
    n: usize,
)
    requires
        m.wf(),
        m.contacts.contains_key(id),
        m.contacts[id].key == Some(p),
        n < 12,
        n > p + 1 || p > n + 1,
        on_row(m.key_geom, x, y),
        s.column == n,
        m.faders.faders[0].owner is Some || !inside(m.faders.zones[0], x, y),
        m.faders.faders[1].owner is Some || !inside(m.faders.zones[1], x, y),
        forall|other: u32| #[trigger]
            m.contacts.contains_key(other) && other != id ==> m.contacts[other].key != Some(p)
                && m.contacts[other].key != Some(n),
    ensures
        edges(m.held, m.seen(id, x, y, now, s).held).contains((p, false)),
        edges(m.held, m.seen(id, x, y, now, s).held).contains((n, true)),
{
    let after = m.seen(id, x, y, now, s);
    assert(!m.faders.held_by(id));
    a_finger_is_on_the_key_under_it(m, id, x, y, now, s, n);
    assert(crate::touchbridge::pressed(m.contacts, p as int)) by {
        assert(m.contacts.contains_key(id));
    }
    assert(m.held[p as int]);
    assert(!m.held[n as int]) by {
        if crate::touchbridge::pressed(m.contacts, n as int) {
            let other = choose|other: u32| #[trigger]
                m.contacts.contains_key(other) && m.contacts[other].key == Some(n);
            assert(other != id);
        }
    }
    assert(!after.held[p as int]) by {
        if crate::touchbridge::pressed(after.contacts, p as int) {
            let other = choose|other: u32| #[trigger]
                after.contacts.contains_key(other) && after.contacts[other].key == Some(p);
            assert(other != id);
            assert(m.contacts.contains_key(other));
        }
    }
    crate::padlaws::edges_are_the_changes(m.held, after.held);
}

/// Seeing a finger enters it as it was seen and touches no other finger: not where it is,
/// not its key, not its silence. What is none of a finger's business stays as it is.
pub proof fn seeing_a_finger_touches_no_other(
    m: PadModel,
    id: u32,
    x: Single,
    y: Single,
    now: u64,
    s: Sense,
    other: u32,
)
    requires
        m.wf(),
        m.contacts.contains_key(id) || m.contacts.len() < 16,
        other != id,
    ensures
        ({
            let after = m.seen(id, x, y, now, s);
            &&& after.contacts.contains_key(id)
            &&& after.contacts[id].x == x && after.contacts[id].y == y
            &&& after.contacts[id].seen == now
            &&& after.contacts.contains_key(other) == m.contacts.contains_key(other)
            &&& m.contacts.contains_key(other) ==> after.contacts[other] == m.contacts[other]
            &&& !m.keys_enabled ==> after.faders == m.faders && after.contacts[id].key is None
            &&& m.keys_enabled ==> after.faders == m.faders.offered(id, x, y, s.readings@)
            &&& m.keys_enabled && (after.faders.faders[0].owner == Some(id)
                || after.faders.faders[1].owner == Some(id)) ==> after.contacts[id].key is None
            &&& after.stats.live == after.contacts.len()
            &&& after.stats.dropped == m.stats.dropped
            &&& after.stats.live <= m.stats.peak ==> after.stats.peak == m.stats.peak
            &&& after.stats.live > m.stats.peak ==> after.stats.peak == after.stats.live
            &&& after.keys_enabled == m.keys_enabled
            &&& after.key_geom == m.key_geom
            &&& after.last_analog == m.last_analog
            &&& after.hwnd == m.hwnd && after.pinned == m.pinned && after.vetoed == m.vetoed
            &&& after.minimized == m.minimized && after.route == m.route
            &&& after.expired == m.expired && after.displays_changed == m.displays_changed
            &&& after.thread_known == m.thread_known
            &&& after.thread_mismatch_logged == m.thread_mismatch_logged
        }),
{
}

/// Past sixteen fingers a new one is refused, and only then.
pub proof fn the_seventeenth_finger_is_refused(
    m: PadModel,
    id: u32,
    x: Single,
    y: Single,
    now: u64,
    s: Sense,
)
    requires
        m.wf(),
        m.stats.dropped < u64::MAX,
    ensures
        m.refuses(id) <==> m.contacts.len() == 16 && !m.contacts.contains_key(id),
        m.refuses(id) ==> m.seen(id, x, y, now, s).contacts == m.contacts && m.seen(
            id,
            x,
            y,
            now,
            s,
        ).stats.dropped == m.stats.dropped + 1,
{
}

/// Lifting a finger takes it off the table and out of the hands of the faders, and touches
/// no other finger and no level.
pub proof fn lifting_a_finger_touches_no_other(m: PadModel, id: u32, other: u32, i: int)
    requires
        m.wf(),
        other != id,
        0 <= i < 2,
    ensures
        ({
            let after = m.lifted(id);
            &&& !after.contacts.contains_key(id)
            &&& after.contacts.contains_key(other) == m.contacts.contains_key(other)
            &&& m.contacts.contains_key(other) ==> after.contacts[other] == m.contacts[other]
            &&& after.faders.faders[i].owner == (if m.faders.faders[i].owner == Some(id) {
                None
            } else {
                m.faders.faders[i].owner
            })
            &&& after.faders.faders[i].value == m.faders.faders[i].value
            &&& after.faders.faders[i].settled == m.faders.faders[i].settled
            &&& after.faders.faders[i].dir == m.faders.faders[i].dir
            &&& after.faders.zones == m.faders.zones && after.faders.cfg == m.faders.cfg
            &&& after.stats.live == after.contacts.len()
            &&& after.stats.live == m.stats.live - (if m.contacts.contains_key(id) {
                1int
            } else {
                0
            })
            &&& after.stats.peak == m.stats.peak && after.stats.dropped == m.stats.dropped
            &&& after.cursor == (if m.cursor == Some(id) {
                None
            } else {
                m.cursor
            })
            &&& after.keys_enabled == m.keys_enabled && after.key_geom == m.key_geom
            &&& after.last_analog == m.last_analog
            &&& after.hwnd == m.hwnd && after.pinned == m.pinned && after.vetoed == m.vetoed
            &&& after.minimized == m.minimized && after.route == m.route
            &&& after.expired == m.expired && after.displays_changed == m.displays_changed
        }),
{
}

/// Chrome is what is left of the screen: with keys enabled, every point that is neither in
/// the rectangle of a fader's zone nor in that of the row; without, every point.
pub proof fn chrome_is_what_is_left_of_the_screen(m: PadModel, x: Single, y: Single)
    requires
        m.wf(),
    ensures
        m.chrome(x, y) <==> {
            ||| !m.keys_enabled
            ||| !inside(m.faders.zones[0], x, y) && !inside(m.faders.zones[1], x, y) && !on_row(
                m.key_geom,
                x,
                y,
            )
        },
{
}

/// The cursor's part in an event: the finger that drives it moves it to where the finger
/// is; a new finger on chrome presses it there where nobody drives it; the finger that
/// drives it releases it where it was last seen; and nothing else is done to it.
pub proof fn the_cursor_goes_with_its_finger(
    m: PadModel,
    id: u32,
    x: Single,
    y: Single,
    now: u64,
    s: Sense,
)
    requires
        m.wf(),
        m.contacts.contains_key(id) || m.contacts.len() < 16,
    ensures
        ({
            let mine = m.cursor == Some(id);
            let comes = !m.contacts.contains_key(id) && m.cursor is None && id != 0xFFFF_FFFE
                && m.chrome(x, y);
            let after = m.seen(id, x, y, now, s);
            &&& mine ==> m.cursor_when_seen(id, x, y) == CursorAction::Move(x, y)
            &&& comes ==> m.cursor_when_seen(id, x, y) == CursorAction::Press(x, y)
            &&& !mine && !comes ==> m.cursor_when_seen(id, x, y) == CursorAction::Nothing
            &&& after.cursor == (if comes {
                Some(id)
            } else {
                m.cursor
            })
            &&& mine ==> m.cursor_when_lifted(id, x, y) == CursorAction::Release(
                m.contacts[id].x,
                m.contacts[id].y,
            )
            &&& !mine ==> m.cursor_when_lifted(id, x, y) == CursorAction::Nothing
        }),
{
}

/// Clearing the pad moves no fader and forgets nothing but the fingers.
pub proof fn clearing_moves_no_fader(m: PadModel, i: int)
    requires
        m.wf(),
        0 <= i < 2,
    ensures
        ({
            let after = m.cleared();
            &&& after.contacts.len() == 0
            &&& after.faders.faders[i].owner is None
            &&& after.faders.faders[i].value == m.faders.faders[i].value
            &&& after.faders.faders[i].settled == m.faders.faders[i].settled
            &&& after.faders.faders[i].dir == m.faders.faders[i].dir
            &&& after.faders.zones == m.faders.zones && after.faders.cfg == m.faders.cfg
            &&& after.stats.live == 0 && after.stats.peak == m.stats.peak
            &&& after.stats.dropped == m.stats.dropped
            &&& after.keys_enabled == m.keys_enabled && after.key_geom == m.key_geom
            &&& after.last_analog == m.last_analog
            &&& after.hwnd == m.hwnd && after.pinned == m.pinned && after.vetoed == m.vetoed
            &&& after.minimized == m.minimized && after.route == m.route
            &&& after.expired == m.expired && after.displays_changed == m.displays_changed
        }),
{
}

/// Switching the keys on or off lifts no finger, moves no fader and does nothing to the
/// cursor. Switching them off takes every finger off its key and every fader out of the
/// hands; switching them on takes nobody off anything.
pub proof fn switching_keys_lifts_no_finger(m: PadModel, on: bool, id: u32, i: int)
    requires
        m.wf(),
        0 <= i < 2,
    ensures
        ({
            let after = m.enabled(on);
            &&& after.keys_enabled == on
            &&& after.contacts.contains_key(id) == m.contacts.contains_key(id)
            &&& m.contacts.contains_key(id) ==> {
                &&& after.contacts[id].x == m.contacts[id].x
                &&& after.contacts[id].y == m.contacts[id].y
                &&& after.contacts[id].seen == m.contacts[id].seen
                &&& after.contacts[id].key == (if on {
                    m.contacts[id].key
                } else {
                    None
                })
            }
            &&& after.faders.faders[i].owner == (if on {
                m.faders.faders[i].owner
            } else {
                None
            })
            &&& after.faders.faders[i].value == m.faders.faders[i].value
            &&& after.faders.faders[i].settled == m.faders.faders[i].settled
            &&& after.faders.faders[i].dir == m.faders.faders[i].dir
            &&& after.faders.zones == m.faders.zones && after.faders.cfg == m.faders.cfg
            &&& after.cursor == m.cursor && after.stats == m.stats
            &&& after.key_geom == m.key_geom && after.last_analog == m.last_analog
            &&& after.hwnd == m.hwnd && after.pinned == m.pinned && after.route == m.route
            &&& after.expired == m.expired && after.displays_changed == m.displays_changed
        }),
{
    assert(m.faders.faders[i].owner is Some ==> m.keys_enabled);
}

/// A finger is quiet exactly where it is on the table and that long has passed since it was
/// seen: longer silence never makes it less quiet, and a sign of life always does.
pub proof fn silence_is_the_time_since_a_finger_was_seen(
    m: PadModel,
    id: u32,
    now: u64,
    silent: u64,
)
    requires
        0 < silent,
    ensures
        m.quiet(id, now, silent) <==> m.contacts.contains_key(id) && now >= m.contacts[id].seen
            && now - m.contacts[id].seen >= silent,
        patience(Route::Pointer) == Some(400_000_000u64),
        patience(Route::Touch) == Some(1_500_000_000u64),
        patience(Route::Unknown) is None,
{
}

/// Whether the levels announced last are those of the faders, left and right.
pub open spec fn up_to_date(m: PadModel) -> bool {
    m.last_analog[0].equals(m.faders.faders[0].value) && m.last_analog[1].equals(
        m.faders.faders[1].value,
    )
}

/// Levels are announced exactly where one of the two is another number than the one
/// announced last, and are then the ones announced last, both of them.
pub proof fn a_change_of_either_level_is_announced(m: PadModel, levels: Seq<Single>)
    requires
        m.wf(),
        levels.len() == 2,
        !levels[0].nan(),
        !levels[1].nan(),
    ensures
        m.unannounced(levels) <==> exists|i: int|
            0 <= i < 2 && !m.last_analog[i].equals(#[trigger] levels[i]),
        m.announced(levels).last_analog.len() == 2,
        forall|i: int|
            0 <= i < 2 ==> m.announced(levels).last_analog[i].equals(#[trigger] levels[i]),
        m.announced(levels) == (PadModel {
            last_analog: m.announced(levels).last_analog,
            ..m
        }),
        (forall|i: int| 0 <= i < 2 ==> m.last_analog[i].equals(#[trigger] levels[i]))
            ==> m.announced(levels) == m,
{
    if m.unannounced(levels) {
        assert(!m.last_analog[0].equals(levels[0]) || !m.last_analog[1].equals(levels[1]));
    }
}

/// Whoever listens always knows both levels: where the levels announced last were those of
/// the faders, they are so after every event. What is announced is the levels of both
/// faders, exactly where one of them is another number than before.
pub proof fn the_listener_knows_both_levels_after_an_event(
    before: PadModel,
    after: PadModel,
    r: Ingest,
    id: u32,
    x: Single,
    y: Single,
    alive: bool,
    route: Route,
    now: u64,
    s: Sense,
)
    requires
        before.wf(),
        up_to_date(before),
        processed(before, after, r, id, x, y, alive, route, now, s),
        !after.faders.faders[0].value.nan(),
        !after.faders.faders[1].value.nan(),
    ensures
        up_to_date(after),
        r.analog is Some <==> {
            ||| !before.faders.faders[0].value.equals(after.faders.faders[0].value)
            ||| !before.faders.faders[1].value.equals(after.faders.faders[1].value)
        },
        r.analog matches Some(l) ==> l@[0] == after.faders.faders[0].value && l@[1]
            == after.faders.faders[1].value,
{
    let m = PadModel { route, ..before };
    if alive {
        if before.refuses(id) || !before.keys_enabled {
            assert(m.seen(id, x, y, now, s).faders == before.faders);
        } else {
            crate::faderlaws::moves_are_changes_of_level(
                before.faders,
                id,
                x,
                y,
                s.readings@,
                s.readings@.map_values(|v: crate::faders::Reading| v.sum),
            );
            assert(m.seen(id, x, y, now, s).faders == before.faders.offered(
                id,
                x,
                y,
                s.readings@,
            ));
        }
    } else {
        crate::faderlaws::lifting_moves_no_fader(before.faders, id, 0);
        crate::faderlaws::lifting_moves_no_fader(before.faders, id, 1);
    }
}

/// Whoever listens knows both levels after every tick as well.
pub proof fn the_listener_knows_both_levels_after_a_tick(
    before: PadModel,
    after: PadModel,
    r: Option<[Single; 2]>,
    products: Seq<Single>,
)
    requires
        before.wf(),
        up_to_date(before),
        ticked(before, after, r, products),
        !after.faders.faders[0].value.nan(),
        !after.faders.faders[1].value.nan(),
    ensures
        up_to_date(after),
        after.faders == before.faders.relaxed(products),
        after.contacts == before.contacts && after.held == before.held && after.cursor
            == before.cursor && after.stats == before.stats,
        r is Some <==> {
            ||| !before.faders.faders[0].value.equals(after.faders.faders[0].value)
            ||| !before.faders.faders[1].value.equals(after.faders.faders[1].value)
        },
        r matches Some(l) ==> l@[0] == after.faders.faders[0].value && l@[1]
            == after.faders.faders[1].value,
{
    crate::faderlaws::moves_are_changes_of_level(
        before.faders,
        0,
        before.last_analog[0],
        before.last_analog[0],
        Seq::empty(),
        products,
    );
}

/// An event is about its finger: it notes the route, and reports of the keys exactly what
/// changed.
pub proof fn an_event_reports_what_changed(
    before: PadModel,
    after: PadModel,
    r: Ingest,
    id: u32,
    x: Single,
    y: Single,
    alive: bool,
    route: Route,
    now: u64,
    s: Sense,
    k: usize,
    down: bool,
)
    requires
        before.wf(),
        after.wf(),
        processed(before, after, r, id, x, y, alive, route, now, s),
    ensures
        after.route == route,
        alive && (before.contacts.contains_key(id) || before.contacts.len() < 16)
            ==> after.contacts.contains_key(id),
        !alive ==> !after.contacts.contains_key(id),
        r.key_edges@.contains((k, down)) <==> k < 12 && after.held[k as int] == down
            && before.held[k as int] != down,
        id == 0xFFFF_FFFE ==> r.cursor == CursorAction::Nothing && after.cursor == before.cursor,
{
    crate::padlaws::edges_are_the_changes(before.held, after.held);
}

/// A pinned window may do what leaves it where it is pinned, and nothing else: a move to
/// another place or a resize to another size is a drift, and a place or size that is not
/// asked for does not count.
pub proof fn a_pinned_window_stays_where_it_is(
    p: PinRect,
    moving: bool,
    sizing: bool,
    x: i32,
    y: i32,
    cx: i32,
    cy: i32,
)
    ensures
        !drifts(p, moving, sizing, x, y, cx, cy) <==> {
            &&& moving ==> x == p.left && y == p.top
            &&& sizing ==> cx == p.width && cy == p.height
        },
        !drifts(p, moving, sizing, p.left, p.top, p.width, p.height),
{
}

/// Rows agree exactly where no single measure differs.
pub proof fn rows_agree_in_everything(a: KeyGeom, b: KeyGeom)
    ensures
        !a.agrees(b) <==> {
            ||| !a.x.equals(b.x)
            ||| !a.y.equals(b.y)
            ||| !a.w.equals(b.w)
            ||| !a.h.equals(b.h)
            ||| !a.key_w.equals(b.key_w)
            ||| !a.gap.equals(b.gap)
        },
{
}

/// A pad that nobody has touched holds nothing, and has announced what its faders are at.
pub proof fn a_fresh_pad_holds_nothing(g: KeyGeom, k: int)
    requires
        0 <= k < 12,
    ensures
        ({
            let m = crate::touchbridge::fresh_pad(g);
            &&& m.contacts.len() == 0
            &&& m.held.len() == 12 && !m.held[k]
            &&& m.cursor is None
            &&& m.keys_enabled
            &&& m.key_geom == g
            &&& up_to_date(m)
            &&& m.pinned is None
            &&& m.stats.live == 0 && m.stats.peak == 0 && m.stats.dropped == 0
            &&& m.hwnd == 0 && m.vetoed == 0 && m.expired == 0
            &&& !m.minimized && !m.displays_changed
        }),
        KEY_COUNT == 12,
        MOUSE_CONTACT == 0xFFFF_FFFE,
{
}

/// Nothing is announced without news: levels are announced only where a fader moved and one
/// of the two is another number than the one announced last, whatever was announced before.
pub proof fn nothing_is_announced_without_news(
    before: PadModel,
    after: PadModel,
    r: Ingest,
    id: u32,
    x: Single,
    y: Single,
    alive: bool,
    route: Route,
    now: u64,
    s: Sense,
)
    requires
        before.wf(),
        processed(before, after, r, id, x, y, alive, route, now, s),
        !before.faders.faders[0].value.nan(),
        !before.faders.faders[1].value.nan(),
    ensures
        ({
            let (l, d) = (after.faders.faders[0].value, after.faders.faders[1].value);
            let moved = !before.faders.faders[0].value.equals(l)
                || !before.faders.faders[1].value.equals(d);
            let news = !before.last_analog[0].equals(l) || !before.last_analog[1].equals(d);
            &&& r.analog is Some <==> moved && news
            &&& r.analog is None ==> after.last_analog == before.last_analog
            &&& r.analog is Some ==> after.last_analog[0] == l && after.last_analog[1] == d
        }),
{
    crate::faderlaws::moves_are_changes_of_level(
        before.faders,
        id,
        x,
        y,
        s.readings@,
        s.readings@.map_values(|v: crate::faders::Reading| v.sum),
    );
    crate::faderlaws::lifting_moves_no_fader(before.faders, id, 0);
    crate::faderlaws::lifting_moves_no_fader(before.faders, id, 1);
}

/// The same holds of a tick of the clock.
pub proof fn a_tick_announces_only_news(
    before: PadModel,
    after: PadModel,
    r: Option<[Single; 2]>,
    products: Seq<Single>,
)
    requires
        before.wf(),
        ticked(before, after, r, products),
        !before.faders.faders[0].value.nan(),
        !before.faders.faders[1].value.nan(),
    ensures
        ({
            let (l, d) = (after.faders.faders[0].value, after.faders.faders[1].value);
            let moved = !before.faders.faders[0].value.equals(l)
                || !before.faders.faders[1].value.equals(d);
            let news = !before.last_analog[0].equals(l) || !before.last_analog[1].equals(d);
            &&& r is Some <==> moved && news
            &&& r is None ==> after.last_analog == before.last_analog
            &&& r is Some ==> after.last_analog[0] == l && after.last_analog[1] == d
        }),
{
    crate::faderlaws::moves_are_changes_of_level(
        before.faders,
        0,
        before.last_analog[0],
        before.last_analog[0],
        Seq::empty(),
        products,
    );
}

/// A row that is nowhere has no measure but 0.0, and nothing lies on it.
pub proof fn nothing_lies_on_a_row_that_is_nowhere(g: KeyGeom, x: Single, y: Single, i: int)
    requires
        g.nowhere(),
        0 <= i < 12,
    ensures
        g.x == bits(0) && g.y == bits(0) && g.w == bits(0) && g.h == bits(0),
        g.key_w == bits(0) && g.gap == bits(0) && g.right == bits(0) && g.bottom == bits(0),
        g.slots@[i].lo == bits(0) && g.slots@[i].hi == bits(0),
        !g.band(x, y),
{
}

} // verus!
