//! What holds of the pad whatever happens to it.
use crate::single::Single;
use crate::touchbridge::{
    edges, edges_upto, pressed, Contact, CursorAction, PadModel, Sense, KEY_COUNT,
    MAX_CONTACTS, MOUSE_CONTACT,
};
use vstd::prelude::*;

verus! {

/// A picture of the keys after the first `n` of some changes.
pub open spec fn replayed(p: Seq<bool>, changes: Seq<(usize, bool)>, n: int) -> Seq<bool>
    decreases n,
{
    if n <= 0 {
        p
    } else {
        replayed(p, changes, n - 1).update(changes[n - 1].0 as int, changes[n - 1].1)
    }
}

proof fn lemma_edges_upto(before: Seq<bool>, after: Seq<bool>, n: int)
    requires
        before.len() == KEY_COUNT,
        after.len() == KEY_COUNT,
        0 <= n <= KEY_COUNT,
    ensures
        forall|i: int|
            0 <= i < edges_upto(before, after, n).len() ==> {
                let e = #[trigger] edges_upto(before, after, n)[i];
                e.0 < n && after[e.0 as int] == e.1 && before[e.0 as int] != e.1
            },
        forall|i: int, j: int|
            0 <= i < j < edges_upto(before, after, n).len() ==> (#[trigger] edges_upto(
                before,
                after,
                n,
            )[i]).0 < (#[trigger] edges_upto(before, after, n)[j]).0,
        forall|k: int|
            0 <= k < n && before[k] != after[k] ==> edges_upto(before, after, n).contains(
                (k as usize, #[trigger] after[k]),
            ),
    decreases n,
{
    if n > 0 {
        lemma_edges_upto(before, after, n - 1);
        let rest = edges_upto(before, after, n - 1);
        let all = edges_upto(before, after, n);
        assert forall|k: int| 0 <= k < n && before[k] != after[k] implies all.contains(
            (k as usize, #[trigger] after[k]),
        ) by {
            if k < n - 1 {
                let i = choose|i: int| 0 <= i < rest.len() && rest[i] == (k as usize, after[k]);
                assert(all[i] == (k as usize, after[k]));
            } else {
                assert(all.last() == (k as usize, after[k]));
            }
        }
    }
}

proof fn lemma_replay(before: Seq<bool>, after: Seq<bool>, n: int)
    requires
        before.len() == KEY_COUNT,
        after.len() == KEY_COUNT,
        0 <= n <= KEY_COUNT,
    ensures
        replayed(before, edges_upto(before, after, n), edges_upto(before, after, n).len() as int)
            =~= after.take(n) + before.skip(n),
    decreases n,
{
    if n > 0 {
        lemma_replay(before, after, n - 1);
        let rest = edges_upto(before, after, n - 1);
        let all = edges_upto(before, after, n);
        if before[n - 1] != after[n - 1] {
            lemma_replay_prefix(before, all, rest, rest.len() as int);
        }
    }
}

proof fn lemma_replay_prefix(p: Seq<bool>, a: Seq<(usize, bool)>, b: Seq<(usize, bool)>, n: int)
    requires
        0 <= n <= a.len(),
        n <= b.len(),
        forall|i: int| 0 <= i < n ==> a[i] == b[i],
    ensures
        replayed(p, a, n) == replayed(p, b, n),
    decreases n,
{
    if n > 0 {
        lemma_replay_prefix(p, a, b, n - 1);
    }
}

/// The changes that the pad reports are exactly the changes of its picture: each
/// changed key once, in the order of the keys, with the state it changed to; and
/// whoever replays them on the picture before has the picture after.
pub proof fn edges_are_the_changes(before: Seq<bool>, after: Seq<bool>)
    requires
        before.len() == KEY_COUNT,
        after.len() == KEY_COUNT,
    ensures
        forall|k: usize, down: bool| #[trigger]
            edges(before, after).contains((k, down)) <==> k < KEY_COUNT && after[k as int] == down
                && before[k as int] != down,
        forall|i: int, j: int|
            0 <= i < j < edges(before, after).len() ==> (#[trigger] edges(before, after)[i]).0 < (
            #[trigger] edges(before, after)[j]).0,
        replayed(before, edges(before, after), edges(before, after).len() as int) == after,
{
    let all = edges(before, after);
    lemma_edges_upto(before, after, KEY_COUNT as int);
    lemma_replay(before, after, KEY_COUNT as int);
    assert(after.take(KEY_COUNT as int) + before.skip(KEY_COUNT as int) =~= after);
    assert forall|k: usize, down: bool| #[trigger] all.contains((k, down)) <==> k < KEY_COUNT
        && after[k as int] == down && before[k as int] != down by {
        if all.contains((k, down)) {
            let i = choose|i: int| 0 <= i < all.len() && all[i] == (k, down);
            assert(all[i].0 == k);
        }
        if k < KEY_COUNT && after[k as int] == down && before[k as int] != down {
            assert(all.contains((k, after[k as int])));
        }
    }
}

/// A key is held exactly as long as some contact is on it: when a contact lifts,
/// its key stays down if and only if another contact is on the same key.
pub proof fn a_key_is_held_until_its_last_contact_lifts(m: PadModel, id: u32, k: int)
    requires
        m.wf(),
        0 <= k < KEY_COUNT,
    ensures
        m.lifted(id).held[k] == exists|other: u32|
            other != id && #[trigger] m.contacts.contains_key(other) && m.contacts[other].key
                == Some(k as usize),
{
    let rest = m.contacts.remove(id);
    if m.lifted(id).held[k] {
        let other = choose|other: u32| #[trigger]
            rest.contains_key(other) && rest[other].key == Some(k as usize);
        assert(m.contacts.contains_key(other));
    }
    if exists|other: u32|
        other != id && #[trigger] m.contacts.contains_key(other) && m.contacts[other].key == Some(
            k as usize,
        ) {
        let other = choose|other: u32|
            other != id && #[trigger] m.contacts.contains_key(other) && m.contacts[other].key
                == Some(k as usize);
        assert(rest.contains_key(other));
    }
}

/// A contact that comes and goes leaves the table, the held keys, the cursor and
/// the hands on the faders as they were.
pub proof fn a_contact_that_comes_and_goes_leaves_nothing(
    m: PadModel,
    id: u32,
    x: Single,
    y: Single,
    now: u64,
    s: Sense,
)
    requires
        m.wf(),
        !m.contacts.contains_key(id),
        !m.refuses(id),
    ensures
        m.seen(id, x, y, now, s).lifted(id).contacts == m.contacts,
        m.seen(id, x, y, now, s).lifted(id).held == m.held,
        m.seen(id, x, y, now, s).lifted(id).cursor == m.cursor,
        m.seen(id, x, y, now, s).lifted(id).stats.live == m.stats.live,
        forall|i: int|
            0 <= i < 2 ==> (#[trigger] m.seen(id, x, y, now, s).lifted(id).faders.faders[i]).owner
                == m.faders.faders[i].owner,
{
    let there = m.seen(id, x, y, now, s);
    let gone = there.lifted(id);
    assert(gone.contacts =~= m.contacts);
    assert forall|i: int| 0 <= i < 2 implies (#[trigger] gone.faders.faders[i]).owner
        == m.faders.faders[i].owner by {
        assert(m.faders.faders[i].owner matches Some(o) ==> m.contacts.contains_key(o));
    }
}

/// Only a contact that has just come down can become the cursor: one that is in
/// the table already never takes it, whatever opens or frees up above it.
pub proof fn a_contact_already_down_never_takes_the_cursor(
    m: PadModel,
    id: u32,
    x: Single,
    y: Single,
    now: u64,
    s: Sense,
)
    requires
        m.wf(),
        m.contacts.contains_key(id),
    ensures
        m.seen(id, x, y, now, s).cursor == m.cursor,
        m.cursor != Some(id) ==> m.cursor_when_seen(id, x, y) == CursorAction::Nothing,
{
}

/// There is one cursor at a time: while a contact drives it, no other contact does
/// anything to it, neither coming, moving nor lifting.
pub proof fn there_is_one_cursor_at_a_time(
    m: PadModel,
    id: u32,
    x: Single,
    y: Single,
    now: u64,
    s: Sense,
)
    requires
        m.wf(),
        m.cursor is Some,
        m.cursor != Some(id),
    ensures
        m.seen(id, x, y, now, s).cursor == m.cursor,
        m.cursor_when_seen(id, x, y) == CursorAction::Nothing,
        m.lifted(id).cursor == m.cursor,
        m.cursor_when_lifted(id, x, y) == CursorAction::Nothing,
{
}

/// The cursor's life: it is pressed when a contact takes it, moves with that
/// contact, and is released where the contact was last seen, after which there is
/// none.
pub proof fn the_cursor_is_pressed_moved_and_released(
    m: PadModel,
    id: u32,
    x: Single,
    y: Single,
    now: u64,
    s: Sense,
)
    requires
        m.wf(),
    ensures
        m.cursor_when_seen(id, x, y) is Press <==> m.seen(id, x, y, now, s).cursor == Some(id)
            && m.cursor != Some(id),
        m.cursor_when_seen(id, x, y) is Move <==> m.cursor == Some(id),
        m.cursor_when_lifted(id, x, y) is Release <==> m.cursor == Some(id),
        m.cursor == Some(id) ==> {
            let c = m.contacts[id];
            &&& m.cursor_when_lifted(id, x, y) == CursorAction::Release(c.x, c.y)
            &&& m.lifted(id).cursor is None
        },
        m.lifted(id).cursor != Some(id),
{
}

/// The mouse never drives the cursor.
pub proof fn the_mouse_never_drives_the_cursor(
    m: PadModel,
    x: Single,
    y: Single,
    now: u64,
    s: Sense,
)
    requires
        m.wf(),
    ensures
        m.seen(MOUSE_CONTACT, x, y, now, s).cursor == m.cursor,
        m.cursor_when_seen(MOUSE_CONTACT, x, y) == CursorAction::Nothing,
        m.lifted(MOUSE_CONTACT).cursor == m.cursor,
        m.cursor_when_lifted(MOUSE_CONTACT, x, y) == CursorAction::Nothing,
{
}

/// Past the ceiling a contact is dropped: it is counted, and nothing that is there
/// is taken from anyone.
pub proof fn a_contact_past_the_ceiling_is_dropped(
    m: PadModel,
    id: u32,
    x: Single,
    y: Single,
    now: u64,
    s: Sense,
)
    requires
        m.wf(),
        m.contacts.len() == MAX_CONTACTS,
        !m.contacts.contains_key(id),
        m.stats.dropped < u64::MAX,
    ensures
        ({
            let after = m.seen(id, x, y, now, s);
            &&& after.stats.dropped == m.stats.dropped + 1
            &&& after.stats.live == m.stats.live
            &&& after.stats.peak == m.stats.peak
            &&& after.contacts == m.contacts
            &&& after.held == m.held
            &&& after.faders == m.faders
            &&& after.cursor == m.cursor
        }),
        edges(m.held, m.seen(id, x, y, now, s).held).len() == 0,
        m.cursor_when_seen(id, x, y) == CursorAction::Nothing,
        !m.analog_when_seen(id, x, y, s),
{
    crate::touchbridge::lemma_no_edges(m.held, KEY_COUNT as int);
}

/// Below the ceiling no contact is dropped, and the table remembers how full it
/// has been.
pub proof fn a_contact_below_the_ceiling_is_kept(
    m: PadModel,
    id: u32,
    x: Single,
    y: Single,
    now: u64,
    s: Sense,
)
    requires
        m.wf(),
        m.contacts.contains_key(id) || m.contacts.len() < MAX_CONTACTS,
    ensures
        ({
            let after = m.seen(id, x, y, now, s);
            &&& after.stats.dropped == m.stats.dropped
            &&& after.contacts.contains_key(id)
            &&& after.contacts[id].seen == now
            &&& after.contacts[id].x == x
            &&& after.contacts[id].y == y
            &&& after.stats.live == m.stats.live + (if m.contacts.contains_key(id) {
                0int
            } else {
                1
            })
            &&& after.stats.peak >= m.stats.peak
            &&& after.stats.peak == m.stats.peak || after.stats.peak == after.stats.live
        }),
{
}

/// Clearing the pad lets go of everything: no contact, no cursor, no fader held,
/// every held key goes up and no key goes down, and nobody is left to be silent.
pub proof fn clearing_lets_go_of_everything(m: PadModel)
    requires
        m.wf(),
    ensures
        m.cleared().contacts == Map::<u32, Contact>::empty(),
        m.cleared().stats.live == 0,
        m.cleared().cursor is None,
        forall|i: int| 0 <= i < 2 ==> (#[trigger] m.cleared().faders.faders[i]).owner is None,
        forall|k: int| 0 <= k < KEY_COUNT ==> !#[trigger] m.cleared().held[k],
        forall|k: usize, down: bool| #[trigger]
            edges(m.held, m.cleared().held).contains((k, down)) <==> k < KEY_COUNT && m.held[k as int]
                && !down,
        forall|id: u32, now: u64, silent: u64| !#[trigger] m.cleared().quiet(id, now, silent),
{
    assert forall|k: int| 0 <= k < KEY_COUNT implies !#[trigger] m.cleared().held[k] by {
        assert(!pressed(Map::<u32, Contact>::empty(), k));
    }
    edges_are_the_changes(m.held, m.cleared().held);
}

/// Disabling the keys releases everything held and leaves the cursor alone; and
/// until they are enabled again no contact presses a key or holds a fader.
pub proof fn disabling_keys_releases_everything_held(m: PadModel)
    requires
        m.wf(),
    ensures
        forall|k: int| 0 <= k < KEY_COUNT ==> !#[trigger] m.enabled(false).held[k],
        forall|k: usize, down: bool| #[trigger]
            edges(m.held, m.enabled(false).held).contains((k, down)) <==> k < KEY_COUNT
                && m.held[k as int] && !down,
        forall|i: int|
            0 <= i < 2 ==> (#[trigger] m.enabled(false).faders.faders[i]).owner is None,
        m.enabled(false).cursor == m.cursor,
        m.enabled(false).contacts.dom() == m.contacts.dom(),
        forall|id: u32, x: Single, y: Single, s: Sense| #[trigger]
            m.enabled(false).key_after(id, x, y, s) is None,
        forall|id: u32, x: Single, y: Single, s: Sense| #[trigger]
            m.enabled(false).faders_after(id, x, y, s) == m.enabled(false).faders,
{
    let off = m.enabled(false);
    assert(off.held =~= Seq::new(KEY_COUNT as nat, |k: int| false));
    assert(off.contacts.dom() =~= m.contacts.dom());
    edges_are_the_changes(m.held, off.held);
    assert forall|i: int| 0 <= i < 2 implies (#[trigger] off.faders.faders[i]).owner is None by {
        assert(m.faders.faders[i].owner is Some ==> m.keys_enabled);
    }
}

/// With an overlay open, every point of the screen is free for the cursor.
pub proof fn an_overlay_makes_the_whole_screen_chrome(m: PadModel, x: Single, y: Single)
    requires
        !m.keys_enabled,
    ensures
        m.chrome(x, y),
{
}

/// What presses a key does not take the cursor: a point that hits a key lies on the
/// row, and the row is not chrome.
pub proof fn a_key_contact_does_not_become_the_cursor(
    m: PadModel,
    id: u32,
    x: Single,
    y: Single,
    s: Sense,
)
    requires
        m.wf(),
        !x.nan(),
        !y.nan(),
        !m.key_geom.x.nan(),
        !m.key_geom.y.nan(),
        !m.key_geom.right.nan(),
        !m.key_geom.bottom.nan(),
        m.key_after(id, x, y, s) is Some,
    ensures
        !m.chrome(x, y),
        !m.claims_cursor(id, x, y),
{
}

/// A contact holds a key or a fader, never both, and a key's number is one of the
/// row.
pub proof fn a_contact_holds_a_key_or_a_fader(
    m: PadModel,
    id: u32,
    x: Single,
    y: Single,
    now: u64,
    s: Sense,
)
    requires
        m.wf(),
        !m.refuses(id),
    ensures
        m.seen(id, x, y, now, s).contacts[id].key matches Some(k) ==> k < KEY_COUNT && !m.seen(
            id,
            x,
            y,
            now,
            s,
        ).faders.held_by(id) && m.seen(id, x, y, now, s).held[k as int],
{
    let after = m.seen(id, x, y, now, s);
    if let Some(k) = after.contacts[id].key {
        assert(after.contacts.contains_key(id));
        assert(pressed(after.contacts, k as int));
    }
}

/// A contact keeps its key while it stays in the key's slot, leaves it only for a
/// neighbour or for the column it jumped to, and never leaves the row for a number
/// that is no key.
pub proof fn a_key_holds_its_contact_in_the_gutter(
    g: crate::touchbridge::KeyGeom,
    x: Single,
    y: Single,
    column: i32,
    p: usize,
)
    requires
        p < KEY_COUNT,
        g.key_at(x, y, column, Some(p)) is Some,
    ensures
        ({
            let k = g.key_at(x, y, column, Some(p))->0;
            &&& k < KEY_COUNT
            &&& -1 <= column - p <= 1 && !x.below(g.slots@[p as int].lo) && !g.slots@[p as int].hi.at_most(x)
                ==> k == p
            &&& -1 <= column - p <= 1 ==> -1 <= k - p <= 1
            &&& !(-1 <= column - p <= 1) ==> k == column
        }),
{
}

/// Whether a point hits a key does not depend on the key before, and whatever is hit is
/// a key of the row.
pub proof fn hitting_a_key_does_not_depend_on_the_key_before(
    g: crate::touchbridge::KeyGeom,
    x: Single,
    y: Single,
    column: i32,
    prev: Option<usize>,
)
    ensures
        g.key_at(x, y, column, prev) is Some == g.key_at(x, y, column, None) is Some,
        g.key_at(x, y, column, prev) matches Some(k) ==> k < KEY_COUNT,
{
}

/// A point on the face of a key hits that key, whatever the key before: a point in the
/// key's column and slot, which lies behind its left neighbour's slot and before its
/// right neighbour's.
pub proof fn the_face_of_a_key_is_its_own(
    g: crate::touchbridge::KeyGeom,
    x: Single,
    y: Single,
    n: usize,
    prev: Option<usize>,
)
    requires
        n < KEY_COUNT,
        g.band(x, y),
        !x.below(g.slots@[n as int].lo),
        x.below(g.slots@[n as int].hi),
        n > 0 ==> g.slots@[n - 1].hi.at_most(x) && !x.below(g.slots@[n - 1].lo),
        n < KEY_COUNT - 1 ==> x.below(g.slots@[n + 1].lo),
    ensures
        g.key_at(x, y, n as i32, prev) == Some(n),
{
}

/// A contact that is not dropped presses the cursor exactly where it is no mouse, has
/// just come down, finds no cursor and comes down on chrome; it moves the cursor exactly
/// where it is the cursor; and the cursor changes in no other way. The count of contacts
/// is the table's, and never over the ceiling.
pub proof fn a_contact_takes_the_cursor_only_on_chrome(
    m: PadModel,
    id: u32,
    x: Single,
    y: Single,
    now: u64,
    s: Sense,
)
    requires
        m.wf(),
        !m.refuses(id),
    ensures
        ({
            let takes = id != MOUSE_CONTACT && !m.contacts.contains_key(id) && m.cursor is None
                && m.chrome(x, y);
            let after = m.seen(id, x, y, now, s);
            &&& m.cursor_when_seen(id, x, y) == CursorAction::Press(x, y) <==> takes
            &&& m.cursor_when_seen(id, x, y) == CursorAction::Move(x, y) <==> m.cursor == Some(id)
            &&& after.cursor == (if takes {
                Some(id)
            } else {
                m.cursor
            })
            &&& after.stats.live == after.contacts.len()
            &&& after.stats.live <= MAX_CONTACTS
            &&& after.chrome(x, y) == m.chrome(x, y)
        }),
{
}

} // verus!
