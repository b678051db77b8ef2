//! What holds of screens, of the mirror of one, and of the window's messages.
use crate::monitor::{
    choice, flips, listing, nav_choice, orientation, pad_choice, FlipAction, FlipEvent, MonModel,
};
use crate::navmirror::{
    at_least_one, halved, idle_mirror, mouse_message, mouse_op, mouse_steps, phase_after,
    picture_size, rgba, stepped, Capture, Frame, FrameModel, Handle, MirrorModel, MouseOp,
    MouseStep, Phase,
};
use crate::text::{dec, signed_dec};
use crate::touchbridge::PadModel;
use crate::winmsg::{
    about_pointer, kept, low_word, meaning, pixels, pointer_step, releases, still_down,
    touch_count, veto_is_news, Message, PointerInfo, PointerStep, TouchInput, WindowPos,
};
use vstd::prelude::*;
use vstd::string::*;

verus! {

/// Whether a point of the desktop is on a screen.
pub open spec fn lies_on(m: MonModel, x: int, y: int) -> bool {
    m.left <= x < m.left + m.width && m.top <= y < m.top + m.height
}

/// Two screens are the same exactly where their left edges, their top edges, their widths
/// and their heights are: screens that differ in any one of these are different, whatever
/// else there is to them.
pub proof fn screens_are_the_same_in_place_and_size(a: MonModel, b: MonModel)
    ensures
        a.covers_same(b) <==> a.left == b.left && a.top == b.top && a.width == b.width && a.height
            == b.height,
        a.left != b.left ==> !a.covers_same(b),
        a.top != b.top ==> !a.covers_same(b),
        a.width != b.width ==> !a.covers_same(b),
        a.height != b.height ==> !a.covers_same(b),
        a.covers_same(b) <==> b.covers_same(a),
        a.covers_same(a),
{
}

/// Two screens with something to show are the same exactly where every point of the one is
/// a point of the other. So screens that share no point are never the same.
pub proof fn the_same_screen_has_the_same_points(a: MonModel, b: MonModel)
    requires
        a.width > 0,
        a.height > 0,
        b.width > 0,
        b.height > 0,
    ensures
        a.covers_same(b) <==> forall|x: int, y: int| #[trigger]
            lies_on(a, x, y) == lies_on(b, x, y),
        (forall|x: int, y: int| #[trigger] lies_on(a, x, y) ==> !lies_on(b, x, y))
            ==> !a.covers_same(b),
{
    assert(lies_on(a, a.left as int, a.top as int));
    if forall|x: int, y: int| #[trigger] lies_on(a, x, y) == lies_on(b, x, y) {
        let (x0, y0) = (a.left as int, a.top as int);
        let (x1, y1) = (a.left + a.width - 1, a.top + a.height - 1);
        assert(lies_on(a, x1, y1));
        assert(lies_on(b, x0, y0) && lies_on(b, x1, y1));
        let (u0, v0) = (b.left as int, b.top as int);
        let (u1, v1) = (b.left + b.width - 1, b.top + b.height - 1);
        assert(lies_on(b, u0, v0) && lies_on(b, u1, v1));
        assert(lies_on(a, u0, v0) == lies_on(b, u0, v0));
        assert(lies_on(a, u1, v1) == lies_on(b, u1, v1));
    }
}

/// The mirror starts on every screen that differs from the pad's in place or size, and
/// shows that screen from then on. On the pad's own screen it does not start, and nothing
/// changes. What was shown and how wide it may be stay as they are.
pub proof fn the_mirror_starts_on_any_other_screen(
    m: MirrorModel,
    target: MonModel,
    pad: MonModel,
)
    ensures
        target.left != pad.left || target.top != pad.top || target.width != pad.width
            || target.height != pad.height ==> {
            let after = m.started(target, pad);
            &&& after.running
            &&& after.target == Some(target)
            &&& after.max_w == m.max_w
            &&& after.frame.width == m.frame.width && after.frame.height == m.frame.height
            &&& after.frame.bgra == m.frame.bgra
            &&& after.frame.status == "capturing…"@
        },
        target.left == pad.left && target.top == pad.top && target.width == pad.width
            && target.height == pad.height ==> m.started(target, pad) == m,
{
}

/// A mirror that is off, or has no screen, is not touched by a capture. One that is on
/// shows exactly the picture that was captured, and keeps its pixels where that failed.
pub proof fn a_failed_capture_leaves_the_picture(m: MirrorModel, captured: Result<Frame, String>)
    ensures
        !m.running || m.target is None ==> m.captured(captured) == m,
        m.running && m.target is Some ==> {
            let after = m.captured(captured);
            &&& after.running && after.target == m.target && after.max_w == m.max_w
            &&& captured matches Ok(f) ==> after.frame == f@
            &&& captured is Err ==> after.frame.bgra == m.frame.bgra && after.frame.width
                == m.frame.width && after.frame.height == m.frame.height
            &&& captured matches Err(why) ==> after.frame.status == "capture failed: "@ + why@
        },
{
}

/// A picture is shown only where it has an area and four bytes for every point of it.
pub proof fn a_full_picture_has_every_pixel(f: FrameModel)
    ensures
        f.full() ==> f.width >= 1 && f.height >= 1 && f.bgra.len() >= 4,
        f.width >= 1 && f.height >= 1 ==> (f.full() <==> f.bgra.len() >= 4 * (f.width
            * f.height)),
        f.width == 0 || f.height == 0 ==> !f.full(),
{
    assert(f.width >= 1 && f.height >= 1 ==> f.width * f.height >= 1) by (nonlinear_arith);
    assert(f.width * f.height * 4 == 4 * (f.width * f.height)) by (nonlinear_arith);
}

/// A pointer event lands as far from the corner of the mirrored screen as it was from the
/// corner of the picture, and only while the mirror is on. The first kind presses, the
/// second moves, and every other one lets go.
pub proof fn a_pointer_lands_where_it_was(m: MirrorModel, dx: i32, dy: i32, kind: i32)
    requires
        m.target matches Some(t) ==> i32::MIN <= t.left + dx <= i32::MAX && i32::MIN <= t.top + dy
            <= i32::MAX,
    ensures
        m.pointed(dx, dy, kind) is Some <==> m.running && m.target is Some,
        m.pointed(dx, dy, kind) matches Some((x, y, op)) ==> {
            &&& x - m.target->0.left == dx
            &&& y - m.target->0.top == dy
            &&& op == MouseOp::Down <==> kind == 0
            &&& op == MouseOp::Move <==> kind == 1
            &&& op == MouseOp::Up <==> kind != 0 && kind != 1
            &&& op == mouse_op(kind)
        },
        m.spanned() is Some <==> m.running && m.target is Some,
        m.spanned() matches Some((w, h)) ==> w >= 1 && h >= 1 && (m.target->0.width >= 1 ==> w
            == m.target->0.width) && (m.target->0.height >= 1 ==> h == m.target->0.height),
{
}

/// A half is half: twice it is the length or one step nearer to zero. So the middle of a
/// screen with something to show lies on it.
pub proof fn the_middle_lies_on_the_screen(m: MirrorModel, n: i32)
    ensures
        n >= 0 ==> n - 1 <= 2 * halved(n) <= n,
        n < 0 ==> n <= 2 * halved(n) <= n + 1,
        m.target is None ==> m.middle() == (0int, 0int),
        m.target matches Some(t) ==> t.width > 0 && t.height > 0 ==> {
            let (x, y) = m.middle();
            &&& lies_on(t, x, y)
            &&& -1 <= (x - t.left) - (t.left + t.width - x) <= 0
            &&& -1 <= (y - t.top) - (t.top + t.height - y) <= 0
        },
{
}

/// A length of at least one is the length itself from one on, and one below.
pub proof fn lengths_are_at_least_one(n: i32)
    ensures
        at_least_one(n) >= 1,
        n >= 1 ==> at_least_one(n) == n,
        n < 1 ==> at_least_one(n) == 1,
{
}

/// The list keeps the screens in the order they were found in and changes nothing of them
/// but their number and what they are called.
pub proof fn the_list_keeps_every_screen(found: Seq<MonModel>, i: int)
    requires
        0 <= i < found.len() <= usize::MAX,
    ensures
        listing(found).len() == found.len(),
        listing(found)[i].index == i,
        listing(found)[i].left == found[i].left && listing(found)[i].top == found[i].top,
        listing(found)[i].width == found[i].width && listing(found)[i].height == found[i].height,
        listing(found)[i].primary == found[i].primary,
        listing(found)[i].device == found[i].device,
{
}

proof fn lemma_first(found: Seq<MonModel>, primary: bool, from: int, at: int)
    requires
        found.len() <= usize::MAX,
        0 <= from <= at <= found.len(),
        forall|j: int| from <= j < at ==> (#[trigger] found[j]).primary != primary,
        at < found.len() ==> found[at].primary == primary,
    ensures
        crate::monitor::first_index(listing(found), primary, from) == (if at < found.len() {
            Some(at as usize)
        } else {
            None
        }),
    decreases at - from,
{
    if from < at {
        assert(listing(found)[from].primary == found[from].primary);
        lemma_first(found, primary, from + 1, at);
    } else if at < found.len() {
        assert(listing(found)[at].primary == found[at].primary);
    }
}

/// Unless told otherwise, the mirror shows the first primary screen, and the pad is on the
/// first one that is not; where there is no such screen, each takes the first of the list.
pub proof fn the_first_that_fits_is_chosen(found: Seq<MonModel>, i: int)
    requires
        found.len() <= usize::MAX,
        0 <= i < found.len(),
    ensures
        found[i].primary && (forall|j: int| 0 <= j < i ==> !(#[trigger] found[j]).primary)
            ==> nav_choice(listing(found)) == i,
        !found[i].primary && (forall|j: int| 0 <= j < i ==> (#[trigger] found[j]).primary)
            ==> pad_choice(listing(found)) == i,
        (forall|j: int| 0 <= j < found.len() ==> !(#[trigger] found[j]).primary) ==> nav_choice(
            listing(found),
        ) == 0,
        (forall|j: int| 0 <= j < found.len() ==> (#[trigger] found[j]).primary) ==> pad_choice(
            listing(found),
        ) == 0,
{
    if found[i].primary && (forall|j: int| 0 <= j < i ==> !(#[trigger] found[j]).primary) {
        lemma_first(found, true, 0, i);
    }
    if !found[i].primary && (forall|j: int| 0 <= j < i ==> (#[trigger] found[j]).primary) {
        lemma_first(found, false, 0, i);
    }
    if forall|j: int| 0 <= j < found.len() ==> !(#[trigger] found[j]).primary {
        lemma_first(found, true, 0, found.len() as int);
    }
    if forall|j: int| 0 <= j < found.len() ==> (#[trigger] found[j]).primary {
        lemma_first(found, false, 0, found.len() as int);
    }
}

/// What is stored is used where there is such a screen; else the automatic choice, or the
/// last screen where that lies behind it.
pub proof fn a_stored_screen_comes_first(found: Seq<MonModel>, stored: i32, auto: usize)
    requires
        found.len() <= usize::MAX,
    ensures
        0 <= stored < found.len() ==> choice(listing(found), stored, auto) == stored,
        (stored < 0 || stored >= found.len()) && auto < found.len() ==> choice(
            listing(found),
            stored,
            auto,
        ) == auto,
        (stored < 0 || stored >= found.len()) && auto >= found.len() && found.len() > 0 ==> choice(
            listing(found),
            stored,
            auto,
        ) == found.len() - 1,
        found.len() == 0 ==> choice(listing(found), stored, auto) == 0,
{
    crate::monitor::a_listed_screen_is_found_at_its_place(found, stored as int);
}

/// Upside down is orientation 2 and upright is 0. A screen is changed only where it does
/// not stand as wanted, and then to what is wanted: found so, it is left alone. It counts as
/// turned exactly where the change was answered with 0.
pub proof fn a_screen_is_turned_only_where_it_must_be(
    device: Seq<char>,
    flipped: bool,
    event: FlipEvent,
    r: FlipAction,
)
    requires
        flips(device, flipped, event, r),
    ensures
        orientation(true) == 2,
        orientation(false) == 0,
        event is Begun ==> (r is LookUp <==> device.len() > 0) && (r is Failed <==> device.len()
            == 0),
        event matches FlipEvent::Found(found) ==> {
            let want = if flipped {
                2u32
            } else {
                0u32
            };
            &&& r is Already <==> found == Some(want)
            &&& r matches FlipAction::Change(to) ==> to == want
            &&& r is Change <==> found is Some && found != Some(want)
            &&& r is Failed <==> found is None
        },
        event matches FlipEvent::Changed(rc) ==> (r is Turned <==> rc == 0) && (r is Failed
            <==> rc != 0),
{
}

/// The cursor is put in place before anything else, and the window below is told last. In
/// between a press sends the system one button event and a release one, and a move none.
pub proof fn the_cursor_is_placed_first(x: i32, y: i32, op: MouseOp)
    ensures
        ({
            let s = mouse_steps(x, y, op);
            &&& s.len() == (if op == MouseOp::Move {
                2int
            } else {
                3
            })
            &&& s.first() == MouseStep::Place(x, y)
            &&& s.last() == MouseStep::Post(x, y, op)
            &&& op == MouseOp::Down ==> s[1] == MouseStep::Send(2)
            &&& op == MouseOp::Up ==> s[1] == MouseStep::Send(4)
        }),
{
}

/// The message about the mouse holds the point in its two halves, the button while it is
/// down, and the number of what happens.
pub proof fn the_message_holds_the_point(x: i32, y: i32, op: MouseOp)
    ensures
        ({
            let m = mouse_message(x, y, op);
            &&& m.lparam % 0x10000 == x as int % 0x10000
            &&& m.lparam / 0x10000 == y as int % 0x10000
            &&& 0 <= x < 0x10000 && 0 <= y < 0x10000 ==> m.lparam == 0x10000 * y + x
            &&& m.msg == (match op {
                MouseOp::Move => 0x0200u32,
                MouseOp::Down => 0x0201u32,
                MouseOp::Up => 0x0202u32,
            })
            &&& m.wparam == (if op == MouseOp::Up {
                0usize
            } else {
                1usize
            })
        }),
{
}

/// A capture that meets no failure goes through all of its phases, one behind the other. A
/// failure that spoils the picture is complained about, and nothing but giving back follows
/// it.
pub proof fn a_spoilt_capture_only_gives_back(p: Phase, q: Phase, ok: bool)
    ensures
        p != Phase::Finished ==> p.after(true).left() == p.left() - 1,
        p.left() == q.left() ==> p == q,
        phase_after(Seq::empty()) == Phase::Begun,
        Phase::Begun.left() == 11,
        p.complaint() is Some <==> p == Phase::GetScreen || p == Phase::CreateDc || p
            == Phase::CreateBitmap || p == Phase::Copy || p == Phase::Read,
        p.complaint() is Some ==> p.after(false) == Phase::Finished || p.after(false).drops() is Some,
        p.drops() is Some ==> p.after(ok) == Phase::Finished || p.after(ok).drops() is Some,
        p.drops() is Some ==> p.after(ok) == p.after(true),
        p.complaint() is None ==> p.after(ok) == p.after(true),
        p.takes() == Some(Handle::Screen) <==> p == Phase::GetScreen,
        p.drops() == Some(Handle::Screen) <==> p == Phase::ReleaseScreen,
{
}

/// Where a screen is wider than asked for, the height comes from scaling; where a length is
/// too long for exact scaling, both lengths do. Neither is below one.
pub proof fn only_long_or_wide_screens_are_scaled(
    src_w: u32,
    src_h: u32,
    max_w: u32,
    scaled: (u32, u32),
)
    ensures
        ({
            let (w, h) = picture_size(src_w, src_h, max_w, scaled);
            let exact = src_w <= 1_048_576 && src_h <= 1_048_576 && max_w <= 1_048_576;
            &&& w >= 1 && h >= 1
            &&& exact && src_w <= max_w && src_w >= 1 ==> w == src_w
            &&& exact && src_w <= max_w && src_h >= 1 ==> h == src_h
            &&& exact && src_w > max_w && max_w >= 1 ==> w == max_w
            &&& exact && src_w > max_w && scaled.1 >= 1 ==> h == scaled.1
            &&& !exact && scaled.0 >= 1 ==> w == scaled.0
            &&& !exact && scaled.1 >= 1 ==> h == scaled.1
        }),
{
}

/// Pixel by pixel, red and blue change places, green stays and nothing is transparent.
pub proof fn a_pixel_exchanges_red_and_blue(bgra: Seq<u8>, k: int)
    requires
        0 <= k,
        4 * k + 3 < bgra.len(),
    ensures
        rgba(bgra).len() <= bgra.len() < rgba(bgra).len() + 4,
        rgba(bgra).len() % 4 == 0,
        4 * k + 3 < rgba(bgra).len(),
        rgba(bgra)[4 * k] == bgra[4 * k + 2],
        rgba(bgra)[4 * k + 1] == bgra[4 * k + 1],
        rgba(bgra)[4 * k + 2] == bgra[4 * k],
        rgba(bgra)[4 * k + 3] == 255,
{
}

/// What a message asks for, by its number: each thing is asked for by its own messages, of
/// a hooked window and, but for two, only of the pad's.
pub proof fn every_message_has_its_meaning(hooked: bool, mine: bool, msg: u32, wparam: usize)
    ensures
        ({
            let m = meaning(hooked, mine, msg, wparam);
            let id = low_word(wparam) as u32;
            let pads = hooked && mine;
            let touched = pads && msg == 0x0240 && low_word(wparam) > 0;
            let pointed = pads && (msg == 0x0245 || msg == 0x0246 || msg == 0x0247 || msg
                == 0x024a);
            &&& m == Message::Destroyed <==> hooked && msg == 0x0082
            &&& m == Message::DisplaysChanged <==> hooked && msg == 0x007e
            &&& m == Message::StayInactive <==> pads && (msg == 0x024b || msg == 0x0021)
            &&& m == Message::Moving <==> pads && msg == 0x0046
            &&& m is CaptureLost <==> pads && msg == 0x024c
            &&& m matches Message::CaptureLost(i) ==> i == id
            &&& m is Pointer <==> pointed
            &&& m matches Message::Pointer(i) ==> i == id
            &&& m is Touches <==> touched
            &&& m matches Message::Touches(n) ==> n <= 16 && n <= low_word(wparam) && (n == 16 || n
                == low_word(wparam))
            &&& about_pointer(msg) <==> msg == 0x0245 || msg == 0x0246 || msg == 0x0247 || msg
                == 0x024a
        }),
        0 <= low_word(wparam) < 0x10000,
        (wparam - low_word(wparam)) % 0x10000 == 0,
        touch_count(wparam) <= 16,
{
}

/// A pointer is on the screen exactly while it is in contact and was not given up. Of a
/// finger or a pen with a window, a message up or away always lifts it and any other follows
/// the pointer; of anything else only up and away are heeded.
pub proof fn a_pointer_is_lifted_in_any_case(msg: u32, info: Option<PointerInfo>, window: bool)
    ensures
        ({
            let up = msg == 0x0247 || msg == 0x024a;
            let finger = window && (info matches Some(p) && (p.kind == 2 || p.kind == 3));
            let on = info matches Some(p) && p.flags & 4 != 0 && p.flags & 0x8000 == 0;
            &&& releases(msg) <==> up
            &&& still_down(info) <==> on
            &&& finger && up ==> pointer_step(msg, info, window) == PointerStep::Track(false)
            &&& finger && !up ==> pointer_step(msg, info, window) == PointerStep::Track(on)
            &&& !finger && up ==> pointer_step(msg, info, window) == PointerStep::Release
            &&& !finger && !up ==> pointer_step(msg, info, window) == PointerStep::Pass
        }),
{
}

/// A touch is on the pixel whose hundredths it is in, counted towards zero, and is on the
/// screen unless it goes up.
pub proof fn a_touch_is_on_its_pixel(t: TouchInput)
    ensures
        t.x >= 0 ==> 100 * t.at().0 <= t.x < 100 * t.at().0 + 100,
        t.x < 0 ==> 100 * t.at().0 - 100 < t.x <= 100 * t.at().0,
        t.y >= 0 ==> 100 * t.at().1 <= t.y < 100 * t.at().1 + 100,
        t.y < 0 ==> 100 * t.at().1 - 100 < t.y <= 100 * t.at().1,
        t.stays() <==> t.flags & 4 == 0,
        t.at() == (pixels(t.x), pixels(t.y)),
{
}

/// A pinned window that would leave its place is sent back to it, and that is counted; one
/// that would not, or is not pinned, goes where it goes.
pub proof fn a_pinned_window_is_sent_back(
    m: PadModel,
    after: PadModel,
    pos: WindowPos,
    pos_after: WindowPos,
    r: Option<u64>,
)
    requires
        kept(m, after, pos, pos_after, r),
        m.vetoed < u64::MAX,
    ensures
        ({
            let strays = m.pinned matches Some(p) && ((pos.flags & 2 == 0 && (pos.x != p.left
                || pos.y != p.top)) || (pos.flags & 1 == 0 && (pos.cx != p.width || pos.cy
                != p.height)));
            &&& r is Some <==> strays
            &&& strays ==> {
                let p = m.pinned->0;
                &&& r == Some(after.vetoed)
                &&& after.vetoed == m.vetoed + 1
                &&& pos_after.x == p.left && pos_after.y == p.top
                &&& pos_after.cx == p.width && pos_after.cy == p.height
                &&& pos_after.flags & 1 == 0 && pos_after.flags & 2 == 0
            }
            &&& !strays ==> pos_after == pos && after == m
            &&& after == (PadModel { vetoed: after.vetoed, ..m })
            &&& !pos_after.leaves(after.pinned)
        }),
{
    let f = pos.flags;
    assert((f & !(2u32 | 1u32)) & 1 == 0 && (f & !(2u32 | 1u32)) & 2 == 0) by (bit_vector);
}

/// Vetoes are worth a warning at the first and at every twenty-fifth, and at no other.
pub proof fn vetoes_are_reported_now_and_then(n: u64, k: u64)
    requires
        n == 25 * k,
        k < 1_000_000_000,
    ensures
        veto_is_news(1),
        veto_is_news(n),
        forall|j: u64| n < j < n + 25 && j != 1 ==> !(#[trigger] veto_is_news(j)),
{
}

/// A mirror that was never on shows nothing, has no screen, and brings pictures down to a
/// width of 1920. Turning a mirror off touches neither its screen nor its pixels.
pub proof fn a_mirror_is_off_until_it_starts(m: MirrorModel)
    ensures
        !idle_mirror().running && idle_mirror().target is None && idle_mirror().max_w == 1920,
        idle_mirror().frame.bgra.len() == 0 && !idle_mirror().frame.full(),
        !m.stopped().running,
        m.stopped().target == m.target && m.stopped().max_w == m.max_w,
        m.stopped().frame.bgra == m.frame.bgra && m.stopped().frame.width == m.frame.width
            && m.stopped().frame.height == m.frame.height,
{
}

/// A capture takes one phase after the other and keeps its sizes. Work that succeeds, and
/// work that only gives back, leaves the reason to fail as it was; a failure that spoils the
/// picture gives one.
pub proof fn a_capture_keeps_its_reason(c: Capture, after: Capture, ok: bool, r: Phase)
    requires
        stepped(c, after, ok, r),
    ensures
        after.phase == r,
        after.src_w == c.src_w && after.src_h == c.src_h && after.dst_w == c.dst_w && after.dst_h
            == c.dst_h,
        ok ==> after.why() == c.why(),
        c.phase.drops() is Some ==> after.why() == c.why(),
        !ok && c.phase.drops() is None && (c.phase.takes() is Some || c.phase == Phase::Copy
            || c.phase == Phase::Read) && c.phase != Phase::Select ==> after.why() is Some,
{
}

/// What a screen is called begins with its number and its width and says so where it is the
/// primary one; its place stands at the end.
pub proof fn a_primary_screen_is_called_so(m: MonModel)
    ensures
        ({
            let one = (MonModel { primary: true, ..m }).described();
            let other = (MonModel { primary: false, ..m }).described();
            let size = dec(m.index as nat) + ": "@ + signed_dec(m.width as int) + "×"@ + signed_dec(
                m.height as int,
            );
            let place = signed_dec(m.left as int) + ","@ + signed_dec(m.top as int);
            &&& (size + " primary"@).is_prefix_of(one)
            &&& (size + " @ "@).is_prefix_of(other)
            &&& one.len() == other.len() + 8
            &&& one.skip(one.len() - place.len()) == place
            &&& other.skip(other.len() - place.len()) == place
        }),
{
    reveal_strlit(" primary");
    reveal_strlit("");
    let one = (MonModel { primary: true, ..m }).described();
    let other = (MonModel { primary: false, ..m }).described();
    let size = dec(m.index as nat) + ": "@ + signed_dec(m.width as int) + "×"@ + signed_dec(
        m.height as int,
    );
    let place = signed_dec(m.left as int) + ","@ + signed_dec(m.top as int);
    assert(size + " primary"@ =~= one.subrange(0, (size + " primary"@).len() as int));
    assert(size + " @ "@ =~= other.subrange(0, (size + " @ "@).len() as int));
    assert(one.skip(one.len() - place.len()) =~= place);
    assert(other.skip(other.len() - place.len()) =~= place);
}

/// What is told about a picture begins with the size of the screen, followed by the size of
/// the picture where that is not as wide.
pub proof fn a_scaled_picture_tells_both_sizes(c: Capture)
    ensures
        ({
            let src = "NAV  "@ + dec(c.src_w as nat) + "×"@ + dec(c.src_h as nat);
            let dst = "→"@ + dec(c.dst_w as nat) + "×"@ + dec(c.dst_h as nat);
            let touch = "  ·  touch = main screen"@;
            &&& src.is_prefix_of(c.caption())
            &&& c.caption().skip(c.caption().len() - touch.len()) == touch
            &&& c.dst_w == c.src_w ==> c.caption().len() == src.len() + touch.len()
            &&& c.dst_w != c.src_w ==> c.caption().len() == src.len() + dst.len() + touch.len()
                && (src + dst).is_prefix_of(c.caption())
        }),
{
    let s = c.caption();
    let src = "NAV  "@ + dec(c.src_w as nat) + "×"@ + dec(c.src_h as nat);
    let dst = "→"@ + dec(c.dst_w as nat) + "×"@ + dec(c.dst_h as nat);
    let touch = "  ·  touch = main screen"@;
    assert(src =~= s.subrange(0, src.len() as int));
    assert(s.skip(s.len() - touch.len()) =~= touch);
    if c.dst_w != c.src_w {
        assert(src + dst =~= s.subrange(0, (src + dst).len() as int));
    }
}

} // verus!
