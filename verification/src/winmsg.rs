//! The window's messages: which of them concern the pad, and what each asks for.
use crate::bridge::{drifts, Bridge};
use crate::touchbridge::{PadModel, PinRect, MAX_CONTACTS};
use vstd::prelude::*;

verus! {

pub const WM_MOUSEACTIVATE: u32 = 0x0021;

pub const WM_WINDOWPOSCHANGING: u32 = 0x0046;

pub const WM_DISPLAYCHANGE: u32 = 0x007e;

pub const WM_NCDESTROY: u32 = 0x0082;

pub const WM_TOUCH: u32 = 0x0240;

pub const WM_POINTERUPDATE: u32 = 0x0245;

pub const WM_POINTERDOWN: u32 = 0x0246;

pub const WM_POINTERUP: u32 = 0x0247;

pub const WM_POINTERLEAVE: u32 = 0x024a;

pub const WM_POINTERACTIVATE: u32 = 0x024b;

pub const WM_POINTERCAPTURECHANGED: u32 = 0x024c;

/// Set while a pointer touches the screen.
pub const POINTER_FLAG_INCONTACT: u32 = 0x0000_0004;

/// Set where the system gave up on a pointer.
pub const POINTER_FLAG_CANCELED: u32 = 0x0000_8000;

/// The kind of a pointer that is a finger.
pub const PT_TOUCH: i32 = 2;

/// The kind of a pointer that is a pen.
pub const PT_PEN: i32 = 3;

/// Set where a window keeps its size.
pub const SWP_NOSIZE: u32 = 0x0001;

/// Set where a window keeps its place.
pub const SWP_NOMOVE: u32 = 0x0002;

/// Set where a touch ends.
pub const TOUCHEVENTF_UP: u32 = 0x0004;

/// What a message asks for.
#[derive(Debug, Clone, Copy, PartialEq, Eq, Structural)]
pub enum Message {
    /// It does not concern the pad.
    Pass,
    /// The window is going away.
    Destroyed,
    /// The window is not to be activated.
    StayInactive,
    /// The desktop was rearranged.
    DisplaysChanged,
    /// The window is about to move or resize.
    Moving,
    /// A contact is gone without saying where.
    CaptureLost(u32),
    /// A contact was seen as a pointer.
    Pointer(u32),
    /// Contacts were seen as touches, so many of them at most.
    Touches(usize),
}

/// The low sixteen bits of a parameter.
pub open spec fn low_word(wparam: usize) -> int {
    wparam as int % 0x10000
}

fn low(wparam: usize) -> (r: usize)
    ensures
        r == low_word(wparam),
{
    assert(wparam & 0xffff == wparam % 0x10000) by (bit_vector);
    wparam & 0xffff
}

/// How many touches are taken from one message.
pub open spec fn touch_count(wparam: usize) -> int {
    if low_word(wparam) < MAX_CONTACTS {
        low_word(wparam)
    } else {
        MAX_CONTACTS as int
    }
}

/// Whether a message is about a pointer on the pad.
pub open spec fn about_pointer(msg: u32) -> bool {
    msg == WM_POINTERDOWN || msg == WM_POINTERUPDATE || msg == WM_POINTERUP || msg
        == WM_POINTERLEAVE
}

/// What a message asks for, of a window that is hooked or not, and the pad's or not.
pub open spec fn meaning(hooked: bool, mine: bool, msg: u32, wparam: usize) -> Message {
    if !hooked {
        Message::Pass
    } else if msg == WM_NCDESTROY {
        Message::Destroyed
    } else if msg == WM_DISPLAYCHANGE {
        Message::DisplaysChanged
    } else if !mine {
        Message::Pass
    } else if msg == WM_POINTERACTIVATE || msg == WM_MOUSEACTIVATE {
        Message::StayInactive
    } else if msg == WM_WINDOWPOSCHANGING {
        Message::Moving
    } else if msg == WM_POINTERCAPTURECHANGED {
        Message::CaptureLost(low_word(wparam) as u32)
    } else if about_pointer(msg) {
        Message::Pointer(low_word(wparam) as u32)
    } else if msg == WM_TOUCH && touch_count(wparam) > 0 {
        Message::Touches(touch_count(wparam) as usize)
    } else {
        Message::Pass
    }
}

/// What a message asks for.
pub fn subclass_proc(hooked: bool, mine: bool, msg: u32, wparam: usize) -> (r: Message)
    ensures
        r == meaning(hooked, mine, msg, wparam),
{
    if !hooked {
        return Message::Pass;
    }
    if msg == WM_NCDESTROY {
        return Message::Destroyed;
    }
    if (msg == WM_POINTERACTIVATE || msg == WM_MOUSEACTIVATE) && mine {
        return Message::StayInactive;
    }
    if msg == WM_DISPLAYCHANGE {
        return Message::DisplaysChanged;
    }
    if !mine {
        return Message::Pass;
    }
    if msg == WM_WINDOWPOSCHANGING {
        return Message::Moving;
    }
    if msg == WM_POINTERCAPTURECHANGED {
        return Message::CaptureLost(low(wparam) as u32);
    }
    if msg == WM_TOUCH {
        let reported: usize = low(wparam);
        let count: usize = if reported < MAX_CONTACTS {
            reported
        } else {
            MAX_CONTACTS
        };
        return if count == 0 {
            Message::Pass
        } else {
            Message::Touches(count)
        };
    }
    if msg == WM_POINTERDOWN || msg == WM_POINTERUPDATE || msg == WM_POINTERUP || msg
        == WM_POINTERLEAVE {
        Message::Pointer(low(wparam) as u32)
    } else {
        Message::Pass
    }
}

/// What the system says of a pointer.
#[derive(Debug, Clone, Copy, PartialEq, Eq, Structural)]
pub struct PointerInfo {
    pub kind: i32,
    pub flags: u32,
}

impl PointerInfo {
    /// Whether the pointer is a finger or a pen.
    pub open spec fn touches(self) -> bool {
        self.kind == PT_TOUCH || self.kind == PT_PEN
    }

    /// Whether the pointer is on the screen.
    pub open spec fn down(self) -> bool {
        self.flags & POINTER_FLAG_INCONTACT != 0 && self.flags & POINTER_FLAG_CANCELED == 0
    }
}

/// Whether a message ends a contact in any case.
pub open spec fn releases(msg: u32) -> bool {
    msg == WM_POINTERUP || msg == WM_POINTERLEAVE
}

/// What is done about a pointer message.
#[derive(Debug, Clone, Copy, PartialEq, Eq, Structural)]
pub enum PointerStep {
    /// Nothing; the message is passed on.
    Pass,
    /// The contact is lifted where it was.
    Release,
    /// The contact is seen, or lifted, where the message says.
    Track(bool),
}

/// What is done about a pointer message.
pub open spec fn pointer_step(msg: u32, info: Option<PointerInfo>, window: bool) -> PointerStep {
    if info is Some && info->0.touches() && window {
        PointerStep::Track(!releases(msg) && info->0.down())
    } else if releases(msg) {
        PointerStep::Release
    } else {
        PointerStep::Pass
    }
}

/// What is done about a pointer message: a contact that cannot be looked up, or is
/// no finger, or has no window any more, can only be lifted.
pub fn handle_pointer(msg: u32, info: Option<PointerInfo>, window: bool) -> (r: PointerStep)
    ensures
        r == pointer_step(msg, info, window),
{
    let releasing = msg == WM_POINTERUP || msg == WM_POINTERLEAVE;
    match info {
        Some(p) => {
            if window && (p.kind == PT_TOUCH || p.kind == PT_PEN) {
                let up = releasing || p.flags & POINTER_FLAG_CANCELED != 0 || p.flags
                    & POINTER_FLAG_INCONTACT == 0;
                return PointerStep::Track(!up);
            }
        },
        None => {},
    }
    if releasing {
        PointerStep::Release
    } else {
        PointerStep::Pass
    }
}

/// Whether a pointer is still on the screen.
pub open spec fn still_down(info: Option<PointerInfo>) -> bool {
    info matches Some(p) && p.down()
}

/// Whether a pointer is still on the screen; one that cannot be looked up is not.
pub fn pointer_still_down(info: Option<PointerInfo>) -> (r: bool)
    ensures
        r == still_down(info),
{
    match info {
        Some(p) => p.flags & POINTER_FLAG_INCONTACT != 0 && p.flags & POINTER_FLAG_CANCELED == 0,
        None => false,
    }
}

/// One touch of a message: its contact, where it is in hundredths of a pixel, and
/// what happens to it.
#[derive(Debug, Clone, Copy, PartialEq, Eq, Structural)]
pub struct TouchInput {
    pub id: u32,
    pub x: i32,
    pub y: i32,
    pub flags: u32,
}

/// Whole pixels, cut off towards zero.
pub open spec fn pixels(v: i32) -> int {
    if v >= 0 {
        v as int / 100
    } else {
        -((-v) / 100)
    }
}

fn whole(v: i32) -> (r: i32)
    ensures
        r == pixels(v),
{
    if v >= 0 {
        v / 100
    } else {
        let m = (-(v as i64)) / 100;
        (-m) as i32
    }
}

impl TouchInput {
    /// The pixel that the touch is on.
    pub open spec fn at(self) -> (int, int) {
        (pixels(self.x), pixels(self.y))
    }

    /// Whether the touch is on the screen.
    pub open spec fn stays(self) -> bool {
        self.flags & TOUCHEVENTF_UP == 0
    }
}

/// The pixel that a touch is on, and whether it is on the screen.
pub fn handle_touch(t: &TouchInput) -> (r: (i32, i32, bool))
    ensures
        r.0 == t.at().0,
        r.1 == t.at().1,
        r.2 == t.stays(),
{
    (whole(t.x), whole(t.y), t.flags & TOUCHEVENTF_UP == 0)
}

/// Where the window is about to go.
#[derive(Debug, Clone, Copy, PartialEq, Eq, Structural)]
pub struct WindowPos {
    pub x: i32,
    pub y: i32,
    pub cx: i32,
    pub cy: i32,
    pub flags: u32,
}

impl WindowPos {
    /// Whether the window would leave the place it is pinned to.
    pub open spec fn leaves(self, pinned: Option<PinRect>) -> bool {
        pinned matches Some(p) && drifts(
            p,
            self.flags & SWP_NOMOVE == 0,
            self.flags & SWP_NOSIZE == 0,
            self.x,
            self.y,
            self.cx,
            self.cy,
        )
    }
}

/// What holding a pinned window in its place does to the pad and to where it goes.
pub open spec fn kept(
    m: PadModel,
    after: PadModel,
    pos: WindowPos,
    pos_after: WindowPos,
    r: Option<u64>,
) -> bool {
    if pos.leaves(m.pinned) {
        let p = m.pinned->0;
        &&& r == Some((m.vetoed + 1) as u64)
        &&& after == (PadModel { vetoed: (m.vetoed + 1) as u64, ..m })
        &&& pos_after == (WindowPos {
            x: p.left,
            y: p.top,
            cx: p.width,
            cy: p.height,
            flags: pos.flags & !(SWP_NOMOVE | SWP_NOSIZE),
        })
        &&& !pos_after.leaves(after.pinned)
    } else {
        &&& r is None
        &&& after == m
        &&& pos_after == pos
    }
}

impl Bridge {
    /// Holds a pinned window in its place, and makes sure that it goes there. Returns
    /// how often that happened so far, where it did.
    pub fn hold_window(&mut self, pos: &mut WindowPos) -> (r: Option<u64>)
        requires
            old(self)@.wf(),
            old(pos).leaves(old(self)@.pinned) ==> old(self)@.vetoed < u64::MAX,
        ensures
            final(self)@.wf(),
            kept(old(self)@, final(self)@, *old(pos), *final(pos), r),
    {
        let moving = pos.flags & SWP_NOMOVE == 0;
        let sizing = pos.flags & SWP_NOSIZE == 0;
        if !moving && !sizing {
            return None;
        }
        let mut x: i32 = pos.x;
        let mut y: i32 = pos.y;
        let mut cx: i32 = pos.cx;
        let mut cy: i32 = pos.cy;
        let vetoed = self.hold_position(moving, sizing, &mut x, &mut y, &mut cx, &mut cy);
        if vetoed.is_some() {
            let flags: u32 = pos.flags & !(SWP_NOMOVE | SWP_NOSIZE);
            *pos = WindowPos { x, y, cx, cy, flags };
        }
        vetoed
    }
}

/// Whether the so-manieth veto is worth a warning.
pub open spec fn veto_is_news(n: u64) -> bool {
    n == 1 || n % 25 == 0
}

/// Whether the so-manieth veto is worth a warning.
pub fn veto_warns(n: u64) -> (r: bool)
    ensures
        r == veto_is_news(n),
{
    n == 1 || n % 25 == 0
}

/// Whether to say that contacts come in: only the first time this is asked.
pub fn announce_once(announced: &mut bool) -> (r: bool)
    ensures
        r == !*old(announced),
        *final(announced),
{
    let first = !*announced;
    *announced = true;
    first
}

/// A message of a window that is not the pad's is passed on, unless it says that
/// the window is going away or that the desktop was rearranged.
pub proof fn foreign_windows_are_left_alone(msg: u32, wparam: usize)
    requires
        msg != WM_NCDESTROY,
        msg != WM_DISPLAYCHANGE,
    ensures
        meaning(true, false, msg, wparam) == Message::Pass,
{
}

} // verus!
