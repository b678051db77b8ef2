//! The mirror of another screen: capturing it, showing it on the pad, and handing
//! touches on the picture to it as mouse input.
use crate::monitor::{MonInfo, MonModel};
use crate::text::{dec, decimal};
use vstd::prelude::*;
use vstd::string::*;

verus! {

/// How wide a picture is at most.
pub const MAX_WIDTH: u32 = 1920;

/// Set where the left mouse button goes down.
pub const MOUSEEVENTF_LEFTDOWN: u32 = 0x0002;

/// Set where the left mouse button goes up.
pub const MOUSEEVENTF_LEFTUP: u32 = 0x0004;

pub const WM_MOUSEMOVE: u32 = 0x0200;

pub const WM_LBUTTONDOWN: u32 = 0x0201;

pub const WM_LBUTTONUP: u32 = 0x0202;

/// Set while the left mouse button is down.
pub const MK_LBUTTON: usize = 0x0001;

/// A picture of a screen, and what to tell about it.
#[derive(Debug)]
pub struct Frame {
    pub width: u32,
    pub height: u32,
    pub bgra: Vec<u8>,
    pub status: String,
}

/// What a picture holds.
#[verifier::ext_equal]
pub struct FrameModel {
    pub width: u32,
    pub height: u32,
    pub bgra: Seq<u8>,
    pub status: Seq<char>,
}

impl View for Frame {
    type V = FrameModel;

    open spec fn view(&self) -> FrameModel {
        FrameModel {
            width: self.width,
            height: self.height,
            bgra: self.bgra@,
            status: self.status@,
        }
    }
}

impl FrameModel {
    /// Whether there are enough pixels to show.
    pub open spec fn full(self) -> bool {
        self.width > 0 && self.height > 0 && self.bgra.len() >= self.width * self.height * 4
    }
}

/// No picture, and nothing to tell.
pub open spec fn blank() -> FrameModel {
    FrameModel { width: 0, height: 0, bgra: Seq::empty(), status: Seq::empty() }
}

impl Default for Frame {
    fn default() -> (r: Frame)
        ensures
            r@ == blank(),
    {
        let r = Frame { width: 0, height: 0, bgra: Vec::new(), status: String::new() };
        assert(r@ =~= blank());
        r
    }
}

impl Clone for Frame {
    fn clone(&self) -> (r: Frame)
        ensures
            r@ == self@,
    {
        let mut bgra: Vec<u8> = Vec::new();
        bgra.extend_from_slice(self.bgra.as_slice());
        let r = Frame {
            width: self.width,
            height: self.height,
            bgra,
            status: self.status.clone(),
        };
        assert(r@ =~= self@);
        r
    }
}

impl Frame {
    /// Whether there are enough pixels to show.
    pub fn showable(&self) -> (r: bool)
        ensures
            r == self@.full(),
    {
        let w: u128 = self.width as u128;
        let h: u128 = self.height as u128;
        assert(w * h * 4 <= 0xffff_ffff * 0xffff_ffff * 4) by (nonlinear_arith)
            requires
                w <= 0xffff_ffff,
                h <= 0xffff_ffff,
        ;
        assert(0 <= w * h) by (nonlinear_arith);
        assert(w * h > 0 <==> w > 0 && h > 0) by (nonlinear_arith)
            requires
                w >= 0,
                h >= 0,
        ;
        let want: u128 = w * h * 4;
        want > 0 && self.bgra.len() as u128 >= want
    }
}

/// What the mouse does.
#[derive(Debug, Clone, Copy, PartialEq, Eq, Structural)]
pub enum MouseOp {
    Down,
    Move,
    Up,
}

/// What a pointer event of the window is to the mouse.
pub open spec fn mouse_op(kind: i32) -> MouseOp {
    if kind == 0 {
        MouseOp::Down
    } else if kind == 1 {
        MouseOp::Move
    } else {
        MouseOp::Up
    }
}

/// What there is to a mirror.
#[verifier::ext_equal]
pub struct MirrorModel {
    pub running: bool,
    pub frame: FrameModel,
    pub target: Option<MonModel>,
    pub max_w: u32,
}

/// The mirror of a screen.
pub struct NavMirror {
    pub running: bool,
    pub frame: Frame,
    pub target: Option<MonInfo>,
    pub max_w: u32,
}

impl View for NavMirror {
    type V = MirrorModel;

    open spec fn view(&self) -> MirrorModel {
        MirrorModel {
            running: self.running,
            frame: self.frame@,
            target: match self.target {
                Some(m) => Some(m@),
                None => None,
            },
            max_w: self.max_w,
        }
    }
}

impl MirrorModel {
    /// The far edges of the mirrored screen can be told.
    pub open spec fn wf(self) -> bool {
        self.target matches Some(m) ==> m.fits()
    }

    /// The mirror with something else to tell.
    pub open spec fn telling(self, status: Seq<char>) -> MirrorModel {
        MirrorModel { frame: FrameModel { status, ..self.frame }, ..self }
    }

    /// The mirror after it was to show a screen, which it does unless the pad is on it.
    pub open spec fn started(self, target: MonModel, pad: MonModel) -> MirrorModel {
        if target.covers_same(pad) {
            self
        } else {
            (MirrorModel { running: true, target: Some(target), ..self }).telling("capturing…"@)
        }
    }

    /// The mirror after it was turned off.
    pub open spec fn stopped(self) -> MirrorModel {
        (MirrorModel { running: false, ..self }).telling("idle"@)
    }

    /// The mirror after a capture came out like this.
    pub open spec fn captured(self, captured: Result<Frame, String>) -> MirrorModel {
        if !self.running || self.target is None {
            self
        } else {
            match captured {
                Ok(frame) => MirrorModel { frame: frame@, ..self },
                Err(why) => self.telling("capture failed: "@ + why@),
            }
        }
    }

    /// The width and height of the mirrored screen, where the mirror is on.
    pub open spec fn spanned(self) -> Option<(int, int)> {
        if self.running && self.target is Some {
            Some((at_least_one(self.target->0.width), at_least_one(self.target->0.height)))
        } else {
            None
        }
    }

    /// Where the mouse does what, for a pointer event so far from the corner of the
    /// mirrored screen.
    pub open spec fn pointed(self, dx: i32, dy: i32, kind: i32) -> Option<(i32, i32, MouseOp)> {
        if self.running && self.target is Some {
            Some(
                (
                    (self.target->0.left + dx) as i32,
                    (self.target->0.top + dy) as i32,
                    mouse_op(kind),
                ),
            )
        } else {
            None
        }
    }

    /// The middle of the mirrored screen, or of nothing.
    pub open spec fn middle(self) -> (int, int) {
        match self.target {
            Some(m) => (m.left + halved(m.width), m.top + halved(m.height)),
            None => (0, 0),
        }
    }
}

/// Half a length, cut off towards zero.
pub open spec fn halved(n: i32) -> int {
    if n >= 0 {
        n as int / 2
    } else {
        -((-n) / 2)
    }
}

fn half(n: i32) -> (r: i32)
    ensures
        r == halved(n),
{
    if n >= 0 {
        n / 2
    } else {
        let m = (-(n as i64)) / 2;
        (-m) as i32
    }
}

/// A length of at least one.
pub open spec fn at_least_one(n: i32) -> int {
    if n < 1 {
        1
    } else {
        n as int
    }
}

/// A mirror that was never on.
pub open spec fn idle_mirror() -> MirrorModel {
    MirrorModel {
        running: false,
        frame: FrameModel { status: "idle"@, ..blank() },
        target: None,
        max_w: MAX_WIDTH,
    }
}

impl NavMirror {
    /// A mirror that is off.
    pub fn new() -> (r: NavMirror)
        ensures
            r@.wf(),
            r@ == idle_mirror(),
    {
        let mut frame = Frame::default();
        frame.status = "idle".to_owned();
        let r = NavMirror { running: false, frame, target: None, max_w: MAX_WIDTH };
        assert(r@ =~= (MirrorModel {
            running: false,
            frame: FrameModel { status: "idle"@, ..blank() },
            target: None,
            max_w: MAX_WIDTH,
        }));
        r
    }

    /// Mirrors a screen, unless it is the one that the pad is on.
    pub fn start(&mut self, target: MonInfo, pad: &MonInfo) -> (r: Result<(), String>)
        requires
            old(self)@.wf(),
            target@.fits(),
        ensures
            final(self)@.wf(),
            final(self)@ == old(self)@.started(target@, pad@),
            r is Err == target@.covers_same(pad@),
            r matches Err(why) ==> why@ == "Nav monitor must be different from Pad monitor"@,
    {
        if target.same_screen(pad) {
            return Err("Nav monitor must be different from Pad monitor".to_owned());
        }
        self.target = Some(target);
        self.running = true;
        self.set_status("capturing…");
        Ok(())
    }

    /// Turns the mirror off. Returns where the mouse button is to be let go.
    pub fn stop(&mut self) -> (r: (i32, i32))
        requires
            old(self)@.wf(),
        ensures
            final(self)@.wf(),
            final(self)@ == old(self)@.stopped(),
            r.0 == old(self)@.middle().0,
            r.1 == old(self)@.middle().1,
    {
        self.running = false;
        let at = self.inject_mouse_up();
        self.set_status("idle");
        at
    }

    /// Tells something else.
    pub fn set_status(&mut self, s: &str)
        requires
            old(self)@.wf(),
        ensures
            final(self)@.wf(),
            final(self)@ == old(self)@.telling(s@),
    {
        self.frame.status = s.to_owned();
        assert(self@ =~= old(self)@.telling(s@));
    }

    /// The screen to capture, where the mirror is on.
    pub fn capture_target(&self) -> (r: Option<MonInfo>)
        ensures
            r is Some == (self@.running && self@.target is Some),
            r matches Some(m) ==> m@ == self@.target->0,
    {
        if !self.running {
            return None;
        }
        match &self.target {
            Some(m) => Some(m.clone()),
            None => None,
        }
    }

    /// A capture came out like this. A failed one leaves the last picture in place.
    pub fn capture_tick(&mut self, captured: Result<Frame, String>)
        requires
            old(self)@.wf(),
        ensures
            final(self)@.wf(),
            final(self)@ == old(self)@.captured(captured),
    {
        if !self.running || self.target.is_none() {
            return;
        }
        match captured {
            Ok(frame) => {
                self.frame = frame;
                assert(self@ =~= (MirrorModel { frame: frame@, ..old(self)@ }));
            },
            Err(why) => {
                let mut s = "capture failed: ".to_owned();
                s.append(why.as_str());
                self.set_status(s.as_str());
            },
        }
    }

    /// The last picture.
    pub fn take_frame(&self) -> (r: Frame)
        ensures
            r@ == self@.frame,
    {
        self.frame.clone()
    }

    /// The width and height of the mirrored screen, where the mirror is on; each is
    /// at least one.
    pub fn span(&self) -> (r: Option<(i32, i32)>)
        ensures
            r is Some == self@.spanned() is Some,
            r matches Some((w, h)) ==> self@.spanned() == Some((w as int, h as int)),
    {
        if !self.running {
            return None;
        }
        match &self.target {
            Some(m) => Some(
                (
                    if m.width < 1 {
                        1
                    } else {
                        m.width
                    },
                    if m.height < 1 {
                        1
                    } else {
                        m.height
                    },
                ),
            ),
            None => None,
        }
    }

    /// A pointer event on the picture, so many pixels from the corner of the mirrored
    /// screen. Returns where the mouse does what, where the mirror is on.
    pub fn pointer(&self, dx: i32, dy: i32, kind: i32) -> (r: Option<(i32, i32, MouseOp)>)
        requires
            self@.target matches Some(m) ==> i32::MIN <= m.left + dx <= i32::MAX && i32::MIN <= m.top
                + dy <= i32::MAX,
        ensures
            r == self@.pointed(dx, dy, kind),
    {
        if !self.running {
            return None;
        }
        match &self.target {
            Some(m) => {
                let op = if kind == 0 {
                    MouseOp::Down
                } else if kind == 1 {
                    MouseOp::Move
                } else {
                    MouseOp::Up
                };
                Some((m.left + dx, m.top + dy, op))
            },
            None => None,
        }
    }

    /// Where the mouse button is let go when the mirror goes off: in the middle of
    /// the mirrored screen.
    pub fn inject_mouse_up(&self) -> (r: (i32, i32))
        requires
            self@.wf(),
        ensures
            r.0 == self@.middle().0,
            r.1 == self@.middle().1,
    {
        match &self.target {
            Some(m) => (m.left + half(m.width), m.top + half(m.height)),
            None => (0, 0),
        }
    }
}

/// One step of handing an event to the mouse.
#[derive(Debug, Clone, Copy, PartialEq, Eq, Structural)]
pub enum MouseStep {
    /// Put the cursor there.
    Place(i32, i32),
    /// Send the system an event with this flag.
    Send(u32),
    /// Post the window below a message.
    Post(i32, i32, MouseOp),
}

/// The steps of handing an event to the mouse: the cursor is put in place first, a
/// button is pressed or let go, and the window below is told.
pub open spec fn mouse_steps(x: i32, y: i32, op: MouseOp) -> Seq<MouseStep> {
    match op {
        MouseOp::Move => seq![MouseStep::Place(x, y), MouseStep::Post(x, y, op)],
        MouseOp::Down => seq![
            MouseStep::Place(x, y),
            MouseStep::Send(MOUSEEVENTF_LEFTDOWN),
            MouseStep::Post(x, y, op),
        ],
        MouseOp::Up => seq![
            MouseStep::Place(x, y),
            MouseStep::Send(MOUSEEVENTF_LEFTUP),
            MouseStep::Post(x, y, op),
        ],
    }
}

/// The steps of handing an event to the mouse.
pub fn inject_mouse(x: i32, y: i32, op: MouseOp) -> (r: Vec<MouseStep>)
    ensures
        r@ == mouse_steps(x, y, op),
{
    let mut r: Vec<MouseStep> = Vec::new();
    r.push(MouseStep::Place(x, y));
    match op {
        MouseOp::Move => {},
        MouseOp::Down => {
            r.push(MouseStep::Send(MOUSEEVENTF_LEFTDOWN));
        },
        MouseOp::Up => {
            r.push(MouseStep::Send(MOUSEEVENTF_LEFTUP));
        },
    }
    r.push(MouseStep::Post(x, y, op));
    assert(r@ =~= mouse_steps(x, y, op));
    r
}

/// A message about the mouse.
#[derive(Debug, Clone, Copy, PartialEq, Eq, Structural)]
pub struct MouseMessage {
    pub msg: u32,
    pub wparam: usize,
    pub lparam: u32,
}

/// A point in one number: its low sixteen bits each, the height above the width.
pub open spec fn packed(x: i32, y: i32) -> int {
    (y as int % 0x10000) * 0x10000 + x as int % 0x10000
}

/// A message about the mouse.
pub open spec fn mouse_message(x: i32, y: i32, op: MouseOp) -> MouseMessage {
    let lparam = packed(x, y) as u32;
    match op {
        MouseOp::Down => MouseMessage { msg: WM_LBUTTONDOWN, wparam: MK_LBUTTON, lparam },
        MouseOp::Up => MouseMessage { msg: WM_LBUTTONUP, wparam: 0, lparam },
        MouseOp::Move => MouseMessage { msg: WM_MOUSEMOVE, wparam: MK_LBUTTON, lparam },
    }
}

fn low16(v: i32) -> (r: u32)
    ensures
        r == v as int % 0x10000,
{
    let r: i64 = (v as i64 + 0x8000_0000) % 0x10000;
    r as u32
}

/// The message that tells a window about the mouse at a point of its own.
pub fn post_mouse(x: i32, y: i32, op: MouseOp) -> (r: MouseMessage)
    ensures
        r == mouse_message(x, y, op),
{
    let lparam: u32 = low16(y) * 0x10000 + low16(x);
    match op {
        MouseOp::Down => MouseMessage { msg: WM_LBUTTONDOWN, wparam: MK_LBUTTON, lparam },
        MouseOp::Up => MouseMessage { msg: WM_LBUTTONUP, wparam: 0, lparam },
        MouseOp::Move => MouseMessage { msg: WM_MOUSEMOVE, wparam: MK_LBUTTON, lparam },
    }
}

/// Points within sixteen bits are told apart by the message.
pub proof fn small_points_are_told_apart(x1: i32, y1: i32, x2: i32, y2: i32)
    requires
        -0x8000 <= x1 < 0x8000,
        -0x8000 <= y1 < 0x8000,
        -0x8000 <= x2 < 0x8000,
        -0x8000 <= y2 < 0x8000,
        packed(x1, y1) == packed(x2, y2),
    ensures
        x1 == x2,
        y1 == y2,
{
}

/// Where a capture stands.
#[derive(Debug, Clone, Copy, PartialEq, Eq, Structural)]
pub enum Phase {
    Begun,
    GetScreen,
    CreateDc,
    CreateBitmap,
    Select,
    Copy,
    Read,
    Unselect,
    DeleteBitmap,
    DeleteDc,
    ReleaseScreen,
    Finished,
}

/// What a capture holds on to.
pub enum Handle {
    Screen,
    Dc,
    Bitmap,
    Selection,
}

impl Phase {
    /// What comes next, after the work of this phase succeeded or failed.
    pub open spec fn after(self, ok: bool) -> Phase {
        match self {
            Phase::Begun => Phase::GetScreen,
            Phase::GetScreen => if ok {
                Phase::CreateDc
            } else {
                Phase::Finished
            },
            Phase::CreateDc => if ok {
                Phase::CreateBitmap
            } else {
                Phase::ReleaseScreen
            },
            Phase::CreateBitmap => if ok {
                Phase::Select
            } else {
                Phase::DeleteDc
            },
            Phase::Select => Phase::Copy,
            Phase::Copy => if ok {
                Phase::Read
            } else {
                Phase::Unselect
            },
            Phase::Read => Phase::Unselect,
            Phase::Unselect => Phase::DeleteBitmap,
            Phase::DeleteBitmap => Phase::DeleteDc,
            Phase::DeleteDc => Phase::ReleaseScreen,
            Phase::ReleaseScreen | Phase::Finished => Phase::Finished,
        }
    }

    /// Why a capture fails whose work in this phase failed.
    pub open spec fn complaint(self) -> Option<Seq<char>> {
        match self {
            Phase::GetScreen => Some("GetDC failed"@),
            Phase::CreateDc => Some("CreateCompatibleDC failed"@),
            Phase::CreateBitmap => Some("CreateCompatibleBitmap failed"@),
            Phase::Copy => Some("BitBlt/StretchBlt failed"@),
            Phase::Read => Some("GetDIBits failed"@),
            _ => None,
        }
    }

    /// What is held on to while the work of this phase begins.
    pub open spec fn held(self) -> Seq<Handle> {
        match self {
            Phase::Begun | Phase::GetScreen | Phase::Finished => seq![],
            Phase::CreateDc | Phase::ReleaseScreen => seq![Handle::Screen],
            Phase::CreateBitmap | Phase::DeleteDc => seq![Handle::Screen, Handle::Dc],
            Phase::Select | Phase::DeleteBitmap => seq![
                Handle::Screen,
                Handle::Dc,
                Handle::Bitmap,
            ],
            Phase::Copy | Phase::Read | Phase::Unselect => seq![
                Handle::Screen,
                Handle::Dc,
                Handle::Bitmap,
                Handle::Selection,
            ],
        }
    }

    /// What the work of this phase takes hold of.
    pub open spec fn takes(self) -> Option<Handle> {
        match self {
            Phase::GetScreen => Some(Handle::Screen),
            Phase::CreateDc => Some(Handle::Dc),
            Phase::CreateBitmap => Some(Handle::Bitmap),
            Phase::Select => Some(Handle::Selection),
            _ => None,
        }
    }

    /// What the work of this phase lets go of.
    pub open spec fn drops(self) -> Option<Handle> {
        match self {
            Phase::Unselect => Some(Handle::Selection),
            Phase::DeleteBitmap => Some(Handle::Bitmap),
            Phase::DeleteDc => Some(Handle::Dc),
            Phase::ReleaseScreen => Some(Handle::Screen),
            _ => None,
        }
    }

    /// How many phases are left at most.
    pub open spec fn left(self) -> int {
        match self {
            Phase::Begun => 11,
            Phase::GetScreen => 10,
            Phase::CreateDc => 9,
            Phase::CreateBitmap => 8,
            Phase::Select => 7,
            Phase::Copy => 6,
            Phase::Read => 5,
            Phase::Unselect => 4,
            Phase::DeleteBitmap => 3,
            Phase::DeleteDc => 2,
            Phase::ReleaseScreen => 1,
            Phase::Finished => 0,
        }
    }
}

/// A capture gives back everything it took, in the reverse order and once each: a
/// phase lets go only of what was taken last, a failed phase has taken nothing, and
/// a finished capture holds on to nothing. It is finished after eleven phases at most.
pub proof fn a_capture_gives_back_what_it_took(p: Phase, ok: bool)
    ensures
        p.drops() matches Some(h) ==> p.held().len() > 0 && p.held().last() == h && p.after(
            ok,
        ).held() == p.held().drop_last(),
        p.takes() is Some && (ok || p == Phase::Select) ==> p.after(ok).held() == p.held().push(
            p.takes()->0,
        ),
        p.takes() is Some && !ok && p != Phase::Select ==> p.after(ok).held() == p.held(),
        p.takes() is None && p.drops() is None ==> p.after(ok).held() == p.held(),
        p == Phase::Finished ==> p.held().len() == 0,
        p != Phase::Finished ==> p.after(ok).left() < p.left(),
        p.left() == 0 ==> p == Phase::Finished,
{
    assert(p.drops() is Some ==> p.after(ok).held() =~= p.held().drop_last());
    assert(p.takes() is Some && (ok || p == Phase::Select) ==> p.after(ok).held() =~= p.held().push(
        p.takes()->0,
    ));
}

/// The longest length that scaling keeps exactly, and by which it brings a wider screen
/// down to exactly the width that is asked for.
pub const EXACT_LENGTH: u32 = 0x0010_0000;

/// The size of the picture of a screen that is at most `max_w` wide, at least one by one.
pub open spec fn picture_size(src_w: u32, src_h: u32, max_w: u32, scaled: (u32, u32)) -> (u32, u32) {
    let exact = src_w <= EXACT_LENGTH && src_h <= EXACT_LENGTH && max_w <= EXACT_LENGTH;
    let (w, h) = if !exact {
        scaled
    } else if src_w <= max_w {
        (src_w, src_h)
    } else {
        (max_w, scaled.1)
    };
    (
        if w < 1 {
            1
        } else {
            w
        },
        if h < 1 {
            1
        } else {
            h
        },
    )
}

/// A picture is never empty, never wider than asked for and never larger than its
/// screen's own width; a screen that is no wider than asked for keeps its size, and a
/// wider one gets exactly the width that is asked for.
pub proof fn a_picture_is_never_scaled_up(src_w: u32, src_h: u32, max_w: u32, scaled: (u32, u32))
    requires
        1 <= src_w <= EXACT_LENGTH,
        1 <= src_h <= EXACT_LENGTH,
        1 <= max_w <= EXACT_LENGTH,
    ensures
        ({
            let (w, h) = picture_size(src_w, src_h, max_w, scaled);
            &&& 1 <= w <= max_w
            &&& w <= src_w
            &&& h >= 1
            &&& src_w <= max_w ==> w == src_w && h == src_h
            &&& src_w > max_w ==> w == max_w
        }),
{
}

/// A capture of a screen.
pub struct Capture {
    pub src_w: u32,
    pub src_h: u32,
    pub dst_w: u32,
    pub dst_h: u32,
    pub phase: Phase,
    pub failure: Option<&'static str>,
}

impl Capture {
    /// A capture that fails has a reason among the phases' complaints.
    pub open spec fn why(self) -> Option<Seq<char>> {
        match self.failure {
            Some(s) => Some(s@),
            None => None,
        }
    }

    /// Begins the capture of a screen, at most `max_w` wide: a screen that is no wider is
    /// captured in its own size, a wider one is brought down to that width. `scaled` is
    /// what scaling the two lengths by the share of the width that is kept comes to. It
    /// gives the height of a wider screen's picture, and everything where a length is too
    /// long for scaling to keep it exactly.
    pub fn new(mon: &MonInfo, max_w: u32, scaled: (u32, u32)) -> (r: Capture)
        ensures
            r.src_w == at_least_one(mon@.width),
            r.src_h == at_least_one(mon@.height),
            (r.dst_w, r.dst_h) == picture_size(r.src_w, r.src_h, max_w, scaled),
            r.phase == Phase::Begun,
            r.failure is None,
    {
        let src_w: u32 = if mon.width < 1 {
            1
        } else {
            mon.width as u32
        };
        let src_h: u32 = if mon.height < 1 {
            1
        } else {
            mon.height as u32
        };
        let exact = src_w <= EXACT_LENGTH && src_h <= EXACT_LENGTH && max_w <= EXACT_LENGTH;
        let (w, h): (u32, u32) = if !exact {
            scaled
        } else if src_w <= max_w {
            (src_w, src_h)
        } else {
            (max_w, scaled.1)
        };
        Capture {
            src_w,
            src_h,
            dst_w: if w < 1 {
                1
            } else {
                w
            },
            dst_h: if h < 1 {
                1
            } else {
                h
            },
            phase: Phase::Begun,
            failure: None,
        }
    }

    /// Whether the picture is as large as the screen, so that it is copied as it is.
    pub fn unscaled(&self) -> (r: bool)
        ensures
            r == (self.dst_w == self.src_w && self.dst_h == self.src_h),
    {
        self.dst_w == self.src_w && self.dst_h == self.src_h
    }

    /// How many bytes the picture takes.
    pub fn size(&self) -> (r: usize)
        requires
            self.dst_w * self.dst_h * 4 <= u32::MAX,
        ensures
            r == self.dst_w * self.dst_h * 4,
    {
        assert(self.dst_w * self.dst_h <= self.dst_w * self.dst_h * 4) by (nonlinear_arith);
        let n: u32 = self.dst_w * self.dst_h * 4;
        n as usize
    }

    /// What is told about a picture.
    pub open spec fn caption(self) -> Seq<char> {
        let src = "NAV  "@ + dec(self.src_w as nat) + "×"@ + dec(self.src_h as nat);
        if self.dst_w == self.src_w {
            src + "  ·  touch = main screen"@
        } else {
            src + "→"@ + dec(self.dst_w as nat) + "×"@ + dec(self.dst_h as nat)
                + "  ·  touch = main screen"@
        }
    }

    /// The picture of a capture that is finished, where it did not fail: four bytes for
    /// each pixel.
    pub fn finish(self, bgra: Vec<u8>) -> (r: Result<Frame, String>)
        requires
            self.phase == Phase::Finished,
            self.why() is None ==> bgra@.len() == self.dst_w * self.dst_h * 4,
        ensures
            match self.why() {
                Some(why) => r matches Err(e) && e@ == why,
                None => r matches Ok(f) && f@ == (FrameModel {
                    width: self.dst_w,
                    height: self.dst_h,
                    bgra: bgra@,
                    status: self.caption(),
                }) && f.bgra@.len() == f.width * f.height * 4,
            },
    {
        match self.failure {
            Some(why) => Err(why.to_owned()),
            None => {
                let mut status = "NAV  ".to_owned();
                status.append(decimal(self.src_w as u128).as_str());
                status.append("×");
                status.append(decimal(self.src_h as u128).as_str());
                if self.dst_w != self.src_w {
                    status.append("→");
                    status.append(decimal(self.dst_w as u128).as_str());
                    status.append("×");
                    status.append(decimal(self.dst_h as u128).as_str());
                }
                status.append("  ·  touch = main screen");
                let f = Frame { width: self.dst_w, height: self.dst_h, bgra, status };
                assert(f@ =~= (FrameModel {
                    width: self.dst_w,
                    height: self.dst_h,
                    bgra: bgra@,
                    status: self.caption(),
                }));
                Ok(f)
            },
        }
    }
}

/// What the end of a phase's work does to a capture.
pub open spec fn stepped(c: Capture, after: Capture, ok: bool, r: Phase) -> bool {
    &&& r == c.phase.after(ok)
    &&& after == (Capture { phase: r, failure: after.failure, ..c })
    &&& after.why() == (if !ok && c.phase.complaint() is Some {
        c.phase.complaint()
    } else {
        c.why()
    })
}

/// The work of a capture's current phase succeeded or failed: goes on to the next. The
/// first failure is the reason.
pub fn capture_monitor(c: &mut Capture, ok: bool) -> (r: Phase)
    ensures
        stepped(*old(c), *final(c), ok, r),
{
    let (next, complaint): (Phase, Option<&'static str>) = match c.phase {
        Phase::Begun => (Phase::GetScreen, None),
        Phase::GetScreen => if ok {
            (Phase::CreateDc, None)
        } else {
            (Phase::Finished, Some("GetDC failed"))
        },
        Phase::CreateDc => if ok {
            (Phase::CreateBitmap, None)
        } else {
            (Phase::ReleaseScreen, Some("CreateCompatibleDC failed"))
        },
        Phase::CreateBitmap => if ok {
            (Phase::Select, None)
        } else {
            (Phase::DeleteDc, Some("CreateCompatibleBitmap failed"))
        },
        Phase::Select => (Phase::Copy, None),
        Phase::Copy => if ok {
            (Phase::Read, None)
        } else {
            (Phase::Unselect, Some("BitBlt/StretchBlt failed"))
        },
        Phase::Read => if ok {
            (Phase::Unselect, None)
        } else {
            (Phase::Unselect, Some("GetDIBits failed"))
        },
        Phase::Unselect => (Phase::DeleteBitmap, None),
        Phase::DeleteBitmap => (Phase::DeleteDc, None),
        Phase::DeleteDc => (Phase::ReleaseScreen, None),
        Phase::ReleaseScreen | Phase::Finished => (Phase::Finished, None),
    };
    c.phase = next;
    if complaint.is_some() {
        c.failure = complaint;
    }
    next
}

/// Where a capture stands after its work had these outcomes.
pub open spec fn phase_after(outcomes: Seq<bool>) -> Phase
    decreases outcomes.len(),
{
    if outcomes.len() == 0 {
        Phase::Begun
    } else {
        phase_after(outcomes.drop_last()).after(outcomes.last())
    }
}

/// Why a capture fails after its work had these outcomes.
pub open spec fn complaint_after(outcomes: Seq<bool>) -> Option<Seq<char>>
    decreases outcomes.len(),
{
    if outcomes.len() == 0 {
        None
    } else {
        let phase = phase_after(outcomes.drop_last());
        if !outcomes.last() && phase.complaint() is Some {
            phase.complaint()
        } else {
            complaint_after(outcomes.drop_last())
        }
    }
}

/// A picture was read: a capture that is finished without a reason to fail came to
/// reading the picture, and that succeeded.
pub proof fn a_capture_without_a_complaint_read_its_picture(outcomes: Seq<bool>)
    requires
        phase_after(outcomes) == Phase::Finished,
        complaint_after(outcomes) is None,
    ensures
        exists|k: int|
            0 <= k < outcomes.len() && #[trigger] outcomes[k] && phase_after(outcomes.take(k))
                == Phase::Read,
{
    lemma_read(outcomes);
}

proof fn lemma_read(outcomes: Seq<bool>)
    requires
        complaint_after(outcomes) is None,
        phase_after(outcomes).left() <= Phase::Unselect.left(),
    ensures
        exists|k: int|
            0 <= k < outcomes.len() && #[trigger] outcomes[k] && phase_after(outcomes.take(k))
                == Phase::Read,
    decreases outcomes.len(),
{
    if outcomes.len() > 0 {
        let before = outcomes.drop_last();
        let n = outcomes.len() - 1;
        assert(outcomes.take(n) =~= before);
        if phase_after(before) == Phase::Read {
            assert(outcomes[n]);
        } else {
            lemma_read(before);
            let k = choose|k: int|
                0 <= k < before.len() && #[trigger] before[k] && phase_after(before.take(k))
                    == Phase::Read;
            assert(before.take(k) =~= outcomes.take(k));
            assert(outcomes[k]);
        }
    }
}

/// Pixels with red and blue exchanged and no transparency; a last pixel that is not
/// complete is left out.
pub open spec fn rgba(bgra: Seq<u8>) -> Seq<u8> {
    Seq::new(
        bgra.len() / 4 * 4,
        |i: int|
            if i % 4 == 0 {
                bgra[i + 2]
            } else if i % 4 == 1 {
                bgra[i]
            } else if i % 4 == 2 {
                bgra[i - 2]
            } else {
                255u8
            },
    )
}

/// Exchanges red and blue and takes away any transparency.
pub fn bgra_to_rgba(bgra: &[u8]) -> (r: Vec<u8>)
    ensures
        r@ == rgba(bgra@),
{
    let mut r: Vec<u8> = Vec::new();
    let mut i: usize = 0;
    while bgra.len() - i >= 4
        invariant
            i <= bgra@.len(),
            i % 4 == 0,
            r@.len() == i,
            forall|j: int| 0 <= j < i ==> #[trigger] r@[j] == rgba(bgra@)[j],
        decreases bgra@.len() - i,
    {
        r.push(bgra[i + 2]);
        r.push(bgra[i + 1]);
        r.push(bgra[i]);
        r.push(255);
        i = i + 4;
    }
    assert(r@ =~= rgba(bgra@));
    r
}

/// Exchanging red and blue twice restores the colours of a picture.
pub proof fn colours_come_back(bgra: Seq<u8>, i: int)
    requires
        bgra.len() % 4 == 0,
        0 <= i < bgra.len(),
    ensures
        rgba(bgra).len() == bgra.len(),
        rgba(rgba(bgra))[i] == (if i % 4 == 3 {
            255
        } else {
            bgra[i]
        }),
{
}

} // verus!
