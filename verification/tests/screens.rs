//! The screens, the mirror, the window's messages and what ties them together.
use pchordpad::bridge::Bridge;
use pchordpad::config::Config;
use pchordpad::faders::{FaderCfg, Zone};
use pchordpad::monitor::{
    by_index, default_nav_index, default_pad_index, enumerate, labels, resolve_index, set_flipped,
    FlipAction, FlipEvent, MonInfo, DMDO_180, DMDO_DEFAULT,
};
use pchordpad::navmirror::{
    bgra_to_rgba, capture_monitor, inject_mouse, post_mouse, Capture, Frame, MouseMessage, MouseOp,
    MouseStep, NavMirror, Phase,
};
use pchordpad::runtime::{
    button_name, can_float, make_windowed, nav_toggled, pin, refresh_diagnostics, repin_if_needed, retarget,
    screen_number, set_if_changed, settings_changed, stall_detail, Hooking, LinkNews, Orientation,
    Ticker, WindowChange, INSTALL_PATIENCE, TICK_LATE,
};
use pchordpad::single::Single;
use pchordpad::touchbridge::{KeyGeom, PinRect};
use pchordpad::utf16::{title_matches, widestr_to_string};
use pchordpad::winmsg::{
    announce_once, handle_pointer, handle_touch, pointer_still_down, subclass_proc, veto_warns,
    Message, PointerInfo, PointerStep, TouchInput, WindowPos, POINTER_FLAG_CANCELED,
    POINTER_FLAG_INCONTACT, PT_PEN, PT_TOUCH, SWP_NOMOVE, SWP_NOSIZE, TOUCHEVENTF_UP,
    WM_DISPLAYCHANGE, WM_MOUSEACTIVATE, WM_NCDESTROY, WM_POINTERACTIVATE,
    WM_POINTERCAPTURECHANGED, WM_POINTERDOWN, WM_POINTERLEAVE, WM_POINTERUP, WM_POINTERUPDATE,
    WM_TOUCH, WM_WINDOWPOSCHANGING,
};

fn s(v: f32) -> Single {
    Single::from_bits(v.to_bits())
}

fn screen(left: i32, top: i32, w: i32, h: i32, primary: bool, device: &str) -> MonInfo {
    MonInfo::between(left, top, left + w, top + h, primary, device.to_string())
}

fn two_screens() -> Vec<MonInfo> {
    enumerate(&vec![
        screen(0, 0, 2560, 1440, true, "D1"),
        screen(-1920, 100, 1920, 1080, false, "D2"),
    ])
}

#[test]
fn screens_are_numbered_and_labelled() {
    let all = two_screens();
    assert_eq!(all[0].index, 0);
    assert_eq!(all[1].index, 1);
    assert_eq!(
        labels(&all),
        vec!["0: 2560×1440 primary @ 0,0", "1: 1920×1080 @ -1920,100"]
    );
    assert_eq!(all[1].to_text(), "1: 1920×1080 @ -1920,100");
    assert_eq!(by_index(&all, 1), Some(all[1].clone()));
    assert_eq!(by_index(&all, 2), None);
    assert!(all[0].same_screen(&all[0].clone()));
    assert!(!all[0].same_screen(&all[1]));
}

#[test]
fn the_pad_prefers_a_second_screen_and_the_mirror_the_first() {
    let all = two_screens();
    assert_eq!(default_nav_index(&all), 0);
    assert_eq!(default_pad_index(&all), 1);
    let one = enumerate(&vec![screen(0, 0, 800, 600, true, "D")]);
    assert_eq!(default_pad_index(&one), 0);
    let none: Vec<MonInfo> = Vec::new();
    assert_eq!(default_nav_index(&none), 0);
    assert_eq!(default_pad_index(&none), 0);
}

#[test]
fn a_stored_screen_is_used_where_there_is_one() {
    let all = two_screens();
    assert_eq!(resolve_index(&all, 1, 0), 1);
    assert_eq!(resolve_index(&all, 2, 0), 0);
    assert_eq!(resolve_index(&all, -1, 1), 1);
    assert_eq!(resolve_index(&all, -1, 9), 1);
    assert_eq!(resolve_index(&Vec::new(), 0, 9), 0);
}

fn failed(a: FlipAction) -> String {
    match a {
        FlipAction::Failed(why) => why,
        _ => panic!("did not fail"),
    }
}

#[test]
fn a_screen_is_turned_only_where_it_has_to_be() {
    assert!(matches!(
        set_flipped("D", true, FlipEvent::Begun),
        FlipAction::LookUp
    ));
    assert!(matches!(
        set_flipped("D", true, FlipEvent::Found(Some(DMDO_DEFAULT))),
        FlipAction::Change(DMDO_180)
    ));
    assert!(matches!(
        set_flipped("D", false, FlipEvent::Found(Some(DMDO_180))),
        FlipAction::Change(DMDO_DEFAULT)
    ));
    assert!(matches!(
        set_flipped("D", true, FlipEvent::Found(Some(DMDO_180))),
        FlipAction::Already
    ));
    assert!(matches!(
        set_flipped("D", true, FlipEvent::Changed(0)),
        FlipAction::Turned
    ));
}

#[test]
fn every_failure_to_turn_a_screen_has_its_reason() {
    assert_eq!(
        failed(set_flipped("", true, FlipEvent::Begun)),
        "monitor has no device name"
    );
    assert_eq!(
        failed(set_flipped("D", true, FlipEvent::Found(None))),
        "EnumDisplaySettingsEx failed for D"
    );
    assert_eq!(
        failed(set_flipped("D", true, FlipEvent::Changed(-2))),
        "ChangeDisplaySettingsEx(D → 2) failed: -2"
    );
}

#[test]
fn device_names_end_at_the_first_zero() {
    let mut buf = [0u16; 8];
    buf[0] = 'D' as u16;
    buf[1] = 0xd83d;
    buf[2] = 0xde00;
    buf[3] = 0xd800;
    buf[4] = 0xdc01 - 1;
    buf[5] = 0xdc00;
    assert_eq!(widestr_to_string(&buf), "D😀\u{10000}\u{fffd}");
    assert_eq!(widestr_to_string(&[0u16; 3]), "");
    assert_eq!(widestr_to_string(&[0x41u16, 0x42]), "AB");
}

#[test]
fn a_window_is_known_by_its_title() {
    let buf: Vec<u16> = "PChordPad!".encode_utf16().collect();
    assert!(title_matches(&buf, 9, "PChordPad"));
    assert!(!title_matches(&buf, 10, "PChordPad"));
    assert!(!title_matches(&buf, -1, "PChordPad"));
    assert!(title_matches(&buf, -1, ""));
}

#[test]
fn the_mirror_refuses_the_pads_own_screen() {
    let all = two_screens();
    let mut nav = NavMirror::new();
    assert_eq!(nav.take_frame().status, "idle");
    assert_eq!(
        nav.start(all[0].clone(), &all[0]),
        Err("Nav monitor must be different from Pad monitor".to_string())
    );
    assert!(nav.capture_target().is_none());
    assert_eq!(nav.start(all[0].clone(), &all[1]), Ok(()));
    assert_eq!(nav.take_frame().status, "capturing…");
    assert_eq!(nav.capture_target(), Some(all[0].clone()));
    assert_eq!(nav.span(), Some((2560, 1440)));
    assert_eq!(nav.stop(), (1280, 720));
    assert_eq!(nav.take_frame().status, "idle");
    assert!(nav.capture_target().is_none());
    assert_eq!(nav.span(), None);
    assert_eq!(NavMirror::new().stop(), (0, 0));
}

#[test]
fn a_failed_capture_keeps_the_last_picture() {
    let all = two_screens();
    let mut nav = NavMirror::new();
    let picture = || Frame {
        width: 1,
        height: 1,
        bgra: vec![1, 2, 3, 4],
        status: "shot".to_string(),
    };
    nav.capture_tick(Ok(picture()));
    assert_eq!(nav.take_frame().width, 0, "the mirror is off");
    nav.start(all[0].clone(), &all[1]).expect("starts");
    nav.capture_tick(Ok(picture()));
    assert_eq!(nav.take_frame().status, "shot");
    nav.capture_tick(Err("GetDC failed".to_string()));
    let frame = nav.take_frame();
    assert_eq!(frame.status, "capture failed: GetDC failed");
    assert_eq!(frame.bgra, vec![1, 2, 3, 4]);
    assert!(frame.showable());
    assert!(!Frame::default().showable());
    let short = Frame {
        height: 2,
        ..picture()
    };
    assert!(!short.showable());
}

#[test]
fn touches_on_the_picture_reach_the_screen() {
    let all = two_screens();
    let mut nav = NavMirror::new();
    assert_eq!(nav.pointer(1, 2, 0), None);
    nav.start(all[1].clone(), &all[0]).expect("starts");
    assert_eq!(nav.pointer(5, 6, 0), Some((-1915, 106, MouseOp::Down)));
    assert_eq!(nav.pointer(5, 6, 1), Some((-1915, 106, MouseOp::Move)));
    assert_eq!(nav.pointer(5, 6, 2), Some((-1915, 106, MouseOp::Up)));
    assert_eq!(nav.inject_mouse_up(), (-960, 640));
}

#[test]
fn the_mouse_is_placed_pressed_and_posted() {
    assert_eq!(
        inject_mouse(3, 4, MouseOp::Down),
        vec![
            MouseStep::Place(3, 4),
            MouseStep::Send(2),
            MouseStep::Post(3, 4, MouseOp::Down)
        ]
    );
    assert_eq!(
        inject_mouse(3, 4, MouseOp::Up),
        vec![
            MouseStep::Place(3, 4),
            MouseStep::Send(4),
            MouseStep::Post(3, 4, MouseOp::Up)
        ]
    );
    assert_eq!(
        inject_mouse(3, 4, MouseOp::Move),
        vec![MouseStep::Place(3, 4), MouseStep::Post(3, 4, MouseOp::Move)]
    );
    assert_eq!(
        post_mouse(3, 4, MouseOp::Down),
        MouseMessage {
            msg: 0x201,
            wparam: 1,
            lparam: 0x0004_0003
        }
    );
    assert_eq!(post_mouse(-1, -2, MouseOp::Move).lparam, 0xfffe_ffff);
    assert_eq!(post_mouse(0x12345, 0, MouseOp::Up).lparam, 0x2345);
    assert_eq!(post_mouse(0, 0, MouseOp::Up).msg, 0x202);
    assert_eq!(post_mouse(0, 0, MouseOp::Up).wparam, 0);
    assert_eq!(post_mouse(0, 0, MouseOp::Move).msg, 0x200);
}

fn shoot(fail_at: Option<Phase>, dst: (u32, u32)) -> (Vec<Phase>, Result<Frame, String>) {
    let mut c = Capture::new(&two_screens()[0], dst.0, dst);
    let mut seen = Vec::new();
    let mut ok = true;
    loop {
        let phase = capture_monitor(&mut c, ok);
        if phase == Phase::Finished {
            break;
        }
        seen.push(phase);
        ok = fail_at != Some(phase);
    }
    let bytes = vec![0u8; c.size()];
    (seen, c.finish(bytes))
}

#[test]
fn a_capture_takes_and_gives_back() {
    let (seen, frame) = shoot(None, (1920, 1080));
    assert_eq!(
        seen,
        vec![
            Phase::GetScreen,
            Phase::CreateDc,
            Phase::CreateBitmap,
            Phase::Select,
            Phase::Copy,
            Phase::Read,
            Phase::Unselect,
            Phase::DeleteBitmap,
            Phase::DeleteDc,
            Phase::ReleaseScreen,
        ]
    );
    let frame = frame.expect("captured");
    assert_eq!((frame.width, frame.height), (1920, 1080));
    assert_eq!(frame.bgra.len(), 1920 * 1080 * 4);
    assert_eq!(
        frame.status,
        "NAV  2560×1440→1920×1080  ·  touch = main screen"
    );
    let (_, frame) = shoot(None, (2560, 1440));
    assert_eq!(
        frame.expect("captured").status,
        "NAV  2560×1440  ·  touch = main screen"
    );
}

#[test]
fn a_capture_that_fails_gives_back_what_it_had() {
    for (at, why, last) in [
        (Phase::GetScreen, "GetDC failed", vec![]),
        (
            Phase::CreateDc,
            "CreateCompatibleDC failed",
            vec![Phase::ReleaseScreen],
        ),
        (
            Phase::CreateBitmap,
            "CreateCompatibleBitmap failed",
            vec![Phase::DeleteDc, Phase::ReleaseScreen],
        ),
        (
            Phase::Copy,
            "BitBlt/StretchBlt failed",
            vec![
                Phase::Unselect,
                Phase::DeleteBitmap,
                Phase::DeleteDc,
                Phase::ReleaseScreen,
            ],
        ),
        (
            Phase::Read,
            "GetDIBits failed",
            vec![
                Phase::Unselect,
                Phase::DeleteBitmap,
                Phase::DeleteDc,
                Phase::ReleaseScreen,
            ],
        ),
    ] {
        let (seen, frame) = shoot(Some(at), (1, 1));
        assert_eq!(frame.err(), Some(why.to_string()));
        let cut = seen.iter().position(|p| *p == at).expect("reached") + 1;
        assert_eq!(seen[cut..].to_vec(), last);
    }
}

#[test]
fn a_picture_is_copied_as_it_is_only_in_its_own_size() {
    let m = &two_screens()[0];
    assert!(Capture::new(m, 2560, (2560, 1440)).unscaled());
    assert!(!Capture::new(m, 1920, (1920, 1080)).unscaled());
    let tiny = Capture::new(&screen(0, 0, 0, -5, false, ""), 0, (0, 0));
    assert_eq!(
        (tiny.src_w, tiny.src_h, tiny.dst_w, tiny.dst_h),
        (1, 1, 1, 1)
    );
}

/// What scaling a screen down to a width comes to.
fn scaled(src_w: u32, src_h: u32, max_w: u32) -> (u32, u32) {
    let scale = if src_w > max_w {
        max_w as f32 / src_w as f32
    } else {
        1.0
    };
    (
        ((src_w as f32 * scale).round() as u32).max(1),
        ((src_h as f32 * scale).round() as u32).max(1),
    )
}

#[test]
fn the_size_of_a_picture_is_what_scaling_comes_to() {
    for max_w in [1, 2, 3, 7, 1279, 1920, 1921, 4096, 16384, 0x0010_0000] {
        for w in (1..=16384).step_by(13).chain([1920, 1921, 0x000f_ffff, 0x0010_0000]) {
            for h in [1, 1080, 16383, 0x0010_0000] {
                let want = scaled(w, h, max_w);
                let m = screen(0, 0, w as i32, h as i32, false, "");
                let c = Capture::new(&m, max_w, want);
                assert_eq!((c.dst_w, c.dst_h), want, "{w}×{h} at most {max_w}");
                assert!(c.dst_w <= max_w);
            }
        }
    }
    let huge = screen(0, 0, 0x0100_0001, 1, false, "");
    let c = Capture::new(&huge, u32::MAX, (0x0100_0000, 1));
    assert_eq!(c.dst_w, 0x0100_0000);
}

#[test]
fn colours_are_exchanged_and_made_opaque() {
    assert_eq!(
        bgra_to_rgba(&[1, 2, 3, 4, 5, 6, 7, 8, 9]),
        vec![3, 2, 1, 255, 7, 6, 5, 255]
    );
    assert_eq!(
        bgra_to_rgba(&bgra_to_rgba(&[1, 2, 3, 4])),
        vec![1, 2, 3, 255]
    );
}

#[test]
fn messages_are_told_apart() {
    let mine = |msg: u32, w: usize| subclass_proc(true, true, msg, w);
    assert_eq!(mine(WM_NCDESTROY, 0), Message::Destroyed);
    assert_eq!(mine(WM_POINTERACTIVATE, 0), Message::StayInactive);
    assert_eq!(mine(WM_MOUSEACTIVATE, 0), Message::StayInactive);
    assert_eq!(mine(WM_DISPLAYCHANGE, 0), Message::DisplaysChanged);
    assert_eq!(mine(WM_WINDOWPOSCHANGING, 0), Message::Moving);
    assert_eq!(
        mine(WM_POINTERCAPTURECHANGED, 0x1_0007),
        Message::CaptureLost(7)
    );
    for msg in [
        WM_POINTERDOWN,
        WM_POINTERUPDATE,
        WM_POINTERUP,
        WM_POINTERLEAVE,
    ] {
        assert_eq!(mine(msg, 0xabcd_0009), Message::Pointer(9));
    }
    assert_eq!(mine(WM_TOUCH, 0), Message::Pass);
    assert_eq!(mine(WM_TOUCH, 3), Message::Touches(3));
    assert_eq!(mine(WM_TOUCH, 40), Message::Touches(16));
    assert_eq!(mine(0x0001, 0), Message::Pass);
    assert_eq!(subclass_proc(false, true, WM_TOUCH, 3), Message::Pass);
    assert_eq!(subclass_proc(true, false, WM_TOUCH, 3), Message::Pass);
    assert_eq!(
        subclass_proc(true, false, WM_DISPLAYCHANGE, 0),
        Message::DisplaysChanged
    );
}

#[test]
fn pointers_are_tracked_released_or_passed_on() {
    let down = PointerInfo {
        kind: PT_TOUCH,
        flags: POINTER_FLAG_INCONTACT,
    };
    assert_eq!(
        handle_pointer(WM_POINTERDOWN, Some(down), true),
        PointerStep::Track(true)
    );
    assert_eq!(
        handle_pointer(WM_POINTERUP, Some(down), true),
        PointerStep::Track(false)
    );
    let lifted = PointerInfo {
        kind: PT_PEN,
        flags: 0,
    };
    assert_eq!(
        handle_pointer(WM_POINTERUPDATE, Some(lifted), true),
        PointerStep::Track(false)
    );
    let canceled = PointerInfo {
        flags: POINTER_FLAG_INCONTACT | POINTER_FLAG_CANCELED,
        ..down
    };
    assert_eq!(
        handle_pointer(WM_POINTERUPDATE, Some(canceled), true),
        PointerStep::Track(false)
    );
    let mouse = PointerInfo { kind: 4, ..down };
    assert_eq!(
        handle_pointer(WM_POINTERDOWN, Some(mouse), true),
        PointerStep::Pass
    );
    assert_eq!(
        handle_pointer(WM_POINTERLEAVE, Some(mouse), true),
        PointerStep::Release
    );
    assert_eq!(
        handle_pointer(WM_POINTERUP, None, true),
        PointerStep::Release
    );
    assert_eq!(
        handle_pointer(WM_POINTERUPDATE, None, true),
        PointerStep::Pass
    );
    assert_eq!(
        handle_pointer(WM_POINTERUP, Some(down), false),
        PointerStep::Release
    );
    assert!(pointer_still_down(Some(down)));
    assert!(!pointer_still_down(Some(lifted)));
    assert!(!pointer_still_down(Some(canceled)));
    assert!(!pointer_still_down(None));
}

#[test]
fn touches_are_cut_to_whole_pixels() {
    let t = TouchInput {
        id: 1,
        x: 12345,
        y: -199,
        flags: 0,
    };
    assert_eq!(handle_touch(&t), (123, -1, true));
    let t = TouchInput {
        flags: TOUCHEVENTF_UP,
        x: i32::MIN,
        ..t
    };
    assert_eq!(handle_touch(&t), (i32::MIN / 100, -1, false));
}

#[test]
fn a_pinned_window_is_sent_back_to_its_place() {
    let mut b = Bridge::create();
    b.set_pinned(Some(PinRect {
        left: 0,
        top: 1440,
        width: 1920,
        height: 1080,
    }));
    let mut pos = WindowPos {
        x: 5,
        y: 5,
        cx: 0,
        cy: 0,
        flags: SWP_NOSIZE | 0x10,
    };
    assert_eq!(b.hold_window(&mut pos), Some(1));
    assert_eq!(
        pos,
        WindowPos {
            x: 0,
            y: 1440,
            cx: 1920,
            cy: 1080,
            flags: 0x10
        }
    );
    assert_eq!(b.hold_window(&mut pos), None);
    let mut still = WindowPos {
        flags: SWP_NOSIZE | SWP_NOMOVE,
        ..pos
    };
    still.x = 99;
    assert_eq!(b.hold_window(&mut still), None);
    assert_eq!(still.x, 99);
    let warned: Vec<u64> = (1..=60).filter(|n| veto_warns(*n)).collect();
    assert_eq!(warned, vec![1, 25, 50]);
}

#[test]
fn contacts_are_announced_once() {
    let mut announced = false;
    assert!(announce_once(&mut announced));
    assert!(!announce_once(&mut announced));
}

#[test]
fn keys_have_the_names_of_their_lamps() {
    for i in 0..12 {
        let name = button_name(i);
        assert_eq!(name, format!("Button {}", i + 1));
        assert_eq!(pchordpad::diagnostics::button_index(name), Some(i));
    }
    assert_eq!(button_name(12), "Button 12");
    assert_eq!(button_name(usize::MAX), "Button 12");
}

#[test]
fn only_changes_are_set() {
    assert_eq!(set_if_changed(3, 3), None);
    assert_eq!(set_if_changed(3, 4), Some(3));
    assert!(set_if_changed(s(0.0), s(-0.0)).is_none());
    assert!(set_if_changed(s(f32::NAN), s(f32::NAN)).is_some());
}

#[test]
fn windows_fill_their_screen_or_float_on_it() {
    let m = screen(100, 50, 2560, 1440, false, "");
    assert_eq!(
        pin(&m),
        PinRect {
            left: 100,
            top: 50,
            width: 2560,
            height: 1440
        }
    );
    assert_eq!(pin(&screen(0, 0, 0, -3, false, "")).width, 1);
    assert_eq!(
        make_windowed(&m),
        PinRect {
            left: 100 + 640,
            top: 50 + 360,
            width: 1280,
            height: 720
        }
    );
    assert_eq!(
        make_windowed(&screen(0, 0, 1100, 700, false, "")),
        PinRect {
            left: 40,
            top: 40,
            width: 1020,
            height: 620
        }
    );
    assert_eq!(
        make_windowed(&screen(0, 0, 801, 480, false, "")),
        PinRect {
            left: -49,
            top: -60,
            width: 900,
            height: 600
        }
    );
    assert_eq!(
        make_windowed(&screen(0, 0, -21, -7, false, "")),
        PinRect {
            left: -460,
            top: -303,
            width: 900,
            height: 600
        }
    );
    assert!(can_float(&m));
    assert!(can_float(&screen(0, 0, -21, -7, false, "")));
    let mut narrow = screen(0, 0, 0, 0, false, "");
    narrow.width = i32::MIN + 899;
    assert!(!can_float(&narrow));
    narrow.width = i32::MIN + 900;
    assert!(can_float(&narrow));
    narrow.left = -0x4000_0001;
    assert!(!can_float(&narrow));
    assert!(!repin_if_needed(&m, 100, 50, 2560, 1440));
    assert!(repin_if_needed(&m, 100, 51, 2560, 1440));
    assert!(repin_if_needed(&m, 100, 50, 2560, 1439));
    assert_eq!(screen_number(-4), 0);
    assert_eq!(screen_number(4), 4);
}

#[test]
fn the_window_is_watched() {
    let m = two_screens()[1].clone();
    let mut b = Bridge::create();
    let w = b.start_pin_watch(false, false, Some(&m));
    assert!(w.check && !w.restoration.restore);
    assert_eq!(b.state.pinned, Some(pin(&m)));
    b.install(5);
    let w = b.start_pin_watch(false, true, None);
    assert!(!w.check && w.restoration.restore && w.restoration.announce);
    assert_eq!(b.state.pinned, Some(pin(&m)));
    let w = b.start_pin_watch(true, true, Some(&m));
    assert!(!w.check && !w.restoration.restore);
    assert_eq!(b.state.pinned, None);
}

#[test]
fn a_rearranged_desktop_is_followed_once() {
    let m = two_screens()[1].clone();
    let mut b = Bridge::create();
    assert!(!b.follow_displays(false, Some(&m)));
    b.note_display_change();
    assert!(!b.follow_displays(true, Some(&m)), "windowed");
    b.note_display_change();
    assert!(!b.follow_displays(false, None), "no screen");
    b.note_display_change();
    assert!(b.follow_displays(false, Some(&m)));
    assert_eq!(b.state.pinned, Some(pin(&m)));
    assert!(!b.follow_displays(false, Some(&m)));
}

#[test]
fn keys_follow_the_window() {
    let mut b = Bridge::create();
    assert!(b.sync_keys_enabled(true).is_empty());
    assert!(b.sync_keys_enabled(false).is_empty());
    assert!(!b.keys_enabled());
}

#[test]
fn a_screen_stays_turned_only_for_the_pads_sake() {
    let mut o = Orientation::new();
    assert_eq!(o.sync_pad_orientation(true, "D1"), None);
    assert_eq!(
        o.flipped("D1", Err("no".to_string())),
        Some("Flip failed: no".to_string())
    );
    assert_eq!(o.rotated, None);
    assert_eq!(o.flipped("D1", Ok(())), None);
    assert_eq!(o.sync_pad_orientation(true, "D1"), None);
    assert_eq!(o.sync_pad_orientation(true, "D2"), Some("D1".to_string()));
    assert_eq!(o.flipped("D2", Ok(())), None);
    assert_eq!(o.sync_pad_orientation(false, "D2"), Some("D2".to_string()));
    assert_eq!(o.take(), None);
    o.flipped("D2", Ok(()));
    assert_eq!(o.take(), Some("D2".to_string()));
}

#[test]
fn the_mirror_goes_on_and_off() {
    let all = two_screens();
    let mut b = Bridge::create();
    let mut nav = NavMirror::new();
    let r = nav_toggled(&mut b, &mut nav, true, None, Some(&all[1]), true);
    assert!(!r.active);
    assert_eq!(r.status, Some("invalid monitor selection".to_string()));
    let r = nav_toggled(&mut b, &mut nav, true, Some(all[1].clone()), Some(&all[1]), true);
    assert!(!r.active);
    assert_eq!(
        r.status,
        Some("Nav monitor must be different from Pad monitor".to_string())
    );
    assert!(b.keys_enabled());
    let r = nav_toggled(&mut b, &mut nav, true, Some(all[0].clone()), Some(&all[1]), true);
    assert!(r.active && r.status.is_none() && r.release.is_none());
    assert!(!b.keys_enabled());
    assert!(nav.running);
    let r = nav_toggled(&mut b, &mut nav, false, None, None, true);
    assert!(!r.active);
    assert_eq!(r.status, Some(String::new()));
    assert_eq!(r.release, Some((1280, 720)));
    assert!(b.keys_enabled());
    assert!(!nav.running);
}

#[test]
fn a_mirror_that_is_on_can_be_pointed_elsewhere() {
    let all = two_screens();
    let mut nav = NavMirror::new();
    assert_eq!(
        retarget(&mut nav, false, Some(all[0].clone()), Some(&all[1])),
        None
    );
    assert!(!nav.running);
    assert_eq!(retarget(&mut nav, true, None, Some(&all[1])), None);
    assert!(!nav.running);
    assert_eq!(
        retarget(&mut nav, true, Some(all[0].clone()), Some(&all[1])),
        None
    );
    assert!(nav.running);
    assert_eq!(
        retarget(&mut nav, true, Some(all[1].clone()), Some(&all[1])),
        Some("Nav monitor must be different from Pad monitor".to_string())
    );
    assert_eq!(nav.target, Some(all[0].clone()));
}

#[test]
fn settings_entail_what_changed() {
    let cfg = Config::default();
    assert!(!settings_changed(&cfg, Some(1337), false).reconnect);
    assert!(settings_changed(&cfg, Some(1338), false).reconnect);
    assert!(settings_changed(&cfg, None, false).reconnect);
    assert_eq!(
        settings_changed(&cfg, None, true).window,
        WindowChange::Fill
    );
    let floating = Config {
        windowed: true,
        ..cfg
    };
    assert_eq!(
        settings_changed(&floating, None, false).window,
        WindowChange::Float
    );
    assert_eq!(
        settings_changed(&floating, None, true).window,
        WindowChange::Stay
    );
}

#[test]
fn stall_reports_hold_the_counts() {
    let mut b = Bridge::create();
    b.state.stats.dropped = 2;
    assert_eq!(
        stall_detail(&b, None),
        "touch live=0 peak=0 dropped=2 vetoed_moves=0 expired=0\nspiceapi client: none"
    );
    assert!(stall_detail(&b, Some("snapshot")).ends_with("\nsnapshot"));
}

#[test]
fn only_lamps_that_changed_are_refreshed() {
    let mut rows = [false; 12];
    let mut lamps = [false; 12];
    rows[1] = true;
    lamps[11] = true;
    assert_eq!(
        refresh_diagnostics(&rows, &lamps),
        vec![(1, false), (11, true)]
    );
    assert!(refresh_diagnostics(&lamps, &lamps).is_empty());
}

#[test]
fn the_clock_notices_stalls() {
    let mut t = Ticker::start_tick(1000);
    assert_eq!(t.ticked(1000 + TICK_LATE), None);
    assert_eq!(t.ticked(1000 + TICK_LATE + TICK_LATE + 1), Some(TICK_LATE + 1));
    assert_eq!(t.ticked(0), None);
}

#[test]
fn hooking_is_tried_until_it_takes_or_is_given_up() {
    let mut t = Ticker::start_tick(0);
    assert!(t.unsettled());
    assert_eq!(t.hooking(false, INSTALL_PATIENCE), Hooking::Waiting);
    assert_eq!(t.hooking(true, INSTALL_PATIENCE), Hooking::Hooked);
    assert!(!t.unsettled());
    assert_eq!(t.hooking(false, u64::MAX), Hooking::Settled);
    let mut t = Ticker::start_tick(0);
    assert_eq!(t.hooking(false, INSTALL_PATIENCE + 1), Hooking::GaveUp);
    assert!(!t.unsettled());
}

#[test]
fn only_changes_of_the_layout_are_handed_on() {
    let mut t = Ticker::start_tick(0);
    let mut b = Bridge::create();
    let cfg = FaderCfg {
        relative: false,
        ..FaderCfg::default()
    };
    b.set_fader_cfg(cfg);
    let geom = KeyGeom {
        w: s(10.0),
        ..KeyGeom::default()
    };
    t.follow_layout(&mut b, geom, [Zone::default(); 2], FaderCfg::default());
    assert!(b.state.key_geom.same(&geom));
    assert!(!b.state.faders.cfg.relative, "the default is no news");
    let zone = Zone {
        w: s(3.0),
        ..Zone::default()
    };
    t.follow_layout(&mut b, geom, [Zone::default(), zone], cfg);
    assert!(b.state.faders.zones[1].same(&zone));
    assert!(t.last_zones[1].same(&zone));
}

#[test]
fn the_panel_is_due_when_something_happened_or_it_was_opened() {
    let mut t = Ticker::start_tick(0);
    assert!(!t.diagnostics_due(false, false));
    assert!(t.diagnostics_due(true, true));
    assert!(t.diagnostics_due(false, true));
    assert!(!t.diagnostics_due(false, true));
    assert!(t.diagnostics_due(false, false));
}

#[test]
fn link_news_come_once() {
    let mut t = Ticker::start_tick(0);
    assert_eq!(t.link_news(Some(1)), LinkNews::Fresh);
    assert_eq!(t.link_news(Some(1)), LinkNews::Nothing);
    assert_eq!(t.link_news(None), LinkNews::Disabled);
    assert_eq!(t.link_news(None), LinkNews::Nothing);
    assert_eq!(t.link_news(Some(2)), LinkNews::Fresh);
}
