//! The faders, the touch table and the bridge.
use pchordpad::bridge::{Bridge, Expiry, Takeover};
use pchordpad::faders::{Fader, FaderCfg, Faders, Reading, Zone};
use pchordpad::single::Single;
use pchordpad::touchbridge::{
    CursorAction, Ingest, KeyGeom, PinRect, Route, Sense, Slot, State, CONTACT_SILENT, KEY_COUNT,
    MAX_CONTACTS, MOUSE_CONTACT, TOUCH_SILENT,
};

fn s(v: f32) -> Single {
    Single::from_bits(v.to_bits())
}

fn f(v: Single) -> f32 {
    f32::from_bits(v.to_bits())
}

fn zone_at(x: f32, y: f32, w: f32, h: f32, center_x: f32, half: f32) -> Zone {
    Zone {
        x: s(x),
        y: s(y),
        w: s(w),
        h: s(h),
        center_x: s(center_x),
        half: s(half),
        right: s(x + w),
        bottom: s(y + h),
    }
}

fn reading(fader: &Fader, zone: &Zone, cfg: &FaderCfg, x: f32) -> Reading {
    let delta = x - fader.last_x.map(f).unwrap_or(x);
    let curve = f(cfg.curve);
    let dead = f(cfg.dead);
    let mut step = delta / f(cfg.rel_travel).max(1.0);
    if curve != 1.0 && step != 0.0 {
        step = step.signum() * step.abs().powf(curve);
    }
    let ratio = (x - f(zone.center_x)) / f(zone.half).max(1.0);
    let mag = ratio.clamp(-1.0, 1.0).abs();
    Reading {
        delta: s(delta),
        sum: s(f(fader.rel_value) + step),
        restart: s(0.0 + step),
        ratio: s(ratio),
        shaped: s(((mag - dead) / (1.0 - dead)).powf(curve)),
    }
}

fn readings(fs: &Faders, x: f32) -> [Reading; 2] {
    [
        reading(&fs.faders[0], &fs.zones[0], &fs.cfg, x),
        reading(&fs.faders[1], &fs.zones[1], &fs.cfg, x),
    ]
}

fn offer(fs: &mut Faders, id: u32, x: f32, y: f32) -> bool {
    let r = readings(fs, x);
    fs.offer(id, s(x), s(y), &r)
}

fn decay_step(fs: &mut Faders) -> bool {
    let d = f(fs.cfg.decay);
    let products = [
        s(f(fs.faders[0].settled) * d),
        s(f(fs.faders[1].settled) * d),
    ];
    fs.decay_step(&products)
}

fn level(fs: &Faders) -> f32 {
    f(fs.values()[0])
}

fn abs_cfg() -> FaderCfg {
    FaderCfg {
        relative: false,
        curve: s(1.0),
        dead: s(0.04),
        decay: s(0.7),
        rel_travel: s(100.0),
        speed_dead: s(2.5),
    }
}

fn rel_cfg() -> FaderCfg {
    FaderCfg {
        relative: true,
        rel_travel: s(100.0),
        speed_dead: s(2.5),
        ..abs_cfg()
    }
}

fn zone() -> Zone {
    zone_at(0.0, 0.0, 300.0, 100.0, 150.0, 100.0)
}

fn engine(cfg: FaderCfg) -> Faders {
    let mut fs = Faders::new();
    fs.set_cfg(cfg);
    fs.set_zones([zone(), Zone::default()]);
    fs
}

#[test]
fn absolute_maps_position_through_deadzone_and_clamps() {
    let mut fs = engine(abs_cfg());
    offer(&mut fs, 1, 150.0, 50.0);
    assert_eq!(level(&fs), 0.0);
    offer(&mut fs, 1, 250.0, 50.0);
    assert!((level(&fs) - 1.0).abs() < 1e-6);
    offer(&mut fs, 1, 350.0, 50.0);
    assert!((level(&fs) - 1.0).abs() < 1e-6);
    offer(&mut fs, 1, 50.0, 50.0);
    assert!((level(&fs) + 1.0).abs() < 1e-6);
}

#[test]
fn absolute_curve_shapes_near_centre() {
    let mut cfg = abs_cfg();
    cfg.curve = s(2.0);
    let mut fs = engine(cfg);
    offer(&mut fs, 1, 200.0, 50.0);
    assert!(level(&fs) < 0.5, "got {}", level(&fs));
    assert!(level(&fs) > 0.0);
}

#[test]
fn a_contact_outside_the_zone_grabs_nothing() {
    let mut fs = engine(abs_cfg());
    assert!(!offer(&mut fs, 1, 150.0, 500.0));
    assert!(!fs.grabbed()[0]);
    assert_eq!(level(&fs), 0.0);
}

#[test]
fn ownership_is_sticky_until_the_contact_lifts() {
    let mut fs = engine(abs_cfg());
    offer(&mut fs, 1, 250.0, 50.0);
    assert!(fs.grabbed()[0]);
    offer(&mut fs, 1, 200.0, 5000.0);
    assert!(fs.grabbed()[0]);
    assert!(level(&fs) > 0.4 && level(&fs) < 1.0, "got {}", level(&fs));
    fs.release(1);
    assert!(!fs.grabbed()[0]);
}

#[test]
fn a_second_contact_does_not_steal_an_owned_fader() {
    let mut fs = engine(abs_cfg());
    offer(&mut fs, 1, 180.0, 50.0);
    let v1 = level(&fs);
    offer(&mut fs, 2, 250.0, 50.0);
    assert!(fs.owns(1));
    assert!(!fs.owns(2));
    assert_eq!(level(&fs), v1, "the intruder must not move the value");
}

#[test]
fn released_fader_springs_back_to_rest() {
    let mut fs = engine(abs_cfg());
    offer(&mut fs, 1, 250.0, 50.0);
    assert!((level(&fs) - 1.0).abs() < 1e-6);
    fs.release(1);
    let mut steps = 0;
    while level(&fs) != 0.0 && steps < 1000 {
        decay_step(&mut fs);
        steps += 1;
    }
    assert_eq!(level(&fs), 0.0);
    assert!(steps > 1 && steps < 100, "decayed in {steps} steps");
}

#[test]
fn an_owned_fader_does_not_decay() {
    let mut fs = engine(abs_cfg());
    offer(&mut fs, 1, 250.0, 50.0);
    assert!(!decay_step(&mut fs));
    assert!((level(&fs) - 1.0).abs() < 1e-6);
}

#[test]
fn relative_accumulates_travel_and_holds_on_small_moves() {
    let mut fs = engine(rel_cfg());
    offer(&mut fs, 1, 150.0, 50.0);
    assert_eq!(level(&fs), 0.0);
    offer(&mut fs, 1, 151.0, 50.0);
    assert_eq!(level(&fs), 0.0);
    offer(&mut fs, 1, 201.0, 50.0);
    assert!((level(&fs) - 0.5).abs() < 1e-6, "got {}", level(&fs));
}

#[test]
fn relative_reversal_snaps_through_zero() {
    let mut fs = engine(rel_cfg());
    offer(&mut fs, 1, 150.0, 50.0);
    offer(&mut fs, 1, 230.0, 50.0);
    assert!(level(&fs) > 0.0);
    offer(&mut fs, 1, 180.0, 50.0);
    assert!(level(&fs) < 0.0, "got {}", level(&fs));
}

#[test]
fn relative_resumes_from_settled_value_on_regrab() {
    let mut fs = engine(rel_cfg());
    offer(&mut fs, 1, 150.0, 50.0);
    offer(&mut fs, 1, 200.0, 50.0);
    fs.release(1);
    offer(&mut fs, 2, 60.0, 50.0);
    assert!((level(&fs) - 0.5).abs() < 1e-6, "got {}", level(&fs));
    offer(&mut fs, 2, 160.0, 50.0);
    assert!((level(&fs) - 1.0).abs() < 1e-6, "got {}", level(&fs));
}

#[test]
fn release_all_drops_every_owner() {
    let mut fs = engine(abs_cfg());
    fs.set_zones([zone(), zone()]);
    offer(&mut fs, 1, 250.0, 50.0);
    offer(&mut fs, 2, 50.0, 50.0);
    assert!(fs.grabbed()[0] && fs.grabbed()[1]);
    fs.release_all();
    assert!(!fs.grabbed()[0] && !fs.grabbed()[1]);
}

#[test]
fn a_fader_points_where_it_is_pushed_and_keeps_pointing_in_between() {
    let mut fs = engine(FaderCfg {
        dead: s(0.0),
        ..abs_cfg()
    });
    offer(&mut fs, 1, 200.0, 50.0);
    assert_eq!(fs.dirs()[0], 1, "half deflection is enough");
    offer(&mut fs, 1, 190.0, 50.0);
    assert_eq!(fs.dirs()[0], 1, "0.4 lies between the thresholds");
    offer(&mut fs, 1, 184.0, 50.0);
    assert_eq!(fs.dirs()[0], 0, "0.34 lets go");
    offer(&mut fs, 1, 190.0, 50.0);
    assert_eq!(fs.dirs()[0], 0);
    offer(&mut fs, 1, 100.0, 50.0);
    assert_eq!(fs.dirs()[0], -1);
}

#[test]
fn one_contact_holds_one_fader_only() {
    let mut fs = engine(abs_cfg());
    fs.set_zones([zone(), zone()]);
    offer(&mut fs, 1, 250.0, 50.0);
    offer(&mut fs, 1, 250.0, 50.0);
    assert_eq!(fs.grabbed(), [true, false]);
    assert!(fs.faders[0].owned_by(1));
    assert!(!fs.faders[1].owned_by(1));
}

#[test]
fn a_zone_ends_before_its_right_and_bottom_edges() {
    let z = zone();
    assert!(z.valid());
    assert!(z.contains(s(0.0), s(0.0)));
    assert!(!z.contains(s(300.0), s(50.0)));
    assert!(!z.contains(s(150.0), s(100.0)));
    assert!(!z.contains(s(f32::NAN), s(50.0)));
    assert!(!Zone::default().valid());
    assert!(z.same(&zone()));
    assert!(!z.same(&Zone::default()));
}

#[test]
fn singles_compare_as_numbers() {
    for a in [-2.0f32, -1.0, -0.0, 0.0, 0.5, 1.0, f32::INFINITY, f32::NAN] {
        for b in [-2.0f32, -1.0, -0.0, 0.0, 0.5, 1.0, f32::INFINITY, f32::NAN] {
            assert_eq!(s(a).lt(s(b)), a < b, "{a} {b}");
            assert_eq!(s(a).le(s(b)), a <= b, "{a} {b}");
            assert_eq!(s(a).gt(s(b)), a > b, "{a} {b}");
            assert_eq!(s(a).ge(s(b)), a >= b, "{a} {b}");
            assert_eq!(s(a) == s(b), a == b, "{a} {b}");
        }
        assert_eq!(s(a).is_nan(), a.is_nan());
        assert_eq!(f(s(a).neg()).to_bits(), (-a).to_bits());
        assert_eq!(f(s(a).abs()).to_bits(), a.abs().to_bits());
        assert_eq!(f(s(a).clamp_unit()).to_bits(), a.clamp(-1.0, 1.0).to_bits());
    }
}

fn center(i: usize) -> f32 {
    0.0 + i as f32 * (90.0 + 10.0) + 90.0 * 0.5
}

fn geom() -> KeyGeom {
    let pitch = (90.0f32 + 10.0).max(1.0);
    let mut slots = [Slot {
        lo: s(0.0),
        hi: s(0.0),
    }; KEY_COUNT];
    for (i, slot) in slots.iter_mut().enumerate() {
        slot.lo = s(center(i) - pitch * 0.5);
        slot.hi = s(center(i) + pitch * 0.5);
    }
    KeyGeom {
        x: s(0.0),
        y: s(100.0),
        w: s(1200.0),
        h: s(200.0),
        key_w: s(90.0),
        gap: s(10.0),
        right: s(0.0 + 1200.0),
        bottom: s(100.0 + 200.0),
        slots,
    }
}

fn column(g: &KeyGeom, x: f32) -> i32 {
    let pitch = (f(g.key_w) + f(g.gap)).max(1.0);
    ((x - f(g.x)) / pitch).floor() as i32
}

fn hit(g: &KeyGeom, x: f32, y: f32, prev: Option<usize>) -> Option<usize> {
    g.hit(s(x), s(y), column(g, x), prev)
}

fn with_keys() -> State {
    State {
        key_geom: geom(),
        ..State::default()
    }
}

fn sense(st: &State, x: f32) -> Sense {
    Sense {
        column: column(&st.key_geom, x),
        readings: readings(&st.faders, x),
    }
}

fn down(st: &mut State, id: u32, x: f32, y: f32) -> Ingest {
    let se = sense(st, x);
    st.ingest(id, s(x), s(y), true, 0, &se)
}

fn up(st: &mut State, id: u32, x: f32, y: f32) -> Ingest {
    let se = sense(st, x);
    st.ingest(id, s(x), s(y), false, 0, &se)
}

#[test]
fn a_single_contact_presses_and_releases_its_key() {
    let mut st = with_keys();
    let edges = down(&mut st, 7, 45.0, 150.0).key_edges;
    assert_eq!(edges, vec![(0, true)]);
    assert!(st.held[0]);
    assert_eq!(st.stats.live, 1);
    let edges = up(&mut st, 7, 45.0, 150.0).key_edges;
    assert_eq!(edges, vec![(0, false)]);
    assert_eq!(st.stats.live, 0);
}

#[test]
fn ten_contacts_are_all_kept_and_none_dropped() {
    let mut st = with_keys();
    for id in 0..10u32 {
        let x = center(id as usize % KEY_COUNT);
        down(&mut st, id, x, 150.0);
    }
    assert_eq!(st.stats.live, 10);
    assert_eq!(st.stats.peak, 10);
    assert_eq!(st.stats.dropped, 0);
}

#[test]
fn past_the_ceiling_contacts_are_dropped_not_stolen() {
    let mut st = with_keys();
    for id in 0..(MAX_CONTACTS as u32) {
        down(&mut st, id, center(0), 150.0);
    }
    assert_eq!(st.stats.live, MAX_CONTACTS);
    let overflow = MAX_CONTACTS as u32;
    let ing = down(&mut st, overflow, 45.0, 150.0);
    assert!(ing.key_edges.is_empty());
    assert_eq!(st.stats.dropped, 1);
    assert_eq!(st.stats.live, MAX_CONTACTS);
}

#[test]
fn two_contacts_on_the_same_key_hold_it_until_both_lift() {
    let mut st = with_keys();
    assert_eq!(down(&mut st, 1, 45.0, 150.0).key_edges, vec![(0, true)]);
    assert!(down(&mut st, 2, 46.0, 150.0).key_edges.is_empty());
    assert!(st.held[0]);
    assert!(up(&mut st, 1, 45.0, 150.0).key_edges.is_empty());
    assert!(st.held[0]);
    assert_eq!(up(&mut st, 2, 46.0, 150.0).key_edges, vec![(0, false)]);
    assert!(!st.held[0]);
}

#[test]
fn key_hit_assigns_columns_and_hysteresis_holds_in_gutter() {
    let g = geom();
    assert_eq!(hit(&g, 45.0, 150.0, None), Some(0));
    assert_eq!(hit(&g, 145.0, 150.0, None), Some(1));
    assert_eq!(hit(&g, 90.0, 150.0, Some(0)), Some(0));
    assert_eq!(hit(&g, 96.0, 150.0, Some(0)), Some(1));
}

#[test]
fn key_hit_snaps_across_multi_key_jumps() {
    let g = geom();
    assert_eq!(hit(&g, 1045.0, 150.0, Some(1)), Some(10));
    assert_eq!(hit(&g, 245.0, 150.0, Some(1)), Some(2));
}

#[test]
fn key_hit_stays_on_the_row() {
    let g = geom();
    assert_eq!(hit(&g, 45.0, 99.0, None), None);
    assert_eq!(hit(&g, 45.0, 300.0, Some(0)), None);
    assert_eq!(hit(&g, -1.0, 150.0, Some(0)), None);
    assert_eq!(hit(&g, 1200.0, 150.0, Some(11)), None);
    assert_eq!(hit(&g, 1199.0, 150.0, Some(11)), Some(11));
    assert_eq!(hit(&KeyGeom::default(), 0.0, 0.0, None), None);
    assert!(g.in_band(s(0.0), s(100.0)));
    assert!(!g.in_band(s(0.0), s(300.0)));
    assert!(g.same(&geom()));
    assert!(!g.same(&KeyGeom::default()));
}

#[test]
fn a_contact_sliding_along_the_row_moves_the_held_key() {
    let mut st = with_keys();
    assert_eq!(down(&mut st, 1, 45.0, 150.0).key_edges, vec![(0, true)]);
    let edges = down(&mut st, 1, 145.0, 150.0).key_edges;
    assert!(edges.contains(&(0, false)), "{edges:?}");
    assert!(edges.contains(&(1, true)), "{edges:?}");
    assert!(!st.held[0] && st.held[1]);
}

#[test]
fn disabling_keys_releases_everything_held() {
    let mut st = with_keys();
    down(&mut st, 1, 45.0, 150.0);
    assert!(st.held[0]);
    st.keys_enabled = false;
    for c in st.contacts.values_mut() {
        c.key = None;
    }
    let edges = st.recompute_held();
    assert_eq!(edges, vec![(0, false)]);
}

#[test]
fn reset_contacts_releases_every_key_and_clears_the_table() {
    let mut st = with_keys();
    down(&mut st, 1, 45.0, 150.0);
    down(&mut st, 2, 145.0, 150.0);
    let edges = st.reset_contacts();
    assert_eq!(st.stats.live, 0);
    assert!(st.contacts.is_empty());
    assert!(edges.contains(&(0, false)));
    assert!(edges.contains(&(1, false)));
    assert!(
        st.quiet_contacts(0, 0).is_empty(),
        "a released contact must not be left for the watchdog to find"
    );
}

#[test]
fn only_silent_contacts_are_offered_to_the_watchdog() {
    let silent = 400_000_000;
    let now = 5_000_000_000;
    let mut st = with_keys();
    let se = sense(&st, 45.0);
    st.ingest(7, s(45.0), s(150.0), true, now, &se);
    let se = sense(&st, 145.0);
    st.ingest(8, s(145.0), s(150.0), true, now, &se);
    assert!(st.quiet_contacts(now, silent).is_empty());

    if let Some(c) = st.contacts.get_mut(&7) {
        c.seen = now - 1_000_000_000;
    }
    assert_eq!(st.quiet_contacts(now, silent), vec![7]);

    st.restamp(7, now);
    assert!(st.quiet_contacts(now, silent).is_empty());
}

#[test]
fn the_top_strip_is_chrome_but_the_key_band_is_not() {
    let st = with_keys();
    assert!(st.is_chrome_point(s(20.0), s(20.0)));
    assert!(!st.is_chrome_point(s(45.0), s(150.0)));
}

#[test]
fn an_overlay_makes_the_whole_screen_chrome() {
    let mut st = with_keys();
    st.keys_enabled = false;
    assert!(st.is_chrome_point(s(45.0), s(150.0)));
}

#[test]
fn a_chrome_contact_becomes_the_cursor_and_a_key_contact_does_not() {
    let mut st = with_keys();
    assert_eq!(down(&mut st, 1, 45.0, 150.0).cursor, CursorAction::Nothing);
    assert_eq!(st.cursor, None);
    assert_eq!(
        down(&mut st, 2, 20.0, 20.0).cursor,
        CursorAction::Press(s(20.0), s(20.0))
    );
    assert_eq!(st.cursor, Some(2));
    assert_eq!(
        down(&mut st, 2, 30.0, 25.0).cursor,
        CursorAction::Move(s(30.0), s(25.0))
    );
    assert_eq!(
        up(&mut st, 2, 30.0, 25.0).cursor,
        CursorAction::Release(s(30.0), s(25.0))
    );
    assert_eq!(st.cursor, None);
}

#[test]
fn a_finger_already_down_cannot_claim_the_cursor_when_an_overlay_opens() {
    let mut st = with_keys();
    assert_eq!(down(&mut st, 1, 45.0, 150.0).key_edges, vec![(0, true)]);
    assert_eq!(st.cursor, None);

    assert_eq!(
        down(&mut st, 2, 20.0, 20.0).cursor,
        CursorAction::Press(s(20.0), s(20.0))
    );
    st.keys_enabled = false;
    for c in st.contacts.values_mut() {
        c.key = None;
    }
    st.recompute_held();
    assert_eq!(
        up(&mut st, 2, 20.0, 20.0).cursor,
        CursorAction::Release(s(20.0), s(20.0))
    );
    assert_eq!(st.cursor, None);

    assert_eq!(down(&mut st, 1, 46.0, 151.0).cursor, CursorAction::Nothing);
    assert_eq!(down(&mut st, 1, 48.0, 152.0).cursor, CursorAction::Nothing);
    assert_eq!(st.cursor, None);

    assert_eq!(
        down(&mut st, 3, 300.0, 400.0).cursor,
        CursorAction::Press(s(300.0), s(400.0))
    );
    assert_eq!(st.cursor, Some(3));
}

#[test]
fn a_contact_that_arrived_while_the_cursor_was_taken_never_inherits_it() {
    let mut st = with_keys();
    assert_eq!(
        down(&mut st, 1, 20.0, 20.0).cursor,
        CursorAction::Press(s(20.0), s(20.0))
    );
    assert_eq!(down(&mut st, 2, 40.0, 20.0).cursor, CursorAction::Nothing);
    assert_eq!(
        up(&mut st, 1, 20.0, 20.0).cursor,
        CursorAction::Release(s(20.0), s(20.0))
    );
    assert_eq!(down(&mut st, 2, 41.0, 21.0).cursor, CursorAction::Nothing);
    assert_eq!(st.cursor, None);

    assert_eq!(up(&mut st, 2, 41.0, 21.0).cursor, CursorAction::Nothing);
    assert_eq!(
        down(&mut st, 2, 41.0, 21.0).cursor,
        CursorAction::Press(s(41.0), s(21.0))
    );
    assert_eq!(st.cursor, Some(2));
}

#[test]
fn only_one_cursor_at_a_time() {
    let mut st = with_keys();
    assert_eq!(
        down(&mut st, 1, 20.0, 20.0).cursor,
        CursorAction::Press(s(20.0), s(20.0))
    );
    assert_eq!(down(&mut st, 2, 40.0, 20.0).cursor, CursorAction::Nothing);
    assert_eq!(st.cursor, Some(1));
}

#[test]
fn the_mouse_contact_never_drives_the_cursor() {
    let mut st = with_keys();
    assert_eq!(
        down(&mut st, MOUSE_CONTACT, 20.0, 20.0).cursor,
        CursorAction::Nothing
    );
    assert_eq!(st.cursor, None);
}

#[test]
fn a_lifted_contact_releases_where_it_was_last_seen() {
    let mut st = with_keys();
    down(&mut st, 1, 20.0, 20.0);
    assert_eq!(
        up(&mut st, 1, 500.0, 500.0).cursor,
        CursorAction::Release(s(20.0), s(20.0))
    );
}

#[test]
fn a_contact_on_a_fader_presses_no_key() {
    let mut st = with_keys();
    st.faders.set_cfg(abs_cfg());
    st.faders
        .set_zones([zone_at(0.0, 100.0, 300.0, 200.0, 150.0, 100.0), Zone::default()]);
    let ing = down(&mut st, 1, 250.0, 150.0);
    assert!(ing.key_edges.is_empty());
    assert_eq!(ing.analog.map(|l| f(l[0])), Some(1.0));
    assert!(st.faders.owns(1));
    assert_eq!(ing.cursor, CursorAction::Nothing);
}

#[test]
fn display_change_flag_is_one_shot() {
    let mut b = Bridge::create();
    assert!(!b.take_display_change(), "starts clear");
    b.note_display_change();
    assert!(b.take_display_change(), "reports the change once");
    assert!(!b.take_display_change(), "and clears itself");
}

#[test]
fn a_pinned_window_refuses_the_maximize_geometry() {
    let mut b = Bridge::create();
    let pin = PinRect {
        left: 0,
        top: 1440,
        width: 1920,
        height: 1080,
    };
    b.set_pinned(Some(pin));

    let (mut x, mut y, mut cx, mut cy) = (-8, 1432, 1936, 1096);
    assert_eq!(
        b.hold_position(true, true, &mut x, &mut y, &mut cx, &mut cy),
        Some(1)
    );
    assert_eq!((x, y, cx, cy), (0, 1440, 1920, 1080));
    assert_eq!(b.vetoed_moves(), 1);
}

#[test]
fn windowed_mode_leaves_the_window_alone() {
    let mut b = Bridge::create();
    b.set_pinned(None);
    let (mut x, mut y, mut cx, mut cy) = (100, 200, 1280, 720);
    assert_eq!(
        b.hold_position(true, true, &mut x, &mut y, &mut cx, &mut cy),
        None
    );
    assert_eq!((x, y, cx, cy), (100, 200, 1280, 720));
}

fn bridge() -> Bridge {
    let mut b = Bridge::create();
    b.set_key_geom(geom());
    b
}

fn touch(b: &mut Bridge, id: u32, x: f32, alive: bool, route: Route, now: u64) -> Ingest {
    let se = sense(&b.state, x);
    b.process(id, s(x), s(150.0), alive, route, now, &se)
}

#[test]
fn a_lost_contact_is_lifted_so_that_its_key_cannot_stick() {
    let mut b = bridge();
    touch(&mut b, 3, 45.0, true, Route::Touch, 0);
    assert!(b.expire_lost_contacts(TOUCH_SILENT - 1).is_empty());
    assert_eq!(b.expire_lost_contacts(TOUCH_SILENT), vec![3]);
    let se = sense(&b.state, 0.0);
    match b.settle_suspect(3, Route::Touch, true, TOUCH_SILENT, &se) {
        Expiry::Lost(n, done) => {
            assert_eq!(n, 1);
            assert_eq!(done.key_edges, vec![(0, false)]);
        }
        Expiry::Alive => panic!("a touch cannot be asked"),
    }
    assert_eq!(b.expired_contacts(), 1);
    assert_eq!(b.stats().live, 0);
}

#[test]
fn a_pointer_that_is_still_down_is_given_a_sign_of_life() {
    let mut b = bridge();
    touch(&mut b, 3, 45.0, true, Route::Pointer, 0);
    assert_eq!(b.expire_lost_contacts(CONTACT_SILENT), vec![3]);
    let se = sense(&b.state, 0.0);
    assert!(matches!(
        b.settle_suspect(3, Route::Pointer, true, CONTACT_SILENT, &se),
        Expiry::Alive
    ));
    assert!(b.expire_lost_contacts(CONTACT_SILENT + 1).is_empty());
    assert_eq!(b.stats().live, 1);
}

#[test]
fn contacts_of_no_known_route_are_not_looked_after() {
    let mut b = bridge();
    let se = sense(&b.state, 45.0);
    b.state.ingest(3, s(45.0), s(150.0), true, 0, &se);
    assert!(b.expire_lost_contacts(u64::MAX).is_empty());
}

#[test]
fn levels_are_announced_once() {
    let mut b = bridge();
    b.set_fader_cfg(abs_cfg());
    b.set_fader_geom([zone_at(0.0, 100.0, 300.0, 100.0, 150.0, 100.0), Zone::default()]);
    let first = touch(&mut b, 1, 250.0, true, Route::Touch, 0);
    assert_eq!(first.analog.map(|l| f(l[0])), Some(1.0));
    let again = touch(&mut b, 1, 250.0, true, Route::Touch, 1);
    assert!(again.analog.is_none());
    touch(&mut b, 1, 250.0, false, Route::Touch, 2);
    let (levels, grabbed, dirs) = b.fader_snapshot();
    assert_eq!(f(levels[0]), 1.0);
    assert_eq!(grabbed, [false, false]);
    assert_eq!(dirs, [1, 0]);
    let products = [s(1.0 * 0.7), s(0.0)];
    assert_eq!(b.tick_faders(&products).map(|l| f(l[0])), Some(0.7));
}

#[test]
fn the_first_look_at_a_minimized_window_lifts_everything() {
    let mut b = bridge();
    assert!(!b.restore_if_minimized(true).restore, "no window yet");
    assert_eq!(b.install(0), Takeover::Missing);
    assert_eq!(b.install(77), Takeover::Begun);
    assert_eq!(b.install(77), Takeover::Done);
    assert!(b.is_mine(77));
    assert!(!b.is_mine(78));
    touch(&mut b, 1, 45.0, true, Route::Touch, 0);
    let r = b.restore_if_minimized(true);
    assert!(r.announce && r.restore);
    assert_eq!(r.key_edges, vec![(0, false)]);
    let r = b.restore_if_minimized(true);
    assert!(!r.announce && r.restore);
    let r = b.restore_if_minimized(false);
    assert!(!r.announce && !r.restore);
}

#[test]
fn a_window_that_could_not_be_hooked_is_forgotten() {
    let mut b = bridge();
    assert_eq!(b.install(77), Takeover::Begun);
    assert!(!b.finish_install(false));
    assert!(!b.is_mine(77));
    assert_eq!(b.install(77), Takeover::Begun);
    assert!(b.finish_install(true));
    touch(&mut b, 1, 45.0, true, Route::Touch, 0);
    assert_eq!(b.reset(), vec![(0, false)]);
    assert!(!b.is_mine(77));
}

#[test]
fn a_foreign_callback_thread_is_complained_about_once() {
    let mut b = bridge();
    assert!(!b.verify_callback_thread(false), "not hooked yet");
    b.install(77);
    assert!(!b.verify_callback_thread(true));
    assert!(b.verify_callback_thread(false));
    assert!(!b.verify_callback_thread(false));
}

#[test]
fn the_mouse_can_hold_a_key() {
    let mut b = bridge();
    let se = sense(&b.state, 45.0);
    let ing = b.track_mouse(s(45.0), s(150.0), false, 0, &se);
    assert_eq!(ing.key_edges, vec![(0, true)]);
    let ing = b.track_mouse(s(45.0), s(150.0), true, 0, &se);
    assert_eq!(ing.key_edges, vec![(0, false)]);
    assert_eq!(ing.cursor, CursorAction::Nothing);
}

#[test]
fn switching_keys_off_and_on_again_presses_nothing_by_itself() {
    let mut b = bridge();
    touch(&mut b, 1, 45.0, true, Route::Touch, 0);
    assert_eq!(b.set_keys_enabled(false), vec![(0, false)]);
    assert!(!b.keys_enabled());
    assert!(b.set_keys_enabled(true).is_empty());
    let ing = touch(&mut b, 1, 45.0, true, Route::Touch, 1);
    assert_eq!(ing.key_edges, vec![(0, true)]);
}

#[test]
fn absolute_levels_stay_in_range_and_decay_keeps_their_side() {
    let mut fs = engine(abs_cfg());
    for x in [-900.0, 50.0, 120.0, 149.0, 150.0, 190.0, 250.0, 9000.0] {
        offer(&mut fs, 1, 150.0, 50.0);
        let before = level(&fs);
        let moved = offer(&mut fs, 1, x, 50.0);
        assert_eq!(moved, level(&fs) != before);
        assert!((-1.0..=1.0).contains(&level(&fs)), "{x}");
        fs.release(1);
        let mut last = level(&fs);
        for _ in 0..30 {
            let moved = decay_step(&mut fs);
            let now = level(&fs);
            assert_eq!(moved, now != last);
            assert!(now.abs() <= last.abs() && now * last >= 0.0);
            last = now;
        }
        assert_eq!(last, 0.0);
    }
}

#[test]
fn the_face_of_a_key_is_hit_whatever_the_key_before() {
    let g = geom();
    for n in 0..KEY_COUNT {
        for x in [n as f32 * 100.0, n as f32 * 100.0 + 45.0, n as f32 * 100.0 + 89.0] {
            for prev in 0..20 {
                assert_eq!(hit(&g, x, 150.0, Some(prev)), Some(n), "{x} {prev}");
            }
            assert_eq!(hit(&g, x, 150.0, None), Some(n));
        }
    }
    for x in -20..1220 {
        let fresh = hit(&g, x as f32, 150.0, None);
        for prev in 0..20 {
            let h = hit(&g, x as f32, 150.0, Some(prev));
            assert_eq!(h.is_some(), fresh.is_some());
            assert!(h.unwrap_or(0) < KEY_COUNT);
        }
    }
}
