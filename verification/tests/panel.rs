//! The diagnostics panel, the log and the settings.
use pchordpad::config::{
    clamp_port, default_key_height, default_mon_auto, load_file, Config, Found, Places, Saving,
};
use pchordpad::diagnostics::{button_index, Diagnostics, LOG_LINES};
use pchordpad::logging::{accepts, log_line, rotates, stamp};
use pchordpad::single::Single;
use pchordpad::spiceapi::DEFAULT_PORT;

fn s(v: f32) -> Single {
    Single::from_bits(v.to_bits())
}

fn f(v: Single) -> f32 {
    f32::from_bits(v.to_bits())
}

#[test]
fn button_names_map_to_lamps_and_auxiliaries_do_not() {
    assert_eq!(button_index("Button 1"), Some(0));
    assert_eq!(button_index("Button 12"), Some(11));
    assert_eq!(button_index("Button 13"), None);
    assert_eq!(button_index("Button 0"), None);
    assert_eq!(button_index("Service"), None);
    assert_eq!(button_index("Fader-L Left"), None);
}

#[test]
fn button_numbers_are_read_as_numbers() {
    assert_eq!(button_index("Button +3"), Some(2));
    assert_eq!(button_index("Button 007"), Some(6));
    assert_eq!(button_index("Button +"), None);
    assert_eq!(button_index("Button "), None);
    assert_eq!(button_index("Button -1"), None);
    assert_eq!(button_index("Button 1 "), None);
    assert_eq!(button_index("Button 99999999999999999999999"), None);
    assert_eq!(button_index("button 1"), None);
}

#[test]
fn digital_events_track_held_keys() {
    let mut st = Diagnostics::new();
    st.on_digital("Button 3", true, 0);
    st.on_digital("Service", true, 0);
    assert!(st.keys()[2]);
    assert_eq!(
        st.keys().iter().filter(|k| **k).count(),
        1,
        "Service is not a lamp"
    );
    st.on_digital("Button 3", false, 0);
    assert!(!st.keys()[2]);
    assert_eq!(st.digital_events(), 3);
}

#[test]
fn the_log_is_bounded() {
    let mut st = Diagnostics::new();
    for _ in 0..(LOG_LINES * 3) {
        st.on_digital("Button 1", true, 0);
    }
    assert_eq!(st.log_lines().len(), LOG_LINES);
}

#[test]
fn the_newest_line_is_the_last() {
    let mut st = Diagnostics::new();
    for ms in 0..7 {
        st.on_digital("Button 1", ms % 2 == 0, ms);
    }
    let lines = st.log_lines();
    assert_eq!(lines.len(), 5);
    assert_eq!(lines[0], "00:00.002  Button 1       DOWN");
    assert_eq!(lines[4], "00:00.006  Button 1       DOWN");
    assert_eq!(
        st.on_digital("A name that is long", false, 61_001),
        "01:01.001  A name that is long up"
    );
}

#[test]
fn analog_events_are_counted() {
    let mut st = Diagnostics::new();
    st.on_analog("Fader-L", s(0.5));
    st.on_analog("Fader-R", s(-0.5));
    assert_eq!(st.analog_events(), 2);
    assert_eq!(st.digital_events(), 0);
}

#[test]
fn latency_summary_is_empty_until_sampled() {
    let mut st = Diagnostics::new();
    assert_eq!(st.latency_summary("", ""), "—");
    st.on_latency(s(4.0));
    st.on_latency(s(9.0));
    assert!(st.latency_summary("9.0", "9.0").contains("n=2"));
}

#[test]
fn latency_figures_are_the_middle_and_the_greatest() {
    let mut st = Diagnostics::new();
    assert!(st.latency_figures().is_none());
    for ms in [9.0, 4.0, 30.5, -1.0, 4.0] {
        st.on_latency(s(ms));
    }
    let figures = st.latency_figures().expect("sampled");
    assert_eq!(f(figures.p50), 4.0);
    assert_eq!(f(figures.max), 30.5);
    assert_eq!(figures.n, 5);
    assert_eq!(
        st.latency_summary("4.0", "30.5"),
        "p50 4.0 ms · max 30.5 ms · n=5"
    );
}

#[test]
fn stamps_are_minutes_seconds_and_milliseconds() {
    assert_eq!(stamp(0), "00:00.000");
    assert_eq!(stamp(59_999), "00:59.999");
    assert_eq!(stamp(60_000), "01:00.000");
    assert_eq!(stamp(6_000_007), "100:00.007");
}

#[test]
fn log_lines_are_aligned() {
    assert_eq!(log_line(1500, "INFO", "hello"), "[00:01.500] [INFO ] hello\n");
    assert_eq!(log_line(0, "ERROR", "×"), "[00:00.000] [ERROR] ×\n");
}

#[test]
fn the_log_queue_and_file_are_bounded() {
    assert!(accepts(0));
    assert!(accepts(4095));
    assert!(!accepts(4096));
    assert!(!rotates(5_000_000));
    assert!(rotates(5_000_001));
}

#[test]
fn defaults_are_sane() {
    let c = Config::default();
    assert!(c.relative_faders);
    assert_eq!(c.api_port, DEFAULT_PORT);
    assert_eq!(c.pad_monitor, -1);
}

#[test]
fn the_default_numbers_are_what_they_say() {
    let c = Config::default();
    assert_eq!(f(c.fader_decay), 0.7);
    assert_eq!(f(c.fader_dead), 0.04);
    assert_eq!(f(c.fader_curve), 1.0);
    assert_eq!(f(c.fader_rel_travel), 100.0);
    assert_eq!(f(c.fader_speed_dead), 2.5);
    assert_eq!(f(c.playfield_fit), 1.0);
    assert_eq!(f(c.key_height), 0.66);
    assert_eq!(f(c.fader_pos), 0.0);
    assert_eq!(f(default_key_height()), 0.66);
    assert_eq!(default_mon_auto(), -1);
    assert_eq!(c.nav_monitor, -1);
    assert!(!c.diagnostics && !c.light_keys && !c.flip_vertical && !c.windowed);
}

#[test]
fn settings_that_cannot_be_had_are_the_defaults() {
    let other = Config {
        api_port: 4242,
        ..Config::default()
    };
    assert!(Config::load(&Found::Parsed(other)) == other);
    assert!(Config::load(&Found::Missing) == Config::default());
    assert!(Config::load(&Found::Malformed("eof".to_string())) == Config::default());
    assert!(load_file(&Found::Missing).is_none());
    assert!(load_file(&Found::Malformed("eof".to_string())).is_none());
    assert!(load_file(&Found::Parsed(other)).is_some());
    assert!(other != Config::default());
}

#[test]
fn ports_are_brought_to_ones_there_are() {
    assert_eq!(clamp_port(-5), 1);
    assert_eq!(clamp_port(0), 1);
    assert_eq!(clamp_port(1337), 1337);
    assert_eq!(clamp_port(65535), 65535);
    assert_eq!(clamp_port(70000), 65535);
}

fn places() -> Places {
    Places {
        parent: Some("dir".to_string()),
        temp: "dir/a.json.tmp".to_string(),
        path: "dir/a.json".to_string(),
    }
}

#[test]
fn saving_writes_beside_and_then_replaces() {
    let p = places();
    let mut at = Saving::Begun;
    let mut seen = Vec::new();
    while at != Saving::Saved {
        assert_eq!(at.save_to_path(&p, None), None);
        seen.push(at);
    }
    assert_eq!(
        seen,
        vec![
            Saving::Rendering,
            Saving::MakingDir,
            Saving::Writing,
            Saving::Replacing,
            Saving::Saved
        ]
    );
}

#[test]
fn saving_into_the_current_directory_makes_none() {
    let p = Places {
        parent: None,
        ..places()
    };
    let mut at = Saving::Rendering;
    at.save_to_path(&p, None);
    assert_eq!(at, Saving::Writing);
}

#[test]
fn every_failed_step_of_saving_has_its_reason() {
    let p = places();
    for (from, to, why) in [
        (Saving::Rendering, Saving::Failed, "serialize: no"),
        (Saving::MakingDir, Saving::Failed, "mkdir dir: no"),
        (Saving::Writing, Saving::Failed, "write dir/a.json.tmp: no"),
        (Saving::Replacing, Saving::Removing, "rename dir/a.json: no"),
    ] {
        let mut at = from;
        assert_eq!(at.save_to_path(&p, Some("no")), Some(why.to_string()));
        assert_eq!(at, to);
    }
    let mut at = Saving::Removing;
    assert_eq!(at.save_to_path(&p, None), None);
    assert_eq!(at, Saving::Failed);
}

#[test]
fn many_falling_samples_are_put_in_order() {
    let mut st = Diagnostics::new();
    for n in (0..200_000u32).rev() {
        st.on_latency(s(n as f32));
    }
    let figures = st.latency_figures().expect("sampled");
    assert_eq!(f(figures.p50), 100_000.0);
    assert_eq!(f(figures.max), 199_999.0);
    assert_eq!(figures.n, 200_000);
}
