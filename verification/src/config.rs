//! The settings: their defaults, where they come from, and how they are put away so
//! that a reader never finds half of them.
use crate::single::{Single, ONE, ZERO};
use crate::spiceapi::DEFAULT_PORT;
use vstd::prelude::*;
use vstd::string::*;

verus! {

/// The pattern of 0.7.
pub const DECAY: u32 = 0x3f33_3333;

/// The pattern of 0.04.
pub const DEAD: u32 = 0x3d23_d70a;

/// The pattern of 100.0.
pub const TRAVEL: u32 = 0x42c8_0000;

/// The pattern of 2.5.
pub const SPEED_DEAD: u32 = 0x4020_0000;

/// The pattern of 0.66.
pub const KEY_HEIGHT: u32 = 0x3f28_f5c3;

/// The settings.
#[derive(Debug, Clone, Copy)]
pub struct Config {
    pub relative_faders: bool,
    pub fader_decay: Single,
    pub fader_dead: Single,
    pub fader_curve: Single,
    pub fader_rel_travel: Single,
    pub fader_speed_dead: Single,
    pub playfield_fit: Single,
    pub key_height: Single,
    pub fader_pos: Single,
    pub diagnostics: bool,
    pub api_port: u16,
    pub light_keys: bool,
    pub flip_vertical: bool,
    pub windowed: bool,
    pub pad_monitor: i32,
    pub nav_monitor: i32,
}

/// The settings of a pad that was never set up.
pub open spec fn default_settings() -> Config {
    Config {
        relative_faders: true,
        fader_decay: Single { bits: DECAY },
        fader_dead: Single { bits: DEAD },
        fader_curve: Single { bits: ONE },
        fader_rel_travel: Single { bits: TRAVEL },
        fader_speed_dead: Single { bits: SPEED_DEAD },
        playfield_fit: Single { bits: ONE },
        key_height: Single { bits: KEY_HEIGHT },
        fader_pos: Single { bits: ZERO },
        diagnostics: false,
        api_port: DEFAULT_PORT,
        light_keys: false,
        flip_vertical: false,
        windowed: false,
        pad_monitor: -1i32,
        nav_monitor: -1i32,
    }
}

/// The screen of a pad that chooses its screen by itself.
pub fn default_mon_auto() -> (r: i32)
    ensures
        r == -1,
{
    -1
}

/// The share of the playfield that the keys take where nothing else is set.
pub fn default_key_height() -> (r: Single)
    ensures
        r.bits == KEY_HEIGHT,
{
    Single { bits: KEY_HEIGHT }
}

impl Default for Config {
    fn default() -> (r: Config)
        ensures
            r == default_settings(),
    {
        Config {
            relative_faders: true,
            fader_decay: Single { bits: DECAY },
            fader_dead: Single { bits: DEAD },
            fader_curve: Single { bits: ONE },
            fader_rel_travel: Single { bits: TRAVEL },
            fader_speed_dead: Single { bits: SPEED_DEAD },
            playfield_fit: Single { bits: ONE },
            key_height: default_key_height(),
            fader_pos: Single { bits: ZERO },
            diagnostics: false,
            api_port: DEFAULT_PORT,
            light_keys: false,
            flip_vertical: false,
            windowed: false,
            pad_monitor: default_mon_auto(),
            nav_monitor: default_mon_auto(),
        }
    }
}

/// What became of reading the settings.
pub enum Found {
    /// There was no file that could be read.
    Missing,
    /// What it holds is not settings, and why.
    Malformed(String),
    /// It holds these.
    Parsed(Config),
}

/// The settings that a file holds.
pub open spec fn held_by_file(found: Found) -> Option<Config> {
    match found {
        Found::Parsed(c) => Some(c),
        _ => None,
    }
}

/// The settings to start with.
pub open spec fn starting(found: Found) -> Config {
    match found {
        Found::Parsed(c) => c,
        _ => default_settings(),
    }
}

/// The settings that a file holds, where it holds any.
pub fn load_file(found: &Found) -> (r: Option<Config>)
    ensures
        r == held_by_file(*found),
{
    match found {
        Found::Parsed(c) => Some(*c),
        _ => None,
    }
}

impl Config {
    /// The settings to start with: those of the file, or the defaults.
    pub fn load(found: &Found) -> (r: Config)
        ensures
            r == starting(*found),
    {
        match load_file(found) {
            Some(c) => c,
            None => Config::default(),
        }
    }

    /// Whether two settings agree in everything, as numbers agree.
    pub open spec fn agrees(self, other: Config) -> bool {
        &&& self.relative_faders == other.relative_faders
        &&& self.fader_decay.equals(other.fader_decay)
        &&& self.fader_dead.equals(other.fader_dead)
        &&& self.fader_curve.equals(other.fader_curve)
        &&& self.fader_rel_travel.equals(other.fader_rel_travel)
        &&& self.fader_speed_dead.equals(other.fader_speed_dead)
        &&& self.playfield_fit.equals(other.playfield_fit)
        &&& self.key_height.equals(other.key_height)
        &&& self.fader_pos.equals(other.fader_pos)
        &&& self.diagnostics == other.diagnostics
        &&& self.api_port == other.api_port
        &&& self.light_keys == other.light_keys
        &&& self.flip_vertical == other.flip_vertical
        &&& self.windowed == other.windowed
        &&& self.pad_monitor == other.pad_monitor
        &&& self.nav_monitor == other.nav_monitor
    }
}

impl PartialEq for Config {
    fn eq(&self, other: &Config) -> (r: bool) {
        self.relative_faders == other.relative_faders && self.fader_decay.same(other.fader_decay)
            && self.fader_dead.same(other.fader_dead) && self.fader_curve.same(other.fader_curve)
            && self.fader_rel_travel.same(other.fader_rel_travel) && self.fader_speed_dead.same(
            other.fader_speed_dead,
        ) && self.playfield_fit.same(other.playfield_fit) && self.key_height.same(other.key_height)
            && self.fader_pos.same(other.fader_pos) && self.diagnostics == other.diagnostics
            && self.api_port == other.api_port && self.light_keys == other.light_keys
            && self.flip_vertical == other.flip_vertical && self.windowed == other.windowed
            && self.pad_monitor == other.pad_monitor && self.nav_monitor == other.nav_monitor
    }
}

impl vstd::std_specs::cmp::PartialEqSpecImpl for Config {
    open spec fn obeys_eq_spec() -> bool {
        true
    }

    open spec fn eq_spec(&self, other: &Config) -> bool {
        self.agrees(*other)
    }
}

/// A port that was asked for, brought to one that there is.
pub open spec fn port_within(asked: i32) -> int {
    if asked < 1 {
        1
    } else if asked > 65535 {
        65535
    } else {
        asked as int
    }
}

/// A port that was asked for, brought to one that there is.
pub fn clamp_port(asked: i32) -> (r: u16)
    ensures
        r == port_within(asked),
{
    if asked < 1 {
        1
    } else if asked > 65535 {
        65535
    } else {
        asked as u16
    }
}

/// Where putting the settings away stands: what is being done.
#[derive(Debug, Clone, Copy, PartialEq, Eq, Structural)]
pub enum Saving {
    Begun,
    /// The settings are being rendered.
    Rendering,
    /// The directory is being made.
    MakingDir,
    /// A file beside the settings' own is being written.
    Writing,
    /// That file takes the place of the settings' own.
    Replacing,
    /// That file is being removed, because it could not take the place.
    Removing,
    Saved,
    Failed,
}

/// The names that a complaint mentions.
pub struct Places {
    /// The directory, where there is one to make.
    pub parent: Option<String>,
    /// The file beside.
    pub temp: String,
    /// The settings' own file.
    pub path: String,
}

impl Saving {
    /// What is done next, after what was being done succeeded or failed.
    pub open spec fn after(self, has_parent: bool, ok: bool) -> Saving {
        match self {
            Saving::Begun => Saving::Rendering,
            Saving::Rendering => if !ok {
                Saving::Failed
            } else if has_parent {
                Saving::MakingDir
            } else {
                Saving::Writing
            },
            Saving::MakingDir => if ok {
                Saving::Writing
            } else {
                Saving::Failed
            },
            Saving::Writing => if ok {
                Saving::Replacing
            } else {
                Saving::Failed
            },
            Saving::Replacing => if ok {
                Saving::Saved
            } else {
                Saving::Removing
            },
            Saving::Removing => Saving::Failed,
            Saving::Saved => Saving::Saved,
            Saving::Failed => Saving::Failed,
        }
    }

    /// Why putting the settings away failed, where what was being done failed so.
    pub open spec fn complaint(self, places: Places, error: Seq<char>) -> Option<Seq<char>> {
        match self {
            Saving::Rendering => Some("serialize: "@ + error),
            Saving::MakingDir => Some(
                "mkdir "@ + (match places.parent {
                    Some(p) => p@,
                    None => Seq::empty(),
                }) + ": "@ + error,
            ),
            Saving::Writing => Some("write "@ + places.temp@ + ": "@ + error),
            Saving::Replacing => Some("rename "@ + places.path@ + ": "@ + error),
            _ => None,
        }
    }

    /// Goes on to what is done next. Where what was being done failed, `failure` is
    /// how, and the reason is returned.
    pub fn save_to_path(&mut self, places: &Places, failure: Option<&str>) -> (r: Option<String>)
        ensures
            *final(self) == old(self).after(places.parent is Some, failure is None),
            match failure {
                None => r is None,
                Some(error) => match old(self).complaint(*places, error@) {
                    Some(why) => r matches Some(text) && text@ == why,
                    None => r is None,
                },
            },
    {
        let was = *self;
        let ok = failure.is_none();
        *self = match was {
            Saving::Begun => Saving::Rendering,
            Saving::Rendering => if !ok {
                Saving::Failed
            } else if places.parent.is_some() {
                Saving::MakingDir
            } else {
                Saving::Writing
            },
            Saving::MakingDir => if ok {
                Saving::Writing
            } else {
                Saving::Failed
            },
            Saving::Writing => if ok {
                Saving::Replacing
            } else {
                Saving::Failed
            },
            Saving::Replacing => if ok {
                Saving::Saved
            } else {
                Saving::Removing
            },
            Saving::Removing => Saving::Failed,
            Saving::Saved => Saving::Saved,
            Saving::Failed => Saving::Failed,
        };
        let error = match failure {
            Some(e) => e,
            None => {
                return None;
            },
        };
        let mut why = match was {
            Saving::Rendering => "serialize: ".to_owned(),
            Saving::MakingDir => {
                let mut s = "mkdir ".to_owned();
                match &places.parent {
                    Some(p) => {
                        s.append(p.as_str());
                    },
                    None => {
                        assert(s@ =~= "mkdir "@ + Seq::<char>::empty());
                    },
                }
                s.append(": ");
                s
            },
            Saving::Writing => {
                let mut s = "write ".to_owned();
                s.append(places.temp.as_str());
                s.append(": ");
                s
            },
            Saving::Replacing => {
                let mut s = "rename ".to_owned();
                s.append(places.path.as_str());
                s.append(": ");
                s
            },
            _ => {
                return None;
            },
        };
        why.append(error);
        Some(why)
    }
}

/// What a saving run has done so far: what was being done, and whether it succeeded.
pub open spec fn saving_run(has_parent: bool, outcomes: Seq<bool>) -> Saving
    decreases outcomes.len(),
{
    if outcomes.len() == 0 {
        Saving::Begun
    } else {
        saving_run(has_parent, outcomes.drop_last()).after(has_parent, outcomes.last())
    }
}

/// Saving is all or nothing: the settings' own file is touched only by being
/// replaced, and that happens only once everything before has succeeded, the
/// complete writing of the file beside it included.
pub proof fn saving_is_all_or_nothing(has_parent: bool, outcomes: Seq<bool>)
    ensures
        saving_run(has_parent, outcomes) == Saving::Replacing ==> {
            &&& outcomes.len() >= 2
            &&& outcomes.last()
            &&& saving_run(has_parent, outcomes.drop_last()) == Saving::Writing
        },
        saving_run(has_parent, outcomes) == Saving::Writing ==> {
            &&& outcomes.len() >= 2
            &&& outcomes.last()
        },
        saving_run(has_parent, outcomes) == Saving::Saved && outcomes.len() > 0 && saving_run(
            has_parent,
            outcomes.drop_last(),
        ) != Saving::Saved ==> outcomes.last() && saving_run(has_parent, outcomes.drop_last())
            == Saving::Replacing,
{
    if outcomes.len() > 0 {
        let before = outcomes.drop_last();
        if before.len() > 0 {
            reveal_with_fuel(saving_run, 2);
        }
    }
}

/// A failure never leaves the file beside behind, where it was written completely:
/// a replacing that failed is followed by its removal.
pub proof fn a_failed_replacing_cleans_up(has_parent: bool)
    ensures
        Saving::Replacing.after(has_parent, false) == Saving::Removing,
        forall|s: Saving, ok: bool| #[trigger]
            s.after(has_parent, ok) == Saving::Failed ==> s != Saving::Replacing,
{
}

} // verus!
