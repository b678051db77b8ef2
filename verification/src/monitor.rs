//! The screens of the desktop: their list, which of them to use, and turning one
//! upside down.
use crate::text::{contents, dec, decimal, signed_dec, signed_decimal};
use vstd::prelude::*;
use vstd::string::*;

verus! {

/// The orientation of a screen that stands as it should.
pub const DMDO_DEFAULT: u32 = 0;

/// The orientation of a screen that is upside down.
pub const DMDO_180: u32 = 2;

/// What a change of the display settings returns when it succeeded.
pub const DISP_CHANGE_SUCCESSFUL: i32 = 0;

/// A screen.
#[derive(Debug, PartialEq)]
pub struct MonInfo {
    pub index: usize,
    pub left: i32,
    pub top: i32,
    pub width: i32,
    pub height: i32,
    pub primary: bool,
    pub device: String,
    pub label: String,
}

/// What there is to know of a screen.
#[verifier::ext_equal]
pub struct MonModel {
    pub index: usize,
    pub left: i32,
    pub top: i32,
    pub width: i32,
    pub height: i32,
    pub primary: bool,
    pub device: Seq<char>,
    pub label: Seq<char>,
}

impl View for MonInfo {
    type V = MonModel;

    open spec fn view(&self) -> MonModel {
        MonModel {
            index: self.index,
            left: self.left,
            top: self.top,
            width: self.width,
            height: self.height,
            primary: self.primary,
            device: self.device@,
            label: self.label@,
        }
    }
}

/// What there is to know of the screens of a list.
pub open spec fn screens(v: Seq<MonInfo>) -> Seq<MonModel> {
    v.map_values(|m: MonInfo| m@)
}

impl Clone for MonInfo {
    fn clone(&self) -> (r: MonInfo)
        ensures
            r@ == self@,
    {
        let r = MonInfo {
            index: self.index,
            left: self.left,
            top: self.top,
            width: self.width,
            height: self.height,
            primary: self.primary,
            device: self.device.clone(),
            label: self.label.clone(),
        };
        assert(r@ =~= self@);
        r
    }
}

impl MonModel {
    /// Whether the far edges of the screen can be told.
    pub open spec fn fits(self) -> bool {
        &&& i32::MIN <= self.left + self.width <= i32::MAX
        &&& i32::MIN <= self.top + self.height <= i32::MAX
    }

    /// Whether two screens take the same place of the desktop.
    pub open spec fn covers_same(self, other: MonModel) -> bool {
        &&& self.left == other.left
        &&& self.top == other.top
        &&& self.width == other.width
        &&& self.height == other.height
    }

    /// What a screen is called in the list.
    pub open spec fn described(self) -> Seq<char> {
        dec(self.index as nat) + ": "@ + signed_dec(self.width as int) + "×"@ + signed_dec(
            self.height as int,
        ) + (if self.primary {
            " primary"@
        } else {
            ""@
        }) + " @ "@ + signed_dec(self.left as int) + ","@ + signed_dec(self.top as int)
    }

    /// A screen as it stands in the list at an index.
    pub open spec fn listed(self, index: usize) -> MonModel {
        let m = MonModel { index, ..self };
        MonModel { label: m.described(), ..m }
    }
}

impl MonInfo {
    /// A screen between four edges, which is in no list yet.
    pub fn between(left: i32, top: i32, right: i32, bottom: i32, primary: bool, device: String)
        -> (r: MonInfo)
        requires
            i32::MIN <= right - left <= i32::MAX,
            i32::MIN <= bottom - top <= i32::MAX,
        ensures
            r@ == (MonModel {
                index: 0,
                left,
                top,
                width: (right - left) as i32,
                height: (bottom - top) as i32,
                primary,
                device: device@,
                label: Seq::empty(),
            }),
            r@.fits(),
    {
        let r = MonInfo {
            index: 0,
            left,
            top,
            width: right - left,
            height: bottom - top,
            primary,
            device,
            label: String::new(),
        };
        assert(r@.label =~= Seq::empty());
        r
    }

    /// What the screen is called.
    pub fn to_text(&self) -> (r: String)
        ensures
            r@ == self@.label,
    {
        self.label.clone()
    }

    /// Whether two screens take the same place of the desktop.
    pub fn same_screen(&self, other: &MonInfo) -> (r: bool)
        ensures
            r == self@.covers_same(other@),
    {
        self.left == other.left && self.top == other.top && self.width == other.width
            && self.height == other.height
    }

    fn describe(&self) -> (r: String)
        ensures
            r@ == self@.described(),
    {
        let mut r = decimal(self.index as u128);
        r.append(": ");
        r.append(signed_decimal(self.width as i64).as_str());
        r.append("×");
        r.append(signed_decimal(self.height as i64).as_str());
        r.append(
            if self.primary {
                " primary"
            } else {
                ""
            },
        );
        r.append(" @ ");
        r.append(signed_decimal(self.left as i64).as_str());
        r.append(",");
        r.append(signed_decimal(self.top as i64).as_str());
        r
    }
}

/// The screens as they stand in the list: each knows its index and has a label.
pub open spec fn listing(found: Seq<MonModel>) -> Seq<MonModel> {
    Seq::new(found.len(), |i: int| found[i].listed(i as usize))
}

/// Lists the screens that were found, in the order they were found in.
pub fn enumerate(found: &Vec<MonInfo>) -> (r: Vec<MonInfo>)
    ensures
        screens(r@) == listing(screens(found@)),
{
    let mut r: Vec<MonInfo> = Vec::new();
    let mut i: usize = 0;
    while i < found.len()
        invariant
            i <= found@.len(),
            r@.len() == i,
            forall|j: int| 0 <= j < i ==> (#[trigger] r@[j])@ == found@[j]@.listed(j as usize),
        decreases found@.len() - i,
    {
        let mut m = found[i].clone();
        m.index = i;
        m.label = m.describe();
        assert(m@ =~= found@[i as int]@.listed(i));
        r.push(m);
        i = i + 1;
    }
    assert(screens(r@) =~= listing(screens(found@)));
    r
}

/// The screen with this index: the first, where a list has several.
pub fn by_index(all: &Vec<MonInfo>, index: usize) -> (r: Option<MonInfo>)
    ensures
        match r {
            Some(m) => exists|i: int|
                {
                    &&& 0 <= i < all@.len()
                    &&& m@ == (#[trigger] all@[i])@
                    &&& all@[i].index == index
                    &&& forall|j: int| 0 <= j < i ==> (#[trigger] all@[j]).index != index
                },
            None => forall|j: int| 0 <= j < all@.len() ==> (#[trigger] all@[j]).index != index,
        },
{
    let mut i: usize = 0;
    while i < all.len()
        invariant
            i <= all@.len(),
            forall|j: int| 0 <= j < i ==> (#[trigger] all@[j]).index != index,
        decreases all@.len() - i,
    {
        if all[i].index == index {
            let m = all[i].clone();
            assert(m@ == all@[i as int]@);
            return Some(m);
        }
        i = i + 1;
    }
    None
}

/// The index of the first screen that is primary, or is not, at or behind `from`.
pub open spec fn first_index(all: Seq<MonModel>, primary: bool, from: int) -> Option<usize>
    decreases all.len() - from,
{
    if from < 0 || from >= all.len() {
        None
    } else if all[from].primary == primary {
        Some(all[from].index)
    } else {
        first_index(all, primary, from + 1)
    }
}

fn first_such(all: &Vec<MonInfo>, primary: bool) -> (r: Option<usize>)
    ensures
        r == first_index(screens(all@), primary, 0),
{
    let mut i: usize = 0;
    while i < all.len()
        invariant
            i <= all@.len(),
            first_index(screens(all@), primary, 0) == first_index(
                screens(all@),
                primary,
                i as int,
            ),
        decreases all@.len() - i,
    {
        assert(screens(all@)[i as int] == all@[i as int]@);
        if all[i].primary == primary {
            return Some(all[i].index);
        }
        i = i + 1;
    }
    None
}

/// The screen that is mirrored unless told otherwise: the primary one, else the
/// first.
pub open spec fn nav_choice(all: Seq<MonModel>) -> usize {
    match first_index(all, true, 0) {
        Some(i) => i,
        None => 0,
    }
}

/// The screen that the pad is on unless told otherwise: one that is not primary,
/// else the first.
pub open spec fn pad_choice(all: Seq<MonModel>) -> usize {
    match first_index(all, false, 0) {
        Some(i) => i,
        None => if all.len() > 0 {
            all[0].index
        } else {
            0
        },
    }
}

/// The screen that is mirrored unless told otherwise.
pub fn default_nav_index(all: &Vec<MonInfo>) -> (r: usize)
    ensures
        r == nav_choice(screens(all@)),
{
    match first_such(all, true) {
        Some(i) => i,
        None => 0,
    }
}

/// The screen that the pad is on unless told otherwise.
pub fn default_pad_index(all: &Vec<MonInfo>) -> (r: usize)
    ensures
        r == pad_choice(screens(all@)),
{
    match first_such(all, false) {
        Some(i) => i,
        None => {
            if all.len() > 0 {
                all[0].index
            } else {
                0
            }
        },
    }
}

/// Whether some screen has this index.
pub open spec fn has_index(all: Seq<MonModel>, index: int) -> bool {
    exists|i: int| 0 <= i < all.len() && (#[trigger] all[i]).index == index
}

/// The screen to use: the stored one where there is such a screen, else the
/// automatic choice, brought down to the last screen where it lies behind it.
pub open spec fn choice(all: Seq<MonModel>, stored: i32, auto: usize) -> int {
    if stored >= 0 && has_index(all, stored as int) {
        stored as int
    } else if auto < all.len() {
        auto as int
    } else if all.len() > 0 {
        all.len() - 1
    } else {
        0
    }
}

/// The screen to use.
pub fn resolve_index(all: &Vec<MonInfo>, stored: i32, auto: usize) -> (r: usize)
    ensures
        r == choice(screens(all@), stored, auto),
{
    if stored >= 0 {
        let index: usize = stored as usize;
        let mut i: usize = 0;
        while i < all.len()
            invariant
                i <= all@.len(),
                index == stored,
                stored >= 0,
                forall|j: int| 0 <= j < i ==> (#[trigger] screens(all@)[j]).index != index,
            decreases all@.len() - i,
        {
            assert(screens(all@)[i as int] == all@[i as int]@);
            if all[i].index == index {
                return index;
            }
            i = i + 1;
        }
    }
    if auto < all.len() {
        auto
    } else if all.len() > 0 {
        all.len() - 1
    } else {
        0
    }
}

/// What the screens are called.
pub fn labels(all: &Vec<MonInfo>) -> (r: Vec<String>)
    ensures
        contents(r@) == screens(all@).map_values(|m: MonModel| m.label),
{
    let mut r: Vec<String> = Vec::new();
    let mut i: usize = 0;
    while i < all.len()
        invariant
            i <= all@.len(),
            r@.len() == i,
            forall|j: int| 0 <= j < i ==> (#[trigger] r@[j])@ == all@[j].label@,
        decreases all@.len() - i,
    {
        r.push(all[i].label.clone());
        i = i + 1;
    }
    assert(contents(r@) =~= screens(all@).map_values(|m: MonModel| m.label));
    r
}

/// In a list, the index of a screen is its place: whoever asks for a place gets the
/// screen there, and nobody gets a screen from beyond the end.
pub proof fn a_listed_screen_is_found_at_its_place(found: Seq<MonModel>, i: int)
    requires
        found.len() <= usize::MAX,
    ensures
        has_index(listing(found), i) <==> 0 <= i < found.len(),
        0 <= i < found.len() ==> listing(found)[i].index == i,
{
    let all = listing(found);
    assert forall|k: int| 0 <= k < all.len() implies (#[trigger] all[k]).index == k by {}
    if 0 <= i < found.len() {
        assert(all[i].index == i);
    }
}

/// Whatever was stored, the screen that is used is one of the list, as long as
/// there is one; and what was stored is used whenever it can be.
pub proof fn the_chosen_screen_exists(found: Seq<MonModel>, stored: i32)
    requires
        0 < found.len() <= usize::MAX,
    ensures
        0 <= choice(listing(found), stored, nav_choice(listing(found))) < found.len(),
        0 <= choice(listing(found), stored, pad_choice(listing(found))) < found.len(),
        0 <= stored < found.len() ==> choice(listing(found), stored, pad_choice(listing(found)))
            == stored,
{
    let all = listing(found);
    a_listed_screen_is_found_at_its_place(found, stored as int);
}

/// With two screens or more of which one is primary, the pad and the mirror choose
/// different screens unless told otherwise.
pub proof fn the_pad_and_the_mirror_part(found: Seq<MonModel>)
    requires
        found.len() <= usize::MAX,
        exists|i: int| 0 <= i < found.len() && (#[trigger] found[i]).primary,
        exists|i: int| 0 <= i < found.len() && !(#[trigger] found[i]).primary,
    ensures
        nav_choice(listing(found)) != pad_choice(listing(found)),
{
    let all = listing(found);
    let a = choose|i: int| 0 <= i < found.len() && (#[trigger] found[i]).primary;
    let b = choose|i: int| 0 <= i < found.len() && !(#[trigger] found[i]).primary;
    assert(all[a].primary);
    assert(!all[b].primary);
    lemma_first_of(found, true, 0, a);
    lemma_first_of(found, false, 0, b);
}

proof fn lemma_first_of(found: Seq<MonModel>, primary: bool, from: int, at: int)
    requires
        found.len() <= usize::MAX,
        0 <= from <= at < found.len(),
        found[at].primary == primary,
    ensures
        first_index(listing(found), primary, from) matches Some(i) && i < found.len()
            && found[i as int].primary == primary,
    decreases at - from,
{
    let all = listing(found);
    assert(all[from].primary == found[from].primary);
    assert(all[from].index == from);
    if found[from].primary != primary {
        lemma_first_of(found, primary, from + 1, at);
    }
}

/// What happened while a screen was being turned.
pub enum FlipEvent {
    Begun,
    /// Its orientation was looked up, or could not be.
    Found(Option<u32>),
    /// A change was asked for, and answered with this code.
    Changed(i32),
}

/// What to do next to turn a screen.
pub enum FlipAction {
    /// Look up its orientation.
    LookUp,
    /// Change it to this.
    Change(u32),
    /// It stands so already.
    Already,
    /// It was turned.
    Turned,
    /// It cannot be turned, and why.
    Failed(String),
}

/// The orientation of a screen that is upside down or not.
pub open spec fn orientation(flipped: bool) -> u32 {
    if flipped {
        DMDO_180
    } else {
        DMDO_DEFAULT
    }
}

/// Why a change of orientation failed.
pub open spec fn change_failed(device: Seq<char>, flipped: bool, rc: i32) -> Seq<char> {
    "ChangeDisplaySettingsEx("@ + device + " → "@ + dec(orientation(flipped) as nat)
        + ") failed: "@ + signed_dec(rc as int)
}

/// Whether this is what to do next to turn a screen.
pub open spec fn flips(device: Seq<char>, flipped: bool, event: FlipEvent, r: FlipAction) -> bool {
    match event {
        FlipEvent::Begun => if device.len() == 0 {
            r matches FlipAction::Failed(why) && why@ == "monitor has no device name"@
        } else {
            r is LookUp
        },
        FlipEvent::Found(None) => r matches FlipAction::Failed(why) && why@
            == "EnumDisplaySettingsEx failed for "@ + device,
        FlipEvent::Found(Some(current)) => if current == orientation(flipped) {
            r is Already
        } else {
            r == FlipAction::Change(orientation(flipped))
        },
        FlipEvent::Changed(rc) => if rc == DISP_CHANGE_SUCCESSFUL {
            r is Turned
        } else {
            r matches FlipAction::Failed(why) && why@ == change_failed(device, flipped, rc)
        },
    }
}

/// What to do next to turn a screen upside down or back. A screen without a device
/// name is not even looked up, and one that stands as wanted is left alone.
pub fn set_flipped(device: &str, flipped: bool, event: FlipEvent) -> (r: FlipAction)
    ensures
        flips(device@, flipped, event, r),
{
    let want: u32 = if flipped {
        DMDO_180
    } else {
        DMDO_DEFAULT
    };
    match event {
        FlipEvent::Begun => {
            if device.unicode_len() == 0 {
                FlipAction::Failed("monitor has no device name".to_owned())
            } else {
                FlipAction::LookUp
            }
        },
        FlipEvent::Found(None) => {
            let mut why = "EnumDisplaySettingsEx failed for ".to_owned();
            why.append(device);
            FlipAction::Failed(why)
        },
        FlipEvent::Found(Some(current)) => {
            if current == want {
                FlipAction::Already
            } else {
                FlipAction::Change(want)
            }
        },
        FlipEvent::Changed(rc) => {
            if rc == DISP_CHANGE_SUCCESSFUL {
                FlipAction::Turned
            } else {
                let mut why = "ChangeDisplaySettingsEx(".to_owned();
                why.append(device);
                why.append(" → ");
                why.append(decimal(want as u128).as_str());
                why.append(") failed: ");
                why.append(signed_decimal(rc as i64).as_str());
                FlipAction::Failed(why)
            }
        },
    }
}

} // verus!
