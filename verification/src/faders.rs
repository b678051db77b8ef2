//! The two faders: who holds them, where they stand, and how they come to rest.
//!
//! A fader belongs to the contact that grabbed it until that contact lifts. The
//! arithmetic on coordinates (differences, quotients, the response curve) arrives
//! as a [`Reading`]; this module decides what a reading means.
use crate::single::{Single, HALF, ONE, ZERO};
use vstd::prelude::*;

verus! {

/// How many faders the pad has.
pub const FADER_COUNT: usize = 2;

/// The level 0.005 under which a released fader jumps to rest.
pub const SNAP: u32 = 0x3ba3_d70a;

/// The level -0.5, from which down a fader points left.
pub const DIR_ENTER_LEFT: u32 = 0xbf00_0000;

/// The level 0.35 under which a fader points nowhere.
pub const DIR_LEAVE: u32 = 0x3eb3_3333;

/// How the faders respond.
#[derive(Debug, Clone, Copy, PartialEq)]
pub struct FaderCfg {
    pub relative: bool,
    pub curve: Single,
    pub dead: Single,
    pub decay: Single,
    pub rel_travel: Single,
    pub speed_dead: Single,
}

impl Default for FaderCfg {
    /// Relative travel over 100.0, a straight curve (1.0), a dead zone of 0.04,
    /// a decay of 0.7 and a speed threshold of 2.5.
    fn default() -> (r: FaderCfg)
        ensures
            r == default_cfg(),
    {
        FaderCfg {
            relative: true,
            curve: Single { bits: ONE },
            dead: Single { bits: 0x3d23_d70a },
            decay: Single { bits: 0x3f33_3333 },
            rel_travel: Single { bits: 0x42c8_0000 },
            speed_dead: Single { bits: 0x4020_0000 },
        }
    }
}

/// The response before anyone has chosen another: relative, curve 1.0, dead zone
/// 0.04, decay 0.7, travel 100.0, speed threshold 2.5.
pub open spec fn default_cfg() -> FaderCfg {
    FaderCfg {
        relative: true,
        curve: Single { bits: ONE },
        dead: Single { bits: 0x3d23_d70a },
        decay: Single { bits: 0x3f33_3333 },
        rel_travel: Single { bits: 0x42c8_0000 },
        speed_dead: Single { bits: 0x4020_0000 },
    }
}

impl FaderCfg {
    /// Whether every setting is equal, as numbers.
    pub open spec fn agrees(self, other: FaderCfg) -> bool {
        &&& self.relative == other.relative
        &&& self.curve.equals(other.curve)
        &&& self.dead.equals(other.dead)
        &&& self.decay.equals(other.decay)
        &&& self.rel_travel.equals(other.rel_travel)
        &&& self.speed_dead.equals(other.speed_dead)
    }

    /// Whether every setting is equal, as numbers.
    pub fn same(&self, other: &FaderCfg) -> (r: bool)
        ensures
            r == self.agrees(*other),
    {
        self.relative == other.relative && self.curve.same(other.curve) && self.dead.same(
            other.dead,
        ) && self.decay.same(other.decay) && self.rel_travel.same(other.rel_travel)
            && self.speed_dead.same(other.speed_dead)
    }
}

/// The part of the screen that grabs a fader.
#[derive(Debug, Clone, Copy, PartialEq)]
pub struct Zone {
    pub x: Single,
    pub y: Single,
    pub w: Single,
    pub h: Single,
    pub center_x: Single,
    pub half: Single,
    /// The right edge, `x + w`.
    pub right: Single,
    /// The bottom edge, `y + h`.
    pub bottom: Single,
}

impl Default for Zone {
    /// An empty zone, which nothing hits.
    fn default() -> (r: Zone)
        ensures
            r == empty_zone(),
    {
        let z = Single { bits: ZERO };
        Zone { x: z, y: z, w: z, h: z, center_x: z, half: z, right: z, bottom: z }
    }
}

/// The zone with every measure 0.0.
pub open spec fn empty_zone() -> Zone {
    let z = Single { bits: ZERO };
    Zone { x: z, y: z, w: z, h: z, center_x: z, half: z, right: z, bottom: z }
}

impl Zone {
    /// Whether the zone has an extent worth hitting: wider and higher than 1.0,
    /// with more than 0.5 from its centre to full deflection.
    pub open spec fn usable(self) -> bool {
        let one = Single { bits: ONE };
        one.below(self.w) && one.below(self.h) && (Single { bits: HALF }).below(self.half)
    }

    /// Whether a point lies in a usable zone; the right and bottom edges do not.
    pub open spec fn covers(self, x: Single, y: Single) -> bool {
        self.usable() && self.x.at_most(x) && x.below(self.right) && self.y.at_most(y) && y.below(
            self.bottom,
        )
    }

    /// Whether every measure is equal, as numbers.
    pub open spec fn agrees(self, other: Zone) -> bool {
        &&& self.x.equals(other.x)
        &&& self.y.equals(other.y)
        &&& self.w.equals(other.w)
        &&& self.h.equals(other.h)
        &&& self.center_x.equals(other.center_x)
        &&& self.half.equals(other.half)
    }

    /// Whether the zone has an extent worth hitting.
    pub fn valid(&self) -> (r: bool)
        ensures
            r == self.usable(),
    {
        let one = Single { bits: ONE };
        self.w.gt(one) && self.h.gt(one) && self.half.gt(Single { bits: HALF })
    }

    /// Whether a point lies in the zone.
    pub fn contains(&self, x: Single, y: Single) -> (r: bool)
        ensures
            r == self.covers(x, y),
    {
        self.valid() && x.ge(self.x) && x.lt(self.right) && y.ge(self.y) && y.lt(self.bottom)
    }

    /// Whether every measure is equal, as numbers.
    pub fn same(&self, other: &Zone) -> (r: bool)
        ensures
            r == self.agrees(*other),
    {
        self.x.same(other.x) && self.y.same(other.y) && self.w.same(other.w) && self.h.same(
            other.h,
        ) && self.center_x.same(other.center_x) && self.half.same(other.half)
    }
}

/// What a contact at some `x` amounts to for one fader, measured against the
/// fader, its zone and its settings as they stand before the contact is offered.
#[derive(Debug, Clone, Copy)]
pub struct Reading {
    /// `x - last_x`; of no account while the fader has no last position.
    pub delta: Single,
    /// `rel_value` plus the step that `delta` is worth.
    pub sum: Single,
    /// `0.0` plus the step that `delta` is worth.
    pub restart: Single,
    /// `x - center_x`, in units of the zone's half width (at least 1.0).
    pub ratio: Single,
    /// The response curve at the clamped `ratio`, of no account inside the dead zone.
    pub shaped: Single,
}

impl Reading {
    /// Whether the curve stays in 0.0 to 1.0.
    pub open spec fn shaped_in_unit(self) -> bool {
        (Single { bits: ZERO }).at_most(self.shaped) && self.shaped.at_most(Single { bits: ONE })
    }

    /// Whether the figures that these settings use are numbers in their range.
    pub open spec fn sound(self, cfg: FaderCfg) -> bool {
        if cfg.relative {
            !self.sum.nan() && !self.restart.nan()
        } else {
            self.shaped_in_unit()
        }
    }
}

/// One fader.
#[derive(Debug, Clone, Copy)]
pub struct Fader {
    pub owner: Option<u32>,
    pub settled: Single,
    pub value: Single,
    pub rel_value: Single,
    pub last_x: Option<Single>,
    pub dir: i32,
}

impl Default for Fader {
    /// Nobody's fader, at rest.
    fn default() -> (r: Fader)
        ensures
            r == resting(),
    {
        let z = Single { bits: ZERO };
        Fader { owner: None, settled: z, value: z, rel_value: z, last_x: None, dir: 0 }
    }
}

/// Nobody's fader, at rest.
pub open spec fn resting() -> Fader {
    let z = Single { bits: ZERO };
    Fader { owner: None, settled: z, value: z, rel_value: z, last_x: None, dir: 0 }
}

/// Where a fader at `value` points when it pointed to `dir` before: it turns at
/// half deflection, lets go under 0.35, and keeps its direction in between.
pub open spec fn direction(value: Single, dir: i32) -> i32 {
    if (Single { bits: HALF }).at_most(value) {
        1
    } else if value.at_most(Single { bits: DIR_ENTER_LEFT }) {
        -1i32
    } else if value.absolute().below(Single { bits: DIR_LEAVE }) {
        0
    } else {
        dir
    }
}

/// The level for a position: nothing inside the dead zone, the curve outside it,
/// on the side that the position is on.
pub open spec fn absolute_level(cfg: FaderCfg, r: Reading) -> Single {
    let t = r.ratio.clamped();
    let level = if t.absolute().below(cfg.dead) {
        Single { bits: ZERO }
    } else {
        r.shaped
    };
    if t.below(Single { bits: ZERO }) {
        level.negated()
    } else {
        level
    }
}

impl Fader {
    /// Whether the fader has settled at its level, and every level lies in -1.0 to 1.0.
    pub open spec fn orderly(self) -> bool {
        self.value == self.settled && self.settled.in_unit() && self.rel_value.in_unit()
    }

    /// Whether a product is no further from rest than what the fader settled at, and on
    /// the same side.
    pub open spec fn shrinks(self, product: Single) -> bool {
        product.magnitude() <= self.settled.magnitude() && product.signed() == self.settled.signed()
    }

    /// Whether a movement by `delta` runs against the fader's deflection.
    pub open spec fn reverses(self, delta: Single) -> bool {
        let zero = Single { bits: ZERO };
        ||| zero.below(delta) && self.rel_value.below(zero)
        ||| delta.below(zero) && zero.below(self.rel_value)
    }

    /// The relative level after a movement: a first position and a movement under
    /// the speed threshold leave it; a reversal counts from rest; the result is
    /// clamped.
    pub open spec fn travelled(self, cfg: FaderCfg, r: Reading) -> Single {
        if self.last_x is None || r.delta.absolute().below(cfg.speed_dead) {
            self.rel_value
        } else if self.reverses(r.delta) {
            r.restart.clamped()
        } else {
            r.sum.clamped()
        }
    }

    /// The fader after its contact was seen at `x`.
    pub open spec fn driven(self, cfg: FaderCfg, x: Single, r: Reading) -> Fader {
        if cfg.relative {
            let v = self.travelled(cfg, r);
            Fader {
                value: v,
                settled: v,
                rel_value: v,
                last_x: Some(x),
                dir: direction(v, self.dir),
                ..self
            }
        } else {
            let v = absolute_level(cfg, r);
            Fader { value: v, settled: v, dir: direction(v, self.dir), ..self }
        }
    }

    /// The fader in the hands of contact `id`: a relative fader takes up where it
    /// had settled.
    pub open spec fn seized(self, cfg: FaderCfg, id: u32) -> Fader {
        Fader {
            owner: Some(id),
            last_x: None,
            rel_value: if cfg.relative {
                self.settled
            } else {
                self.rel_value
            },
            ..self
        }
    }

    /// The fader in nobody's hands.
    pub open spec fn freed(self) -> Fader {
        Fader { owner: None, last_x: None, ..self }
    }

    /// Whether the fader is on its way back to rest.
    pub open spec fn returning(self) -> bool {
        self.owner is None && !self.settled.equals(Single { bits: ZERO })
    }

    /// The fader one decay step later, where `product` is what it settled at times
    /// the decay factor.
    pub open spec fn relaxed(self, product: Single) -> Fader {
        if self.returning() {
            let v = if self.settled.absolute().below(Single { bits: SNAP }) {
                Single { bits: ZERO }
            } else {
                product
            };
            Fader { settled: v, value: v, dir: direction(v, self.dir), ..self }
        } else {
            self
        }
    }

    fn recompute_dir(&mut self)
        ensures
            *final(self) == (Fader { dir: direction(old(self).value, old(self).dir), ..*old(self) }),
    {
        if self.value.ge(Single { bits: HALF }) {
            self.dir = 1;
        } else if self.value.le(Single { bits: DIR_ENTER_LEFT }) {
            self.dir = -1;
        } else if self.value.abs().lt(Single { bits: DIR_LEAVE }) {
            self.dir = 0;
        }
    }

    fn absolute(cfg: &FaderCfg, r: &Reading) -> (level: Single)
        ensures
            level == absolute_level(*cfg, *r),
    {
        let t = r.ratio.clamp_unit();
        let level = if t.abs().lt(cfg.dead) {
            Single { bits: ZERO }
        } else {
            r.shaped
        };
        if t.lt(Single { bits: ZERO }) {
            level.neg()
        } else {
            level
        }
    }

    fn advance_relative(&mut self, cfg: &FaderCfg, x: Single, r: &Reading)
        ensures
            *final(self) == (Fader {
                rel_value: old(self).travelled(*cfg, *r),
                last_x: Some(x),
                ..*old(self)
            }),
    {
        let first = self.last_x.is_none();
        self.last_x = Some(x);
        if first || r.delta.abs().lt(cfg.speed_dead) {
            return;
        }
        let zero = Single { bits: ZERO };
        let reversing = (r.delta.gt(zero) && self.rel_value.lt(zero)) || (r.delta.lt(zero)
            && self.rel_value.gt(zero));
        self.rel_value = if reversing {
            r.restart.clamp_unit()
        } else {
            r.sum.clamp_unit()
        };
    }

    fn drive(&mut self, cfg: &FaderCfg, x: Single, r: &Reading) -> (moved: bool)
        ensures
            *final(self) == old(self).driven(*cfg, x, *r),
            moved == !final(self).value.equals(old(self).value),
    {
        let before = self.value;
        if cfg.relative {
            self.advance_relative(cfg, x, r);
            self.value = self.rel_value;
        } else {
            self.value = Self::absolute(cfg, r);
        }
        self.settled = self.value;
        self.recompute_dir();
        !self.value.same(before)
    }

    fn grab(&mut self, cfg: &FaderCfg, id: u32)
        ensures
            *final(self) == old(self).seized(*cfg, id),
    {
        self.owner = Some(id);
        self.last_x = None;
        if cfg.relative {
            self.rel_value = self.settled;
        }
    }

    fn release(&mut self)
        ensures
            *final(self) == old(self).freed(),
    {
        self.owner = None;
        self.last_x = None;
    }

    fn decay(&mut self, product: Single) -> (moved: bool)
        ensures
            *final(self) == old(self).relaxed(product),
            moved == (old(self).returning() && !final(self).value.equals(old(self).value)),
    {
        if self.owner.is_some() || self.settled.same(Single { bits: ZERO }) {
            return false;
        }
        let before = self.value;
        self.settled = if self.settled.abs().lt(Single { bits: SNAP }) {
            Single { bits: ZERO }
        } else {
            product
        };
        self.value = self.settled;
        self.recompute_dir();
        !self.value.same(before)
    }

    /// Whether contact `id` holds the fader.
    pub fn owned_by(&self, id: u32) -> (r: bool)
        ensures
            r == (self.owner == Some(id)),
    {
        match self.owner {
            Some(o) => o == id,
            None => false,
        }
    }
}

/// The pair of faders, their zones and their settings.
#[derive(Debug, Clone)]
pub struct Faders {
    pub faders: [Fader; FADER_COUNT],
    pub zones: [Zone; FADER_COUNT],
    pub cfg: FaderCfg,
}

impl Default for Faders {
    /// Two resting faders without zones.
    fn default() -> (r: Faders)
        ensures
            r@ == fresh_faders(),
    {
        let f = Fader::default();
        let z = Zone::default();
        let r = Faders { faders: [f, f], zones: [z, z], cfg: FaderCfg::default() };
        assert(r@ =~= fresh_faders());
        r
    }
}

/// What a pair of faders is: each fader, its zone, and the shared settings.
#[verifier::ext_equal]
pub struct FaderModel {
    pub faders: Seq<Fader>,
    pub zones: Seq<Zone>,
    pub cfg: FaderCfg,
}

/// Two resting faders without zones.
pub open spec fn fresh_faders() -> FaderModel {
    FaderModel {
        faders: seq![resting(), resting()],
        zones: seq![empty_zone(), empty_zone()],
        cfg: default_cfg(),
    }
}

impl View for Faders {
    type V = FaderModel;

    open spec fn view(&self) -> FaderModel {
        FaderModel { faders: self.faders@, zones: self.zones@, cfg: self.cfg }
    }
}

impl FaderModel {
    /// There are two faders, each with a zone, and no contact holds both.
    pub open spec fn wf(self) -> bool {
        &&& self.faders.len() == 2
        &&& self.zones.len() == 2
        &&& self.faders[0].owner is Some ==> self.faders[0].owner != self.faders[1].owner
    }

    /// Whether both faders are orderly.
    pub open spec fn orderly(self) -> bool {
        self.faders[0].orderly() && self.faders[1].orderly()
    }

    /// Whether the levels are equal to other ones, as numbers.
    pub open spec fn same_levels(self, other: FaderModel) -> bool {
        self.faders[0].value.equals(other.faders[0].value) && self.faders[1].value.equals(
            other.faders[1].value,
        )
    }

    /// Whether contact `id` holds a fader.
    pub open spec fn held_by(self, id: u32) -> bool {
        self.faders[0].owner == Some(id) || self.faders[1].owner == Some(id)
    }

    /// Whether a point lies in a fader's zone.
    pub open spec fn touched(self, x: Single, y: Single) -> bool {
        self.zones[0].covers(x, y) || self.zones[1].covers(x, y)
    }

    /// Whether fader `i` is free for a contact at this point.
    pub open spec fn free_at(self, i: int, x: Single, y: Single) -> bool {
        self.faders[i].owner is None && self.zones[i].covers(x, y)
    }

    /// Which fader a contact moves: the one it holds, wherever it is by now, else
    /// the first free one whose zone it is in.
    pub open spec fn target(self, id: u32, x: Single, y: Single) -> Option<int> {
        if self.faders[0].owner == Some(id) {
            Some(0)
        } else if self.faders[1].owner == Some(id) {
            Some(1)
        } else if self.free_at(0, x, y) {
            Some(0)
        } else if self.free_at(1, x, y) {
            Some(1)
        } else {
            None
        }
    }

    /// Fader `i` in the hands of contact `id`, which may have held it before.
    pub open spec fn taken(self, i: int, id: u32) -> Fader {
        if self.faders[i].owner == Some(id) {
            self.faders[i]
        } else {
            self.faders[i].seized(self.cfg, id)
        }
    }

    /// The faders after contact `id` was seen at a point.
    pub open spec fn offered(
        self,
        id: u32,
        x: Single,
        y: Single,
        readings: Seq<Reading>,
    ) -> FaderModel {
        match self.target(id, x, y) {
            Some(i) => FaderModel {
                faders: self.faders.update(
                    i,
                    self.taken(i, id).driven(self.cfg, x, readings[i]),
                ),
                ..self
            },
            None => self,
        }
    }

    /// Whether that moved a fader.
    pub open spec fn offer_moves(
        self,
        id: u32,
        x: Single,
        y: Single,
        readings: Seq<Reading>,
    ) -> bool {
        match self.target(id, x, y) {
            Some(i) => !self.offered(id, x, y, readings).faders[i].value.equals(self.faders[i].value),
            None => false,
        }
    }

    /// The faders once contact `id` has lifted.
    pub open spec fn released(self, id: u32) -> FaderModel {
        FaderModel {
            faders: self.faders.map_values(
                |f: Fader|
                    if f.owner == Some(id) {
                        f.freed()
                    } else {
                        f
                    },
            ),
            ..self
        }
    }

    /// The faders once every contact has lifted.
    pub open spec fn all_released(self) -> FaderModel {
        FaderModel { faders: self.faders.map_values(|f: Fader| f.freed()), ..self }
    }

    /// The faders one decay step later.
    pub open spec fn relaxed(self, products: Seq<Single>) -> FaderModel {
        FaderModel {
            faders: Seq::new(2, |i: int| self.faders[i].relaxed(products[i])),
            ..self
        }
    }

    /// Whether that moves a fader.
    pub open spec fn decay_moves(self, products: Seq<Single>) -> bool {
        exists|i: int|
            0 <= i < 2 && self.faders[i].returning()
                && !#[trigger] self.faders[i].relaxed(products[i]).value.equals(
                self.faders[i].value,
            )
    }

    /// The levels of the faders.
    pub open spec fn levels(self) -> Seq<Single> {
        seq![self.faders[0].value, self.faders[1].value]
    }

    /// Which faders are in somebody's hands.
    pub open spec fn grabs(self) -> Seq<bool> {
        seq![self.faders[0].owner is Some, self.faders[1].owner is Some]
    }

    /// Where the faders point.
    pub open spec fn bearings(self) -> Seq<i32> {
        seq![self.faders[0].dir, self.faders[1].dir]
    }
}

impl Faders {
    /// Two resting faders without zones.
    pub fn new() -> (r: Faders)
        ensures
            r@ == fresh_faders(),
    {
        Self::default()
    }

    /// Changes the response.
    pub fn set_cfg(&mut self, cfg: FaderCfg)
        ensures
            final(self)@ == (FaderModel { cfg, ..old(self)@ }),
    {
        self.cfg = cfg;
    }

    /// Moves the zones.
    pub fn set_zones(&mut self, zones: [Zone; FADER_COUNT])
        ensures
            final(self)@ == (FaderModel { zones: zones@, ..old(self)@ }),
    {
        self.zones = zones;
    }

    /// The levels of the faders.
    pub fn values(&self) -> (r: [Single; FADER_COUNT])
        ensures
            r@ == self@.levels(),
    {
        let r = [self.faders[0].value, self.faders[1].value];
        assert(r@ =~= self@.levels());
        r
    }

    /// Which faders are in somebody's hands.
    pub fn grabbed(&self) -> (r: [bool; FADER_COUNT])
        ensures
            r@ == self@.grabs(),
    {
        let r = [self.faders[0].owner.is_some(), self.faders[1].owner.is_some()];
        assert(r@ =~= self@.grabs());
        r
    }

    /// Where the faders point: -1 left, 1 right, 0 nowhere.
    pub fn dirs(&self) -> (r: [i32; FADER_COUNT])
        ensures
            r@ == self@.bearings(),
    {
        let r: [i32; FADER_COUNT] = [self.faders[0].dir, self.faders[1].dir];
        assert(r@ =~= self@.bearings());
        r
    }

    /// Whether contact `id` holds a fader.
    pub fn owns(&self, id: u32) -> (r: bool)
        ensures
            r == self@.held_by(id),
    {
        self.faders[0].owned_by(id) || self.faders[1].owned_by(id)
    }

    /// Whether a point lies in a fader's zone.
    pub fn zone_hit(&self, x: Single, y: Single) -> (r: bool)
        ensures
            r == self@.touched(x, y),
    {
        self.zones[0].contains(x, y) || self.zones[1].contains(x, y)
    }

    /// Shows the faders a contact. Returns whether one of them moved.
    pub fn offer(
        &mut self,
        id: u32,
        x: Single,
        y: Single,
        readings: &[Reading; FADER_COUNT],
    ) -> (changed: bool)
        requires
            old(self)@.wf(),
        ensures
            final(self)@.wf(),
            final(self)@ == old(self)@.offered(id, x, y, readings@),
            changed == old(self)@.offer_moves(id, x, y, readings@),
    {
        let mut changed = false;
        let mut i: usize = 0;
        while i < FADER_COUNT
            invariant
                i <= FADER_COUNT,
                old(self)@.wf(),
                self.zones == old(self).zones,
                self.cfg == old(self).cfg,
                ({
                    let t = old(self)@.target(id, x, y);
                    if t is Some && t->0 < i {
                        &&& self@ == old(self)@.offered(id, x, y, readings@)
                        &&& changed == old(self)@.offer_moves(id, x, y, readings@)
                    } else {
                        &&& self.faders == old(self).faders
                        &&& !changed
                    }
                }),
            decreases FADER_COUNT - i,
        {
            if self.faders[i].owned_by(id) {
                let mut f = self.faders[i];
                let moved = f.drive(&self.cfg, x, &readings[i]);
                self.faders[i] = f;
                changed = changed || moved;
            } else if self.faders[i].owner.is_none() && !self.owns(id) && self.zones[i].contains(
                x,
                y,
            ) {
                let mut f = self.faders[i];
                f.grab(&self.cfg, id);
                let moved = f.drive(&self.cfg, x, &readings[i]);
                self.faders[i] = f;
                changed = changed || moved;
            }
            i = i + 1;
        }
        changed
    }

    /// Contact `id` has lifted: the fader it held is free.
    pub fn release(&mut self, id: u32)
        requires
            old(self)@.wf(),
        ensures
            final(self)@.wf(),
            final(self)@ == old(self)@.released(id),
    {
        let mut i: usize = 0;
        while i < FADER_COUNT
            invariant
                i <= FADER_COUNT,
                self.zones == old(self).zones,
                self.cfg == old(self).cfg,
                forall|j: int| 0 <= j < i ==> self.faders@[j] == old(self)@.released(id).faders[j],
                forall|j: int| i <= j < 2 ==> self.faders@[j] == old(self).faders@[j],
            decreases FADER_COUNT - i,
        {
            if self.faders[i].owned_by(id) {
                let mut f = self.faders[i];
                f.release();
                self.faders[i] = f;
            }
            i = i + 1;
        }
        assert(self@ =~= old(self)@.released(id));
    }

    /// Every contact has lifted: both faders are free.
    pub fn release_all(&mut self)
        ensures
            final(self)@.wf(),
            final(self)@ == old(self)@.all_released(),
    {
        let mut i: usize = 0;
        while i < FADER_COUNT
            invariant
                i <= FADER_COUNT,
                self.zones == old(self).zones,
                self.cfg == old(self).cfg,
                forall|j: int| 0 <= j < i ==> self.faders@[j] == old(self)@.all_released().faders[j],
                forall|j: int| i <= j < 2 ==> self.faders@[j] == old(self).faders@[j],
            decreases FADER_COUNT - i,
        {
            let mut f = self.faders[i];
            f.release();
            self.faders[i] = f;
            i = i + 1;
        }
        assert(self@ =~= old(self)@.all_released());
    }

    /// Lets the released faders spring back by one step, where `products` is what
    /// each had settled at times the decay factor. Returns whether one moved.
    pub fn decay_step(&mut self, products: &[Single; FADER_COUNT]) -> (changed: bool)
        requires
            old(self)@.wf(),
        ensures
            final(self)@.wf(),
            final(self)@ == old(self)@.relaxed(products@),
            changed == old(self)@.decay_moves(products@),
    {
        let mut a = self.faders[0];
        let mut b = self.faders[1];
        let moved_a = a.decay(products[0]);
        let moved_b = b.decay(products[1]);
        self.faders[0] = a;
        self.faders[1] = b;
        assert(self@ =~= old(self)@.relaxed(products@));
        proof {
            let m = old(self)@;
            assert(moved_a ==> !m.faders[0].relaxed(products@[0]).value.equals(m.faders[0].value));
            assert(moved_b ==> !m.faders[1].relaxed(products@[1]).value.equals(m.faders[1].value));
        }
        moved_a || moved_b
    }
}

/// A fader in somebody's hands is out of reach for every other contact.
pub proof fn an_owned_fader_is_not_stolen(
    f: FaderModel,
    i: int,
    id: u32,
    x: Single,
    y: Single,
    readings: Seq<Reading>,
)
    requires
        f.wf(),
        0 <= i < 2,
        f.faders[i].owner is Some,
        f.faders[i].owner != Some(id),
    ensures
        f.offered(id, x, y, readings).faders[i] == f.faders[i],
{
}

/// A contact keeps its fader wherever it goes, and holds no second one.
pub proof fn ownership_is_sticky(
    f: FaderModel,
    i: int,
    id: u32,
    x: Single,
    y: Single,
    readings: Seq<Reading>,
)
    requires
        f.wf(),
        0 <= i < 2,
        f.faders[i].owner == Some(id),
    ensures
        f.offered(id, x, y, readings).faders[i].owner == Some(id),
        f.offered(id, x, y, readings).faders[1 - i] == f.faders[1 - i],
{
}

/// A contact outside every zone that holds no fader changes nothing.
pub proof fn a_contact_outside_grabs_nothing(
    f: FaderModel,
    id: u32,
    x: Single,
    y: Single,
    readings: Seq<Reading>,
)
    requires
        f.wf(),
        !f.held_by(id),
        !f.touched(x, y),
    ensures
        f.offered(id, x, y, readings) == f,
        !f.offer_moves(id, x, y, readings),
{
}

/// Once a contact has lifted it holds no fader, and everybody else holds what
/// they held.
pub proof fn lifting_frees_only_ones_own(f: FaderModel, id: u32, i: int)
    requires
        f.wf(),
        0 <= i < 2,
    ensures
        f.released(id).faders[i].owner != Some(id),
        f.faders[i].owner != Some(id) ==> f.released(id).faders[i] == f.faders[i],
        f.released(id).faders[i].value == f.faders[i].value,
        f.all_released().faders[i].owner is None,
        f.all_released().faders[i].value == f.faders[i].value,
{
}

/// A relative fader stays in -1.0 to 1.0, whatever it is driven by.
pub proof fn relative_levels_stay_in_range(f: Fader, cfg: FaderCfg, x: Single, r: Reading)
    requires
        cfg.relative,
        f.rel_value.in_unit(),
        !r.sum.nan(),
        !r.restart.nan(),
    ensures
        f.driven(cfg, x, r).value.in_unit(),
        f.driven(cfg, x, r).rel_value.in_unit(),
        f.driven(cfg, x, r).settled.in_unit(),
{
}

/// An absolute fader stays in -1.0 to 1.0, as long as the curve does.
pub proof fn absolute_levels_stay_in_range(f: Fader, cfg: FaderCfg, x: Single, r: Reading)
    requires
        !cfg.relative,
        r.shaped_in_unit(),
    ensures
        f.driven(cfg, x, r).value.in_unit(),
        f.driven(cfg, x, r).settled.in_unit(),
{
}

/// Two faders reached by any calls are orderly: they start so, and stay so as long as
/// what is measured is sound. So their levels lie in -1.0 to 1.0, and no contact holds
/// both. A level counts as moved exactly where one differs from before.
pub proof fn levels_stay_in_range(
    f: FaderModel,
    id: u32,
    x: Single,
    y: Single,
    readings: Seq<Reading>,
    products: Seq<Single>,
)
    requires
        f.wf(),
        f.orderly(),
        readings.len() == 2,
        readings[0].sound(f.cfg),
        readings[1].sound(f.cfg),
        products.len() == 2,
        f.faders[0].shrinks(products[0]),
        f.faders[1].shrinks(products[1]),
    ensures
        fresh_faders().wf() && fresh_faders().orderly(),
        f.offered(id, x, y, readings).wf() && f.offered(id, x, y, readings).orderly(),
        f.released(id).wf() && f.released(id).orderly(),
        f.all_released().wf() && f.all_released().orderly(),
        f.relaxed(products).wf() && f.relaxed(products).orderly(),
        f.levels()[0].in_unit() && f.levels()[1].in_unit(),
        f.offer_moves(id, x, y, readings) == !f.same_levels(f.offered(id, x, y, readings)),
        f.decay_moves(products) == !f.same_levels(f.relaxed(products)),
{
    let after = f.offered(id, x, y, readings);
    assert(after.faders[0].orderly() && after.faders[1].orderly());
    let later = f.relaxed(products);
    assert(later.faders[0] == f.faders[0].relaxed(products[0]));
    assert(later.faders[1] == f.faders[1].relaxed(products[1]));
    assert(f.faders[0].relaxed(products[0]).value.equals(f.faders[0].value)
        == f.faders[0].value.equals(later.faders[0].value));
    assert(f.faders[1].relaxed(products[1]).value.equals(f.faders[1].value)
        == f.faders[1].value.equals(later.faders[1].value));
    assert(f.released(id).faders[0].orderly() && f.released(id).faders[1].orderly());
    assert(f.all_released().faders[0].orderly() && f.all_released().faders[1].orderly());
}

/// A movement against the deflection snaps through rest: what was there before
/// does not count.
pub proof fn a_reversal_counts_from_rest(f: Fader, cfg: FaderCfg, x: Single, r: Reading)
    requires
        cfg.relative,
        f.last_x is Some,
        !r.delta.absolute().below(cfg.speed_dead),
        f.reverses(r.delta),
    ensures
        f.driven(cfg, x, r).value == r.restart.clamped(),
{
}

/// A movement under the speed threshold leaves a relative fader where it is, and
/// is still remembered as the last position.
pub proof fn a_small_move_holds(f: Fader, cfg: FaderCfg, x: Single, r: Reading)
    requires
        cfg.relative,
        f.last_x is Some,
        r.delta.absolute().below(cfg.speed_dead),
    ensures
        f.driven(cfg, x, r).value == f.rel_value,
        f.driven(cfg, x, r).last_x == Some(x),
{
}

/// Grabbing a relative fader again takes it up at the level it had settled at.
pub proof fn a_regrab_resumes_at_the_settled_level(
    f: Fader,
    cfg: FaderCfg,
    id: u32,
    x: Single,
    r: Reading,
)
    requires
        cfg.relative,
    ensures
        f.freed().seized(cfg, id).driven(cfg, x, r).value == f.settled,
        f.freed().seized(cfg, id).driven(cfg, x, r).settled == f.settled,
{
}

/// Inside the dead zone an absolute fader is at rest.
pub proof fn the_dead_zone_is_rest(f: Fader, cfg: FaderCfg, x: Single, r: Reading)
    requires
        !cfg.relative,
        r.ratio.clamped().absolute().below(cfg.dead),
    ensures
        f.driven(cfg, x, r).value.equals(Single { bits: ZERO }),
{
}

/// An owned fader does not decay, nor does one at rest.
pub proof fn only_released_deflected_faders_decay(f: Fader, product: Single)
    requires
        f.owner is Some || f.settled.equals(Single { bits: ZERO }),
    ensures
        f.relaxed(product) == f,
{
}

/// A released fader springs back: as long as the decay factor shrinks a level and keeps
/// its side, every step brings it strictly closer to rest without crossing it, and the
/// last one onto it.
pub proof fn a_released_fader_springs_back(f: Fader, product: Single)
    requires
        f.returning(),
        product.magnitude() < f.settled.magnitude(),
        product.signed() == f.settled.signed(),
    ensures
        f.relaxed(product).settled.magnitude() < f.settled.magnitude(),
        f.relaxed(product).settled.magnitude() == 0 || f.relaxed(product).settled.signed()
            == f.settled.signed(),
        f.relaxed(product).value == f.relaxed(product).settled,
        f.settled.absolute().below(Single { bits: SNAP }) ==> !f.relaxed(product).returning(),
{
}

/// A decay step leaves a fader in somebody's hands as it is; any other level neither
/// grows nor changes its side, and rest stays rest. No fader changes hands.
pub proof fn a_decay_step_only_shrinks(f: FaderModel, products: Seq<Single>, i: int)
    requires
        f.wf(),
        f.orderly(),
        0 <= i < 2,
        f.faders[i].shrinks(products[i]),
    ensures
        ({
            let before = f.faders[i];
            let after = f.relaxed(products).faders[i];
            &&& after.owner == before.owner
            &&& before.owner is Some ==> after.value == before.value && after.dir == before.dir
            &&& after.value.magnitude() <= before.value.magnitude()
            &&& after.value.magnitude() == 0 || after.value.signed() == before.value.signed()
            &&& before.value.equals(Single { bits: ZERO }) ==> after == before
        }),
{
}

/// A fader points left, right or nowhere, and between letting go (0.35) and
/// turning (0.5) it keeps pointing where it did.
pub proof fn directions_hold_between_the_thresholds(value: Single, dir: i32)
    requires
        -1 <= dir <= 1,
    ensures
        -1 <= direction(value, dir) <= 1,
        value.absolute().below(Single { bits: HALF }) && !value.absolute().below(
            Single { bits: DIR_LEAVE },
        ) ==> direction(value, dir) == dir,
        direction(value, dir) == 1 && dir != 1 ==> (Single { bits: HALF }).at_most(value),
        direction(value, dir) == -1 && dir != -1 ==> value.at_most(
            Single { bits: DIR_ENTER_LEFT },
        ),
{
}

} // verus!
