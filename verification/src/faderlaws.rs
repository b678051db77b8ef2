//! What a finger does to the faders, and what they do without one.
//!
//! Everything here is said of levels, owners and directions before and after, and of
//! nothing in between.
use crate::faders::{Fader, FaderCfg, FaderModel, Reading, Zone};
use crate::single::Single;
use vstd::prelude::*;

verus! {

/// The number with this bit pattern.
pub open spec fn bits(b: u32) -> Single {
    Single { bits: b }
}

/// Whether a movement and a level lie on opposite sides of rest.
pub open spec fn opposed(delta: Single, level: Single) -> bool {
    ||| bits(0).below(delta) && level.below(bits(0))
    ||| delta.below(bits(0)) && bits(0).below(level)
}

/// Whether a point lies in the rectangle of a zone that is wider and higher than 1.0 and
/// reaches further than 0.5.
pub open spec fn inside(z: Zone, x: Single, y: Single) -> bool {
    &&& bits(0x3f80_0000).below(z.w)
    &&& bits(0x3f80_0000).below(z.h)
    &&& bits(0x3f00_0000).below(z.half)
    &&& z.x.at_most(x)
    &&& x.below(z.right)
    &&& z.y.at_most(y)
    &&& y.below(z.bottom)
}

/// A zone grabs exactly the points of its rectangle: every edge but the right and the
/// bottom one belongs to it.
pub proof fn a_zone_grabs_its_rectangle(z: Zone, x: Single, y: Single)
    ensures
        z.covers(x, y) <==> inside(z, x, y),
        z.usable() <==> bits(0x3f80_0000).below(z.w) && bits(0x3f80_0000).below(z.h) && bits(
            0x3f00_0000,
        ).below(z.half),
{
}

/// A relative movement at or over the speed threshold adds its step to the level, and
/// counts from rest where it runs against it. Nothing but -1.0 and 1.0 stops it, and the
/// fader settles where it is.
pub proof fn a_relative_move_adds_its_step(f: Fader, cfg: FaderCfg, x: Single, r: Reading)
    requires
        cfg.relative,
        f.last_x is Some,
        !r.delta.absolute().below(cfg.speed_dead),
    ensures
        ({
            let after = f.driven(cfg, x, r);
            let reached = if opposed(r.delta, f.rel_value) {
                r.restart
            } else {
                r.sum
            };
            &&& reached.below(bits(0xbf80_0000)) ==> after.value == bits(0xbf80_0000)
            &&& bits(0x3f80_0000).below(reached) ==> after.value == bits(0x3f80_0000)
            &&& reached.in_unit() ==> after.value == reached
            &&& reached.nan() ==> after.value == reached
            &&& after.rel_value == after.value
            &&& after.settled == after.value
            &&& after.last_x == Some(x)
            &&& after.owner == f.owner
        }),
{
}

/// A fader goes the way it is pushed: where the step of a leftward movement is no gain,
/// the level is not raised, and where the step of a rightward one is no loss, the level is
/// not lowered. A step that is felt moves a level that is not at its end already.
pub proof fn a_fader_goes_the_way_it_is_pushed(f: Fader, cfg: FaderCfg, x: Single, r: Reading)
    requires
        cfg.relative,
        f.rel_value.in_unit(),
    ensures
        r.delta.below(bits(0)) && r.sum.at_most(f.rel_value) && r.restart.at_most(bits(0))
            ==> f.driven(cfg, x, r).value.at_most(f.rel_value),
        bits(0).below(r.delta) && f.rel_value.at_most(r.sum) && bits(0).at_most(r.restart)
            ==> f.rel_value.at_most(f.driven(cfg, x, r).value),
        f.last_x is Some && !r.delta.absolute().below(cfg.speed_dead) && r.delta.below(bits(0))
            && r.sum.below(f.rel_value) && r.restart.below(bits(0)) && bits(0xbf80_0000).below(
            f.rel_value,
        ) ==> f.driven(cfg, x, r).value.below(f.rel_value),
        f.last_x is Some && !r.delta.absolute().below(cfg.speed_dead) && bits(0).below(r.delta)
            && f.rel_value.below(r.sum) && bits(0).below(r.restart) && f.rel_value.below(
            bits(0x3f80_0000),
        ) ==> f.rel_value.below(f.driven(cfg, x, r).value),
{
}

/// A relative fader that feels its contact for the first time, or feels it move too
/// little, stays at its level and remembers where the contact was.
pub proof fn a_first_or_small_move_changes_no_level(
    f: Fader,
    cfg: FaderCfg,
    x: Single,
    r: Reading,
)
    requires
        cfg.relative,
        f.last_x is None || r.delta.absolute().below(cfg.speed_dead),
    ensures
        f.driven(cfg, x, r).value == f.rel_value,
        f.driven(cfg, x, r).rel_value == f.rel_value,
        f.driven(cfg, x, r).settled == f.rel_value,
        f.driven(cfg, x, r).last_x == Some(x),
        f.driven(cfg, x, r).owner == f.owner,
{
}

/// An absolute fader stands where its contact is: at rest inside the dead zone, else as
/// far out as the curve says, to the right for a contact right of the centre and to the
/// left for one left of it. It keeps no memory of where the contact was.
pub proof fn an_absolute_fader_stands_where_its_contact_is(
    f: Fader,
    cfg: FaderCfg,
    x: Single,
    r: Reading,
)
    requires
        !cfg.relative,
        !r.ratio.nan(),
        !cfg.dead.nan(),
        cfg.dead.at_most(bits(0x3f80_0000)),
    ensures
        ({
            let after = f.driven(cfg, x, r);
            let still = r.ratio.absolute().below(cfg.dead);
            let left = r.ratio.below(bits(0));
            &&& still ==> after.value.equals(bits(0))
            &&& !still && !left ==> after.value == r.shaped
            &&& !still && left ==> after.value.magnitude() == r.shaped.magnitude()
                && after.value.signed() == !r.shaped.signed()
            &&& after.settled == after.value
            &&& after.rel_value == f.rel_value
            &&& after.last_x == f.last_x
            &&& after.owner == f.owner
        }),
{
}

/// A fader points right from 0.5 on, left from -0.5 on and nowhere within 0.35, and
/// otherwise where it pointed: after it was driven and after it sprang back.
pub proof fn a_fader_points_where_it_stands(
    f: Fader,
    cfg: FaderCfg,
    x: Single,
    r: Reading,
    product: Single,
)
    ensures
        points(f.driven(cfg, x, r).value, f.dir, f.driven(cfg, x, r).dir),
        f.relaxed(product) == f || points(f.relaxed(product).value, f.dir, f.relaxed(product).dir),
{
}

/// Whether a direction is the one of a level, for a fader that pointed to `was`.
pub open spec fn points(level: Single, was: i32, now: i32) -> bool {
    &&& bits(0x3f00_0000).at_most(level) ==> now == 1
    &&& level.at_most(bits(0xbf00_0000)) ==> now == -1
    &&& level.absolute().below(bits(0x3eb3_3333)) ==> now == 0
    &&& !bits(0x3f00_0000).at_most(level) && !level.at_most(bits(0xbf00_0000))
        && !level.absolute().below(bits(0x3eb3_3333)) ==> now == was
}

/// A fader that is let go springs back by one step: onto rest within 0.005 of it, else to
/// exactly the product. One that is held, or rests, stays as it is.
pub proof fn a_released_fader_steps_to_the_product(f: Fader, product: Single)
    ensures
        f.owner is Some || f.settled.equals(bits(0)) ==> f.relaxed(product) == f,
        f.owner is None && !f.settled.equals(bits(0)) ==> {
            let after = f.relaxed(product);
            &&& f.settled.absolute().below(bits(0x3ba3_d70a)) ==> after.value == bits(0)
            &&& !f.settled.absolute().below(bits(0x3ba3_d70a)) ==> after.value == product
            &&& after.settled == after.value
            &&& after.owner is None
            &&& after.last_x == f.last_x
            &&& after.rel_value == f.rel_value
        },
{
}

/// A decay step does this to each of the two faders by its own product, and changes
/// neither zones nor settings.
pub proof fn both_faders_decay(f: FaderModel, products: Seq<Single>, i: int)
    requires
        f.wf(),
        0 <= i < 2,
    ensures
        f.relaxed(products).faders.len() == 2,
        f.relaxed(products).zones == f.zones,
        f.relaxed(products).cfg == f.cfg,
        f.relaxed(products).faders[i].owner == f.faders[i].owner,
        f.faders[i].owner is None && !f.faders[i].settled.equals(bits(0))
            && !f.faders[i].settled.absolute().below(bits(0x3ba3_d70a))
            ==> f.relaxed(products).faders[i].value == products[i],
        f.faders[i].owner is None && !f.faders[i].settled.equals(bits(0))
            && f.faders[i].settled.absolute().below(bits(0x3ba3_d70a)) ==> f.relaxed(
            products,
        ).faders[i].value == bits(0),
        f.faders[i].owner is Some || f.faders[i].settled.equals(bits(0)) ==> f.relaxed(
            products,
        ).faders[i] == f.faders[i],
{
}

/// A contact that holds no fader takes the first free one whose zone it is in, and leaves
/// the other alone. A relative fader is taken up at the level it had settled at; an
/// absolute one goes to the contact at once.
pub proof fn a_contact_takes_the_first_free_fader(
    f: FaderModel,
    id: u32,
    x: Single,
    y: Single,
    readings: Seq<Reading>,
    i: int,
)
    requires
        f.wf(),
        0 <= i < 2,
        f.faders[0].owner != Some(id),
        f.faders[1].owner != Some(id),
        f.faders[i].owner is None,
        inside(f.zones[i], x, y),
        i == 1 ==> f.faders[0].owner is Some || !inside(f.zones[0], x, y),
    ensures
        ({
            let after = f.offered(id, x, y, readings);
            let r = readings[i];
            &&& after.faders.len() == 2
            &&& after.faders[i].owner == Some(id)
            &&& after.faders[1 - i] == f.faders[1 - i]
            &&& after.zones == f.zones
            &&& after.cfg == f.cfg
            &&& f.cfg.relative ==> after.faders[i].value == f.faders[i].settled
                && after.faders[i].last_x == Some(x)
            &&& !f.cfg.relative && !r.ratio.clamped().absolute().below(f.cfg.dead)
                && !r.ratio.below(bits(0)) ==> after.faders[i].value == r.shaped
            &&& !f.cfg.relative && !r.ratio.clamped().absolute().below(f.cfg.dead)
                && r.ratio.below(bits(0)) ==> after.faders[i].value.magnitude()
                == r.shaped.magnitude() && after.faders[i].value.signed() == !r.shaped.signed()
            &&& !f.cfg.relative && r.ratio.clamped().absolute().below(f.cfg.dead)
                ==> after.faders[i].value.equals(bits(0))
            &&& points(after.faders[i].value, f.faders[i].dir, after.faders[i].dir)
        }),
{
}

/// A fader in a contact's hands follows it wherever it goes, in or out of the zone, by the
/// figures of that fader, and the other fader is left alone.
pub proof fn a_held_fader_follows_its_contact(
    f: FaderModel,
    id: u32,
    x: Single,
    y: Single,
    readings: Seq<Reading>,
    i: int,
)
    requires
        f.wf(),
        0 <= i < 2,
        f.faders[i].owner == Some(id),
    ensures
        ({
            let before = f.faders[i];
            let after = f.offered(id, x, y, readings);
            let r = readings[i];
            let felt = before.last_x is Some && !r.delta.absolute().below(f.cfg.speed_dead);
            &&& after.faders.len() == 2
            &&& after.faders[i].owner == Some(id)
            &&& after.faders[1 - i] == f.faders[1 - i]
            &&& after.zones == f.zones
            &&& after.cfg == f.cfg
            &&& f.cfg.relative && felt && !opposed(r.delta, before.rel_value)
                && r.sum.in_unit() ==> after.faders[i].value == r.sum
            &&& f.cfg.relative && felt && opposed(r.delta, before.rel_value)
                && r.restart.in_unit() ==> after.faders[i].value == r.restart
            &&& f.cfg.relative && !felt ==> after.faders[i].value == before.rel_value
            &&& f.cfg.relative ==> after.faders[i].last_x == Some(x)
            &&& !f.cfg.relative && !r.ratio.clamped().absolute().below(f.cfg.dead)
                && !r.ratio.below(bits(0)) ==> after.faders[i].value == r.shaped
            &&& !f.cfg.relative && !r.ratio.clamped().absolute().below(f.cfg.dead)
                && r.ratio.below(bits(0)) ==> after.faders[i].value.magnitude()
                == r.shaped.magnitude() && after.faders[i].value.signed() == !r.shaped.signed()
            &&& points(after.faders[i].value, before.dir, after.faders[i].dir)
        }),
{
}

/// A contact that holds no fader and is in no zone of a free one changes nothing.
pub proof fn a_contact_beside_the_free_faders_changes_nothing(
    f: FaderModel,
    id: u32,
    x: Single,
    y: Single,
    readings: Seq<Reading>,
)
    requires
        f.wf(),
        f.faders[0].owner != Some(id),
        f.faders[1].owner != Some(id),
        f.faders[0].owner is Some || !inside(f.zones[0], x, y),
        f.faders[1].owner is Some || !inside(f.zones[1], x, y),
    ensures
        f.offered(id, x, y, readings) == f,
{
}

/// A move is reported exactly where a level is another number than before.
pub proof fn moves_are_changes_of_level(
    f: FaderModel,
    id: u32,
    x: Single,
    y: Single,
    readings: Seq<Reading>,
    products: Seq<Single>,
)
    requires
        f.wf(),
        !f.faders[0].value.nan(),
        !f.faders[1].value.nan(),
    ensures
        f.offer_moves(id, x, y, readings) <==> {
            let after = f.offered(id, x, y, readings);
            ||| !f.faders[0].value.equals(after.faders[0].value)
            ||| !f.faders[1].value.equals(after.faders[1].value)
        },
        f.decay_moves(products) <==> {
            let after = f.relaxed(products);
            ||| !f.faders[0].value.equals(after.faders[0].value)
            ||| !f.faders[1].value.equals(after.faders[1].value)
        },
{
    let later = f.relaxed(products);
    assert(later.faders[0] == f.faders[0].relaxed(products[0]));
    assert(later.faders[1] == f.faders[1].relaxed(products[1]));
    assert(f.faders[0].relaxed(products[0]).value.equals(f.faders[0].value)
        == f.faders[0].value.equals(later.faders[0].value));
    assert(f.faders[1].relaxed(products[1]).value.equals(f.faders[1].value)
        == f.faders[1].value.equals(later.faders[1].value));
}

/// Lifting a contact takes its fader out of its hands and leaves the level, the side and
/// everything about the other fader as they are; lifting all does so to both.
pub proof fn lifting_moves_no_fader(f: FaderModel, id: u32, i: int)
    requires
        f.wf(),
        0 <= i < 2,
    ensures
        ({
            let was = f.faders[i];
            let one = f.released(id);
            let all = f.all_released();
            &&& one.faders.len() == 2 && one.zones == f.zones && one.cfg == f.cfg
            &&& all.faders.len() == 2 && all.zones == f.zones && all.cfg == f.cfg
            &&& was.owner == Some(id) ==> one.faders[i].owner is None && one.faders[i].last_x is None
            &&& was.owner != Some(id) ==> one.faders[i] == was
            &&& one.faders[i].value == was.value && one.faders[i].settled == was.settled
            &&& one.faders[i].rel_value == was.rel_value && one.faders[i].dir == was.dir
            &&& all.faders[i].owner is None && all.faders[i].last_x is None
            &&& all.faders[i].value == was.value && all.faders[i].settled == was.settled
            &&& all.faders[i].rel_value == was.rel_value && all.faders[i].dir == was.dir
        }),
{
}

/// Who holds a fader holds the left one or the right one, and a point is on a fader
/// exactly where it is in one of the two rectangles. Levels, grabs and directions are told
/// of the left fader first.
pub proof fn either_fader_counts(f: FaderModel, id: u32, x: Single, y: Single)
    requires
        f.wf(),
    ensures
        f.held_by(id) <==> exists|i: int| 0 <= i < 2 && (#[trigger] f.faders[i]).owner == Some(id),
        f.touched(x, y) <==> exists|i: int| 0 <= i < 2 && inside(#[trigger] f.zones[i], x, y),
        f.levels().len() == 2,
        f.levels()[0] == f.faders[0].value,
        f.levels()[1] == f.faders[1].value,
        f.grabs().len() == 2 && f.bearings().len() == 2,
        forall|i: int|
            0 <= i < 2 ==> (#[trigger] f.grabs()[i] <==> f.faders[i].owner is Some),
        forall|i: int| 0 <= i < 2 ==> #[trigger] f.bearings()[i] == f.faders[i].dir,
{
    if f.held_by(id) {
        assert(f.faders[0].owner == Some(id) || f.faders[1].owner == Some(id));
    }
    if f.touched(x, y) {
        assert(inside(f.zones[0], x, y) || inside(f.zones[1], x, y));
    }
}

/// Settings agree exactly where no single one differs; so a change of any one is a change.
pub proof fn settings_agree_in_everything(a: FaderCfg, b: FaderCfg)
    ensures
        !a.agrees(b) <==> {
            ||| a.relative != b.relative
            ||| !a.curve.equals(b.curve)
            ||| !a.dead.equals(b.dead)
            ||| !a.decay.equals(b.decay)
            ||| !a.rel_travel.equals(b.rel_travel)
            ||| !a.speed_dead.equals(b.speed_dead)
        },
{
}

/// Zones agree exactly where no single measure differs.
pub proof fn zones_agree_in_everything(a: Zone, b: Zone)
    ensures
        !a.agrees(b) <==> {
            ||| !a.x.equals(b.x)
            ||| !a.y.equals(b.y)
            ||| !a.w.equals(b.w)
            ||| !a.h.equals(b.h)
            ||| !a.center_x.equals(b.center_x)
            ||| !a.half.equals(b.half)
        },
{
}

/// Two faders that nobody has touched rest, point nowhere and are nobody's, and have no
/// zone that could be hit.
pub proof fn fresh_faders_rest(i: int, x: Single, y: Single)
    requires
        0 <= i < 2,
    ensures
        ({
            let f = crate::faders::fresh_faders();
            &&& f.wf()
            &&& f.faders[i].owner is None
            &&& f.faders[i].value == bits(0)
            &&& f.faders[i].settled == bits(0)
            &&& f.faders[i].rel_value == bits(0)
            &&& f.faders[i].last_x is None
            &&& f.faders[i].dir == 0
            &&& !inside(f.zones[i], x, y)
            &&& f.cfg.relative
        }),
{
}

} // verus!
