use vstd::prelude::*;
use std::collections::VecDeque;
use std::marker::PhantomData;
use crate::ids::{IdAllocator, MAX_UNIT_ID};
use crate::store::{FragmentKind, World};

verus! {

/// The kinds of fragment attached to `entity`, or `None` where `world` has no
/// such entity.
pub fn get_components_for_entity(entity: &EntityId, world: &World) -> (r: Option<
    Vec<FragmentKind>,
>)
    ensures
        world.exists_spec(*entity) ==> (r matches Some(v) && v@ == world@[entity.0 as int].kinds()),
        !world.exists_spec(*entity) ==> r.is_none(),
{
    world.fragments_of(*entity)
}

/// Numerator of the scale at which unit sprites are drawn.
pub const SPRITE_SCALE_NUM: u16 = 1;
/// Denominator of the scale at which unit sprites are drawn.
pub const SPRITE_SCALE_DEN: u16 = 10;

/// A participant in the match.
#[derive(Clone, Copy, PartialEq, Eq, Structural, Debug)]
pub struct Player {
    pub id: u32,
}

/// Handle of an entity in a `World`: the slot it occupies.
#[derive(Clone, Copy, PartialEq, Eq, Structural, Debug)]
pub struct EntityId(pub usize);

/// Extent of the playing field.
#[derive(Clone, Copy, PartialEq, Eq, Structural, Debug)]
pub struct GameMap {
    pub w: i32,
    pub h: i32,
}

/// Marks the rectangle drawn while the user drags a selection.
pub struct SelectionRect;

/// Marks the circle drawn around a selected unit.
pub struct UnitSelectedCircle;

/// Marks the debug outline of a unit's footprint.
pub struct DebugRect;

/// Marks the debug outline of a unit's selection radius.
pub struct DebugSelectionRadius;

/// Marks a line of the background grid.
pub struct GridLine;

/// Marks the sprite that shows a unit.
pub struct MainSprite;

/// Marks the drawing of a unit's planned path.
pub struct UnitPathDisplay;

/// A firing hardpoint; the reload time is in milliseconds.
#[derive(Clone, Copy, PartialEq, Eq, Structural, Debug)]
pub struct Turret {
    pub reload_ms: u32,
}

/// A point or displacement in world units.
#[derive(Clone, Copy, PartialEq, Eq, Structural, Debug)]
pub struct Point {
    pub x: i64,
    pub y: i64,
}

/// A location with a facing angle (in milliradians).
#[derive(Clone, Copy, PartialEq, Eq, Structural, Debug)]
pub struct Position {
    pub x: i64,
    pub y: i64,
    pub facing: i64,
}

/// Width and height of a footprint, in world units.
#[derive(Clone, Copy, PartialEq, Eq, Structural, Debug)]
pub struct Size {
    pub w: u32,
    pub h: u32,
}

/// A scale factor `num / den`.
#[derive(Clone, Copy, PartialEq, Eq, Structural, Debug)]
pub struct Scale {
    pub num: u16,
    pub den: u16,
}

/// A non-negative length held exactly as the fraction `num / den`.
#[derive(Clone, Copy, PartialEq, Eq, Structural, Debug)]
pub struct Ratio {
    pub num: u64,
    pub den: u64,
}

/// The scale at which unit sprites are drawn.
pub open spec fn sprite_scale() -> Scale {
    Scale { num: SPRITE_SCALE_NUM, den: SPRITE_SCALE_DEN }
}

/// `(w + h) / 4 * s`, as an unreduced fraction.
pub open spec fn selection_radius_of(size: Size, scale: Scale) -> Ratio {
    Ratio {
        num: ((size.w + size.h) * scale.num) as u64,
        den: (4 * scale.den) as u64,
    }
}

/// The body that `Body::new` builds.
pub open spec fn body_of(position: Position, size: Size) -> Body {
    Body { position, size, selection_radius: selection_radius_of(size, sprite_scale()) }
}

/// Where a unit is and how much room it takes.
#[derive(Clone, Copy, PartialEq, Eq, Structural, Debug)]
pub struct Body {
    pub position: Position,
    pub size: Size,
    pub selection_radius: Ratio,
}

/// Engine strengths of a unit.
#[derive(Clone, Copy, PartialEq, Eq, Structural, Debug)]
pub struct Thruster {
    pub unidirectional_thrust: u32,
    pub omnidirectional_thrust: u32,
}

impl Body {
    /// A body at the sprite scale; its selection radius is derived once, here.
    pub fn new(position: Position, size: Size) -> (r: Body)
        ensures
            r == body_of(position, size),
    {
        Body::with_scale(position, size, Scale { num: SPRITE_SCALE_NUM, den: SPRITE_SCALE_DEN })
    }

    /// A body whose selection radius is `(w + h) / 4 * scale`.
    pub fn with_scale(position: Position, size: Size, scale: Scale) -> (r: Body)
        requires
            scale.den > 0,
        ensures
            r.position == position,
            r.size == size,
            r.selection_radius == selection_radius_of(size, scale),
            r.selection_radius.num * (4 * scale.den) == (size.w + size.h) * scale.num
                * r.selection_radius.den,
            r.selection_radius.den > 0,
    {
        let sum: u64 = size.w as u64 + size.h as u64;
        assert(sum * scale.num <= 0x1_ffff_fffe * 0xffff) by (nonlinear_arith)
            requires
                sum <= 0x1_ffff_fffe,
                scale.num <= 0xffff,
        ;
        let num: u64 = sum * scale.num as u64;
        let den: u64 = 4 * scale.den as u64;
        let r = Body { position, size, selection_radius: Ratio { num, den } };
        assert(r.selection_radius.num * (4 * scale.den) == (size.w + size.h) * scale.num
            * r.selection_radius.den) by (nonlinear_arith)
            requires
                r.selection_radius.num == (size.w + size.h) * scale.num,
                r.selection_radius.den == 4 * scale.den,
        ;
        r
    }
}

/// Linear and angular velocity.
#[derive(Clone, Copy, PartialEq, Eq, Structural, Debug)]
pub struct Velocity {
    pub dx: i64,
    pub dy: i64,
    pub dw: i64,
}

impl Default for Velocity {
    fn default() -> (r: Velocity)
        ensures
            r == (Velocity { dx: 0, dy: 0, dw: 0 }),
    {
        Velocity { dx: 0, dy: 0, dw: 0 }
    }
}

/// Hit points.
#[derive(Clone, Copy, PartialEq, Eq, Structural, Debug)]
pub struct Hp {
    pub max: u8,
    pub current: u8,
}

/// Shield points.
#[derive(Clone, Copy, PartialEq, Eq, Structural, Debug)]
pub struct Shield {
    pub max: u8,
    pub current: u8,
}

/// Interaction state of a unit in the user interface.
#[derive(Clone, Copy, PartialEq, Eq, Structural, Debug)]
pub struct UnitControls {
    pub is_selected: bool,
    pub is_clickable: bool,
    pub is_movable: bool,
}

/// Marks a unit the user has selected.
pub struct Selected;

/// Marks a unit the user may select.
pub struct Selectable;

/// Marks a unit that accepts paths given by hand. Some units follow paths
/// without the user being able to give them one.
pub struct Movable;

/// Marks a unit that may start an engagement.
pub struct Targeterable;

/// Marks a unit that may be chosen as a target.
pub struct Targeteeable;

/// Waypoints still to be visited, first one first.
pub struct UnitPath {
    pub path: VecDeque<Point>,
}

impl UnitPath {
    pub fn new() -> (r: UnitPath)
        ensures
            r.path@.len() == 0,
    {
        UnitPath { path: VecDeque::new() }
    }
}

/// A reference to an entity that is known to carry fragments of kind `T`.
pub struct KindedEntity<T>(pub EntityId, pub PhantomData<T>);

/// Targets to engage, first one first.
pub struct Targets {
    pub deque: VecDeque<EntityId>,
}

impl Targets {
    pub fn new() -> (r: Targets)
        ensures
            r.deque@.len() == 0,
    {
        Targets { deque: VecDeque::new() }
    }
}

/// Sight and firing distances, in world units.
#[derive(Clone, Copy, PartialEq, Eq, Structural, Debug)]
pub struct Range {
    pub sight: u32,
    pub fire: u32,
}

/// Identity of a unit: its name, its owner and its unique number.
pub struct Unit {
    pub name: String,
    pub player: Player,
    pub id: u64,
}

impl Unit {
    /// A unit whose number is the next one `ids` issues.
    pub fn new(name: String, player: Player, ids: &mut IdAllocator) -> (r: Unit)
        requires
            old(ids).next_spec() <= MAX_UNIT_ID,
        ensures
            r.name@ == name@,
            r.player == player,
            r.id == old(ids).next_spec(),
            final(ids).next_spec() == old(ids).next_spec() + 1,
            !old(ids).issued(r.id as nat),
            forall|x: nat| #[trigger] old(ids).issued(x) ==> x < r.id,
            forall|x: nat| #[trigger] final(ids).issued(x) <==> (old(ids).issued(x) || x == r.id),
    {
        let id = ids.next_id();
        Unit { name, player, id: id.unwrap() }
    }
}

/// Marks an entity that belongs to a parent unit, such as a hardpoint.
pub struct Subunit;

} // verus!
