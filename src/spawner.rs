use vstd::prelude::*;
use crate::components::{
    body_of, Body, EntityId, Hp, Player, Point, Position, Range, Shield, Size, Targets, Turret,
    Unit, UnitPath, Velocity,
};
use crate::ids::{remaining_from, IdAllocator, MAX_UNIT_ID};
use crate::store::{lemma_push_keeps_ids_fresh, unit_ids_fresh, EntityRecord, RoleTags, World};

verus! {

/// Hit points every implemented unit type starts with.
pub const UNIT_HP: u8 = 100;
/// Shield points every implemented unit type starts with.
pub const UNIT_SHIELD: u8 = 100;
/// Footprint width of a turret.
pub const TURRET_W: u32 = 162;
/// Footprint height of a turret.
pub const TURRET_H: u32 = 168;
/// Milliseconds a turret needs to reload.
pub const TURRET_RELOAD_MS: u32 = 1000;
/// How far a turret sees.
pub const TURRET_SIGHT: u32 = 1000;
/// How far a turret fires.
pub const TURRET_FIRE: u32 = 800;

/// The unit types a spawn request may ask for.
#[derive(Clone, Copy, PartialEq, Eq, Structural, Debug)]
pub enum UnitType {
    DefaultUnit,
    Tank,
    Plane,
    Fighter,
    Building,
}

impl UnitType {
    /// The display name of the type.
    pub open spec fn name_spec(self) -> Seq<char> {
        match self {
            UnitType::DefaultUnit => "DefaultUnit"@,
            UnitType::Tank => "Tank"@,
            UnitType::Plane => "Plane"@,
            UnitType::Fighter => "Fighter"@,
            UnitType::Building => "Building"@,
        }
    }

    /// The display name of the type.
    pub fn to_string(&self) -> (r: String)
        ensures
            r@ == self.name_spec(),
    {
        match self {
            UnitType::DefaultUnit => "DefaultUnit".to_string(),
            UnitType::Tank => "Tank".to_string(),
            UnitType::Plane => "Plane".to_string(),
            UnitType::Fighter => "Fighter".to_string(),
            UnitType::Building => "Building".to_string(),
        }
    }
}

/// Whether the catalogue knows how to assemble a unit of type `t`.
pub open spec fn is_implemented(t: UnitType) -> bool {
    t == UnitType::DefaultUnit || t == UnitType::Fighter
}

/// Footprint of an implemented unit type.
pub open spec fn footprint(t: UnitType) -> Size {
    match t {
        UnitType::DefaultUnit => Size { w: 1350, h: 762 },
        UnitType::Fighter => Size { w: 207, h: 204 },
        _ => Size { w: 0, h: 0 },
    }
}

/// Where the turrets of an implemented unit type sit, relative to the unit.
pub open spec fn hardpoints(t: UnitType) -> Seq<Point> {
    match t {
        UnitType::DefaultUnit => seq![Point { x: 460, y: 0 }, Point { x: -110i64, y: 0 }],
        _ => seq![],
    }
}

/// Static shape of a unit type.
pub struct UnitTypeDescriptor {
    pub size: Size,
    pub hp: u8,
    pub shield: u8,
    pub hardpoints: Vec<Point>,
}

/// The catalogue: the shape of each implemented unit type, `None` for the
/// others.
pub fn describe(t: UnitType) -> (r: Option<UnitTypeDescriptor>)
    ensures
        r.is_some() == is_implemented(t),
        r matches Some(d) ==> d.size == footprint(t) && d.hp == UNIT_HP && d.shield == UNIT_SHIELD
            && d.hardpoints@ == hardpoints(t),
{
    match t {
        UnitType::DefaultUnit => {
            let mut hardpoints: Vec<Point> = Vec::new();
            hardpoints.push(Point { x: 460, y: 0 });
            hardpoints.push(Point { x: -110, y: 0 });
            assert(hardpoints@ =~= seq![Point { x: 460, y: 0 }, Point { x: -110i64, y: 0 }]);
            Some(
                UnitTypeDescriptor {
                    size: Size { w: 1350, h: 762 },
                    hp: UNIT_HP,
                    shield: UNIT_SHIELD,
                    hardpoints,
                },
            )
        },
        UnitType::Fighter => {
            let hardpoints: Vec<Point> = Vec::new();
            assert(hardpoints@ =~= seq![]);
            Some(
                UnitTypeDescriptor {
                    size: Size { w: 207, h: 204 },
                    hp: UNIT_HP,
                    shield: UNIT_SHIELD,
                    hardpoints,
                },
            )
        },
        _ => None,
    }
}

/// A request to bring a unit into the world.
#[derive(Clone, Copy, PartialEq, Eq, Structural, Debug)]
pub struct SpawnUnitEvent {
    pub unit_type: UnitType,
    pub player: Player,
    pub position: Position,
}

/// Why a spawn request created nothing.
#[derive(Clone, Copy, PartialEq, Eq, Structural, Debug)]
pub enum SpawnError {
    /// The unit type is unknown, or known but not assembled yet.
    UnsupportedUnitType,
    /// Too few identifiers are left for the unit and its turrets.
    AllocationExhausted,
}

/// Role markers of a primary unit owned by `owner` while `local` plays here.
pub open spec fn primary_tags(owner: Player, local: Player) -> RoleTags {
    RoleTags {
        selectable: true,
        movable: owner.id == local.id,
        targeterable: owner.id == local.id,
        targeteeable: owner.id != local.id,
        subunit: false,
    }
}

/// What a freshly spawned primary unit carries.
pub open spec fn is_primary_record(
    rec: EntityRecord,
    ev: SpawnUnitEvent,
    local: Player,
    id: nat,
) -> bool {
    &&& rec.unit matches Some(u) && u.name@ == ev.unit_type.name_spec() && u.player == ev.player
        && u.id == id
    &&& rec.body == Some(body_of(ev.position, footprint(ev.unit_type)))
    &&& rec.velocity == Some(Velocity { dx: 0, dy: 0, dw: 0 })
    &&& rec.hp == Some(Hp { max: UNIT_HP, current: UNIT_HP })
    &&& rec.shield == Some(Shield { max: UNIT_SHIELD, current: UNIT_SHIELD })
    &&& rec.range.is_none()
    &&& rec.targets matches Some(t) && t.deque@.len() == 0
    &&& rec.path matches Some(p) && p.path@.len() == 0
    &&& rec.turret.is_none()
    &&& rec.parent.is_none()
    &&& rec.tags == primary_tags(ev.player, local)
}

/// What a freshly spawned turret at `displacement` from `parent` carries.
pub open spec fn is_turret_record(
    rec: EntityRecord,
    displacement: Point,
    parent: EntityId,
    local: Player,
    id: nat,
) -> bool {
    &&& rec.unit matches Some(u) && u.name@ == "Turret"@ && u.player == local && u.id == id
    &&& rec.body == Some(
        body_of(
            Position { x: displacement.x, y: displacement.y, facing: 0 },
            Size { w: TURRET_W, h: TURRET_H },
        ),
    )
    &&& rec.velocity == Some(Velocity { dx: 0, dy: 0, dw: 0 })
    &&& rec.hp.is_none()
    &&& rec.shield.is_none()
    &&& rec.range == Some(Range { sight: TURRET_SIGHT, fire: TURRET_FIRE })
    &&& rec.targets matches Some(t) && t.deque@.len() == 0
    &&& rec.path.is_none()
    &&& rec.turret == Some(Turret { reload_ms: TURRET_RELOAD_MS })
    &&& rec.parent == Some(parent)
    &&& rec.tags == RoleTags {
        selectable: false,
        movable: false,
        targeterable: false,
        targeteeable: false,
        subunit: true,
    }
}

/// Spawns one turret of `parent`, attributed to the local player.
pub fn add_turret(
    world: &mut World,
    ids: &mut IdAllocator,
    parent: EntityId,
    displacement: Point,
    local: Player,
) -> (r: EntityId)
    requires
        old(ids).next_spec() <= MAX_UNIT_ID,
    ensures
        r.0 == old(world)@.len(),
        final(world)@.len() == old(world)@.len() + 1,
        final(world)@.drop_last() == old(world)@,
        is_turret_record(final(world)@.last(), displacement, parent, local, old(ids).next_spec()),
        final(ids).next_spec() == old(ids).next_spec() + 1,
{
    let unit = Unit::new("Turret".to_string(), local, ids);
    let rec = EntityRecord {
        unit: Some(unit),
        body: Some(
            Body::new(
                Position { x: displacement.x, y: displacement.y, facing: 0 },
                Size { w: TURRET_W, h: TURRET_H },
            ),
        ),
        velocity: Some(Velocity::default()),
        hp: None,
        shield: None,
        range: Some(Range { sight: TURRET_SIGHT, fire: TURRET_FIRE }),
        targets: Some(Targets::new()),
        path: None,
        turret: Some(Turret { reload_ms: TURRET_RELOAD_MS }),
        parent: Some(parent),
        tags: RoleTags {
            selectable: false,
            movable: false,
            targeterable: false,
            targeteeable: false,
            subunit: true,
        },
    };
    let e = world.spawn_record(rec);
    assert(world@.drop_last() =~= old(world)@);
    e
}

/// Runs the spawn pipeline on one request.
///
/// A request for a type the catalogue does not assemble, or one that would
/// need more identifiers than are left, changes nothing. Otherwise the unit
/// takes the next handle and the next identifier, and each hardpoint of its
/// type becomes a turret entity right after it, with the identifiers that
/// follow, linked back to the unit.
pub fn spawn_unit(
    world: &mut World,
    ids: &mut IdAllocator,
    ev: &SpawnUnitEvent,
    local: Player,
) -> (r: Result<EntityId, SpawnError>)
    ensures
        !is_implemented(ev.unit_type) ==> r == Err::<EntityId, SpawnError>(
            SpawnError::UnsupportedUnitType,
        ),
        is_implemented(ev.unit_type) && old(ids).remaining_spec() <= hardpoints(
            ev.unit_type,
        ).len() ==> r == Err::<EntityId, SpawnError>(SpawnError::AllocationExhausted),
        r is Err ==> final(world)@ == old(world)@ && final(ids).next_spec() == old(
            ids,
        ).next_spec(),
        is_implemented(ev.unit_type) && old(ids).remaining_spec() > hardpoints(ev.unit_type).len()
            ==> r == Ok::<EntityId, SpawnError>(EntityId(old(world)@.len() as usize)),
        r matches Ok(e) ==> {
            let n = old(world)@.len();
            let hp = hardpoints(ev.unit_type);
            &&& e.0 == n
            &&& final(world)@.len() == n + 1 + hp.len()
            &&& final(world)@.subrange(0, n as int) == old(world)@
            &&& is_primary_record(final(world)@[n as int], *ev, local, old(ids).next_spec())
            &&& forall|k: int|
                0 <= k < hp.len() ==> is_turret_record(
                    #[trigger] final(world)@[n + 1 + k],
                    hp[k],
                    e,
                    local,
                    old(ids).next_spec() + 1 + k as nat,
                )
            &&& final(ids).next_spec() == old(ids).next_spec() + 1 + hp.len()
            &&& final(world)@[n as int].tags.targeterable != final(world)@[n as int].tags.targeteeable
            &&& forall|k: int|
                n < k < final(world)@.len() ==> {
                    let t = #[trigger] final(world)@[k];
                    &&& t.turret is Some
                    &&& t.tags.subunit
                    &&& t.parent == Some(e)
                    &&& !t.tags.movable
                    &&& !t.tags.targeterable
                }
            &&& forall|j: int|
                n <= j < final(world)@.len() ==> has_unit_id(
                    #[trigger] final(world)@[j],
                    old(ids).next_spec() + (j - n),
                )
        },
        unit_ids_fresh(old(world)@, old(ids).next_spec()) ==> unit_ids_fresh(
            final(world)@,
            final(ids).next_spec(),
        ),
{
    let d = match describe(ev.unit_type) {
        None => {
            return Err(SpawnError::UnsupportedUnitType);
        },
        Some(d) => d,
    };
    let k = d.hardpoints.len();
    if ids.remaining() <= k as u64 {
        return Err(SpawnError::AllocationExhausted);
    }
    let ghost n = old(world)@.len();
    let ghost first = old(ids).next_spec();
    let unit = Unit::new(ev.unit_type.to_string(), ev.player, ids);
    let is_local = ev.player.id == local.id;
    let rec = EntityRecord {
        unit: Some(unit),
        body: Some(Body::new(ev.position, d.size)),
        velocity: Some(Velocity::default()),
        hp: Some(Hp { max: d.hp, current: d.hp }),
        shield: Some(Shield { max: d.shield, current: d.shield }),
        range: None,
        targets: Some(Targets::new()),
        path: Some(UnitPath::new()),
        turret: None,
        parent: None,
        tags: RoleTags {
            selectable: true,
            movable: is_local,
            targeterable: is_local,
            targeteeable: !is_local,
            subunit: false,
        },
    };
    proof {
        if unit_ids_fresh(old(world)@, first) {
            lemma_push_keeps_ids_fresh(old(world)@, first, rec);
        }
    }
    let e = world.spawn_record(rec);
    assert(world@.subrange(0, n as int) =~= old(world)@);
    let mut i: usize = 0;
    while i < k
        invariant
            k == d.hardpoints@.len(),
            d.hardpoints@ == hardpoints(ev.unit_type),
            e.0 == n,
            i <= k,
            first + k <= MAX_UNIT_ID,
            ids.next_spec() == first + 1 + i,
            world@.len() == n + 1 + i,
            world@.subrange(0, n as int) == old(world)@,
            is_primary_record(world@[n as int], *ev, local, first),
            forall|j: int|
                0 <= j < i ==> is_turret_record(
                    #[trigger] world@[n + 1 + j],
                    d.hardpoints@[j],
                    e,
                    local,
                    first + 1 + j as nat,
                ),
            unit_ids_fresh(old(world)@, first) ==> unit_ids_fresh(world@, ids.next_spec()),
        decreases k - i,
    {
        let ghost before = world@;
        let ghost next = ids.next_spec();
        add_turret(world, ids, e, d.hardpoints[i], local);
        proof {
            assert(world@ == before.push(world@.last()));
            if unit_ids_fresh(old(world)@, first) {
                lemma_push_keeps_ids_fresh(before, next, world@.last());
            }
            assert(world@.subrange(0, n as int) =~= before.subrange(0, n as int));
            assert forall|j: int| 0 <= j < i + 1 implies is_turret_record(
                #[trigger] world@[n + 1 + j],
                d.hardpoints@[j],
                e,
                local,
                first + 1 + j as nat,
            ) by {
                if j < i {
                    assert(world@[n + 1 + j] == before[n + 1 + j]);
                }
            }
        }
        i = i + 1;
    }
    assert forall|j: int| n < j < world@.len() implies {
        let t = #[trigger] world@[j];
        &&& t.turret is Some
        &&& t.tags.subunit
        &&& t.parent == Some(e)
        &&& !t.tags.movable
        &&& !t.tags.targeterable
    } by {
        assert(is_turret_record(world@[n + 1 + (j - n - 1)], d.hardpoints@[j - n - 1], e, local,
            first + 1 + (j - n - 1) as nat));
    }
    assert forall|j: int| n <= j < world@.len() implies has_unit_id(
        #[trigger] world@[j],
        first + (j - n),
    ) by {
        if j > n {
            assert(is_turret_record(world@[n + 1 + (j - n - 1)], d.hardpoints@[j - n - 1], e,
                local, first + 1 + (j - n - 1) as nat));
        }
    }
    Ok(e)
}

/// Whether `rec` carries the unit number `id`.
pub open spec fn has_unit_id(rec: EntityRecord, id: int) -> bool {
    rec.unit matches Some(u) && u.id == id
}

/// The unit number carried by `rec`, if any.
pub open spec fn unit_id(rec: EntityRecord) -> Option<u64> {
    match rec.unit {
        Some(u) => Some(u.id),
        None => None,
    }
}

/// Whether a request for type `t` is carried out when `next` is the next
/// identifier: the type is assembled and enough identifiers are left.
pub open spec fn spawn_fits(t: UnitType, next: nat) -> bool {
    is_implemented(t) && remaining_from(next) > hardpoints(t).len()
}

/// Entities (and identifiers) used by the first `i` of `evs`, when the first
/// identifier is `next0`: a carried-out request uses one for the unit and one
/// per hardpoint, a refused one none.
pub open spec fn batch_used(evs: Seq<SpawnUnitEvent>, next0: nat, i: nat) -> nat
    decreases i,
{
    if i == 0 || i > evs.len() {
        0
    } else {
        let u = batch_used(evs, next0, (i - 1) as nat);
        let t = evs[i - 1].unit_type;
        if spawn_fits(t, next0 + u) {
            u + 1 + hardpoints(t).len()
        } else {
            u
        }
    }
}

/// What handling request `p` of `evs` produced, in a batch that started with
/// `len0` entities and `next0` as the next identifier; `w` is the world
/// afterwards and `res` the outcome reported for the request.
pub open spec fn spawned_as_requested(
    evs: Seq<SpawnUnitEvent>,
    next0: nat,
    len0: nat,
    p: int,
    res: Result<EntityId, SpawnError>,
    w: Seq<EntityRecord>,
    local: Player,
) -> bool {
    let base = batch_used(evs, next0, p as nat);
    let ev = evs[p];
    let pos = len0 + base;
    let id = next0 + base;
    let hp = hardpoints(ev.unit_type);
    if !is_implemented(ev.unit_type) {
        res == Err::<EntityId, SpawnError>(SpawnError::UnsupportedUnitType)
    } else if !spawn_fits(ev.unit_type, id) {
        res == Err::<EntityId, SpawnError>(SpawnError::AllocationExhausted)
    } else {
        &&& res matches Ok(e) && e.0 == pos
        &&& pos + 1 + hp.len() <= w.len()
        &&& is_primary_record(w[pos as int], ev, local, id)
        &&& forall|k: int|
            0 <= k < hp.len() ==> is_turret_record(
                #[trigger] w[pos + 1 + k],
                hp[k],
                EntityId(pos as usize),
                local,
                id + 1 + k as nat,
            )
    }
}

/// Runs the spawn pipeline on each pending request in turn, and reports the
/// outcome of each.
///
/// Each request is handled as `spawn_unit` handles it, against the world and
/// identifiers that the earlier requests left: a refused request adds no
/// entity and uses no identifier; a carried-out one adds its unit and then its
/// turrets, numbered in the order they are added. Entities that existed
/// before are left as they were.
pub fn spawn_units_system(
    world: &mut World,
    ids: &mut IdAllocator,
    events: &Vec<SpawnUnitEvent>,
    local: Player,
) -> (r: Vec<Result<EntityId, SpawnError>>)
    ensures
        r@.len() == events@.len(),
        final(world)@.len() == old(world)@.len() + batch_used(
            events@,
            old(ids).next_spec(),
            events@.len(),
        ),
        final(ids).next_spec() == old(ids).next_spec() + batch_used(
            events@,
            old(ids).next_spec(),
            events@.len(),
        ),
        final(world)@.subrange(0, old(world)@.len() as int) == old(world)@,
        forall|i: int|
            0 <= i < r@.len() ==> spawned_as_requested(
                events@,
                old(ids).next_spec(),
                old(world)@.len(),
                i,
                #[trigger] r@[i],
                final(world)@,
                local,
            ),
        forall|j: int|
            old(world)@.len() <= j < final(world)@.len() ==> has_unit_id(
                #[trigger] final(world)@[j],
                old(ids).next_spec() + (j - old(world)@.len()),
            ),
        forall|a: int, b: int|
            old(world)@.len() <= a < final(world)@.len() && old(world)@.len() <= b
                < final(world)@.len() && a != b ==> unit_id(#[trigger] final(world)@[a]) != unit_id(
                #[trigger] final(world)@[b],
            ),
        forall|a: int, b: int|
            old(world)@.len() <= a < b < final(world)@.len() ==> old(ids).next_spec() <= unit_id(
                #[trigger] final(world)@[a],
            )->0 < unit_id(#[trigger] final(world)@[b])->0,
        unit_ids_fresh(old(world)@, old(ids).next_spec()) ==> unit_ids_fresh(
            final(world)@,
            final(ids).next_spec(),
        ),
{
    let ghost len0 = old(world)@.len();
    let ghost next0 = old(ids).next_spec();
    let mut r: Vec<Result<EntityId, SpawnError>> = Vec::new();
    let mut i: usize = 0;
    while i < events.len()
        invariant
            i <= events@.len(),
            r@.len() == i,
            len0 == old(world)@.len(),
            next0 == old(ids).next_spec(),
            world@.len() == len0 + batch_used(events@, next0, i as nat),
            ids.next_spec() == next0 + batch_used(events@, next0, i as nat),
            world@.subrange(0, len0 as int) == old(world)@,
            forall|p: int|
                0 <= p < i ==> spawned_as_requested(
                    events@,
                    next0,
                    len0,
                    p,
                    #[trigger] r@[p],
                    world@,
                    local,
                ),
            forall|j: int|
                len0 <= j < world@.len() ==> has_unit_id(
                    #[trigger] world@[j],
                    next0 + (j - len0),
                ),
            unit_ids_fresh(old(world)@, next0) ==> unit_ids_fresh(world@, ids.next_spec()),
        decreases events@.len() - i,
    {
        let ghost before = world@;
        let ghost r_before = r@;
        let res = spawn_unit(world, ids, &events[i], local);
        proof {
            assert forall|x: int| 0 <= x < before.len() implies world@[x] == before[x] by {
                if res is Ok {
                    assert(world@.subrange(0, before.len() as int)[x] == world@[x]);
                }
            }
            assert(world@.subrange(0, len0 as int) =~= old(world)@) by {
                assert forall|x: int| 0 <= x < len0 implies world@[x] == old(world)@[x] by {
                    assert(before.subrange(0, len0 as int)[x] == before[x]);
                }
            }
        }
        r.push(res);
        proof {
            let base = batch_used(events@, next0, i as nat);
            assert(batch_used(events@, next0, (i + 1) as nat) == if spawn_fits(
                events@[i as int].unit_type,
                next0 + base,
            ) {
                base + 1 + hardpoints(events@[i as int].unit_type).len()
            } else {
                base
            });
            assert forall|p: int| 0 <= p < i + 1 implies spawned_as_requested(
                events@,
                next0,
                len0,
                p,
                #[trigger] r@[p],
                world@,
                local,
            ) by {
                if p < i {
                    assert(r@[p] == r_before[p]);
                    assert(spawned_as_requested(events@, next0, len0, p, r_before[p], before, local));
                    let bp = batch_used(events@, next0, p as nat);
                    let ev = events@[p];
                    let pos = len0 + bp;
                    if spawn_fits(ev.unit_type, next0 + bp) {
                        assert(world@[pos as int] == before[pos as int]);
                        assert forall|k: int| 0 <= k < hardpoints(ev.unit_type).len() implies is_turret_record(
                            #[trigger] world@[pos + 1 + k],
                            hardpoints(ev.unit_type)[k],
                            EntityId(pos as usize),
                            local,
                            next0 + bp + 1 + k as nat,
                        ) by {
                            assert(world@[pos + 1 + k] == before[pos + 1 + k]);
                        }
                    }
                }
            }
            assert forall|j: int| len0 <= j < world@.len() implies has_unit_id(
                #[trigger] world@[j],
                next0 + (j - len0),
            ) by {
                if j < before.len() {
                    assert(world@[j] == before[j]);
                }
            }
        }
        i = i + 1;
    }
    assert forall|a: int, b: int|
        old(world)@.len() <= a < b < world@.len() implies old(ids).next_spec() <= unit_id(
        #[trigger] world@[a],
    )->0 < unit_id(#[trigger] world@[b])->0 by {
        assert(has_unit_id(world@[a], next0 + (a - len0)));
        assert(has_unit_id(world@[b], next0 + (b - len0)));
    }
    assert forall|a: int, b: int|
        old(world)@.len() <= a < world@.len() && old(world)@.len() <= b < world@.len() && a != b
        implies unit_id(#[trigger] world@[a]) != unit_id(#[trigger] world@[b]) by {
        assert(has_unit_id(world@[a], next0 + (a - len0)));
        assert(has_unit_id(world@[b], next0 + (b - len0)));
    }
    r
}

} // verus!
