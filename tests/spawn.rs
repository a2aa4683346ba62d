use konquer::components::{
    get_components_for_entity, Body, EntityId, Hp, Player, Point, Position, Range, Scale, Shield, Size,
    Turret, Unit, Velocity,
};
use konquer::ids::{IdAllocator, MAX_UNIT_ID};
use konquer::spawner::{
    describe, spawn_unit, spawn_units_system, SpawnError, SpawnUnitEvent, UnitType,
};
use konquer::store::{Fragment, FragmentKind, World};

const LOCAL: Player = Player { id: 0 };
const OTHER: Player = Player { id: 7 };

fn event(unit_type: UnitType, player: Player) -> SpawnUnitEvent {
    SpawnUnitEvent { unit_type, player, position: Position { x: 100, y: 50, facing: 0 } }
}

#[test]
fn default_unit_for_local_player() {
    let mut world = World::new();
    let mut ids = IdAllocator::new();
    let e = spawn_unit(&mut world, &mut ids, &event(UnitType::DefaultUnit, LOCAL), LOCAL).unwrap();
    assert_eq!(e, EntityId(0));
    assert_eq!(world.len(), 3);
    let rec = world.get(e).unwrap();
    assert_eq!(rec.hp, Some(Hp { max: 100, current: 100 }));
    assert_eq!(rec.shield, Some(Shield { max: 100, current: 100 }));
    assert_eq!(rec.body.unwrap().position, Position { x: 100, y: 50, facing: 0 });
    assert!(rec.tags.targeterable);
    assert!(rec.tags.movable);
    assert!(!rec.tags.targeteeable);
    assert!(rec.tags.selectable);
    let unit = rec.unit.as_ref().unwrap();
    assert_eq!(unit.name, "DefaultUnit");
    assert_eq!(unit.player, LOCAL);
    assert_eq!(unit.id, 0);
    for k in 1..3usize {
        let sub = world.get(EntityId(k)).unwrap();
        assert_eq!(sub.turret, Some(Turret { reload_ms: 1000 }));
        assert_eq!(sub.range, Some(Range { sight: 1000, fire: 800 }));
        assert_eq!(sub.parent, Some(e));
        assert_eq!(sub.shield, None);
        assert!(sub.tags.subunit);
        assert!(!sub.tags.movable);
        assert_eq!(sub.unit.as_ref().unwrap().name, "Turret");
        assert_eq!(sub.unit.as_ref().unwrap().id, k as u64);
    }
    assert_eq!(world.get(EntityId(1)).unwrap().body.unwrap().position, Position { x: 460, y: 0, facing: 0 });
    assert_eq!(world.get(EntityId(2)).unwrap().body.unwrap().position, Position { x: -110, y: 0, facing: 0 });
    assert_eq!(ids.peek(), 3);
}

#[test]
fn default_unit_for_other_player() {
    let mut world = World::new();
    let mut ids = IdAllocator::new();
    let e = spawn_unit(&mut world, &mut ids, &event(UnitType::DefaultUnit, OTHER), LOCAL).unwrap();
    let mut mine_world = World::new();
    let mut mine_ids = IdAllocator::new();
    let m = spawn_unit(&mut mine_world, &mut mine_ids, &event(UnitType::DefaultUnit, LOCAL), LOCAL)
        .unwrap();
    let theirs = world.fragments_of(e).unwrap();
    let mine = mine_world.fragments_of(m).unwrap();
    assert!(theirs.contains(&FragmentKind::Targeteeable));
    assert!(!theirs.contains(&FragmentKind::Targeterable));
    assert!(!theirs.contains(&FragmentKind::Movable));
    let strip = |v: &Vec<FragmentKind>| -> Vec<FragmentKind> {
        v.iter()
            .copied()
            .filter(|k| {
                *k != FragmentKind::Targeteeable
                    && *k != FragmentKind::Targeterable
                    && *k != FragmentKind::Movable
            })
            .collect()
    };
    assert_eq!(strip(&theirs), strip(&mine));
    assert_eq!(world.len(), 3);
    assert_eq!(world.get(e).unwrap().hp, Some(Hp { max: 100, current: 100 }));
    for k in 1..3usize {
        assert_eq!(world.fragments_of(EntityId(k)), mine_world.fragments_of(EntityId(k)));
        assert_eq!(world.get(EntityId(k)).unwrap().unit.as_ref().unwrap().player, LOCAL);
    }
}

#[test]
fn building_is_not_spawned() {
    let mut world = World::new();
    let mut ids = IdAllocator::new();
    let r = spawn_unit(&mut world, &mut ids, &event(UnitType::Building, LOCAL), LOCAL);
    assert_eq!(r, Err(SpawnError::UnsupportedUnitType));
    assert_eq!(world.len(), 0);
    assert_eq!(ids.peek(), 0);
    assert_eq!(world.fragments_of(EntityId(0)), None);
}

#[test]
fn unimplemented_types_change_nothing() {
    let mut world = World::new();
    let mut ids = IdAllocator::new();
    spawn_unit(&mut world, &mut ids, &event(UnitType::Fighter, OTHER), LOCAL).unwrap();
    let before = world.fragments_of(EntityId(0));
    for t in [UnitType::Tank, UnitType::Plane, UnitType::Building] {
        let r = spawn_unit(&mut world, &mut ids, &event(t, LOCAL), LOCAL);
        assert_eq!(r, Err(SpawnError::UnsupportedUnitType));
    }
    assert_eq!(world.len(), 1);
    assert_eq!(ids.peek(), 1);
    assert_eq!(world.fragments_of(EntityId(0)), before);
    assert_eq!(world.fragments_of(EntityId(1)), None);
}

#[test]
fn fighter_has_no_turrets() {
    let mut world = World::new();
    let mut ids = IdAllocator::new();
    let e = spawn_unit(&mut world, &mut ids, &event(UnitType::Fighter, LOCAL), LOCAL).unwrap();
    assert_eq!(world.len(), 1);
    let body = world.get(e).unwrap().body.unwrap();
    assert_eq!(body.size, Size { w: 207, h: 204 });
    assert_eq!(world.get(e).unwrap().unit.as_ref().unwrap().name, "Fighter");
}

#[test]
fn primary_fragment_kinds() {
    let mut world = World::new();
    let mut ids = IdAllocator::new();
    let e = spawn_unit(&mut world, &mut ids, &event(UnitType::DefaultUnit, LOCAL), LOCAL).unwrap();
    assert_eq!(
        get_components_for_entity(&e, &world).unwrap(),
        vec![
            FragmentKind::Unit,
            FragmentKind::Body,
            FragmentKind::Velocity,
            FragmentKind::Hp,
            FragmentKind::Shield,
            FragmentKind::Targets,
            FragmentKind::UnitPath,
            FragmentKind::Selectable,
            FragmentKind::Movable,
            FragmentKind::Targeterable,
        ]
    );
    assert_eq!(
        get_components_for_entity(&EntityId(1), &world).unwrap(),
        vec![
            FragmentKind::Unit,
            FragmentKind::Body,
            FragmentKind::Velocity,
            FragmentKind::Range,
            FragmentKind::Targets,
            FragmentKind::Turret,
            FragmentKind::Parent,
            FragmentKind::Subunit,
        ]
    );
    assert_eq!(get_components_for_entity(&EntityId(3), &world), None);
}

#[test]
fn ids_are_unique_and_increasing_over_a_batch() {
    let mut world = World::new();
    let mut ids = IdAllocator::new();
    let events = vec![
        event(UnitType::DefaultUnit, LOCAL),
        event(UnitType::Building, LOCAL),
        event(UnitType::Fighter, OTHER),
        event(UnitType::DefaultUnit, OTHER),
        event(UnitType::Tank, OTHER),
    ];
    let r = spawn_units_system(&mut world, &mut ids, &events, LOCAL);
    assert_eq!(
        r,
        vec![
            Ok(EntityId(0)),
            Err(SpawnError::UnsupportedUnitType),
            Ok(EntityId(3)),
            Ok(EntityId(4)),
            Err(SpawnError::UnsupportedUnitType),
        ]
    );
    assert_eq!(world.len(), 7);
    let got: Vec<u64> =
        (0..world.len()).map(|k| world.get(EntityId(k)).unwrap().unit.as_ref().unwrap().id).collect();
    assert_eq!(got, vec![0, 1, 2, 3, 4, 5, 6]);
    assert_eq!(ids.peek(), 7);
}

#[test]
fn allocator_counts_up_from_zero() {
    let mut ids = IdAllocator::new();
    assert_eq!(ids.next_id(), Some(0));
    assert_eq!(ids.next_id(), Some(1));
    assert_eq!(ids.next_id(), Some(2));
    assert_eq!(ids.peek(), 3);
    let mut a = IdAllocator::new();
    assert_eq!(a.next_id(), Some(0));
}

#[test]
fn allocator_stops_at_its_end() {
    let mut ids = IdAllocator::starting_at(MAX_UNIT_ID);
    assert_eq!(ids.remaining(), 1);
    assert_eq!(ids.next_id(), Some(MAX_UNIT_ID));
    assert_eq!(ids.remaining(), 0);
    assert_eq!(ids.next_id(), None);
    assert_eq!(ids.next_id(), None);
}

#[test]
fn spawn_reports_exhaustion_before_any_change() {
    let mut world = World::new();
    let mut ids = IdAllocator::starting_at(MAX_UNIT_ID - 1);
    let r = spawn_unit(&mut world, &mut ids, &event(UnitType::DefaultUnit, LOCAL), LOCAL);
    assert_eq!(r, Err(SpawnError::AllocationExhausted));
    assert_eq!(world.len(), 0);
    assert_eq!(ids.peek(), MAX_UNIT_ID - 1);
    let f = spawn_unit(&mut world, &mut ids, &event(UnitType::Fighter, LOCAL), LOCAL);
    assert_eq!(f, Ok(EntityId(0)));
}

#[test]
fn selection_radius_is_exact() {
    let b = Body::with_scale(
        Position { x: 0, y: 0, facing: 0 },
        Size { w: 1350, h: 762 },
        Scale { num: 1, den: 2 },
    );
    assert_eq!(b.selection_radius.num, 2112);
    assert_eq!(b.selection_radius.den, 8);
    let t = Body::with_scale(
        Position { x: 0, y: 0, facing: 0 },
        Size { w: 162, h: 168 },
        Scale { num: 3, den: 1 },
    );
    assert_eq!(t.selection_radius.num, 990);
    assert_eq!(t.selection_radius.den, 4);
    let n = Body::new(Position { x: 1, y: 2, facing: 3 }, Size { w: 207, h: 204 });
    assert_eq!(n.selection_radius.num as f64 / n.selection_radius.den as f64, 10.275);
    assert_eq!(n.position, Position { x: 1, y: 2, facing: 3 });
}

#[test]
fn catalogue_entries() {
    let d = describe(UnitType::DefaultUnit).unwrap();
    assert_eq!(d.size, Size { w: 1350, h: 762 });
    assert_eq!(d.hp, 100);
    assert_eq!(d.shield, 100);
    assert_eq!(d.hardpoints, vec![Point { x: 460, y: 0 }, Point { x: -110, y: 0 }]);
    assert!(describe(UnitType::Fighter).unwrap().hardpoints.is_empty());
    assert!(describe(UnitType::Building).is_none());
    assert!(describe(UnitType::Tank).is_none());
    assert!(describe(UnitType::Plane).is_none());
}

#[test]
fn unit_type_names() {
    assert_eq!(UnitType::DefaultUnit.to_string(), "DefaultUnit");
    assert_eq!(UnitType::Tank.to_string(), "Tank");
    assert_eq!(UnitType::Plane.to_string(), "Plane");
    assert_eq!(UnitType::Fighter.to_string(), "Fighter");
    assert_eq!(UnitType::Building.to_string(), "Building");
}

#[test]
fn attach_and_detach_show_in_fragments_of() {
    let mut world = World::new();
    let e = world.create_entity();
    assert_eq!(world.fragments_of(e), Some(vec![]));
    assert!(world.contains(e));
    assert!(!world.contains(EntityId(1)));
    world.attach(e, Fragment::Hp(Hp { max: 5, current: 5 }));
    world.attach(e, Fragment::Velocity(Velocity::default()));
    world.attach(e, Fragment::Selectable);
    assert_eq!(
        world.fragments_of(e),
        Some(vec![FragmentKind::Velocity, FragmentKind::Hp, FragmentKind::Selectable])
    );
    world.attach(e, Fragment::Hp(Hp { max: 9, current: 4 }));
    assert_eq!(world.get(e).unwrap().hp, Some(Hp { max: 9, current: 4 }));
    world.detach(e, FragmentKind::Velocity);
    world.detach(e, FragmentKind::Selectable);
    world.detach(e, FragmentKind::Shield);
    assert_eq!(world.fragments_of(e), Some(vec![FragmentKind::Hp]));
}

#[test]
fn unit_new_takes_the_next_id() {
    let mut ids = IdAllocator::starting_at(41);
    let u = Unit::new("Scout".to_string(), OTHER, &mut ids);
    assert_eq!(u.id, 41);
    assert_eq!(u.name, "Scout");
    assert_eq!(u.player, OTHER);
    assert_eq!(ids.peek(), 42);
}

#[test]
fn velocity_starts_at_rest() {
    assert_eq!(Velocity::default(), Velocity { dx: 0, dy: 0, dw: 0 });
}

#[test]
fn duplicate_requests_give_distinct_units() {
    let mut world = World::new();
    let mut ids = IdAllocator::new();
    let events = vec![event(UnitType::Fighter, LOCAL), event(UnitType::Fighter, LOCAL)];
    let r = spawn_units_system(&mut world, &mut ids, &events, LOCAL);
    assert_eq!(r, vec![Ok(EntityId(0)), Ok(EntityId(1))]);
    assert_eq!(world.get(EntityId(0)).unwrap().unit.as_ref().unwrap().id, 0);
    assert_eq!(world.get(EntityId(1)).unwrap().unit.as_ref().unwrap().id, 1);
}

#[test]
fn batch_refuses_what_the_ids_left_cannot_cover() {
    let mut world = World::new();
    let mut ids = IdAllocator::starting_at(MAX_UNIT_ID - 1);
    let events = vec![
        event(UnitType::DefaultUnit, LOCAL),
        event(UnitType::Fighter, OTHER),
        event(UnitType::Fighter, OTHER),
        event(UnitType::Fighter, OTHER),
    ];
    let r = spawn_units_system(&mut world, &mut ids, &events, LOCAL);
    assert_eq!(
        r,
        vec![
            Err(SpawnError::AllocationExhausted),
            Ok(EntityId(0)),
            Ok(EntityId(1)),
            Err(SpawnError::AllocationExhausted),
        ]
    );
    assert_eq!(world.len(), 2);
    assert_eq!(world.get(EntityId(1)).unwrap().unit.as_ref().unwrap().id, MAX_UNIT_ID);
    assert_eq!(ids.remaining(), 0);
}
