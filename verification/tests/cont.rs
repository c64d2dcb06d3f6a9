use raes::cont::{Cont, ContEntities, Entity, Row};

#[derive(Clone, Copy, Debug)]
struct World;

impl Cont for World {}

#[test]
fn spawn_hands_out_lowest_free_slot() {
    let mut entities = ContEntities::<World, 4>::new();
    let a = entities.spawn();
    let b = entities.spawn();
    let c = entities.spawn();
    assert_eq!(a.id(), 0);
    assert_eq!(b.id(), 1);
    assert_eq!(c.id(), 2);
    assert!(entities.has_entity(&a));
    assert!(entities.has_entity(&b));
    assert!(entities.has_entity(&c));
}

#[test]
fn spawned_entity_is_live_until_despawned() {
    let mut entities = ContEntities::<World, 4>::new();
    let a = entities.spawn();
    assert!(entities.has_entity(&a));
    assert_eq!(entities.despawn(a), Some(()));
    assert!(!entities.has_entity(&a));
}

#[test]
fn despawn_of_dead_entity_is_not_found() {
    let mut entities = ContEntities::<World, 4>::new();
    let a = entities.spawn();
    assert_eq!(entities.despawn(a), Some(()));
    assert_eq!(entities.despawn(a), None);
    assert!(!entities.has_entity(&a));
}

#[test]
fn stale_handle_stays_dead_after_slot_is_reused() {
    let mut entities = ContEntities::<World, 2>::new();
    let old = entities.spawn();
    assert_eq!(entities.despawn(old), Some(()));
    let new = entities.spawn();
    assert_eq!(new.id(), old.id());
    assert!(entities.has_entity(&new));
    assert!(!entities.has_entity(&old));
    assert_eq!(entities.despawn(old), None);
    assert!(entities.has_entity(&new));
    assert_eq!(entities.despawn(new), Some(()));
    let newer = entities.spawn();
    assert_eq!(newer.id(), 0);
    assert!(!entities.has_entity(&old));
    assert!(!entities.has_entity(&new));
    assert!(entities.has_entity(&newer));
}

#[test]
fn full_allocator_reports_full_and_aliases_nothing() {
    let mut entities = ContEntities::<World, 8>::new();
    let mut spawned: Vec<Entity<World>> = Vec::new();
    for _ in 0..8 {
        assert!(!entities.is_full());
        spawned.push(entities.spawn());
    }
    assert!(entities.is_full());
    for (i, e) in spawned.iter().enumerate() {
        assert_eq!(e.id(), i);
        assert!(entities.has_entity(e));
    }
}

#[test]
fn at_most_capacity_entities_are_live() {
    let mut entities = ContEntities::<World, 3>::new();
    let a = entities.spawn();
    let b = entities.spawn();
    let c = entities.spawn();
    assert!(entities.is_full());
    assert_eq!(entities.despawn(b), Some(()));
    assert!(!entities.is_full());
    let d = entities.spawn();
    assert_eq!(d.id(), 1);
    assert!(entities.is_full());
    let live = [a, b, c, d].iter().filter(|e| entities.has_entity(e)).count();
    assert_eq!(live, 3);
}

#[test]
fn entity_of_another_capacity_is_not_live() {
    let mut big = ContEntities::<World, 8>::new();
    let mut last = big.spawn();
    for _ in 0..7 {
        last = big.spawn();
    }
    assert_eq!(last.id(), 7);
    let small = ContEntities::<World, 4>::new();
    assert!(!small.has_entity(&last));
}

#[test]
fn live_and_dead_entities_of_a_young_allocator_can_be_despawned() {
    let mut entities = ContEntities::<World, 2>::new();
    let a = entities.spawn();
    assert!(entities.can_despawn(&a));
    assert_eq!(entities.despawn(a), Some(()));
    assert!(entities.can_despawn(&a));
    assert_eq!(entities.despawn(a), None);
    let mut big = ContEntities::<World, 4>::new();
    big.spawn();
    big.spawn();
    let far = big.spawn();
    assert!(entities.can_despawn(&far));
}

#[test]
fn allocator_copies_are_independent_and_printable() {
    let mut entities = ContEntities::<World, 2>::new();
    let a = entities.spawn();
    let mut copy = entities;
    assert_eq!(copy.despawn(a), Some(()));
    assert!(entities.has_entity(&a));
    assert!(!copy.has_entity(&a));
    assert!(entities.clone().has_entity(&a));
    let text = format!("{:?}", entities);
    assert!(text.contains("ContEntities"));
}

#[test]
fn row_new_clones_initial_value_into_every_slot() {
    let row = Row::<String, 5>::new(String::from("x"));
    assert_eq!(row.as_slice().len(), 5);
    assert!(row.as_slice().iter().all(|s| s == "x"));
}

#[test]
fn row_new_with_default_fills_with_defaults() {
    let row = Row::<u32, 6>::new_with_default();
    assert_eq!(row.as_slice(), &[0u32; 6]);
    let row = Row::<u32, 6>::default();
    assert_eq!(row.as_slice(), &[0u32; 6]);
}

#[test]
fn row_keeps_last_write_per_index() {
    let mut entities = ContEntities::<World, 4>::new();
    let a = entities.spawn();
    let b = entities.spawn();
    let mut row = Row::<i64, 4>::new(0);
    *row.get_mut(a) = 10;
    *row.get_mut(b) = 20;
    *row.get_mut(b) = 21;
    assert_eq!(*row.get(a), 10);
    assert_eq!(*row.get(b), 21);
    *row.get_mut(a) = 11;
    assert_eq!(*row.get(b), 21);
    assert_eq!(*row.get(a), 11);
    assert_eq!(row.as_slice(), &[11, 21, 0, 0]);
}

#[test]
fn row_as_mut_slice_writes_through() {
    let mut row = Row::<u8, 3>::new(1);
    row.as_mut_slice()[2] = 9;
    assert_eq!(row.as_slice(), &[1, 1, 9]);
}

#[test]
fn row_keeps_stale_data_of_despawned_entity() {
    let mut entities = ContEntities::<World, 2>::new();
    let a = entities.spawn();
    let mut row = Row::<u16, 2>::new(0);
    *row.get_mut(a) = 7;
    assert_eq!(entities.despawn(a), Some(()));
    let again = entities.spawn();
    assert_eq!(*row.get(again), 7);
}
