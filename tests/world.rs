use roast2d::collision_map::{CollisionMap, CollisionRule, DefaultCollisionRule, MapSize, TilePos};
use roast2d::color::Color;
use roast2d::commands::Commands;
use roast2d::entity::Ent;
use roast2d::errors::Error;
use roast2d::world::World;

#[test]
fn spawn_gives_fresh_indices() {
    let mut w = World::new();
    let a = w.spawn().unwrap();
    let b = w.spawn().unwrap();
    assert_eq!(a.index(), 0);
    assert_eq!(b.index(), 1);
    assert_eq!(w.ents_count(), 2);
    w.despawn(a);
    assert!(!w.contains(a));
    assert!(w.contains(b));
    let c = w.spawn().unwrap();
    assert_eq!(c.index(), 2);
    assert_eq!(w.ents_count(), 2);
}

#[test]
fn lookups_fail_softly() {
    let mut w = World::new();
    let a = w.spawn().unwrap();
    let b = w.spawn().unwrap();
    assert_eq!(w.get(a), Ok(a));
    w.despawn(b);
    assert_eq!(w.get(b), Err(Error::NoEntity));
    assert_eq!(w.get(Ent::default()), Err(Error::NoEntity));
}

#[test]
fn pair_lookup_refuses_same_entity() {
    let mut w = World::new();
    let a = w.spawn().unwrap();
    let b = w.spawn().unwrap();
    assert_eq!(w.get_pair(a, a), Err(Error::SameEntity));
    assert_eq!(w.get_pair(a, b), Ok((a, b)));
    w.despawn(b);
    assert_eq!(w.get_pair(a, b), Err(Error::NoEntity));
    w.clear_entities();
    assert_eq!(w.ents_count(), 0);
    assert_eq!(w.spawn().unwrap().index(), 2);
}

#[test]
fn map_lookup_in_and_out_of_bounds() {
    let map = CollisionMap::new(
        String::from("Collision"),
        MapSize::new(3, 2),
        vec![0, 1, 0, 2, 0, 7],
    );
    assert_eq!(map.get(TilePos::new(1, 0)), Some(1));
    assert_eq!(map.get(TilePos::new(0, 1)), Some(2));
    assert_eq!(map.get(TilePos::new(2, 1)), Some(7));
    assert_eq!(map.get(TilePos::new(3, 0)), None);
    assert_eq!(map.get(TilePos::new(0, 2)), None);
    assert_eq!(map.get(TilePos::new(-1, 0)), None);
    assert_eq!(map.get(TilePos::new(0, -1)), None);
    assert!(map.is_solid(TilePos::new(1, 0)));
    assert!(!map.is_solid(TilePos::new(0, 0)));
    assert!(!map.is_solid(TilePos::new(5, 5)));
    let rule = DefaultCollisionRule;
    assert!(rule.is_collide(&map, TilePos::new(2, 1)));
    assert!(!rule.is_collide(&map, TilePos::new(1, 1)));
}

#[test]
fn map_with_short_data() {
    let map = CollisionMap::new(String::from("m"), MapSize::new(2, 2), vec![4, 4, 4]);
    assert_eq!(map.get(TilePos::new(0, 1)), Some(4));
    assert_eq!(map.get(TilePos::new(1, 1)), None);
}

#[test]
fn commands_drain_in_order() {
    let mut q: Commands<u32> = Commands::new();
    q.add(3);
    q.add(1);
    q.add(2);
    assert_eq!(q.len(), 3);
    assert_eq!(q.take(), vec![3, 1, 2]);
    assert_eq!(q.len(), 0);
    assert_eq!(q.take(), Vec::<u32>::new());
}

#[test]
fn colors() {
    let c = Color::rgb(0x12, 0x34, 0x56);
    assert_eq!(c, Color { r: 0x12, g: 0x34, b: 0x56, a: 0xff });
    assert_eq!(c.with_a(7).a, 7);
    assert_eq!(c.with_a(7).g, 0x34);
    assert_eq!(Color::rgba(1, 2, 3, 4), Color { r: 1, g: 2, b: 3, a: 4 });
}
