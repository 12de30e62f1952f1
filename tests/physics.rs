use roast2d::physics::{
    is_sweep_candidate, move_share, resolves, touches, EntCollidesMode, EntGroup, EntPhysics,
    MoveShare, PairFlags,
};

fn flags(physics: EntPhysics, group: u8, check_against: u8) -> PairFlags {
    PairFlags {
        physics,
        group: EntGroup::from_bits(group),
        check_against: EntGroup::from_bits(check_against),
    }
}

#[test]
fn levels_have_their_bits() {
    assert_eq!(EntPhysics::none().bits(), 0);
    assert_eq!(EntPhysics::moving().bits(), 1);
    assert_eq!(EntPhysics::world().bits(), 3);
    assert_eq!(EntPhysics::lite().bits(), 19);
    assert_eq!(EntPhysics::passive().bits(), 35);
    assert_eq!(EntPhysics::active().bits(), 67);
    assert_eq!(EntPhysics::fixed().bits(), 131);
}

#[test]
fn levels_imply_lower_levels() {
    let collidable = [
        EntPhysics::lite(),
        EntPhysics::passive(),
        EntPhysics::active(),
        EntPhysics::fixed(),
    ];
    for p in collidable {
        assert!(p.contains(EntPhysics::world()));
        assert!(p.contains(EntPhysics::moving()));
        assert!(p.is_collide_mode(EntCollidesMode::world()));
    }
    assert!(EntPhysics::world().contains(EntPhysics::moving()));
    assert!(!EntPhysics::moving().contains(EntPhysics::world()));
}

#[test]
fn at_least_follows_the_order_of_levels() {
    assert!(EntPhysics::active().is_at_least(EntPhysics::passive()));
    assert!(EntPhysics::passive().is_at_least(EntPhysics::passive()));
    assert!(!EntPhysics::lite().is_at_least(EntPhysics::passive()));
    assert!(EntPhysics::fixed().is_at_least(EntPhysics::active()));
}

#[test]
fn collide_mode_reads_one_bit() {
    assert!(EntPhysics::lite().is_collide_mode(EntCollidesMode::lite()));
    assert!(!EntPhysics::active().is_collide_mode(EntCollidesMode::lite()));
    assert!(EntPhysics::fixed().is_collide_mode(EntCollidesMode::fixed()));
    assert!(!EntPhysics::none().is_collide_mode(EntCollidesMode::world()));
}

#[test]
fn sweep_candidates() {
    assert!(!is_sweep_candidate(flags(EntPhysics::world(), 0, 0)));
    assert!(!is_sweep_candidate(flags(EntPhysics::lite(), 0, 0)));
    assert!(is_sweep_candidate(flags(EntPhysics::passive(), 0, 0)));
    assert!(is_sweep_candidate(flags(EntPhysics::none(), 4, 0)));
    assert!(is_sweep_candidate(flags(EntPhysics::none(), 0, 1)));
}

#[test]
fn touch_goes_by_check_against_and_group() {
    let player = flags(EntPhysics::active(), 1, 4);
    let enemy = flags(EntPhysics::active(), 4, 1);
    let item = flags(EntPhysics::none(), 8, 0);
    assert!(touches(player, enemy));
    assert!(touches(enemy, player));
    assert!(!touches(player, item));
    assert!(!touches(item, player));
}

#[test]
fn resolution_needs_levels_and_mass() {
    let active = flags(EntPhysics::active(), 0, 0);
    let lite = flags(EntPhysics::lite(), 0, 0);
    let passive = flags(EntPhysics::passive(), 0, 0);
    let world = flags(EntPhysics::world(), 0, 0);
    assert!(resolves(active, active, true));
    assert!(resolves(active, lite, true));
    assert!(resolves(active, passive, true));
    assert!(!resolves(lite, lite, true));
    assert!(!resolves(lite, passive, true));
    assert!(!resolves(active, world, true));
    assert!(!resolves(active, active, false));
    let fixed = flags(EntPhysics::fixed(), 0, 0);
    assert!(resolves(fixed, fixed, true));
}

#[test]
fn move_share_picks_the_weak_side() {
    assert_eq!(move_share(EntPhysics::lite(), EntPhysics::active()), MoveShare::First);
    assert_eq!(move_share(EntPhysics::active(), EntPhysics::fixed()), MoveShare::First);
    assert_eq!(move_share(EntPhysics::fixed(), EntPhysics::active()), MoveShare::Second);
    assert_eq!(move_share(EntPhysics::active(), EntPhysics::lite()), MoveShare::Second);
    assert_eq!(move_share(EntPhysics::active(), EntPhysics::passive()), MoveShare::ByMass);
    assert_eq!(move_share(EntPhysics::active(), EntPhysics::active()), MoveShare::ByMass);
}
