use starstruck::entity_components::moves::{ElementType, Move, MoveType};
use starstruck::entity_components::status::Status;

fn leveled(level: u32) -> Move {
    Move::new(String::from("Move"), 1, 1, level, ElementType::Neutral, None)
}

fn fire_one() -> Move {
    Move::new(
        String::from("FireOne"),
        12,
        2,
        1,
        ElementType::Fire,
        Some(Status::new(String::from("Burn"), 10, false, 0, 5)),
    )
}

#[test]
fn available_prefix_of_the_sorted_catalog() {
    let catalog = vec![leveled(1), leveled(3), leveled(5), leveled(6)];
    assert_eq!(Move::get_move_list(&catalog, 4), 2);
    assert_eq!(Move::get_move_list(&catalog, 0), 0);
    assert_eq!(Move::get_move_list(&catalog, 1), 1);
    assert_eq!(Move::get_move_list(&catalog, 5), 3);
    assert_eq!(Move::get_move_list(&catalog, 6), 4);
    assert_eq!(Move::get_move_list(&catalog, u32::MAX), 4);
    assert_eq!(Move::get_move_list(&Vec::new(), 9), 0);
}

#[test]
fn available_prefix_stops_at_the_first_move_out_of_reach() {
    let unsorted = vec![leveled(1), leveled(7), leveled(2)];
    assert_eq!(Move::get_move_list(&unsorted, 3), 1);
    let blocked = vec![leveled(9), leveled(1)];
    assert_eq!(Move::get_move_list(&blocked, 3), 0);
}

#[test]
fn built_in_move_list_at_each_level() {
    let moves = Move::create_move_list(&Status::create_status_list());
    assert_eq!(moves.len(), 4);
    assert_eq!(moves[0].name(), "FireOne");
    assert_eq!(moves[1].name(), "WindOne");
    assert_eq!(moves[2].name(), "EarthOne");
    assert_eq!(moves[3].name(), "WaterOne");
    assert_eq!(Move::get_move_list(&moves, 4), 2);
    assert_eq!(Move::get_move_list(&moves, 0), 0);
    for the_move in moves.iter() {
        assert_eq!(the_move.cost(), 2);
    }
    assert_eq!(moves[0].get_status().unwrap().name(), "Burn");
    assert!(moves[1].get_status().is_none());
    assert!(moves[2].get_status().is_none());
    assert!(moves[3].get_status().is_none());
    assert_eq!(moves[3].amount_from_roll(0, 0), 20);
}

#[test]
fn move_list_without_a_burn_status_carries_none() {
    let moves = Move::create_move_list(&Vec::new());
    assert_eq!(moves.len(), 4);
    assert!(moves[0].get_status().is_none());
}

#[test]
fn a_move_is_open_from_its_level_on() {
    let the_move = leveled(3);
    assert!(!the_move.is_meeting_requirements(2));
    assert!(the_move.is_meeting_requirements(3));
    assert!(the_move.is_meeting_requirements(4));
}

#[test]
fn move_amount_follows_its_formula() {
    let fire = fire_one();
    assert_eq!(fire.amount_from_roll(10, 0), 22);
    assert_eq!(fire.amount_from_roll(10, 20), 26);
    assert_eq!(fire.amount_from_roll(10, 15), 37);
    assert_eq!(fire.amount_from_roll(10, 16), 22);
    assert_eq!(fire.amount_from_roll(0, 7), 13);
    let faint = Move::new(String::from("Poke"), 1, 0, 1, ElementType::Neutral, None);
    assert_eq!(faint.amount_from_roll(0, 12345), 1);
}

#[test]
fn random_move_amount_stays_in_its_range() {
    let fire = fire_one();
    for _ in 0..500 {
        let amount = fire.generate_random_amount(10);
        assert!((22..=37).contains(&amount));
    }
}

#[test]
fn a_status_lands_for_one_roll_in_five() {
    let fire = fire_one();
    assert!(fire.status_lands(0));
    assert!(fire.status_lands(19));
    assert!(!fire.status_lands(20));
    assert!(!fire.status_lands(99));
    assert!(fire.status_lands(100));
    assert!(fire.status_lands(4_294_967_200));
    assert!(!fire.status_lands(u32::MAX));
    let landing = (0..100u32).filter(|roll| fire.status_lands(*roll)).count();
    assert_eq!(landing, 20);
}

#[test]
fn a_move_without_a_status_never_applies_one() {
    let wind = Move::new(String::from("WindOne"), 14, 2, 3, ElementType::Wind, None);
    for roll in 0..200 {
        assert!(!wind.status_lands(roll));
    }
    for _ in 0..200 {
        assert!(!wind.roll_status_chance());
    }
}

#[test]
fn a_move_with_a_status_applies_it_now_and_then() {
    let fire = fire_one();
    let landed = (0..2000).filter(|_| fire.roll_status_chance()).count();
    assert!(landed > 0);
    assert!(landed < 2000);
}

#[test]
fn builders_change_one_field_each() {
    let plain = Move::default();
    assert_eq!(plain.name(), "DEFAULT_MOVE");
    assert_eq!(plain.cost(), 1);
    assert!(plain.is_meeting_requirements(1));
    assert!(!plain.is_meeting_requirements(0));
    assert!(plain.get_status().is_none());
    assert_eq!(plain.amount_from_roll(0, 0), 1);
    let built = Move::default()
        .with_name(String::from("Quake"))
        .with_base_amount(16)
        .with_mana_cost(4)
        .with_level_requirement(5)
        .with_element(ElementType::Earth)
        .with_applied_status(Some(Status::new(String::from("Daze"), 1, false, 0, 2)));
    assert_eq!(built.name(), "Quake");
    assert_eq!(built.amount_from_roll(0, 0), 16);
    assert_eq!(built.cost(), 4);
    assert!(!built.is_meeting_requirements(4));
    assert!(built.is_meeting_requirements(5));
    assert_eq!(built.get_status().unwrap().name(), "Daze");
    let copy = built.clone();
    assert_eq!(copy.name(), "Quake");
    assert_eq!(copy.cost(), 4);
}

#[test]
fn a_move_fits_a_caster_while_the_amounts_fit() {
    let fire = fire_one();
    assert!(fire.fits_caster(10));
    assert!(fire.fits_caster(2_147_483_639));
    assert!(!fire.fits_caster(2_147_483_640));
    let spent = Move::new(
        String::from("Dud"),
        1,
        1,
        1,
        ElementType::Neutral,
        Some(Status::new(String::from("Gone"), 1, false, 0, 0)),
    );
    assert!(!spent.fits_caster(1));
}

#[test]
fn move_types_and_elements_compare() {
    assert_eq!(MoveType::AttackMove, MoveType::AttackMove);
    assert_ne!(MoveType::AttackMove, MoveType::DefendMove);
    assert_ne!(ElementType::Fire, ElementType::Water);
}
