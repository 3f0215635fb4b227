use starstruck::entity_components::status::Status;

fn burn() -> Status {
    Status::new(String::from("Burn"), 10, false, 0, 5)
}

#[test]
fn status_amount_follows_its_formula() {
    assert_eq!(burn().amount_from_roll(0), 10);
    assert_eq!(burn().amount_from_roll(7), 12);
    assert_eq!(burn().amount_from_roll(4), 14);
    let strong = Status::new(String::from("Burn"), 10, false, 10, 5);
    assert_eq!(strong.amount_from_roll(20), 25);
    assert_eq!(strong.amount_from_roll(14), 34);
    assert_eq!(strong.amount_from_roll(15), 20);
}

#[test]
fn status_amount_without_a_range_is_fixed() {
    let faint = Status::new(String::from("Itch"), 1, false, 0, 2);
    for roll in [0, 1, 5, u32::MAX] {
        assert_eq!(faint.amount_from_roll(roll), 1);
    }
    assert_eq!(faint.calculate_amount(), 1);
}

#[test]
fn random_status_amount_stays_in_its_range() {
    let status = burn();
    for _ in 0..500 {
        let amount = status.calculate_amount();
        assert!((10..=14).contains(&amount));
    }
}

#[test]
fn status_amount_goes_by_the_captured_strength() {
    let pattern = burn();
    let cast = pattern.applied_by(10);
    assert_eq!(cast.amount_from_roll(0), 20);
    assert_eq!(pattern.amount_from_roll(0), 10);
    assert_eq!(cast.name(), "Burn");
    assert_eq!(cast.turns_left(), 5);
    assert!(!cast.is_healing());
}

#[test]
fn tick_counts_down_and_tells_the_last_turn() {
    let mut status = Status::new(String::from("Burn"), 10, false, 0, 3);
    assert!(!status.tick());
    assert_eq!(status.turns_left(), 2);
    assert!(!status.tick());
    assert!(status.tick());
    assert_eq!(status.turns_left(), 0);
}

#[test]
fn status_chance_is_twenty_percent() {
    assert_eq!(Status::status_chance(), 20);
}

#[test]
fn status_list_holds_burn_and_frostburn() {
    let list = Status::create_status_list();
    assert_eq!(list.len(), 2);
    assert_eq!(list[0].name(), "Burn");
    assert_eq!(list[0].amount_from_roll(0), 10);
    assert_eq!(list[0].turns_left(), 5);
    assert!(!list[0].is_healing());
    assert_eq!(list[1].name(), "Frostburn");
    assert_eq!(list[1].amount_from_roll(0), 12);
    assert_eq!(list[1].amount_from_roll(5), 17);
    assert_eq!(list[1].turns_left(), 5);
    assert!(!list[1].is_healing());
}

#[test]
fn get_status_from_finds_the_first_of_the_name() {
    let list = vec![
        Status::new(String::from("Burn"), 1, false, 0, 1),
        Status::new(String::from("Chill"), 2, false, 0, 2),
        Status::new(String::from("Chill"), 3, true, 0, 3),
    ];
    let found = Status::get_status_from("Chill", &list).unwrap();
    assert_eq!(found.turns_left(), 2);
    assert!(!found.is_healing());
    assert!(Status::get_status_from("Burn", &list).is_some());
    assert!(Status::get_status_from("burn", &list).is_none());
    assert!(Status::get_status_from("", &list).is_none());
    assert!(Status::get_status_from("Burn", &Vec::new()).is_none());
}

#[test]
fn a_status_needs_a_turn_and_an_amount_that_fits() {
    assert!(burn().is_well_formed());
    assert!(!Status::new(String::from("Spent"), 10, false, 0, 0).is_well_formed());
    assert!(!Status::new(String::from("Huge"), u32::MAX, false, 1, 1).is_well_formed());
    assert!(Status::new(String::from("Big"), 0, false, 2_147_483_648, 1).is_well_formed());
    assert!(!Status::new(String::from("Big"), 0, false, 2_147_483_649, 1).is_well_formed());
}

#[test]
fn a_cloned_status_is_the_same() {
    let copy = burn().clone();
    assert_eq!(copy.name(), "Burn");
    assert_eq!(copy.turns_left(), 5);
    assert_eq!(copy.amount_from_roll(3), 13);
}
