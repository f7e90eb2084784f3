use vs_alloy_calculator::Alloy;
use vs_alloy_calculator::AlloyData;
use vs_alloy_calculator::AlloyError;
use vs_alloy_calculator::Alloys;
use vs_alloy_calculator::BaseMetal::Bismuth;
use vs_alloy_calculator::BaseMetal::Copper;
use vs_alloy_calculator::BaseMetal::Gold;
use vs_alloy_calculator::BaseMetal::Lead;
use vs_alloy_calculator::BaseMetal::Nickel;
use vs_alloy_calculator::BaseMetal::Silver;
use vs_alloy_calculator::BaseMetal::Tin;
use vs_alloy_calculator::BaseMetal::Zinc;

#[test]
fn test_default_maxima() {
    let expected = [
        (Alloys::TinBronze, 20),
        (Alloys::BismuthBronze, 21),
        (Alloys::BlackBronze, 15),
        (Alloys::Brass, 21),
        (Alloys::Molybdochalkos, 20),
        (Alloys::LeadSolder, 23),
        (Alloys::SilverSolder, 25),
        (Alloys::Electrum, 21),
        (Alloys::Cupronickel, 25),
    ];
    for (kind, max) in expected {
        let handle = AlloyData::get_default(kind);
        assert_eq!(1, handle.num_ingots());
        assert_eq!(max, handle.max_ingots());
    }
}

#[test]
fn test_default_nuggets() {
    assert_eq!(
        &vec![Copper(18), Tin(2)],
        AlloyData::get_default(Alloys::TinBronze).nuggets()
    );
    assert_eq!(
        &vec![Copper(12), Zinc(4), Bismuth(4)],
        AlloyData::get_default(Alloys::BismuthBronze).nuggets()
    );
    assert_eq!(
        &vec![Copper(18), Gold(1), Silver(1)],
        AlloyData::get_default(Alloys::BlackBronze).nuggets()
    );
    assert_eq!(
        &vec![Copper(14), Zinc(6)],
        AlloyData::get_default(Alloys::Brass).nuggets()
    );
    assert_eq!(
        &vec![Lead(18), Copper(2)],
        AlloyData::get_default(Alloys::Molybdochalkos).nuggets()
    );
    assert_eq!(
        &vec![Tin(9), Lead(11)],
        AlloyData::get_default(Alloys::LeadSolder).nuggets()
    );
    assert_eq!(
        &vec![Tin(10), Silver(10)],
        AlloyData::get_default(Alloys::SilverSolder).nuggets()
    );
    assert_eq!(
        &vec![Gold(8), Silver(12)],
        AlloyData::get_default(Alloys::Electrum).nuggets()
    );
    assert_eq!(
        &vec![Copper(15), Nickel(5)],
        AlloyData::get_default(Alloys::Cupronickel).nuggets()
    );
}

#[test]
fn test_set_num_ingots() {
    let mut alloy = AlloyData::get_default(Alloys::TinBronze);
    assert_eq!(1, alloy.num_ingots());
    assert_eq!(&vec![Copper(18), Tin(2)], alloy.nuggets());

    alloy.set_num_ingots(5).expect("should be valid");
    assert_eq!(5, alloy.num_ingots());
    assert_eq!(&vec![Copper(92), Tin(8)], alloy.nuggets());
}

#[test]
fn test_set_num_ingots_atomicity() {
    // A failed mutator leaves every observable value exactly as it was.
    let mut alloy = AlloyData::get_default(Alloys::TinBronze);
    alloy.set_num_ingots(5).expect("should be valid");
    let before = AlloyData::try_new(Alloys::TinBronze, &alloy.percentages().clone(), 5).unwrap();

    assert_eq!(
        AlloyError::TooManyIngots,
        alloy.set_num_ingots(100).unwrap_err()
    );
    assert_eq!(
        AlloyError::TooFewIngots,
        alloy.set_num_ingots(0).unwrap_err()
    );
    assert_eq!(before, alloy);
    assert_eq!(5, alloy.num_ingots());
    assert_eq!(&vec![Copper(92), Tin(8)], alloy.nuggets());
}

#[test]
fn test_set_percentages() {
    let mut alloy = AlloyData::get_default(Alloys::TinBronze);
    assert_eq!(&vec![Copper(9200), Tin(800)], alloy.percentages());
    assert_eq!(&vec![Copper(18), Tin(2)], alloy.nuggets());
    assert_eq!(20, alloy.max_ingots());

    alloy
        .set_percentages(&vec![Copper(8800), Tin(1200)])
        .expect("should be valid");
    assert_eq!(&vec![Copper(8800), Tin(1200)], alloy.percentages());
    assert_eq!(&vec![Copper(18), Tin(2)], alloy.nuggets());
    assert_eq!(21, alloy.max_ingots());
}

#[test]
fn test_set_percentages_atomicity() {
    let mut alloy = AlloyData::get_default(Alloys::TinBronze);
    alloy
        .set_percentages(&vec![Copper(8800), Tin(1200)])
        .expect("should be valid");
    let before = AlloyData::try_new(Alloys::TinBronze, &vec![Copper(8800), Tin(1200)], 1).unwrap();

    assert_eq!(
        AlloyError::InvalidPercentages,
        alloy
            .set_percentages(&vec![Copper(1200), Tin(8800)])
            .unwrap_err()
    );
    assert_eq!(
        AlloyError::InvalidBaseMetals,
        alloy
            .set_percentages(&vec![Lead(9200), Copper(800)])
            .unwrap_err()
    );
    assert_eq!(before, alloy);
    assert_eq!(&vec![Copper(8800), Tin(1200)], alloy.percentages());
    assert_eq!(&vec![Copper(18), Tin(2)], alloy.nuggets());
    assert_eq!(21, alloy.max_ingots());
}

#[test]
fn test_set_percentages_canonicalizes() {
    let mut alloy = AlloyData::get_default(Alloys::TinBronze);
    alloy
        .set_percentages(&vec![Tin(1200), Copper(8800)])
        .expect("should be valid");
    assert_eq!(&vec![Copper(8800), Tin(1200)], alloy.percentages());
}

#[test]
fn test_check_valid_percentages() {
    let reordered =
        AlloyData::check_valid_percentages(Alloys::TinBronze, &vec![Tin(800), Copper(9200)])
            .expect("should be valid");
    assert_eq!(vec![Copper(9200), Tin(800)], reordered);
}

#[test]
fn test_check_valid_percentages_idempotent() {
    // Validating the validated composition returns it unchanged.
    let once =
        AlloyData::check_valid_percentages(Alloys::TinBronze, &vec![Tin(800), Copper(9200)])
            .expect("should be valid");
    let twice = AlloyData::check_valid_percentages(Alloys::TinBronze, &once)
        .expect("the canonical order is itself valid");
    assert_eq!(once, twice);
}

#[test]
fn test_handle_bounds() {
    for kind in [
        Alloys::TinBronze,
        Alloys::BismuthBronze,
        Alloys::BlackBronze,
        Alloys::Brass,
        Alloys::Molybdochalkos,
        Alloys::LeadSolder,
        Alloys::SilverSolder,
        Alloys::Electrum,
        Alloys::Cupronickel,
    ] {
        let handle = AlloyData::get_default(kind);
        assert!(1 <= handle.num_ingots());
        assert!(handle.num_ingots() <= handle.max_ingots());
        assert!(handle.max_ingots() <= 25);
    }
}

#[test]
fn test_nugget_range_containment() {
    // No constituent after the first exceeds the upper end of its range
    // applied to the total nugget count.
    let alloy = AlloyData::try_new(
        Alloys::TinBronze,
        &vec![Copper(8800), Tin(1200)],
        10,
    )
    .unwrap();
    let ranges = alloy.percentage_ranges();
    let total = 20 * alloy.num_ingots();
    let cap = (ranges[1].value().max as i32) * total / 10000;
    assert!(alloy.nuggets()[1].value() <= cap);
}

#[test]
fn test_unified_alloy() {
    let alloy = Alloys::TinBronze.get_default();
    assert_eq!("Tin Bronze", alloy.name());
    assert_eq!(&vec![Copper(18), Tin(2)], alloy.nuggets());
    assert_eq!(1, alloy.num_ingots());
    assert_eq!(20, alloy.max_ingots());
    assert_eq!(&vec![Copper(9200), Tin(800)], alloy.percentages());
}

#[test]
fn test_unified_alloy_names() {
    let expected = [
        (Alloys::TinBronze, "Tin Bronze"),
        (Alloys::BismuthBronze, "Bismuth Bronze"),
        (Alloys::BlackBronze, "Black Bronze"),
        (Alloys::Brass, "Brass"),
        (Alloys::Molybdochalkos, "Molybdochalkos"),
        (Alloys::LeadSolder, "Lead Solder"),
        (Alloys::SilverSolder, "Silver Solder"),
        (Alloys::Electrum, "Electrum"),
        (Alloys::Cupronickel, "Cupronickel"),
    ];
    for (kind, name) in expected {
        assert_eq!(name, kind.get_default().name());
    }
}

#[test]
fn test_unified_alloy_set_num_ingots() {
    let mut alloy = Alloys::TinBronze.get_default();
    alloy.set_num_ingots(5).expect("should be valid");
    assert_eq!(5, alloy.num_ingots());
    assert_eq!(&vec![Copper(92), Tin(8)], alloy.nuggets());

    alloy
        .set_num_ingots(100)
        .expect_err("should be too many ingots");
    alloy.set_num_ingots(0).expect_err("should be too few ingots");
    assert_eq!(5, alloy.num_ingots());
    assert_eq!(&vec![Copper(92), Tin(8)], alloy.nuggets());
}

#[test]
fn test_unified_alloy_set_percentages() {
    let mut alloy = Alloys::TinBronze.get_default();
    alloy
        .set_percentages(&vec![Copper(8800), Tin(1200)])
        .expect("should be valid");
    assert_eq!(&vec![Copper(8800), Tin(1200)], alloy.percentages());
    assert_eq!(&vec![Copper(18), Tin(2)], alloy.nuggets());
    assert_eq!(21, alloy.max_ingots());

    alloy
        .set_percentages(&vec![Copper(1200), Tin(8800)])
        .expect_err("should be invalid ranges");
    alloy
        .set_percentages(&vec![Lead(9200), Copper(800)])
        .expect_err("should be invalid base metals");
    assert_eq!(&vec![Copper(8800), Tin(1200)], alloy.percentages());
    assert_eq!(&vec![Copper(18), Tin(2)], alloy.nuggets());
    assert_eq!(21, alloy.max_ingots());
}

#[test]
fn test_unified_alloy_equality() {
    let one = Alloys::Electrum.get_default();
    let two = Alloys::Electrum.get_default();
    assert_eq!(one, two);
    let other: Alloy = Alloys::Brass.get_default();
    assert_ne!(one, other);
}

#[test]
fn test_empty_composition() {
    let empty: Vec<vs_alloy_calculator::BaseMetal<u32>> = Vec::new();
    assert_eq!(
        AlloyError::InvalidPercentages,
        AlloyData::try_new(Alloys::TinBronze, &empty, 1).unwrap_err()
    );
}

#[test]
fn test_largest_request() {
    // Cupronickel fills the whole crucible: 25 ingots succeed, 26 do not.
    let mut alloy = AlloyData::get_default(Alloys::Cupronickel);
    alloy.set_num_ingots(25).expect("the crucible holds 25 ingots");
    assert_eq!(25, alloy.num_ingots());
    assert_eq!(&vec![Copper(375), Nickel(125)], alloy.nuggets());
    assert_eq!(
        AlloyError::TooManyIngots,
        alloy.set_num_ingots(26).unwrap_err()
    );
    assert_eq!(25, alloy.num_ingots());
}
