use vs_alloy_calculator::AlloyData;
use vs_alloy_calculator::Alloys;
use vs_alloy_calculator::BaseMetal::Bismuth;
use vs_alloy_calculator::BaseMetal::Copper;
use vs_alloy_calculator::BaseMetal::Zinc;

fn max_copper() -> Vec<vs_alloy_calculator::BaseMetal<u32>> {
    vec![Copper(7000), Zinc(2000), Bismuth(1000)]
}

fn min_copper() -> Vec<vs_alloy_calculator::BaseMetal<u32>> {
    vec![Copper(5000), Zinc(3000), Bismuth(2000)]
}

#[test]
fn tests_test_default() {
    let alloy = AlloyData::try_new(
        Alloys::BismuthBronze,
        &vec![Copper(6000), Zinc(2000), Bismuth(2000)],
        1,
    )
    .unwrap();
    assert_eq!(AlloyData::get_default(Alloys::BismuthBronze), alloy);
}

#[test]
fn tests_test_any_order_base_metals() {
    let alloy1 = AlloyData::try_new(
        Alloys::BismuthBronze,
        &vec![Copper(7000), Zinc(2000), Bismuth(1000)],
        1,
    )
    .unwrap();
    let alloy2 = AlloyData::try_new(
        Alloys::BismuthBronze,
        &vec![Bismuth(1000), Copper(7000), Zinc(2000)],
        1,
    )
    .unwrap();
    assert_eq!(alloy1, alloy2);
}

#[test]
fn tests_test_one_ingot_max_copper() {
    let alloy = AlloyData::try_new(Alloys::BismuthBronze, &max_copper(), 1).unwrap();
    let nuggets = alloy.nuggets();
    assert_eq!(Copper(14), nuggets[0]);
    assert_eq!(Zinc(4), nuggets[1]);
    assert_eq!(Bismuth(2), nuggets[2]);
}

#[test]
fn tests_test_one_ingot_min_copper() {
    let alloy = AlloyData::try_new(Alloys::BismuthBronze, &min_copper(), 1).unwrap();
    let nuggets = alloy.nuggets();
    assert_eq!(Copper(10), nuggets[0]);
    assert_eq!(Zinc(6), nuggets[1]);
    assert_eq!(Bismuth(4), nuggets[2]);
}

#[test]
fn tests_test_ten_ingots_max_copper() {
    let alloy = AlloyData::try_new(Alloys::BismuthBronze, &max_copper(), 10).unwrap();
    let nuggets = alloy.nuggets();
    assert_eq!(Copper(140), nuggets[0]);
    assert_eq!(Zinc(40), nuggets[1]);
    assert_eq!(Bismuth(20), nuggets[2]);
}

#[test]
fn tests_test_ten_ingots_min_copper() {
    let alloy = AlloyData::try_new(Alloys::BismuthBronze, &min_copper(), 10).unwrap();
    let nuggets = alloy.nuggets();
    assert_eq!(Copper(100), nuggets[0]);
    assert_eq!(Zinc(60), nuggets[1]);
    assert_eq!(Bismuth(40), nuggets[2]);
}

#[test]
fn test_one_ingot_60_21_19() {
    let alloy = AlloyData::try_new(
        Alloys::BismuthBronze,
        &vec![Copper(6000), Zinc(2100), Bismuth(1900)],
        1,
    )
    .unwrap();
    let nuggets = alloy.nuggets();
    assert_eq!(Copper(12), nuggets[0]);
    assert_eq!(Zinc(4), nuggets[1]);
    assert_eq!(Bismuth(4), nuggets[2]);
}

#[test]
fn test_one_ingot_59_22_19() {
    let alloy = AlloyData::try_new(
        Alloys::BismuthBronze,
        &vec![Copper(5900), Zinc(2200), Bismuth(1900)],
        1,
    )
    .unwrap();
    let nuggets = alloy.nuggets();
    assert_eq!(Copper(11), nuggets[0]);
    assert_eq!(Zinc(5), nuggets[1]);
    assert_eq!(Bismuth(4), nuggets[2]);
}

#[test]
fn test_one_ingot_53_27_20() {
    let alloy = AlloyData::try_new(
        Alloys::BismuthBronze,
        &vec![Copper(5300), Zinc(2700), Bismuth(2000)],
        1,
    )
    .unwrap();
    let nuggets = alloy.nuggets();
    assert_eq!(Copper(10), nuggets[0]);
    assert_eq!(Zinc(6), nuggets[1]);
    assert_eq!(Bismuth(4), nuggets[2]);
}

#[test]
fn test_one_ingot_52_28_20() {
    let alloy = AlloyData::try_new(
        Alloys::BismuthBronze,
        &vec![Copper(5200), Zinc(2800), Bismuth(2000)],
        1,
    )
    .unwrap();
    let nuggets = alloy.nuggets();
    assert_eq!(Copper(10), nuggets[0]);
    assert_eq!(Zinc(6), nuggets[1]);
    assert_eq!(Bismuth(4), nuggets[2]);
}

#[test]
fn test_thirteen_ingots() {
    let alloy = AlloyData::try_new(
        Alloys::BismuthBronze,
        &vec![Copper(6000), Zinc(2000), Bismuth(2000)],
        13,
    )
    .unwrap();
    let nuggets = alloy.nuggets();
    assert_eq!(Copper(156), nuggets[0]);
    assert_eq!(Zinc(52), nuggets[1]);
    assert_eq!(Bismuth(52), nuggets[2]);
}

#[test]
fn test_sum_of_nuggets_matches_ingots() {
    // Twenty nuggets per ingot, whatever the composition.
    for n in 1..=21 {
        let alloy = AlloyData::try_new(
            Alloys::BismuthBronze,
            &vec![Copper(5900), Zinc(2200), Bismuth(1900)],
            n,
        )
        .unwrap();
        let total: i32 = alloy.nuggets().iter().map(|m| m.value()).sum();
        assert_eq!(20 * n, total);
    }
}

#[test]
fn test_two_items_for_three_constituents() {
    // A two-item composition is rejected by the length check even though
    // both base metals belong to the recipe and the sum is right.
    let two = vec![Copper(7000), Zinc(3000)];
    assert!(
        AlloyData::try_new(Alloys::BismuthBronze, &two, 1)
            .is_err_and(|e| e == vs_alloy_calculator::AlloyError::InvalidPercentages)
    );
}
