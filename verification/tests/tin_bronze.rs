use vs_alloy_calculator::AlloyData;
use vs_alloy_calculator::AlloyError;
use vs_alloy_calculator::Alloys;
use vs_alloy_calculator::BaseMetal::Copper;
use vs_alloy_calculator::BaseMetal::Lead;
use vs_alloy_calculator::BaseMetal::Tin;

fn max_copper() -> Vec<vs_alloy_calculator::BaseMetal<u32>> {
    vec![Copper(9200), Tin(800)]
}

fn min_copper() -> Vec<vs_alloy_calculator::BaseMetal<u32>> {
    vec![Copper(8800), Tin(1200)]
}

#[test]
fn test_default() {
    let alloy = AlloyData::try_new(Alloys::TinBronze, &max_copper(), 1).unwrap();
    assert_eq!(AlloyData::get_default(Alloys::TinBronze), alloy);
}

#[test]
fn test_any_order_base_metals() {
    let alloy1 = AlloyData::try_new(Alloys::TinBronze, &vec![Copper(9200), Tin(800)], 1).unwrap();
    let alloy2 = AlloyData::try_new(Alloys::TinBronze, &vec![Tin(800), Copper(9200)], 1).unwrap();
    assert_eq!(alloy1, alloy2);
}

#[test]
fn test_one_ingot_max_copper() {
    let alloy = AlloyData::try_new(Alloys::TinBronze, &max_copper(), 1).unwrap();
    let nuggets = alloy.nuggets();
    assert_eq!(Copper(18), nuggets[0]);
    assert_eq!(Tin(2), nuggets[1]);
}

#[test]
fn test_one_ingot_min_copper() {
    let alloy = AlloyData::try_new(Alloys::TinBronze, &min_copper(), 1).unwrap();
    let nuggets = alloy.nuggets();
    assert_eq!(Copper(18), nuggets[0]);
    assert_eq!(Tin(2), nuggets[1]);
}

#[test]
fn test_ten_ingots_max_copper() {
    let alloy = AlloyData::try_new(Alloys::TinBronze, &max_copper(), 10).unwrap();
    let nuggets = alloy.nuggets();
    assert_eq!(Copper(184), nuggets[0]);
    assert_eq!(Tin(16), nuggets[1]);
}

#[test]
fn test_ten_ingots_min_copper() {
    let alloy = AlloyData::try_new(Alloys::TinBronze, &min_copper(), 10).unwrap();
    let nuggets = alloy.nuggets();
    assert_eq!(Copper(176), nuggets[0]);
    assert_eq!(Tin(24), nuggets[1]);
}

#[test]
fn test_invalid_percentages() {
    assert!(
        AlloyData::try_new(Alloys::TinBronze, &vec![Copper(800), Tin(9200)], 1)
            .is_err_and(|e| e == AlloyError::InvalidPercentages)
    )
}

#[test]
fn test_invalid_base_metals() {
    assert!(
        AlloyData::try_new(Alloys::TinBronze, &vec![Lead(9200), Copper(800)], 1)
            .is_err_and(|e| e == AlloyError::InvalidBaseMetals)
    )
}

#[test]
fn test_too_many_ingots() {
    assert!(
        AlloyData::try_new(Alloys::TinBronze, &max_copper(), 30)
            .is_err_and(|e| e == AlloyError::TooManyIngots)
    );
}

#[test]
fn test_too_few_ingots() {
    assert!(
        AlloyData::try_new(Alloys::TinBronze, &max_copper(), 0)
            .is_err_and(|e| e == AlloyError::TooFewIngots)
    )
}

#[test]
fn test_seven_ingots_max_copper() {
    let alloy = AlloyData::try_new(Alloys::TinBronze, &max_copper(), 7).unwrap();
    let nuggets = alloy.nuggets();
    assert_eq!(Copper(128), nuggets[0]);
    assert_eq!(Tin(12), nuggets[1]);
}

#[test]
fn test_max_ingots_max_copper() {
    let alloy = AlloyData::try_new(Alloys::TinBronze, &max_copper(), 1).unwrap();
    assert_eq!(20, alloy.max_ingots());
}

#[test]
fn test_max_ingots_min_copper() {
    let alloy = AlloyData::try_new(Alloys::TinBronze, &min_copper(), 10).unwrap();
    assert_eq!(21, alloy.max_ingots());
}

#[test]
fn test_negative_ingots() {
    assert!(
        AlloyData::try_new(Alloys::TinBronze, &max_copper(), -3)
            .is_err_and(|e| e == AlloyError::TooFewIngots)
    )
}

#[test]
fn test_wrong_arity() {
    // A three-item composition handed to a two-constituent alloy fails the
    // length check before any base metal is looked at.
    let three = vec![Copper(8800), Tin(800), Lead(400)];
    assert!(
        AlloyData::try_new(Alloys::TinBronze, &three, 1)
            .is_err_and(|e| e == AlloyError::InvalidPercentages)
    )
}

#[test]
fn test_duplicate_base_metal() {
    let twice = vec![Copper(9200), Copper(800)];
    assert!(
        AlloyData::try_new(Alloys::TinBronze, &twice, 1)
            .is_err_and(|e| e == AlloyError::InvalidBaseMetals)
    )
}

#[test]
fn test_sum_out_of_tolerance() {
    // 91% + 8% misses 100% by a full percent point.
    let short = vec![Copper(9100), Tin(800)];
    assert!(
        AlloyData::try_new(Alloys::TinBronze, &short, 1)
            .is_err_and(|e| e == AlloyError::InvalidPercentages)
    )
}
