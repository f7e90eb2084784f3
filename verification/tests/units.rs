use vs_alloy_calculator::AlloyError;
use vs_alloy_calculator::BaseMetal;
use vs_alloy_calculator::BaseMetal::Copper;
use vs_alloy_calculator::Alloys;
use vs_alloy_calculator::ConstituentRange;
use vs_alloy_calculator::unit_constants;
use vs_alloy_calculator::MetalTag;
use vs_alloy_calculator::TinBronze;

#[test]
fn test_base_metal_names() {
    assert_eq!("Nickel", BaseMetal::Nickel(0u32).name());
    assert_eq!("Copper", BaseMetal::Copper(5i32).name());
    assert_eq!("Zinc", BaseMetal::Zinc(0u32).name());
    assert_eq!("Silver", BaseMetal::Silver(0u32).name());
    assert_eq!("Tin", BaseMetal::Tin(0u32).name());
    assert_eq!("Gold", BaseMetal::Gold(0u32).name());
    assert_eq!("Lead", BaseMetal::Lead(0u32).name());
    assert_eq!("Bismuth", BaseMetal::Bismuth(0u32).name());
}

#[test]
fn test_base_metal_update() {
    let mut copper = Copper(5);
    assert_eq!(5, copper.value());

    copper.update(10);
    assert_eq!(10, copper.value());
    assert_eq!(Copper(10), copper);
}

#[test]
fn test_base_metal_update_inner_value() {
    let copper: BaseMetal<i32> = Copper(5);
    assert_eq!(5, copper.value());

    let copper: BaseMetal<u32> = copper.update_inner_value(10u32);
    assert_eq!(10, copper.value());
    assert_eq!(BaseMetal::Copper(10u32), copper);
}

#[test]
fn test_base_metal_tag() {
    assert_eq!(MetalTag::Tin, BaseMetal::Tin(3).tag());
    assert_ne!(MetalTag::Tin, BaseMetal::Gold(3).tag());
}

#[test]
fn test_constituent_range() {
    let range = ConstituentRange::new(800, 1200);
    assert_eq!(800, range.min);
    assert_eq!(1200, range.max);
    assert!(range.contains(800));
    assert!(range.contains(1000));
    assert!(range.contains(1200));
    assert!(!range.contains(799));
    assert!(!range.contains(1201));
}

#[test]
fn test_percentage_ranges() {
    let ranges = Alloys::TinBronze.percentage_ranges();
    assert_eq!(
        vec![
            BaseMetal::Copper(ConstituentRange::new(8800, 9200)),
            BaseMetal::Tin(ConstituentRange::new(800, 1200)),
        ],
        ranges
    );
}

#[test]
fn test_try_from_vec() {
    let tin_bronze = TinBronze::try_from_vec(vec![18, 2]).expect("two amounts suffice");
    assert_eq!(
        &vec![BaseMetal::Copper(18), BaseMetal::Tin(2)],
        tin_bronze.nuggets()
    );
}

#[test]
fn test_try_from_vec_extra_ignored() {
    let tin_bronze = TinBronze::try_from_vec(vec![18, 2, 99]).expect("extra amounts are ignored");
    assert_eq!(
        &vec![BaseMetal::Copper(18), BaseMetal::Tin(2)],
        tin_bronze.nuggets()
    );
}

#[test]
fn test_try_from_vec_too_short() {
    assert_eq!(
        AlloyError::InvalidConstituentAmounts,
        TinBronze::try_from_vec(vec![18]).unwrap_err()
    );
    assert_eq!(
        AlloyError::InvalidConstituentAmounts,
        vs_alloy_calculator::BismuthBronze::try_from_vec(vec![12, 4]).unwrap_err()
    );
}

#[test]
fn test_default_containers() {
    let tin_bronze = TinBronze::default();
    assert_eq!(
        &vec![BaseMetal::Copper(18), BaseMetal::Tin(2)],
        tin_bronze.nuggets()
    );
    let brass = vs_alloy_calculator::Brass::default();
    assert_eq!(
        &vec![BaseMetal::Copper(14), BaseMetal::Zinc(6)],
        brass.nuggets()
    );
}

#[test]
fn test_unit_constants() {
    assert_eq!(5, unit_constants::NUGGET_UNIT_AMOUNT);
    assert_eq!(100, unit_constants::INGOT_UNIT_AMOUNT);
    assert_eq!(128, unit_constants::MAX_STACK_SIZE);
    assert_eq!(4, unit_constants::CRUCIBLE_SLOTS);
    assert_eq!(25, unit_constants::MAX_POSSIBLE_INGOTS);
    assert_eq!(640, unit_constants::MAX_UNITS_PER_SLOT);
    assert_eq!(20, unit_constants::NUM_NUGGETS_PER_INGOT);
}
