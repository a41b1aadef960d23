use margin_core::constants::MARGIN_PRECISION_U128;
use margin_core::error::ErrorCode;
use margin_core::margin::same_market;
use margin_core::margin::MarginRequirementType;
use margin_core::margin::MarketType;
use margin_core::margin_calculation::cast_to_i128;
use margin_core::margin_calculation::covers;
use margin_core::margin_calculation::unsigned_magnitude;
use margin_core::margin_calculation::MarginCalculation;
use margin_core::margin_calculation::MarginCalculationMode;
use margin_core::margin_calculation::MarginContext;

const MARKET_A: (MarketType, u16) = (MarketType::Perp, 0);
const MARKET_B: (MarketType, u16) = (MarketType::Spot, 1);

fn standard() -> MarginCalculation {
    MarginCalculation::new(MarginContext::standard(MarginRequirementType::Initial))
}

fn liquidation(margin_buffer: u32) -> MarginCalculation {
    MarginCalculation::new(MarginContext::liquidation(margin_buffer))
}

fn tracking_ratio(margin_buffer: u32) -> MarginCalculation {
    MarginCalculation::new(MarginContext::liquidation(margin_buffer).track_margin_ratio().unwrap())
}

#[test]
fn standard_context_has_the_given_tier() {
    let context = MarginContext::standard(MarginRequirementType::Fill);
    assert_eq!(context.margin_type, MarginRequirementType::Fill);
    assert!(matches!(context.mode, MarginCalculationMode::Standard));
    assert!(!context.strict);
}

#[test]
fn strict_sets_only_the_flag() {
    let context = MarginContext::liquidation(7).strict(true);
    assert!(context.strict);
    assert_eq!(context.margin_type, MarginRequirementType::Maintenance);
    assert!(matches!(
        context.mode,
        MarginCalculationMode::Liquidation {
            margin_buffer: 7,
            track_margin_ratio: false,
            market_to_track: None
        }
    ));
    assert!(!context.strict(false).strict);
}

#[test]
fn liquidation_context_starts_without_tracking() {
    let context = MarginContext::liquidation(u32::MAX);
    assert_eq!(context.margin_type, MarginRequirementType::Maintenance);
    assert!(!context.strict);
    assert!(matches!(
        context.mode,
        MarginCalculationMode::Liquidation {
            margin_buffer: 4_294_967_295,
            track_margin_ratio: false,
            market_to_track: None
        }
    ));
}

#[test]
fn tracking_builders_keep_the_rest_of_the_context() {
    let context = MarginContext::liquidation(500)
        .strict(true)
        .track_market(MARKET_B)
        .unwrap()
        .track_margin_ratio()
        .unwrap()
        .track_market(MARKET_A)
        .unwrap();
    assert!(context.strict);
    assert!(matches!(
        context.mode,
        MarginCalculationMode::Liquidation {
            margin_buffer: 500,
            track_margin_ratio: true,
            market_to_track: Some((MarketType::Perp, 0))
        }
    ));
}

#[test]
fn tracking_builders_refuse_standard_mode() {
    let context = MarginContext::standard(MarginRequirementType::Initial);
    assert_eq!(context.track_margin_ratio().err(), Some(ErrorCode::InvalidMarginCalculation));
    assert_eq!(context.track_market(MARKET_A).err(), Some(ErrorCode::InvalidMarginCalculation));
}

#[test]
fn new_calculation_is_empty() {
    let calculation = liquidation(500);
    assert_eq!(calculation.total_collateral, 0);
    assert_eq!(calculation.margin_requirement, 0);
    assert_eq!(calculation.margin_requirement_plus_buffer, 0);
    assert_eq!(calculation.num_spot_liabilities, 0);
    assert_eq!(calculation.num_perp_liabilities, 0);
    assert!(calculation.all_oracles_valid);
    assert!(!calculation.with_isolated_liability);
    assert_eq!(calculation.total_spot_asset_value, 0);
    assert_eq!(calculation.total_spot_liability_value, 0);
    assert_eq!(calculation.total_perp_liability_value, 0);
    assert_eq!(calculation.tracked_market_margin_requirement, 0);
    assert!(calculation.is_liquidation_mode());
    assert!(!calculation.track_margin_ratio_enabled());
    assert_eq!(calculation.market_to_track(), None);
}

#[test]
fn standard_account_with_enough_collateral_is_solvent() {
    let mut calculation = standard();
    assert_eq!(calculation.add_total_collateral(100), Ok(()));
    assert_eq!(calculation.add_margin_requirement(80, 80, MARKET_A), Ok(()));
    assert!(calculation.meets_margin_requirement());
    assert_eq!(calculation.get_free_collateral(), Ok(20));
    assert_eq!(calculation.margin_requirement_plus_buffer, 0);
    assert_eq!(calculation.tracked_market_margin_requirement, 0);
}

#[test]
fn account_with_too_little_collateral_is_not_solvent() {
    let mut calculation = standard();
    calculation.add_total_collateral(79).unwrap();
    calculation.add_margin_requirement(80, 80, MARKET_A).unwrap();
    assert!(!calculation.meets_margin_requirement());
    assert_eq!(calculation.get_free_collateral(), Ok(0));
    calculation.add_total_collateral(1).unwrap();
    assert!(calculation.meets_margin_requirement());
    assert_eq!(calculation.get_free_collateral(), Ok(0));
}

#[test]
fn negative_collateral_never_meets_a_requirement() {
    let mut calculation = standard();
    calculation.add_total_collateral(-1).unwrap();
    assert!(!calculation.meets_margin_requirement());
    calculation.add_margin_requirement(u128::MAX, 0, MARKET_A).unwrap();
    assert!(!calculation.meets_margin_requirement());
}

#[test]
fn total_collateral_overflow_changes_nothing() {
    let mut calculation = standard();
    calculation.add_total_collateral(i128::MAX).unwrap();
    assert_eq!(calculation.add_total_collateral(1), Err(ErrorCode::MathError));
    assert_eq!(calculation.total_collateral, i128::MAX);
    calculation.add_total_collateral(-5).unwrap();
    assert_eq!(calculation.total_collateral, i128::MAX - 5);
}

#[test]
fn liquidation_buffer_raises_the_buffered_requirement() {
    let mut calculation = liquidation(500);
    assert_eq!(calculation.add_margin_requirement(100, 100, MARKET_A), Ok(()));
    assert_eq!(calculation.margin_requirement, 100);
    assert_eq!(calculation.margin_requirement_plus_buffer, 100 + 100 * 500 / MARGIN_PRECISION_U128);
    assert_eq!(calculation.margin_requirement_plus_buffer, 105);
    assert_eq!(standard().can_exit_liquidation(), Err(ErrorCode::InvalidMarginCalculation));
}

#[test]
fn liquidation_buffer_share_is_rounded_down() {
    let mut calculation = liquidation(500);
    calculation.add_margin_requirement(10, 399, MARKET_A).unwrap();
    assert_eq!(calculation.margin_requirement_plus_buffer, 29);
    calculation.add_margin_requirement(1, 0, MARKET_B).unwrap();
    assert_eq!(calculation.margin_requirement_plus_buffer, 30);
    assert_eq!(calculation.margin_requirement, 11);
}

#[test]
fn exit_from_liquidation_needs_the_buffered_requirement() {
    let mut calculation = liquidation(500);
    calculation.add_margin_requirement(100, 100, MARKET_A).unwrap();
    calculation.add_total_collateral(104).unwrap();
    assert!(calculation.meets_margin_requirement());
    assert_eq!(calculation.can_exit_liquidation(), Ok(false));
    assert_eq!(calculation.margin_shortage(), Ok(1));
    calculation.add_total_collateral(1).unwrap();
    assert_eq!(calculation.can_exit_liquidation(), Ok(true));
    assert_eq!(calculation.margin_shortage(), Ok(0));
    calculation.add_total_collateral(10).unwrap();
    assert_eq!(calculation.margin_shortage(), Ok(10));
}

#[test]
fn margin_shortage_counts_negative_collateral() {
    let mut calculation = liquidation(0);
    calculation.add_margin_requirement(7, 1_000, MARKET_A).unwrap();
    calculation.add_total_collateral(-3).unwrap();
    assert_eq!(calculation.margin_shortage(), Ok(10));
}

#[test]
fn margin_shortage_refuses_standard_mode() {
    assert_eq!(standard().margin_shortage(), Err(ErrorCode::InvalidMarginCalculation));
}

#[test]
fn margin_shortage_rejects_a_requirement_beyond_i128() {
    let mut calculation = liquidation(0);
    calculation.add_margin_requirement(i128::MAX as u128 + 1, 0, MARKET_A).unwrap();
    assert_eq!(calculation.margin_shortage(), Err(ErrorCode::CastingFailure));
}

#[test]
fn margin_shortage_rejects_an_overflowing_difference() {
    let mut calculation = liquidation(0);
    calculation.add_margin_requirement(i128::MAX as u128, 0, MARKET_A).unwrap();
    calculation.add_total_collateral(-1).unwrap();
    assert_eq!(calculation.margin_shortage(), Err(ErrorCode::MathError));
    calculation.add_total_collateral(1).unwrap();
    assert_eq!(calculation.margin_shortage(), Ok(i128::MAX as u128));
}

#[test]
fn margin_requirement_overflow_changes_nothing() {
    let mut calculation = liquidation(500);
    calculation.add_margin_requirement(u128::MAX - 200, 0, MARKET_A).unwrap();
    assert_eq!(calculation.add_margin_requirement(201, 0, MARKET_A), Err(ErrorCode::MathError));
    assert_eq!(calculation.margin_requirement, u128::MAX - 200);
    assert_eq!(calculation.margin_requirement_plus_buffer, u128::MAX - 200);
}

#[test]
fn buffer_overflow_keeps_the_plain_requirement() {
    let mut calculation = liquidation(500);
    assert_eq!(
        calculation.add_margin_requirement(5, u128::MAX, MARKET_A),
        Err(ErrorCode::MathError)
    );
    assert_eq!(calculation.margin_requirement, 5);
    assert_eq!(calculation.margin_requirement_plus_buffer, 0);
    let mut full = liquidation(500);
    full.add_margin_requirement(u128::MAX - 300, 0, MARKET_A).unwrap();
    assert_eq!(full.add_margin_requirement(100, 4_020, MARKET_B), Err(ErrorCode::MathError));
    assert_eq!(full.margin_requirement, u128::MAX - 200);
    assert_eq!(full.margin_requirement_plus_buffer, u128::MAX - 300);
}

#[test]
fn tracked_market_gets_its_share_of_the_shortage() {
    let context = MarginContext::liquidation(0).track_market(MARKET_A).unwrap();
    let mut calculation = MarginCalculation::new(context);
    calculation.add_margin_requirement(30, 30, MARKET_A).unwrap();
    calculation.add_margin_requirement(70, 70, MARKET_B).unwrap();
    assert_eq!(calculation.margin_requirement, 100);
    assert_eq!(calculation.tracked_market_margin_requirement, 30);
    assert_eq!(calculation.tracked_market_margin_shortage(50), Ok(15));
    assert_eq!(calculation.tracked_market_margin_shortage(0), Ok(0));
    assert_eq!(calculation.tracked_market_margin_shortage(33), Ok(9));
}

#[test]
fn tracked_market_is_told_apart_by_type_and_index() {
    let context = MarginContext::liquidation(0).track_market((MarketType::Spot, 3)).unwrap();
    let mut calculation = MarginCalculation::new(context);
    calculation.add_margin_requirement(1, 0, (MarketType::Perp, 3)).unwrap();
    calculation.add_margin_requirement(2, 0, (MarketType::Spot, 4)).unwrap();
    assert_eq!(calculation.tracked_market_margin_requirement, 0);
    calculation.add_margin_requirement(4, 0, (MarketType::Spot, 3)).unwrap();
    assert_eq!(calculation.tracked_market_margin_requirement, 4);
    assert_eq!(calculation.margin_requirement, 7);
    assert!(same_market((MarketType::Spot, 3), (MarketType::Spot, 3)));
    assert!(!same_market((MarketType::Spot, 3), (MarketType::Perp, 3)));
    assert!(!same_market((MarketType::Spot, 3), (MarketType::Spot, 2)));
}

#[test]
fn tracked_market_shortage_without_requirement_is_zero() {
    let context = MarginContext::liquidation(0).track_market(MARKET_A).unwrap();
    let calculation = MarginCalculation::new(context);
    assert_eq!(calculation.tracked_market_margin_shortage(50), Ok(0));
}

#[test]
fn tracked_market_shortage_refuses_without_a_market() {
    assert_eq!(
        liquidation(500).tracked_market_margin_shortage(50),
        Err(ErrorCode::InvalidMarginCalculation)
    );
    assert_eq!(
        standard().tracked_market_margin_shortage(50),
        Err(ErrorCode::InvalidMarginCalculation)
    );
}

#[test]
fn tracked_market_shortage_rejects_overflow() {
    let context = MarginContext::liquidation(0).track_market(MARKET_A).unwrap();
    let mut calculation = MarginCalculation::new(context);
    calculation.add_margin_requirement(3, 0, MARKET_A).unwrap();
    assert_eq!(calculation.tracked_market_margin_shortage(u128::MAX), Err(ErrorCode::MathError));
}

#[test]
fn margin_ratio_refuses_without_tracking() {
    assert_eq!(standard().get_margin_ratio(), Err(ErrorCode::InvalidMarginCalculation));
    assert_eq!(liquidation(500).get_margin_ratio(), Err(ErrorCode::InvalidMarginCalculation));
}

#[test]
fn values_are_not_produced_without_tracking() {
    let mut calculation = liquidation(500);
    let asset = || -> Result<i128, ErrorCode> { panic!("asset value produced") };
    let liability = || -> Result<u128, ErrorCode> { panic!("liability value produced") };
    assert_eq!(calculation.add_spot_asset_value(&asset), Ok(()));
    assert_eq!(calculation.add_spot_liability_value(&liability), Ok(()));
    assert_eq!(calculation.add_perp_liability_value(&liability), Ok(()));
    assert_eq!(calculation.record_spot_asset_value(Ok(5)), Ok(()));
    assert_eq!(calculation.record_spot_liability_value(Ok(5)), Ok(()));
    assert_eq!(calculation.record_perp_liability_value(Err(ErrorCode::MathError)), Ok(()));
    assert_eq!(calculation.total_spot_asset_value, 0);
    assert_eq!(calculation.total_spot_liability_value, 0);
    assert_eq!(calculation.total_perp_liability_value, 0);
}

#[test]
fn values_are_summed_while_tracking() {
    let mut calculation = tracking_ratio(500);
    assert!(calculation.track_margin_ratio_enabled());
    assert_eq!(calculation.add_spot_asset_value(&|| Ok(300)), Ok(()));
    assert_eq!(calculation.add_spot_asset_value(|| Ok(-50)), Ok(()));
    assert_eq!(calculation.add_spot_liability_value(&|| Ok(100)), Ok(()));
    assert_eq!(calculation.add_perp_liability_value(&|| Ok(200)), Ok(()));
    assert_eq!(calculation.record_perp_liability_value(Ok(200)), Ok(()));
    assert_eq!(calculation.total_spot_asset_value, 250);
    assert_eq!(calculation.total_spot_liability_value, 100);
    assert_eq!(calculation.total_perp_liability_value, 400);
    assert_eq!(calculation.get_margin_ratio(), Ok(150 * 1_000_000 / 500));
    assert_eq!(calculation.get_margin_ratio(), Ok(300_000));
}

#[test]
fn producer_errors_are_handed_on() {
    let mut calculation = tracking_ratio(500);
    assert_eq!(
        calculation.add_spot_asset_value(&|| Err(ErrorCode::InvalidMarginRatio)),
        Err(ErrorCode::InvalidMarginRatio)
    );
    assert_eq!(
        calculation.add_spot_liability_value(&|| Err(ErrorCode::CastingFailure)),
        Err(ErrorCode::CastingFailure)
    );
    assert_eq!(
        calculation.add_perp_liability_value(&|| Err(ErrorCode::UnableToCastUnixTime)),
        Err(ErrorCode::UnableToCastUnixTime)
    );
    assert_eq!(calculation.total_spot_asset_value, 0);
    assert_eq!(calculation.total_spot_liability_value, 0);
    assert_eq!(calculation.total_perp_liability_value, 0);
}

#[test]
fn value_overflow_changes_nothing() {
    let mut calculation = tracking_ratio(500);
    calculation.add_spot_asset_value(&|| Ok(i128::MIN)).unwrap();
    assert_eq!(calculation.add_spot_asset_value(&|| Ok(-1)), Err(ErrorCode::MathError));
    assert_eq!(calculation.total_spot_asset_value, i128::MIN);
    calculation.add_spot_liability_value(&|| Ok(u128::MAX)).unwrap();
    assert_eq!(calculation.add_spot_liability_value(&|| Ok(1)), Err(ErrorCode::MathError));
    assert_eq!(calculation.total_spot_liability_value, u128::MAX);
    calculation.add_perp_liability_value(&|| Ok(u128::MAX)).unwrap();
    assert_eq!(calculation.add_perp_liability_value(&|| Ok(1)), Err(ErrorCode::MathError));
    assert_eq!(calculation.total_perp_liability_value, u128::MAX);
}

#[test]
fn margin_ratio_of_negative_or_covered_assets_is_zero() {
    let mut calculation = tracking_ratio(500);
    assert_eq!(calculation.get_margin_ratio(), Ok(0));
    calculation.add_spot_asset_value(&|| Ok(-10)).unwrap();
    assert_eq!(calculation.get_margin_ratio(), Ok(0));
    calculation.add_spot_asset_value(&|| Ok(60)).unwrap();
    calculation.add_spot_liability_value(&|| Ok(50)).unwrap();
    assert_eq!(calculation.get_margin_ratio(), Ok(0));
    calculation.add_spot_liability_value(&|| Ok(50)).unwrap();
    assert_eq!(calculation.get_margin_ratio(), Ok(0));
}

#[test]
fn margin_ratio_without_liabilities_is_an_error() {
    let mut calculation = tracking_ratio(500);
    calculation.add_spot_asset_value(&|| Ok(10)).unwrap();
    assert_eq!(calculation.get_margin_ratio(), Err(ErrorCode::MathError));
    calculation.add_perp_liability_value(&|| Ok(4)).unwrap();
    assert_eq!(calculation.get_margin_ratio(), Ok(2_500_000));
}

#[test]
fn margin_ratio_rejects_overflow() {
    let mut calculation = tracking_ratio(500);
    calculation.add_spot_asset_value(&|| Ok(i128::MAX)).unwrap();
    calculation.add_perp_liability_value(&|| Ok(1)).unwrap();
    assert_eq!(calculation.get_margin_ratio(), Err(ErrorCode::MathError));
    let mut heavy = tracking_ratio(500);
    heavy.add_spot_asset_value(&|| Ok(2)).unwrap();
    heavy.add_spot_liability_value(&|| Ok(1)).unwrap();
    heavy.add_perp_liability_value(&|| Ok(u128::MAX)).unwrap();
    assert_eq!(heavy.get_margin_ratio(), Err(ErrorCode::MathError));
}

#[test]
fn spot_liability_without_requirement_is_invalid() {
    let mut calculation = standard();
    assert_eq!(calculation.validate_num_spot_liabilities(), Ok(()));
    calculation.add_spot_liability().unwrap();
    assert_eq!(calculation.validate_num_spot_liabilities(), Err(ErrorCode::InvalidMarginRatio));
    calculation.add_margin_requirement(1, 1, MARKET_B).unwrap();
    assert_eq!(calculation.validate_num_spot_liabilities(), Ok(()));
}

#[test]
fn perp_liability_without_requirement_is_valid() {
    let mut calculation = standard();
    calculation.add_perp_liability().unwrap();
    assert_eq!(calculation.validate_num_spot_liabilities(), Ok(()));
}

#[test]
fn liabilities_are_counted_together() {
    let mut calculation = standard();
    calculation.add_spot_liability().unwrap();
    calculation.add_spot_liability().unwrap();
    calculation.add_perp_liability().unwrap();
    assert_eq!(calculation.num_spot_liabilities, 2);
    assert_eq!(calculation.num_perp_liabilities, 1);
    assert_eq!(calculation.get_num_of_liabilities(), Ok(3));
}

#[test]
fn liability_counters_stop_at_their_limit() {
    let mut calculation = standard();
    for _ in 0..255 {
        calculation.add_spot_liability().unwrap();
    }
    assert_eq!(calculation.add_spot_liability(), Err(ErrorCode::MathError));
    assert_eq!(calculation.num_spot_liabilities, 255);
    assert_eq!(calculation.get_num_of_liabilities(), Ok(255));
    calculation.add_perp_liability().unwrap();
    assert_eq!(calculation.get_num_of_liabilities(), Err(ErrorCode::MathError));
    for _ in 0..254 {
        calculation.add_perp_liability().unwrap();
    }
    assert_eq!(calculation.add_perp_liability(), Err(ErrorCode::MathError));
    assert_eq!(calculation.num_perp_liabilities, 255);
}

#[test]
fn oracle_validity_never_returns() {
    let mut calculation = standard();
    calculation.update_all_oracles_valid(true);
    assert!(calculation.all_oracles_valid);
    calculation.update_all_oracles_valid(false);
    assert!(!calculation.all_oracles_valid);
    calculation.update_all_oracles_valid(true);
    assert!(!calculation.all_oracles_valid);
}

#[test]
fn free_collateral_rejects_a_requirement_beyond_i128() {
    let mut calculation = standard();
    calculation.add_margin_requirement(i128::MAX as u128 + 1, 0, MARKET_A).unwrap();
    assert_eq!(calculation.get_free_collateral(), Err(ErrorCode::CastingFailure));
    assert!(!calculation.meets_margin_requirement());
}

#[test]
fn free_collateral_rejects_an_overflowing_difference() {
    let mut calculation = standard();
    calculation.add_margin_requirement(2, 0, MARKET_A).unwrap();
    calculation.add_total_collateral(i128::MIN + 1).unwrap();
    assert_eq!(calculation.get_free_collateral(), Err(ErrorCode::MathError));
    calculation.add_total_collateral(1).unwrap();
    assert_eq!(calculation.get_free_collateral(), Ok(0));
}

#[test]
fn magnitude_and_casts_cover_the_edges() {
    assert_eq!(unsigned_magnitude(0), 0);
    assert_eq!(unsigned_magnitude(-7), 7);
    assert_eq!(unsigned_magnitude(7), 7);
    assert_eq!(unsigned_magnitude(i128::MIN), i128::MAX as u128 + 1);
    assert_eq!(cast_to_i128(i128::MAX as u128), Ok(i128::MAX));
    assert_eq!(cast_to_i128(i128::MAX as u128 + 1), Err(ErrorCode::CastingFailure));
    assert!(covers(0, 0));
    assert!(!covers(-1, 0));
    assert!(!covers(i128::MAX, i128::MAX as u128 + 1));
    assert!(covers(i128::MAX, i128::MAX as u128));
}
