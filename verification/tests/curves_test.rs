use hyperdrive_amm::curves::{
    calculate_long_face_value, calculate_lp_present_value, calculate_position_fees,
    calculate_short_deposit, maturity_pricing_delta_z, position_impact_delta_z,
    quote_position_impact, trading_invariant_delta_z, validate_trading_parameters,
};
use hyperdrive_amm::decimal::Decimal;
use hyperdrive_amm::dex::split_fee;
use hyperdrive_amm::error::PoolError;

fn dec(s: &str) -> Decimal {
    let digits = scrypto::math::Decimal::try_from(s).unwrap().attos().to_digits();
    Decimal { lo: digits[0], mid: digits[1], hi: digits[2] as i64 }
}

fn largest() -> Decimal {
    Decimal { lo: u64::MAX, mid: u64::MAX, hi: i64::MAX }
}

fn smallest() -> Decimal {
    Decimal { lo: 0, mid: 0, hi: i64::MIN }
}

#[test]
fn decimal_limbs_agree_with_the_outside_decimal() {
    assert_eq!(Decimal::zero(), dec("0"));
    assert_eq!(Decimal::one(), dec("1"));
    assert_eq!(Decimal::from_u64(1000), dec("1000"));
    assert_eq!(Decimal::from_u64(u64::MAX), dec("18446744073709551615"));
    assert_eq!(dec("-1"), Decimal { lo: 0xf21f494c589c0000, mid: u64::MAX, hi: -1 });
    assert_eq!(
        largest(),
        dec("3138550867693340381917894711603833208051.177722232017256447")
    );
    assert_eq!(
        smallest(),
        dec("-3138550867693340381917894711603833208051.177722232017256448")
    );
}

#[test]
fn decimal_comparisons_follow_the_value() {
    let values = [
        smallest(),
        dec("-1000000000000000000000"),
        dec("-18.5"),
        dec("-0.000000000000000001"),
        dec("0"),
        dec("0.000000000000000001"),
        dec("18.446744073709551615"),
        dec("18.446744073709551616"),
        dec("340282366920938463463.374607431768211456"),
        largest(),
    ];
    for i in 0..values.len() {
        for j in 0..values.len() {
            let (a, b) = (values[i], values[j]);
            assert_eq!(a.lt(b), i < j);
            assert_eq!(a.le(b), i <= j);
            assert_eq!(a.gt(b), i > j);
            assert_eq!(a.ge(b), i >= j);
            assert_eq!(a.max(b), values[i.max(j)]);
            assert_eq!(a.min(b), values[i.min(j)]);
        }
        assert_eq!(values[i].gt(Decimal::zero()), i > 4);
        assert_eq!(values[i].lt(Decimal::zero()), i < 4);
    }
}

#[test]
fn decimal_arithmetic_is_checked() {
    assert_eq!(dec("2.5").checked_add(dec("-4")), Some(dec("-1.5")));
    assert_eq!(dec("2.5").checked_sub(dec("4")), Some(dec("-1.5")));
    assert_eq!(largest().checked_add(dec("0.000000000000000001")), None);
    assert_eq!(smallest().checked_sub(dec("0.000000000000000001")), None);
    assert_eq!(largest().checked_mul(dec("1.000000000000000001")), None);
    assert_eq!(largest().checked_mul(largest()), None);
    assert_eq!(largest().checked_div(dec("0.5")), None);
    assert_eq!(dec("1").checked_div(dec("0")), None);
    assert_eq!(largest().checked_mul(dec("1")), Some(largest()));
    assert_eq!(
        dec("-0.000000000000000001")
            .checked_sub(largest()),
        Some(smallest())
    );
    assert_eq!(smallest().checked_add(largest()), Some(dec("-0.000000000000000001")));
}

#[test]
fn products_and_quotients_leave_out_the_smallest_number() {
    let next = smallest().checked_add(dec("0.000000000000000001")).unwrap();
    assert_eq!(smallest().checked_div(dec("1")), None);
    assert_eq!(smallest().checked_mul(dec("1")), None);
    assert_eq!(largest().checked_div(dec("-1")), Some(next));
    assert_eq!(largest().checked_mul(dec("-1")), Some(next));
    assert_eq!(next.checked_div(dec("1")), Some(next));
    assert_eq!(next.checked_mul(dec("1")), Some(next));
    assert_eq!(
        smallest().checked_mul(dec("0.5")),
        Some(dec("-1569275433846670190958947355801916604025.588861116008628224")),
    );
    assert_eq!(
        smallest().checked_div(dec("2")),
        Some(dec("-1569275433846670190958947355801916604025.588861116008628224")),
    );
}

#[test]
fn decimal_products_and_quotients_round_toward_zero() {
    let unit = dec("0.000000000000000001");
    assert_eq!(dec("0.000000000000000003").checked_mul(dec("0.5")), Some(unit));
    assert_eq!(
        dec("-0.000000000000000003").checked_mul(dec("0.5")),
        Some(dec("-0.000000000000000001")),
    );
    assert_eq!(dec("2").checked_div(dec("3")), Some(dec("0.666666666666666666")));
    assert_eq!(dec("-2").checked_div(dec("3")), Some(dec("-0.666666666666666666")));
    assert_eq!(dec("2").checked_div(dec("-3")), Some(dec("-0.666666666666666666")));
    assert_eq!(dec("-2").checked_div(dec("-3")), Some(dec("0.666666666666666666")));
    assert_eq!(unit.checked_mul(dec("0.9")), Some(dec("0")));
}

#[test]
fn trading_invariant_example() {
    let z = dec("100000");
    let y = dec("95000");
    let delta_z = trading_invariant_delta_z(dec("1000"), z, y).unwrap();
    assert_eq!(z.checked_mul(y), Some(dec("9500000000")));
    assert_eq!(dec("9500000000").checked_div(dec("94000")), Some(dec("101063.829787234042553191")));
    assert_eq!(delta_z, dec("1063.829787234042553191"));
}

#[test]
fn trading_invariant_keeps_the_product_up_to_rounding() {
    let z = dec("100000");
    let y = dec("95000");
    let delta_y = dec("1000");
    let delta_z = trading_invariant_delta_z(delta_y, z, y).unwrap();
    let before = z.checked_mul(y).unwrap();
    let after = z
        .checked_add(delta_z)
        .unwrap()
        .checked_mul(y.checked_sub(delta_y).unwrap())
        .unwrap();
    let lost = before.checked_sub(after).unwrap();
    assert!(lost.ge(dec("0")));
    assert!(lost.lt(dec("0.0000000000001")));
}

#[test]
fn trading_invariant_costs_nothing_negative_unless_rounding_eats_the_product() {
    let unit = "0.000000000000000001";
    assert_eq!(
        trading_invariant_delta_z(dec(unit), dec(unit), dec("0.000000000000000002")),
        Ok(dec("-0.000000000000000001")),
    );
    assert_eq!(
        trading_invariant_delta_z(dec(unit), dec("0.1"), dec("0.000000000000000002")),
        Ok(dec("-0.1")),
    );
    assert_eq!(trading_invariant_delta_z(dec(unit), dec("1"), dec("2")), Ok(dec("0")));
    assert_eq!(
        trading_invariant_delta_z(dec("0.000000001"), dec("0.000000001"), dec("1")),
        Ok(dec(unit)),
    );
    assert_eq!(trading_invariant_delta_z(dec("1"), dec("1"), dec("2")), Ok(dec("1")));
}

#[test]
fn trading_invariant_on_an_empty_pool_is_one_for_one() {
    assert_eq!(trading_invariant_delta_z(dec("7"), dec("0"), dec("95000")), Ok(dec("7")));
    assert_eq!(trading_invariant_delta_z(dec("7"), dec("100000"), dec("0")), Ok(dec("7")));
    assert_eq!(trading_invariant_delta_z(dec("-7"), dec("-1"), dec("-1")), Ok(dec("-7")));
}

#[test]
fn trading_invariant_quotes_zero_for_all_the_bonds() {
    assert_eq!(trading_invariant_delta_z(dec("95000"), dec("100000"), dec("95000")), Ok(dec("0")));
    assert_eq!(trading_invariant_delta_z(dec("95001"), dec("100000"), dec("95000")), Ok(dec("0")));
}

#[test]
fn trading_invariant_reports_overflow() {
    assert_eq!(
        trading_invariant_delta_z(dec("1"), largest(), dec("2")),
        Err(PoolError::ArithmeticOverflow)
    );
    assert_eq!(
        trading_invariant_delta_z(smallest(), dec("1"), dec("1")),
        Err(PoolError::ArithmeticOverflow)
    );
}

#[test]
fn maturity_pricing_divides_by_the_share_price() {
    assert_eq!(
        maturity_pricing_delta_z(dec("1000"), dec("1.05")),
        Ok(dec("952.380952380952380952")),
    );
    assert_eq!(maturity_pricing_delta_z(dec("1000"), dec("0")), Ok(dec("0")));
    assert_eq!(maturity_pricing_delta_z(dec("1000"), dec("-2")), Ok(dec("0")));
    assert_eq!(
        maturity_pricing_delta_z(largest(), dec("0.5")),
        Err(PoolError::ArithmeticOverflow)
    );
}

#[test]
fn position_impact_at_the_ends_of_the_term() {
    let z = dec("100000");
    let y = dec("95000");
    let c = dec("1.05");
    let face = dec("1000");
    assert_eq!(
        position_impact_delta_z(face, z, y, dec("1"), c),
        trading_invariant_delta_z(face, z, y)
    );
    assert_eq!(position_impact_delta_z(face, z, y, dec("0"), c), maturity_pricing_delta_z(face, c));
    assert_eq!(
        position_impact_delta_z(face, z, y, dec("1"), c),
        Ok(dec("1063.829787234042553191")),
    );
    assert_eq!(position_impact_delta_z(face, z, y, dec("0"), c), Ok(dec("952.380952380952380952")));
}

#[test]
fn position_impact_blends_by_time_remaining() {
    let impact =
        position_impact_delta_z(dec("1000"), dec("100000"), dec("95000"), dec("0.5"), dec("1.05"));
    assert_eq!(impact, Ok(dec("1005.291005291005291005")));
}

#[test]
fn position_impact_counts_nothing_for_a_face_value_that_is_not_positive() {
    let impact =
        position_impact_delta_z(dec("-1000"), dec("100000"), dec("95000"), dec("0.5"), dec("1.05"));
    assert_eq!(impact, Ok(dec("0")));
    assert_eq!(trading_invariant_delta_z(dec("-1"), dec("0"), dec("0")), Ok(dec("-1")));
    assert_eq!(
        position_impact_delta_z(dec("-1"), dec("0"), dec("0"), dec("1"), dec("1")),
        Ok(dec("0")),
    );
}

#[test]
fn quote_refuses_a_position_that_drains_the_bonds() {
    let z = dec("100000");
    let y = dec("95000");
    let c = dec("1");
    assert_eq!(
        quote_position_impact(dec("95000"), z, y, dec("1"), c),
        Err(PoolError::InsufficientLiquidity)
    );
    assert_eq!(position_impact_delta_z(dec("95000"), z, y, dec("1"), c), Ok(dec("0")));
    assert_eq!(
        quote_position_impact(dec("1000"), z, y, dec("1"), c),
        Ok(dec("1063.829787234042553191"))
    );
    assert_eq!(quote_position_impact(dec("95000"), z, y, dec("0"), c), Ok(dec("95000")));
    assert_eq!(quote_position_impact(dec("95000"), dec("0"), y, dec("1"), c), Ok(dec("95000")));
    assert_eq!(
        quote_position_impact(dec("1"), largest(), y, dec("1"), c),
        Err(PoolError::ArithmeticOverflow)
    );
}

#[test]
fn fee_example() {
    let fees =
        calculate_position_fees(dec("5000"), dec("1"), dec("0"), dec("0.01"), dec("0.005"));
    let (fee_new, fee_matured) = fees.unwrap();
    assert_eq!(fee_new, dec("50"));
    assert_eq!(fee_matured, dec("0"));
    let (lp_fee, governance_shares) = split_fee(fee_new, dec("0.1"), dec("1")).unwrap();
    assert_eq!(lp_fee, dec("45"));
    assert_eq!(governance_shares, dec("5"));
}

#[test]
fn fees_follow_the_schedule() {
    let fees =
        calculate_position_fees(dec("5000"), dec("0.5"), dec("-0.05"), dec("0.01"), dec("0.005"));
    assert_eq!(fees, Ok((dec("26.25"), dec("12.5"))));
    assert_eq!(
        calculate_position_fees(largest(), dec("1"), dec("-1"), dec("1"), dec("0")),
        Err(PoolError::ArithmeticOverflow)
    );
}

#[test]
fn fees_are_linear_in_the_face_value() {
    let once =
        calculate_position_fees(dec("5000"), dec("0.5"), dec("-0.05"), dec("0.01"), dec("0.005"))
            .unwrap();
    let twice =
        calculate_position_fees(dec("10000"), dec("0.5"), dec("-0.05"), dec("0.01"), dec("0.005"))
            .unwrap();
    assert_eq!(twice.0, once.0.checked_add(once.0).unwrap());
    assert_eq!(twice.1, once.1.checked_add(once.1).unwrap());
}

#[test]
fn fees_are_linear_only_up_to_rounding() {
    let small = dec("0.00000000000000005");
    let once = calculate_position_fees(small, dec("1"), dec("0"), dec("0.01"), dec("0")).unwrap();
    let twice = calculate_position_fees(
        small.checked_add(small).unwrap(),
        dec("1"),
        dec("0"),
        dec("0.01"),
        dec("0"),
    )
    .unwrap();
    assert_eq!(once.0, dec("0"));
    assert_eq!(twice.0, dec("0.000000000000000001"));
}

#[test]
fn fees_beyond_the_term_carry_the_rounding_with_the_time_remaining() {
    let small = dec("0.00000000000000005");
    let fees = |face_value: Decimal| {
        calculate_position_fees(face_value, dec("1000"), dec("0"), dec("0.01"), dec("0.01"))
            .unwrap()
    };
    let once = fees(small);
    let twice = fees(small.checked_add(small).unwrap());
    assert_eq!(once, (dec("0"), dec("0")));
    assert_eq!(twice, (dec("0.000000000000001"), dec("-0.000000000000000999")));
    let whole = fees(dec("5000"));
    let double = fees(dec("10000"));
    assert_eq!(whole, (dec("50000"), dec("-49950")));
    assert_eq!(double, (dec("100000"), dec("-99900")));
}

#[test]
fn split_fee_moves_nothing_for_no_governance_part() {
    assert_eq!(split_fee(dec("50"), dec("0"), dec("0")), Ok((dec("50"), dec("0"))));
    assert_eq!(split_fee(dec("50"), dec("0.1"), dec("2")), Ok((dec("45"), dec("2.5"))));
    assert_eq!(split_fee(dec("50"), dec("0.1"), dec("0")), Err(PoolError::ArithmeticOverflow));
    assert_eq!(split_fee(dec("-50"), dec("0.1"), dec("0")), Ok((dec("-45"), dec("0"))));
}

#[test]
fn lp_present_value_is_the_pool_value_per_share() {
    assert_eq!(
        calculate_lp_present_value(dec("100000"), dec("95000"), dec("1"), dec("100000")),
        Ok(dec("1.95"))
    );
    assert_eq!(
        calculate_lp_present_value(dec("100000"), dec("95000"), dec("1.05"), dec("90000")),
        Ok(dec("2.222222222222222222"))
    );
    assert_eq!(
        calculate_lp_present_value(dec("100000"), dec("95000"), dec("1.05"), dec("0")),
        Ok(dec("1"))
    );
    assert_eq!(
        calculate_lp_present_value(largest(), dec("95000"), dec("1.05"), dec("-1")),
        Ok(dec("1"))
    );
    assert_eq!(
        calculate_lp_present_value(largest(), dec("95000"), dec("1.05"), dec("1")),
        Err(PoolError::ArithmeticOverflow)
    );
}

#[test]
fn long_face_value_inverts_the_trading_invariant() {
    assert_eq!(
        calculate_long_face_value(dec("1000"), dec("100000"), dec("95000")),
        Ok(dec("940.59405940594059406"))
    );
    assert_eq!(
        calculate_long_face_value(dec("5000"), dec("50000"), dec("40000")),
        Ok(dec("3636.363636363636363637"))
    );
    assert_eq!(calculate_long_face_value(dec("1000"), dec("0"), dec("95000")), Ok(dec("1000")));
    assert_eq!(calculate_long_face_value(dec("1000"), dec("100000"), dec("-1")), Ok(dec("1000")));
    assert_eq!(
        calculate_long_face_value(dec("-100000"), dec("100000"), dec("95000")),
        Err(PoolError::ArithmeticOverflow)
    );
}

#[test]
fn short_deposit_is_collateral_less_proceeds() {
    assert_eq!(
        calculate_short_deposit(dec("1000"), dec("100000"), dec("95000"), dec("1.05"), dec("1")),
        Ok(dec("-67.02127659574468085"))
    );
    assert_eq!(
        calculate_short_deposit(dec("1000"), dec("0"), dec("0"), dec("1.05"), dec("1")),
        Ok(dec("0"))
    );
    assert_eq!(
        calculate_short_deposit(largest(), dec("0"), dec("0"), dec("1.05"), dec("1")),
        Err(PoolError::ArithmeticOverflow)
    );
}

#[test]
fn trading_parameters_are_checked_in_order() {
    let z = dec("100000");
    let y = dec("95000");
    assert_eq!(validate_trading_parameters(z, y, dec("1000")), Ok(()));
    assert_eq!(
        validate_trading_parameters(dec("0"), y, dec("1000")),
        Err(PoolError::InsufficientLiquidity)
    );
    assert_eq!(
        validate_trading_parameters(z, dec("0"), dec("-1")),
        Err(PoolError::InsufficientLiquidity)
    );
    assert_eq!(validate_trading_parameters(z, y, dec("0")), Err(PoolError::InvalidParameter));
    assert_eq!(validate_trading_parameters(z, y, y), Err(PoolError::InsufficientLiquidity));
    assert_eq!(
        validate_trading_parameters(z, y, dec("95000.000000000000000001")),
        Err(PoolError::InsufficientLiquidity)
    );
    assert_eq!(validate_trading_parameters(z, y, dec("94999.999999999999999999")), Ok(()));
}
