use alloy_primitives::{Address, U256};
use hermetic::eth::signer::unshield_recipient;
use hermetic::eth::tx::{check_affordable, max_transaction_cost, parse_populated_transaction, Wei};
use hermetic::railgun::PopulatedTransaction;

fn populated(to: &str, data: &str, value: &str, gas_limit: Option<&str>) -> PopulatedTransaction {
    PopulatedTransaction {
        to: to.into(),
        data: data.into(),
        value: value.into(),
        gas_limit: gas_limit.map(Into::into),
    }
}

fn u256(w: &Wei) -> U256 {
    U256::from_limbs(w.limbs)
}

fn wei(x: u128) -> Wei {
    Wei {
        limbs: U256::from(x).into_limbs(),
    }
}

#[test]
fn parse_populated_transaction_happy_path_with_gas_limit() {
    let tx = populated(
        "0x0000000000000000000000000000000000000001",
        "0xdeadbeef",
        "1000000000000000000",
        Some("21000"),
    );
    let parsed = parse_populated_transaction(&tx)
        .expect("valid PopulatedTransaction must parse without error");

    assert_eq!(
        Address::from(parsed.to),
        "0000000000000000000000000000000000000001"
            .parse::<Address>()
            .unwrap()
    );
    assert_eq!(u256(&parsed.value), U256::from(1_000_000_000_000_000_000_u128));
    assert_eq!(parsed.gas_limit, Some(21_000_u64));
    assert_eq!(parsed.data.len(), 4, "0xdeadbeef is 4 bytes");
}

#[test]
fn parse_populated_transaction_no_gas_limit_is_none() {
    let tx = populated(
        "0x0000000000000000000000000000000000000001",
        "0xdeadbeef",
        "0",
        None,
    );
    let parsed = parse_populated_transaction(&tx)
        .expect("valid PopulatedTransaction without gas_limit must parse");
    assert_eq!(parsed.gas_limit, None);
}

#[test]
fn parse_populated_transaction_invalid_address_returns_err() {
    let tx = populated("not-an-address", "0xdeadbeef", "0", None);
    assert!(parse_populated_transaction(&tx).is_err());
}

#[test]
fn parse_populated_transaction_non_decimal_value_returns_err() {
    let tx = populated(
        "0x0000000000000000000000000000000000000001",
        "0xdeadbeef",
        "not-a-number",
        None,
    );
    assert!(parse_populated_transaction(&tx).is_err());
}

#[test]
fn parse_populated_transaction_malformed_hex_data_returns_err() {
    let tx = populated(
        "0x0000000000000000000000000000000000000001",
        "0xzzzz",
        "0",
        None,
    );
    assert!(parse_populated_transaction(&tx).is_err());
}

#[test]
fn parse_reports_each_field_in_turn() {
    let ok_to = "0x00000000000000000000000000000000000000fF";
    let cases = [
        (populated("0x01", "0x", "0", None), "parsing Railgun tx.to"),
        (populated(ok_to, "0x123", "0", None), "parsing Railgun tx.data"),
        (populated(ok_to, "0x", "1e3", None), "parsing Railgun tx.value"),
        (populated(ok_to, "0x", "0", Some("-1")), "parsing Railgun tx.gas_limit"),
        (populated(ok_to, "0x", "0", Some("")), "parsing Railgun tx.gas_limit"),
    ];
    for (tx, message) in cases {
        let err = parse_populated_transaction(&tx).unwrap_err();
        assert_eq!(err.message(), message);
    }
}

#[test]
fn parse_decodes_fields_exactly() {
    let tx = populated(
        "0XABCDEFabcdef0123456789000000000000000000",
        "0X00ff10",
        "1_000",
        Some("+7"),
    );
    let parsed = parse_populated_transaction(&tx).unwrap();
    assert_eq!(parsed.to[0], 0xab);
    assert_eq!(parsed.to[5], 0xef);
    assert_eq!(parsed.data, vec![0x00, 0xff, 0x10]);
    assert_eq!(u256(&parsed.value), U256::from(1000u64));
    assert_eq!(parsed.gas_limit, Some(7));
    let empty = parse_populated_transaction(&populated(
        "0000000000000000000000000000000000000000",
        "",
        "",
        None,
    ))
    .unwrap();
    assert!(empty.data.is_empty());
    assert_eq!(u256(&empty.value), U256::ZERO);
}

#[test]
fn parse_refuses_values_of_two_to_the_256() {
    let max = "115792089237316195423570985008687907853269984665640564039457584007913129639935";
    let over = "115792089237316195423570985008687907853269984665640564039457584007913129639936";
    let to = "0x0000000000000000000000000000000000000001";
    assert_eq!(
        u256(&parse_populated_transaction(&populated(to, "0x", max, None)).unwrap().value),
        U256::MAX
    );
    assert!(parse_populated_transaction(&populated(to, "0x", over, None)).is_err());
}

#[test]
fn max_cost_is_value_plus_gas_times_price() {
    let cost = max_transaction_cost(&wei(5), 21_000, 3);
    assert_eq!(u256(&cost), U256::from(63_005u64));
}

#[test]
fn max_cost_wraps_at_two_to_the_256() {
    let value = Wei {
        limbs: U256::MAX.into_limbs(),
    };
    let cost = max_transaction_cost(&value, 2, 1);
    assert_eq!(u256(&cost), U256::from(1u64));
}

#[test]
fn affordable_when_balance_covers_cost() {
    let from = [0u8; 20];
    let cost = check_affordable(&from, &wei(5), 21_000, 3, &wei(63_005)).unwrap();
    assert_eq!(u256(&cost), U256::from(63_005u64));
}

#[test]
fn unaffordable_names_address_balance_and_cost() {
    let mut from = [0u8; 20];
    from[19] = 1;
    let err = check_affordable(&from, &wei(5), 21_000, 3, &wei(63_004)).unwrap_err();
    assert_eq!(
        err.message(),
        "signer has insufficient Sepolia ETH: address 0x0000000000000000000000000000000000000001 balance 63004, max transaction cost 63005"
    );
}

#[test]
fn unshield_recipient_defaults_to_signer_address() {
    let from: [u8; 20] = [
        0x5a, 0xae, 0xb6, 0x05, 0x3f, 0x3e, 0x94, 0xc9, 0xb9, 0xa0, 0x9f, 0x33, 0x66, 0x94, 0x35,
        0xe7, 0xef, 0x1b, 0xea, 0xed,
    ];
    assert_eq!(
        unshield_recipient(None, &from),
        "0x5aAeb6053F3E94C9b9A09f33669435E7Ef1BeAed"
    );
    assert_eq!(
        unshield_recipient(Some("0xabc".to_owned()), &from),
        "0xabc"
    );
}
