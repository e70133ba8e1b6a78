//! Amounts in wei, the parsing of transactions populated by the embedded
//! runtime, and the affordability check made before a broadcast.
use vstd::prelude::*;

use crate::error::UndercoverError;
use crate::railgun::types::{PopulatedTransaction, PopulatedTransactionView};
use crate::text::{concat, owned};

verus! {

/// 2^64.
pub open spec fn limb_base() -> int {
    0x1_0000_0000_0000_0000int
}

/// 2^256, the bound of a 256-bit amount.
pub open spec fn u256_bound() -> int {
    limb_base() * limb_base() * limb_base() * limb_base()
}

/// A 256-bit unsigned amount (such as wei), as four little-endian 64-bit limbs,
/// the layout of `alloy_primitives::U256`.
#[derive(Debug, Clone, Copy)]
pub struct Wei {
    pub limbs: [u64; 4],
}

impl Wei {
    /// The amount.
    pub open spec fn value(&self) -> int {
        self.limbs@[0] + limb_base() * (self.limbs@[1] + limb_base() * (self.limbs@[2]
            + limb_base() * self.limbs@[3]))
    }

    /// An amount that fits in 128 bits.
    ///
    /// Trusted: calls `U256::from::<u128>` and `U256::into_limbs`.
    #[verifier::external_body]
    pub(crate) fn from_u128(x: u128) -> (w: Wei)
        ensures
            w.value() == x,
    {
        Wei { limbs: alloy_primitives::U256::from(x).into_limbs() }
    }

    /// Whether this amount is at least `other`.
    ///
    /// Trusted: calls `U256`'s `>=`.
    #[verifier::external_body]
    pub(crate) fn is_at_least(&self, other: &Wei) -> (r: bool)
        ensures
            r == (self.value() >= other.value()),
    {
        alloy_primitives::U256::from_limbs(self.limbs) >= alloy_primitives::U256::from_limbs(
            other.limbs,
        )
    }
}

/// `(a + b) mod 2^256`.
///
/// Trusted: calls `U256::wrapping_add`, which wraps around at 2^256.
#[verifier::external_body]
pub(crate) fn wei_wrapping_add(a: &Wei, b: &Wei) -> (r: Wei)
    ensures
        r.value() == (a.value() + b.value()) % u256_bound(),
{
    Wei {
        limbs: alloy_primitives::U256::from_limbs(a.limbs).wrapping_add(
            alloy_primitives::U256::from_limbs(b.limbs),
        ).into_limbs(),
    }
}

/// `(a * b) mod 2^256`.
///
/// Trusted: calls `U256::wrapping_mul`, which wraps around at 2^256.
#[verifier::external_body]
pub(crate) fn wei_wrapping_mul(a: &Wei, b: &Wei) -> (r: Wei)
    ensures
        r.value() == (a.value() * b.value()) % u256_bound(),
{
    Wei {
        limbs: alloy_primitives::U256::from_limbs(a.limbs).wrapping_mul(
            alloy_primitives::U256::from_limbs(b.limbs),
        ).into_limbs(),
    }
}

/// The character of a decimal digit.
pub open spec fn digit_char(d: int) -> char {
    (d + 48) as char
}

/// The decimal text of a number, without leading zeros.
pub open spec fn decimal_text(n: nat) -> Seq<char>
    decreases n,
{
    if n < 10 {
        seq![digit_char(n as int)]
    } else {
        decimal_text(n / 10).push(digit_char((n % 10) as int))
    }
}

/// The decimal text of an amount.
///
/// Trusted: calls `U256`'s `Display`, which prints the number in base 10.
#[verifier::external_body]
pub(crate) fn wei_text(w: &Wei) -> (r: String)
    ensures
        r@ == decimal_text(w.value() as nat),
{
    alloy_primitives::U256::from_limbs(w.limbs).to_string()
}

/// The value of a hexadecimal digit.
pub open spec fn hex_value(c: char) -> Option<int> {
    let n = c as int;
    if 48 <= n <= 57 {
        Some(n - 48)
    } else if 97 <= n <= 102 {
        Some(n - 87)
    } else if 65 <= n <= 70 {
        Some(n - 55)
    } else {
        None
    }
}

/// `s` without a leading `0x` or `0X`.
pub open spec fn strip_hex_prefix(s: Seq<char>) -> Seq<char> {
    if s.len() >= 2 && s[0] == '0' && (s[1] == 'x' || s[1] == 'X') {
        s.subrange(2, s.len() as int)
    } else {
        s
    }
}

/// The bytes that hex text decodes to: an optional `0x` or `0X`, then an even
/// number of hex digits in either case.
pub open spec fn hex_decoded(s: Seq<char>) -> Option<Seq<u8>> {
    let t = strip_hex_prefix(s);
    if t.len() % 2 == 0 && forall|i: int| 0 <= i < t.len() ==> (#[trigger] hex_value(t[i])) is Some {
        Some(
            Seq::new(
                (t.len() / 2) as nat,
                |i: int| (16 * hex_value(t[2 * i])->Some_0 + hex_value(t[2 * i + 1])->Some_0) as u8,
            ),
        )
    } else {
        None
    }
}

/// The bytes of an address given as hex text: exactly twenty.
pub open spec fn address_parsed(s: Seq<char>) -> Option<Seq<u8>> {
    match hex_decoded(s) {
        Some(b) => if b.len() == 20 {
            Some(b)
        } else {
            None
        },
        None => None,
    }
}

/// Parse an address.
///
/// Trusted: calls `<Address as FromStr>::from_str`, which decodes with
/// `const_hex::decode_to_array`: the prefix `0x` or `0X` is optional, and the
/// rest must be forty hex digits.
#[verifier::external_body]
fn parse_address(s: &str) -> (r: Option<[u8; 20]>)
    ensures
        match r {
            Some(a) => address_parsed(s@) == Some(a@),
            None => address_parsed(s@).is_none(),
        },
{
    match s.parse::<alloy_primitives::Address>() {
        Ok(a) => Some(a.into_array()),
        Err(_) => None,
    }
}

/// Parse hex data.
///
/// Trusted: calls `<Bytes as FromStr>::from_str`, which is
/// `const_hex::decode`: the prefix `0x` or `0X` is optional, and the rest
/// must be an even number of hex digits.
#[verifier::external_body]
fn parse_hex_bytes(s: &str) -> (r: Option<Vec<u8>>)
    ensures
        match r {
            Some(b) => hex_decoded(s@) == Some(b@),
            None => hex_decoded(s@).is_none(),
        },
{
    match s.parse::<alloy_primitives::Bytes>() {
        Ok(b) => Some(b.to_vec()),
        Err(_) => None,
    }
}

/// A decimal digit character.
pub open spec fn is_decimal_digit(c: char) -> bool {
    48 <= c as int <= 57
}

/// The number that decimal digits spell, skipping underscores.
pub open spec fn decimal_value(s: Seq<char>) -> nat
    decreases s.len(),
{
    if s.len() == 0 {
        0
    } else if s.last() == '_' {
        decimal_value(s.drop_last())
    } else {
        (decimal_value(s.drop_last()) * 10 + (s.last() as int - 48)) as nat
    }
}

/// What `U256::from_str_radix(s, 10)` gives: digits and underscores only
/// (underscores are skipped, the empty text is zero), and a value below 2^256.
pub open spec fn u256_decimal_parsed(s: Seq<char>) -> Option<int> {
    if (forall|i: int| 0 <= i < s.len() ==> is_decimal_digit(#[trigger] s[i]) || s[i] == '_')
        && decimal_value(s) < u256_bound() {
        Some(decimal_value(s) as int)
    } else {
        None
    }
}

/// Parse a decimal amount.
///
/// Trusted: calls `U256::from_str_radix(s, 10)`; its source accepts the ASCII
/// digits and skips underscores, refuses every other character, and refuses
/// values of 2^256 and above.
#[verifier::external_body]
fn parse_wei_decimal(s: &str) -> (r: Option<Wei>)
    ensures
        match r {
            Some(w) => u256_decimal_parsed(s@) == Some(w.value()),
            None => u256_decimal_parsed(s@).is_none(),
        },
{
    match alloy_primitives::U256::from_str_radix(s, 10) {
        Ok(v) => Some(Wei { limbs: v.into_limbs() }),
        Err(_) => None,
    }
}

/// What `str::parse::<u64>` gives: an optional `+`, then at least one digit,
/// and a value that fits in 64 bits.
pub open spec fn u64_parsed(s: Seq<char>) -> Option<int> {
    let d = if s.len() > 0 && s[0] == '+' {
        s.subrange(1, s.len() as int)
    } else {
        s
    };
    if d.len() > 0 && (forall|i: int| 0 <= i < d.len() ==> is_decimal_digit(#[trigger] d[i]))
        && decimal_value(d) <= u64::MAX {
        Some(decimal_value(d) as int)
    } else {
        None
    }
}

/// Parse a gas limit.
///
/// Trusted: calls `<u64 as FromStr>::from_str`, documented to take an
/// optional `+` sign followed by only digits.
#[verifier::external_body]
fn parse_u64(s: &str) -> (r: Option<u64>)
    ensures
        match r {
            Some(n) => u64_parsed(s@) == Some(n as int),
            None => u64_parsed(s@).is_none(),
        },
{
    s.parse::<u64>().ok()
}

/// A populated transaction with typed fields.
#[derive(Debug)]
pub struct ParsedTransaction {
    pub to: [u8; 20],
    pub data: Vec<u8>,
    pub value: Wei,
    pub gas_limit: Option<u64>,
}

/// The view of a parsed transaction.
pub struct ParsedTransactionView {
    pub to: Seq<u8>,
    pub data: Seq<u8>,
    pub value: int,
    pub gas_limit: Option<int>,
}

impl ParsedTransaction {
    pub open spec fn view_parsed(&self) -> ParsedTransactionView {
        ParsedTransactionView {
            to: self.to@,
            data: self.data@,
            value: self.value.value(),
            gas_limit: match self.gas_limit {
                Some(g) => Some(g as int),
                None => None,
            },
        }
    }
}

/// What parsing a populated transaction gives: each field in turn, the first
/// that does not parse names the error.
pub open spec fn parsed_transaction(tx: PopulatedTransactionView) -> Result<
    ParsedTransactionView,
    Seq<char>,
> {
    match address_parsed(tx.to) {
        None => Err("parsing Railgun tx.to"@),
        Some(to) => match hex_decoded(tx.data) {
            None => Err("parsing Railgun tx.data"@),
            Some(data) => match u256_decimal_parsed(tx.value) {
                None => Err("parsing Railgun tx.value"@),
                Some(value) => match tx.gas_limit {
                    None => Ok(ParsedTransactionView { to, data, value, gas_limit: None }),
                    Some(g) => match u64_parsed(g) {
                        None => Err("parsing Railgun tx.gas_limit"@),
                        Some(n) => Ok(ParsedTransactionView { to, data, value, gas_limit: Some(n) }),
                    },
                },
            },
        },
    }
}

/// Parse the strings produced by the runtime's `populate_*` calls into typed
/// values.
pub fn parse_populated_transaction(tx: &PopulatedTransaction) -> (r: Result<
    ParsedTransaction,
    UndercoverError,
>)
    ensures
        match (r, parsed_transaction(tx@)) {
            (Ok(p), Ok(v)) => p.view_parsed() == v,
            (Err(e), Err(m)) => e.message_view() == m,
            _ => false,
        },
{
    let to = match parse_address(tx.to.as_str()) {
        Some(to) => to,
        None => {
            proof {
                reveal_strlit("parsing Railgun tx.to");
            }
            return Err(UndercoverError::Message(owned("parsing Railgun tx.to")));
        },
    };
    let data = match parse_hex_bytes(tx.data.as_str()) {
        Some(data) => data,
        None => {
            proof {
                reveal_strlit("parsing Railgun tx.data");
            }
            return Err(UndercoverError::Message(owned("parsing Railgun tx.data")));
        },
    };
    let value = match parse_wei_decimal(tx.value.as_str()) {
        Some(value) => value,
        None => {
            proof {
                reveal_strlit("parsing Railgun tx.value");
            }
            return Err(UndercoverError::Message(owned("parsing Railgun tx.value")));
        },
    };
    let gas_limit = match &tx.gas_limit {
        None => None,
        Some(g) => match parse_u64(g.as_str()) {
            Some(n) => Some(n),
            None => {
                proof {
                    reveal_strlit("parsing Railgun tx.gas_limit");
                }
                return Err(UndercoverError::Message(owned("parsing Railgun tx.gas_limit")));
            },
        },
    };
    Ok(ParsedTransaction { to, data, value, gas_limit })
}

/// The EIP-55 checksummed text of an address (`0x` and forty hex digits).
pub uninterp spec fn address_checksum_text(a: Seq<u8>) -> Seq<char>;

/// The text of an address, as `Address`'s `Display` prints it.
///
/// Trusted: calls `Address::from` on the bytes and `Display`, which prints
/// the EIP-55 checksum; the claim is only that the answer is a function of
/// the bytes.
#[verifier::external_body]
pub(crate) fn address_text(a: &[u8; 20]) -> (r: String)
    ensures
        r@ == address_checksum_text(a@),
{
    alloy_primitives::Address::from(*a).to_string()
}

/// The most a transaction can cost: its value plus gas limit times gas price,
/// with `U256` arithmetic, which wraps at 2^256.
pub open spec fn max_cost_value(value: int, gas_limit: int, gas_price: int) -> int {
    (value + (gas_limit * gas_price) % u256_bound()) % u256_bound()
}

/// The message of a refused broadcast.
pub open spec fn insufficient_funds_message(from: Seq<u8>, balance: int, max_cost: int) -> Seq<
    char,
> {
    "signer has insufficient Sepolia ETH: address "@ + address_checksum_text(from)
        + " balance "@ + decimal_text(balance as nat) + ", max transaction cost "@
        + decimal_text(max_cost as nat)
}

/// The most a transaction can cost.
pub fn max_transaction_cost(value: &Wei, gas_limit: u64, gas_price: u128) -> (r: Wei)
    ensures
        r.value() == max_cost_value(value.value(), gas_limit as int, gas_price as int),
{
    let gas = Wei::from_u128(gas_limit as u128);
    let price = Wei::from_u128(gas_price);
    let fee = wei_wrapping_mul(&gas, &price);
    wei_wrapping_add(value, &fee)
}

/// Check that the signer's balance covers the most the transaction can cost,
/// and give that cost.
pub fn check_affordable(
    from: &[u8; 20],
    value: &Wei,
    gas_limit: u64,
    gas_price: u128,
    balance: &Wei,
) -> (r: Result<Wei, UndercoverError>)
    ensures
        match r {
            Ok(cost) => {
                &&& cost.value() == max_cost_value(value.value(), gas_limit as int, gas_price as int)
                &&& balance.value() >= cost.value()
            },
            Err(e) => {
                let cost = max_cost_value(value.value(), gas_limit as int, gas_price as int);
                &&& balance.value() < cost
                &&& e.message_view() == insufficient_funds_message(from@, balance.value(), cost)
            },
        },
{
    let cost = max_transaction_cost(value, gas_limit, gas_price);
    if balance.is_at_least(&cost) {
        return Ok(cost);
    }
    proof {
        reveal_strlit("signer has insufficient Sepolia ETH: address ");
        reveal_strlit(" balance ");
        reveal_strlit(", max transaction cost ");
    }
    let mut m = owned("signer has insufficient Sepolia ETH: address ");
    let a = address_text(from);
    m.append(a.as_str());
    m.append(" balance ");
    let b = wei_text(balance);
    m.append(b.as_str());
    m.append(", max transaction cost ");
    let c = wei_text(&cost);
    m.append(c.as_str());
    Err(UndercoverError::Message(m))
}

/// A broadcast goes ahead only when the balance covers value plus gas limit
/// times gas price, whenever that sum stays below 2^256.
pub proof fn law_affordable_covers_cost(value: int, gas_limit: int, gas_price: int, balance: int)
    requires
        0 <= value < u256_bound(),
        0 <= gas_limit <= u64::MAX,
        0 <= gas_price <= u128::MAX,
        value + gas_limit * gas_price < u256_bound(),
        balance >= max_cost_value(value, gas_limit, gas_price),
    ensures
        balance >= value + gas_limit * gas_price,
{
    let b = u256_bound();
    assert(0 <= gas_limit * gas_price) by (nonlinear_arith)
        requires
            0 <= gas_limit,
            0 <= gas_price,
    ;
    assert(gas_limit * gas_price < b);
    assert((gas_limit * gas_price) % b == gas_limit * gas_price) by (nonlinear_arith)
        requires
            0 <= gas_limit * gas_price < b,
    ;
    assert((value + gas_limit * gas_price) % b == value + gas_limit * gas_price) by (nonlinear_arith)
        requires
            0 <= value + gas_limit * gas_price < b,
    ;
}

/// When value plus gas limit times gas price stays below 2^256, the most a
/// transaction can cost is exactly that sum, so any balance of at least that
/// sum is enough.
pub proof fn law_max_cost_is_exact(value: int, gas_limit: int, gas_price: int, balance: int)
    requires
        0 <= value,
        0 <= gas_limit,
        0 <= gas_price,
        value + gas_limit * gas_price < u256_bound(),
    ensures
        max_cost_value(value, gas_limit, gas_price) == value + gas_limit * gas_price,
        balance >= value + gas_limit * gas_price ==> balance >= max_cost_value(
            value,
            gas_limit,
            gas_price,
        ),
{
    let b = u256_bound();
    assert(0 <= gas_limit * gas_price) by (nonlinear_arith)
        requires
            0 <= gas_limit,
            0 <= gas_price,
    ;
    assert((gas_limit * gas_price) % b == gas_limit * gas_price) by (nonlinear_arith)
        requires
            0 <= gas_limit * gas_price < b,
    ;
    assert((value + gas_limit * gas_price) % b == value + gas_limit * gas_price) by (nonlinear_arith)
        requires
            0 <= value + gas_limit * gas_price < b,
    ;
}

} // verus!
