//! Raw storage keys of the queried contracts, the oracle price check, and the
//! message and response types exchanged with Anchor and the oracle.
use vstd::prelude::*;

use crate::bignum::{Decimal256, Uint256};
use crate::error::ContractError;

verus! {

/// The two big-endian bytes of a namespace length, followed by the namespace.
pub open spec fn length_prefixed(namespace: Seq<u8>) -> Seq<u8> {
    seq![(namespace.len() / 256) as u8, (namespace.len() % 256) as u8] + namespace
}

/// `cosmwasm_storage::to_length_prefixed`: panics for a namespace longer than
/// 0xFFFF bytes, else returns the namespace's length as two big-endian bytes
/// followed by the namespace itself.
#[verifier::external_body]
fn ext_to_length_prefixed(namespace: &[u8]) -> (r: Vec<u8>)
    requires
        namespace@.len() <= 0xFFFF,
    ensures
        r@ == length_prefixed(namespace@),
{
    cosmwasm_storage::to_length_prefixed(namespace)
}

/// The bytes of `namespace` followed by the bytes of `key`.
pub fn concat(namespace: &[u8], key: &[u8]) -> (r: Vec<u8>)
    ensures
        r@ == namespace@ + key@,
{
    let mut k = vstd::slice::slice_to_vec(namespace);
    let ghost start = k@;
    let mut i: usize = 0;
    while i < key.len()
        invariant
            start == namespace@,
            i <= key@.len(),
            k@ == namespace@ + key@.subrange(0, i as int),
        decreases key@.len() - i,
    {
        k.push(key[i]);
        i = i + 1;
        assert(k@ =~= namespace@ + key@.subrange(0, i as int));
    }
    assert(key@.subrange(0, key@.len() as int) =~= key@);
    k
}

/// The namespace under which a cw20 token keeps its balances.
pub open spec fn balance_namespace() -> Seq<u8> {
    seq![98u8, 97, 108, 97, 110, 99, 101]
}

/// The namespace under which an Anchor custody contract keeps its borrowers.
pub open spec fn borrower_namespace() -> Seq<u8> {
    seq![98u8, 111, 114, 114, 111, 119, 101, 114]
}

/// The key under which a cw20 token keeps its token info.
pub open spec fn token_info_namespace() -> Seq<u8> {
    seq![116u8, 111, 107, 101, 110, 95, 105, 110, 102, 111]
}

/// The raw key of an account's balance in a cw20 token contract.
pub fn token_balance_key(canonical_account: &[u8]) -> (r: Vec<u8>)
    ensures
        r@ == length_prefixed(balance_namespace()) + canonical_account@,
{
    let namespace: [u8; 7] = [98, 97, 108, 97, 110, 99, 101];
    assert(namespace@ =~= balance_namespace());
    let prefix = ext_to_length_prefixed(namespace.as_slice());
    concat(prefix.as_slice(), canonical_account)
}

/// The raw key of a borrower's record in an Anchor custody contract.
pub fn borrower_key(canonical_account: &[u8]) -> (r: Vec<u8>)
    ensures
        r@ == length_prefixed(borrower_namespace()) + canonical_account@,
{
    let namespace: [u8; 8] = [98, 111, 114, 114, 111, 119, 101, 114];
    assert(namespace@ =~= borrower_namespace());
    let prefix = ext_to_length_prefixed(namespace.as_slice());
    concat(prefix.as_slice(), canonical_account)
}

/// The raw key of a cw20 token's token info.
pub fn token_info_key() -> (r: Vec<u8>)
    ensures
        r@ == length_prefixed(token_info_namespace()),
{
    let namespace: [u8; 10] = [116, 111, 107, 101, 110, 95, 105, 110, 102, 111];
    assert(namespace@ =~= token_info_namespace());
    ext_to_length_prefixed(namespace.as_slice())
}

/// The balance that a raw balance query reports: the stored amount, or zero
/// where the query failed (an account that never held the token).
pub fn query_token_balance(reply: Option<u128>) -> (r: u128)
    ensures
        r == match reply {
            Some(amount) => amount,
            None => 0,
        },
{
    match reply {
        Some(amount) => amount,
        None => 0,
    }
}

/// A borrower's record in an Anchor custody contract.
#[derive(Clone, Debug, PartialEq, Eq)]
pub struct BorrowerResponse {
    pub borrower: String,
    pub balance: Uint256,
    pub spendable: Uint256,
}

/// An oracle price and the times (in milliseconds) its two assets were last
/// updated.
#[derive(Clone, Copy, Debug, PartialEq, Eq, Structural)]
pub struct PriceResponse {
    pub rate: Decimal256,
    pub last_updated_base: u64,
    pub last_updated_quote: u64,
}

/// The queries an Anchor oracle answers.
#[derive(Clone, Debug, PartialEq, Eq)]
pub enum OracleQueryMsg {
    Config {},
    Feeder { asset: String },
    Price { base: String, quote: String },
    Prices { start_after: Option<String>, limit: Option<u32> },
}

/// A point in time, in nanoseconds since the UNIX epoch.
#[derive(Clone, Copy, Debug, PartialEq, Eq, Structural)]
pub struct Timestamp {
    pub nanos: u64,
}

impl Timestamp {
    /// The time in nanoseconds.
    pub fn nanos(&self) -> (r: u64)
        ensures
            r == self.nanos,
    {
        self.nanos
    }
}

/// How old an oracle price may be: updates older than
/// `valid_timeframe_millis` before `block_time` are refused.
#[derive(Clone, Copy, Debug, PartialEq, Eq, Structural)]
pub struct TimeConstraints {
    pub block_time: Timestamp,
    pub valid_timeframe_millis: u64,
}

/// The earliest update time (in milliseconds) that the constraints accept.
pub open spec fn valid_update_time(tc: TimeConstraints) -> int {
    tc.block_time.nanos / 1_000_000 - tc.valid_timeframe_millis
}

/// Whether the constraints can be evaluated: the time frame does not reach
/// back before the epoch.
pub open spec fn time_constraints_valid(time_contraints: Option<TimeConstraints>) -> bool {
    match time_contraints {
        Some(tc) => tc.valid_timeframe_millis <= tc.block_time.nanos / 1_000_000,
        None => true,
    }
}

/// Whether both of the price's assets were updated within the allowed frame.
pub open spec fn price_is_fresh(price: PriceResponse, time_contraints: Option<TimeConstraints>) -> bool {
    match time_contraints {
        Some(tc) => price.last_updated_base >= valid_update_time(tc) && price.last_updated_quote
            >= valid_update_time(tc),
        None => true,
    }
}

/// Accepts an oracle price that is fresh enough for the given constraints
/// (any price where there are none) and refuses a stale one.
pub fn query_price(oracle_price: PriceResponse, time_contraints: Option<TimeConstraints>) -> (r:
    Result<PriceResponse, ContractError>)
    requires
        time_constraints_valid(time_contraints),
    ensures
        price_is_fresh(oracle_price, time_contraints) ==> r == Ok::<PriceResponse, ContractError>(
            oracle_price,
        ),
        !price_is_fresh(oracle_price, time_contraints) ==> r == Err::<PriceResponse, ContractError>(
            ContractError::PriceTooOld,
        ),
{
    if let Some(time_contraints) = time_contraints {
        let valid_update_time = (time_contraints.block_time.nanos() / 1_000_000)
            - time_contraints.valid_timeframe_millis;
        if oracle_price.last_updated_base < valid_update_time || oracle_price.last_updated_quote
            < valid_update_time {
            return Err(ContractError::PriceTooOld);
        }
    }
    Ok(oracle_price)
}

/// Keys under different namespaces never collide: a token balance key is
/// never a custody borrower key, and neither is the token info key.
pub proof fn lemma_namespaced_keys_differ(a: Seq<u8>, b: Seq<u8>)
    ensures
        length_prefixed(balance_namespace()) + a != length_prefixed(borrower_namespace()) + b,
        length_prefixed(balance_namespace()) + a != length_prefixed(token_info_namespace()),
        length_prefixed(borrower_namespace()) + a != length_prefixed(token_info_namespace()),
{
    let ka = length_prefixed(balance_namespace()) + a;
    let kb = length_prefixed(borrower_namespace()) + b;
    let ki = length_prefixed(token_info_namespace());
    let kc = length_prefixed(borrower_namespace()) + a;
    assert(ka[1] == 7u8);
    assert(kb[1] == 8u8);
    assert(ki[1] == 10u8);
    assert(kc[1] == 8u8);
}

/// Within one namespace, different accounts get different keys.
pub proof fn lemma_namespaced_key_injective(namespace: Seq<u8>, a: Seq<u8>, b: Seq<u8>)
    requires
        length_prefixed(namespace) + a == length_prefixed(namespace) + b,
    ensures
        a == b,
{
    let p = length_prefixed(namespace);
    assert((p + a).subrange(p.len() as int, (p + a).len() as int) =~= a);
    assert((p + b).subrange(p.len() as int, (p + b).len() as int) =~= b);
}

/// Allowing older updates never refuses a price that a stricter time frame
/// accepts; a price without constraints is always accepted.
pub proof fn lemma_wider_time_frame_accepts_more(
    price: PriceResponse,
    block_time: Timestamp,
    narrow_millis: u64,
    wide_millis: u64,
)
    requires
        narrow_millis <= wide_millis,
        wide_millis <= block_time.nanos / 1_000_000,
        price_is_fresh(
            price,
            Some(TimeConstraints { block_time, valid_timeframe_millis: narrow_millis }),
        ),
    ensures
        price_is_fresh(price, Some(TimeConstraints { block_time, valid_timeframe_millis: wide_millis })),
        price_is_fresh(price, None),
{
}

/// The messages that the vault sends to an Anchor money market.
#[derive(Clone, Debug, PartialEq, Eq)]
pub enum AnchorMarketMsg {
    ClaimRewards { to: Option<String> },
    DepositStable {},
}

} // verus!
