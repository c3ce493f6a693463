use vstd::prelude::*;
use vstd::bytes::{spec_u64_to_le_bytes, u64_to_le_bytes};

use crate::account_key::AccountKey;
use crate::option::OptionData;

verus! {

/// The ASCII bytes of `option_context`, the salt that opens every series'
/// address derivation.
pub open spec fn series_seed_prefix() -> Seq<u8> {
    seq![111u8, 112, 116, 105, 111, 110, 95, 99, 111, 110, 116, 101, 120, 116]
}

/// The two's-complement bits of a signed timestamp.
pub open spec fn i64_bits(x: i64) -> u64 {
    if x >= 0 {
        x as u64
    } else {
        (x + 0x1_0000_0000_0000_0000int) as u64
    }
}

/// The seeds from which a series' address is derived: the salt, both asset
/// addresses, the strike price and expiration in little-endian bytes, and
/// one byte for the option type.
pub open spec fn series_seeds_of(
    collateral_mint: Seq<u8>,
    consideration_mint: Seq<u8>,
    strike_price: u64,
    expiration: i64,
    is_put: bool,
) -> Seq<Seq<u8>> {
    seq![
        series_seed_prefix(),
        collateral_mint,
        consideration_mint,
        spec_u64_to_le_bytes(strike_price),
        spec_u64_to_le_bytes(i64_bits(expiration)),
        seq![if is_put { 1u8 } else { 0u8 }],
    ]
}

/// The bytes of each seed.
pub open spec fn seed_bytes(seeds: Seq<Vec<u8>>) -> Seq<Seq<u8>> {
    seeds.map_values(|v: Vec<u8>| v@)
}

fn timestamp_bits(x: i64) -> (r: u64)
    ensures
        r == i64_bits(x),
{
    if x >= 0 {
        x as u64
    } else {
        let m: u64 = (-(x + 1)) as u64;
        u64::MAX - m
    }
}

/// The seeds that locate the series with these parameters; two series with
/// the same parameters have the same seeds, and so the same address.
pub fn series_seeds(
    collateral_mint: &AccountKey,
    consideration_mint: &AccountKey,
    strike_price: u64,
    expiration: i64,
    is_put: bool,
) -> (r: Vec<Vec<u8>>)
    ensures
        seed_bytes(r@) == series_seeds_of(
            collateral_mint@,
            consideration_mint@,
            strike_price,
            expiration,
            is_put,
        ),
{
    let prefix: Vec<u8> = vec![111u8, 112, 116, 105, 111, 110, 95, 99, 111, 110, 116, 101, 120, 116];
    let put_byte: u8 = if is_put {
        1
    } else {
        0
    };
    let r = vec![
        prefix,
        collateral_mint.to_vec(),
        consideration_mint.to_vec(),
        u64_to_le_bytes(strike_price),
        u64_to_le_bytes(timestamp_bits(expiration)),
        vec![put_byte],
    ];
    assert(r@[0]@ =~= series_seed_prefix());
    assert(r@[5]@ =~= seq![put_byte]);
    assert(seed_bytes(r@) =~= series_seeds_of(
        collateral_mint@,
        consideration_mint@,
        strike_price,
        expiration,
        is_put,
    ));
    r
}

/// The seeds with which the series record signs for its vaults and token
/// types: the seeds of its address followed by its bump byte.
pub fn get_option_context_signer_seeds(option_context: &OptionData) -> (r: Vec<Vec<u8>>)
    ensures
        seed_bytes(r@) == series_seeds_of(
            option_context.collateral_mint@,
            option_context.consideration_mint@,
            option_context.strike_price,
            option_context.expiration,
            option_context.is_put,
        ).push(seq![option_context.bump]),
{
    let mut r = series_seeds(
        &option_context.collateral_mint,
        &option_context.consideration_mint,
        option_context.strike_price,
        option_context.expiration,
        option_context.is_put,
    );
    let ghost before = r@;
    assert(before.len() == seed_bytes(before).len());
    let bump_seed = vec![option_context.bump];
    assert(bump_seed@ =~= seq![option_context.bump]);
    r.push(bump_seed);
    assert(seed_bytes(r@) =~= seed_bytes(before).push(seq![option_context.bump]));
    r
}

} // verus!
