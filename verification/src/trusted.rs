//! The calls into std and outside crates that the library makes, each with the
//! contract that the verified code relies on.
use vstd::prelude::*;
use vstd::utf8::*;

verus! {

/// `String::from_utf8`, with its result as an `Option`. std documents that it
/// fails exactly when the bytes are not valid UTF-8 and that on success the
/// string holds the characters that the bytes encode; vstd's `valid_utf8` and
/// `decode_utf8` state those two notions.
#[verifier::external_body]
pub(crate) fn string_from_utf8(bytes: Vec<u8>) -> (r: Option<String>)
    ensures
        r is Some <==> valid_utf8(bytes@),
        r matches Some(s) ==> s@ == decode_utf8(bytes@),
{
    String::from_utf8(bytes).ok()
}

/// The first second that chrono can hold as a UTC date: the start of
/// January 1 of the year -262143, in seconds from the UNIX epoch.
pub const MIN_UTC_TIMESTAMP: i64 = -8334601228800;

/// The last second that chrono can hold as a UTC date: 23:59:59 on
/// December 31 of the year 262142, in seconds from the UNIX epoch.
pub const MAX_UTC_TIMESTAMP: i64 = 8210266876799;

/// Whether a count of seconds from the UNIX epoch falls within the dates
/// that chrono can hold.
pub open spec fn utc_timestamp_in_range(secs: i64) -> bool {
    MIN_UTC_TIMESTAMP <= secs <= MAX_UTC_TIMESTAMP
}

/// Whether `chrono::DateTime::<Utc>::from_timestamp(secs, 0)` gives a date.
/// chrono splits `secs` into days and seconds of the day, and answers `None`
/// exactly when the day falls outside the years from -262143 to 262142
/// (`NaiveDate::MIN` to `NaiveDate::MAX`); the seconds of the day, with no
/// sub-second part, are always a valid time.
#[verifier::external_body]
pub(crate) fn utc_timestamp_is_valid(secs: i64) -> (ok: bool)
    ensures
        ok == utc_timestamp_in_range(secs),
{
    chrono::DateTime::<chrono::Utc>::from_timestamp(secs, 0).is_some()
}

/// What `alloy_sol_types::SolValue::abi_encode` gives for a list of strings:
/// the Solidity ABI encoding of a `string[]` holding them. It depends on the
/// strings alone; its bytes are alloy's and are named here, not stated.
pub uninterp spec fn sol_abi_encoded_string_array(ids: Seq<Seq<char>>) -> Seq<u8>;

/// `SolValue::abi_encode` on a `Vec<String>`.
#[verifier::external_body]
pub(crate) fn abi_encode_string_array(ids: &Vec<String>) -> (r: Vec<u8>)
    ensures
        r@ == sol_abi_encoded_string_array(ids.deep_view()),
{
    alloy_sol_types::SolValue::abi_encode(ids)
}

/// What `Pubkey::try_find_program_address` gives for seeds and a program id,
/// all as bytes: the derived address and its bump seed, or `None` where the
/// seeds are invalid or no bump seed gives an address off the curve. It
/// depends on its arguments alone; the derivation (hashing and the curve
/// check) is solana's and is named here, not stated.
pub uninterp spec fn program_address(seeds: Seq<Seq<u8>>, program_id: Seq<u8>) -> Option<
    (Seq<u8>, u8),
>;

/// `solana_program::pubkey::Pubkey::try_find_program_address`, with the
/// program id and the address as their 32 bytes.
#[verifier::external_body]
pub(crate) fn find_program_address(seeds: &[&[u8]], program_id: &[u8; 32]) -> (r: Option<
    ([u8; 32], u8),
>)
    ensures
        r is Some <==> program_address(seeds@.map_values(|s: &[u8]| s@), program_id@) is Some,
        r matches Some((a, b)) ==> program_address(
            seeds@.map_values(|s: &[u8]| s@),
            program_id@,
        ) == Some((a@, b)),
{
    let program = solana_program::pubkey::Pubkey::new_from_array(*program_id);
    match solana_program::pubkey::Pubkey::try_find_program_address(seeds, &program) {
        Some((address, bump)) => Some((address.to_bytes(), bump)),
        None => None,
    }
}

} // verus!
