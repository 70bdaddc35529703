//! The computing around the rows of the database: the content hash of a
//! cache entry, the version test on reading one, and the build a stored
//! row stands for. The host runs the queries.

use vstd::prelude::*;
use vstd::string::StringSliceAdditionalSpecFns;
use sha2::Digest;
use crate::parts::chassis::ChassisSpec;
use crate::parts::shaft::ShaftSpec;
use crate::parts::trait_screw::TraitScrewSpec;
use crate::parts::weapon_wheel::WeaponWheelSpec;
use crate::parts::Build;
use crate::stats::base::BaseStats;

verus! {

/// The SHA-256 digest of a byte string.
pub uninterp spec fn sha256(data: Seq<u8>) -> Seq<u8>;

/// Calls `sha2::Sha256::digest`. The contract only names the result: it is
/// the SHA-256 digest of `data`. Nothing here says what that digest is.
#[verifier::external_body]
fn sha256_digest(data: &[u8]) -> (r: Vec<u8>)
    ensures
        r@ == sha256(data@),
{
    sha2::Sha256::digest(data).to_vec()
}

/// The lowercase hexadecimal digit for `n` in `0..16`.
pub open spec fn hex_digit(n: int) -> char
    recommends
        0 <= n < 16,
{
    if n < 10 {
        ('0' as int + n) as char
    } else {
        ('a' as int + n - 10) as char
    }
}

/// The lowercase hexadecimal text of a byte string: two digits for each
/// byte, the high half first.
pub open spec fn hex_string(data: Seq<u8>) -> Seq<char>
    decreases data.len(),
{
    if data.len() == 0 {
        Seq::empty()
    } else {
        hex_string(data.drop_last()).push(hex_digit(data.last() as int / 16)).push(
            hex_digit(data.last() as int % 16),
        )
    }
}

/// Calls `hex::encode`. The contract says what its documentation does:
/// every byte becomes two lowercase hexadecimal digits.
#[verifier::external_body]
fn hex_encode(data: &[u8]) -> (r: String)
    ensures
        r@ == hex_string(data@),
{
    hex::encode(data)
}

/// The text a digest is stored as: its bytes in lowercase hexadecimal.
pub fn digest_text(digest: &[u8]) -> (r: String)
    ensures
        r@ == hex_string(digest@),
{
    hex_encode(digest)
}

/// The content hash stored beside a cache entry: the SHA-256 digest of
/// the entry's JSON text, in lowercase hexadecimal.
pub fn effective_cache_hash(stats_json: &str) -> (r: String)
    ensures
        r@ == hex_string(sha256(stats_json.spec_bytes())),
{
    let digest = sha256_digest(stats_json.as_bytes());
    digest_text(digest.as_slice())
}

/// Whether a cache entry stored under `stored_version` may be used with
/// balance version `balance_version`: the stored number, cut to 32 bits,
/// is the balance version.
pub open spec fn spec_cache_version_matches(stored_version: i64, balance_version: u32) -> bool {
    (stored_version as int) % 0x1_0000_0000 == balance_version as int
}

/// Tests a stored cache version: see [`spec_cache_version_matches`].
#[verifier::when_used_as_spec(spec_cache_version_matches)]
pub fn cache_version_matches(stored_version: i64, balance_version: u32) -> (r: bool)
    ensures
        r == spec_cache_version_matches(stored_version, balance_version),
{
    let m: i64 = stored_version % 0x1_0000_0000;
    let low: i64 = if m < 0 {
        m + 0x1_0000_0000
    } else {
        m
    };
    low == balance_version as i64
}

/// The build a stored row stands for. Only the identities are stored:
/// the build is the stock build under the row's identity, with the row's
/// top identity, and with the row's note unless it is empty.
pub fn build_from_row(id: String, top_id: String, note: String) -> (r: Build)
    ensures
        r.id == id,
        r.top.id == top_id,
        r.note == if note@.len() == 0 {
            None
        } else {
            Some(note)
        },
        r.name@ == "Default Build"@,
        r.top.name@ == "Standard Top"@,
        r.top.has_stock_numbers(),
        r.weapon.is_stock(),
        r.shaft.is_stock(),
        r.chassis.is_stock(),
        r.screw.is_stock(),
{
    let mut top = BaseStats::default();
    top.id = top_id;
    let empty = note.as_str().is_empty();
    Build {
        id,
        name: "Default Build".to_owned(),
        top,
        weapon: WeaponWheelSpec::default(),
        shaft: ShaftSpec::default(),
        chassis: ChassisSpec::default(),
        screw: TraitScrewSpec::default(),
        note: if empty {
            None
        } else {
            Some(note)
        },
    }
}

} // verus!
