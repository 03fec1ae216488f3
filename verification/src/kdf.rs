//! The calls into the `argon2` crate: running the key-derivation function
//! over a password and a fresh random salt, and checking a password against
//! a previously produced encoded hash.
//!
//! Each wrapper builds the Argon2 instance the resolved configuration
//! describes and makes one hashing or verification call. What the calls
//! return is pinned down by two named results: `phc_parses`, whether a
//! string is a well-formed PHC-format encoded hash, and `verify_outcome`,
//! the boolean a verification of given password, encoded hash and pepper
//! comes to. A hash is salted with fresh randomness, so two calls on one
//! input may differ; the contracts state only what holds of every outcome.

use argon2::Algorithm;
use argon2::Argon2;
use argon2::Params;
use argon2::Version;
use argon2::password_hash::PasswordHash;
use argon2::password_hash::PasswordHasher;
use argon2::password_hash::PasswordVerifier;
use argon2::password_hash::SaltString;
use argon2::password_hash::rand_core::OsRng;
use vstd::prelude::*;
use vstd::utf8::encode_utf8;

use crate::config::AlgorithmVariant;
use crate::config::VersionTag;
use crate::config::cost_params_valid;
use crate::config::pepper_fits;

verus! {

/// Whether `argon2::password_hash::PasswordHash::new` accepts a string as a
/// well-formed PHC-format encoded hash. A deterministic function of the
/// string alone.
pub uninterp spec fn phc_parses(encoded: Seq<char>) -> bool;

/// The boolean that `argon2`'s `verify_password` comes to for a password, a
/// well-formed encoded hash and a pepper: whether the digest recomputed
/// under the hash's own algorithm, version, cost parameters and salt, with
/// the pepper as secret, matches the hash's digest. The hash string carries
/// everything else the computation reads, so this is a deterministic
/// function of the three values alone; an empty pepper is the unkeyed
/// construction.
pub uninterp spec fn verify_outcome(
    password: Seq<char>,
    encoded: Seq<char>,
    pepper: Seq<char>,
) -> bool;

/// The tag an encoded hash of each variant opens with.
pub open spec fn algorithm_tag(alg: AlgorithmVariant) -> Seq<char> {
    match alg {
        AlgorithmVariant::Argon2i => "$argon2i$"@,
        AlgorithmVariant::Argon2d => "$argon2d$"@,
        AlgorithmVariant::Argon2id => "$argon2id$"@,
    }
}

/// Whether the derivation step itself can succeed: the digest length must
/// fit the encoded form's output bounds of 10 to 64 bytes — narrower than
/// the cost-parameter domain, which admits up to 2^32 - 1 — and the password
/// at most 2^32 - 1 bytes. Outside these bounds the derivation fails and the
/// lenient entry point degrades to its empty-string sentinel.
pub open spec fn derivation_supported(password: Seq<char>, output_len: nat) -> bool {
    &&& 10 <= output_len <= 64
    &&& encode_utf8(password).len() <= 0xFFFFFFFF
}

/// What every successful derivation returns: a non-empty encoded hash that
/// opens with the variant's tag, parses back, and verifies against the
/// password and pepper it was produced from.
pub open spec fn hash_output_good(
    s: Seq<char>,
    password: Seq<char>,
    alg: AlgorithmVariant,
    pepper: Seq<char>,
) -> bool {
    &&& s.len() > 0
    &&& algorithm_tag(alg).is_prefix_of(s)
    &&& phc_parses(s)
    &&& verify_outcome(password, s, pepper)
}

/// Relies on `Argon2::new` and `PasswordHasher::hash_password` of the
/// `argon2` crate: hashes the password under the unkeyed construction with a
/// fresh 16-byte random salt. With cost values in the legal domain the call
/// succeeds exactly when the output length lies within the encoded form's
/// 10-to-64-byte bounds and the password fits 2^32 - 1 bytes; the encoded
/// result then carries the very algorithm, version, cost parameters and salt
/// the digest was computed under, so verifying it against the same password
/// and no secret succeeds.
#[verifier::external_body]
fn kdf_hash_unkeyed(
    password: &str,
    alg: AlgorithmVariant,
    ver: VersionTag,
    memory_cost: u32,
    iteration_cost: u32,
    parallelism: u32,
    output_len: usize,
) -> (r: Option<String>)
    requires
        cost_params_valid(memory_cost, iteration_cost, parallelism, output_len as nat),
    ensures
        r is Some <==> derivation_supported(password@, output_len as nat),
        r matches Some(s) ==> hash_output_good(s@, password@, alg, Seq::<char>::empty()),
{
    let algorithm = match alg { AlgorithmVariant::Argon2i => Algorithm::Argon2i, AlgorithmVariant::Argon2d => Algorithm::Argon2d, AlgorithmVariant::Argon2id => Algorithm::Argon2id };
    let version = match ver { VersionTag::V0x10 => Version::V0x10, VersionTag::V0x13 => Version::V0x13 };
    let params = match Params::new(memory_cost, iteration_cost, parallelism, Some(output_len)) { Ok(p) => p, Err(_) => return None };
    let argon = Argon2::new(algorithm, version, params);
    let salt = SaltString::generate(&mut OsRng);
    match argon.hash_password(password.as_bytes(), &salt) { Ok(h) => Some(h.to_string()), Err(_) => None }
}

/// Relies on `Argon2::new_with_secret` and `PasswordHasher::hash_password`
/// of the `argon2` crate: as `kdf_hash_unkeyed`, but under the keyed
/// construction with the pepper's bytes as the secret.
#[verifier::external_body]
fn kdf_hash_keyed(
    password: &str,
    pepper: &str,
    alg: AlgorithmVariant,
    ver: VersionTag,
    memory_cost: u32,
    iteration_cost: u32,
    parallelism: u32,
    output_len: usize,
) -> (r: Option<String>)
    requires
        cost_params_valid(memory_cost, iteration_cost, parallelism, output_len as nat),
        pepper_fits(pepper@),
    ensures
        r is Some <==> derivation_supported(password@, output_len as nat),
        r matches Some(s) ==> hash_output_good(s@, password@, alg, pepper@),
{
    let algorithm = match alg { AlgorithmVariant::Argon2i => Algorithm::Argon2i, AlgorithmVariant::Argon2d => Algorithm::Argon2d, AlgorithmVariant::Argon2id => Algorithm::Argon2id };
    let version = match ver { VersionTag::V0x10 => Version::V0x10, VersionTag::V0x13 => Version::V0x13 };
    let params = match Params::new(memory_cost, iteration_cost, parallelism, Some(output_len)) { Ok(p) => p, Err(_) => return None };
    let argon = match Argon2::new_with_secret(pepper.as_bytes(), algorithm, version, params) { Ok(a) => a, Err(_) => return None };
    let salt = SaltString::generate(&mut OsRng);
    match argon.hash_password(password.as_bytes(), &salt) { Ok(h) => Some(h.to_string()), Err(_) => None }
}

/// Relies on `PasswordHash::new` and `PasswordVerifier::verify_password` of
/// the `argon2` crate: parses the encoded hash and checks the password
/// against it under the unkeyed construction, comparing digests in constant
/// time. `None` exactly when the string is no well-formed PHC-format hash;
/// otherwise the verification outcome. The instance's own algorithm,
/// version and cost values do not enter the outcome — the verification
/// recomputes under what the encoded hash itself carries, with only the
/// secret taken from the instance.
#[verifier::external_body]
fn kdf_verify_unkeyed(
    password: &str,
    encoded: &str,
    alg: AlgorithmVariant,
    ver: VersionTag,
    memory_cost: u32,
    iteration_cost: u32,
    parallelism: u32,
    output_len: usize,
) -> (r: Option<bool>)
    requires
        cost_params_valid(memory_cost, iteration_cost, parallelism, output_len as nat),
    ensures
        r is Some <==> phc_parses(encoded@),
        r matches Some(b) ==> b == verify_outcome(password@, encoded@, Seq::<char>::empty()),
{
    let algorithm = match alg { AlgorithmVariant::Argon2i => Algorithm::Argon2i, AlgorithmVariant::Argon2d => Algorithm::Argon2d, AlgorithmVariant::Argon2id => Algorithm::Argon2id };
    let version = match ver { VersionTag::V0x10 => Version::V0x10, VersionTag::V0x13 => Version::V0x13 };
    let params = match Params::new(memory_cost, iteration_cost, parallelism, Some(output_len)) { Ok(p) => p, Err(_) => return None };
    let argon = Argon2::new(algorithm, version, params);
    let parsed = match PasswordHash::new(encoded) { Ok(h) => h, Err(_) => return None };
    Some(argon.verify_password(password.as_bytes(), &parsed).is_ok())
}

/// Relies on `PasswordHash::new` and `PasswordVerifier::verify_password` of
/// the `argon2` crate: as `kdf_verify_unkeyed`, but under the keyed
/// construction with the pepper's bytes as the secret.
#[verifier::external_body]
fn kdf_verify_keyed(
    password: &str,
    encoded: &str,
    pepper: &str,
    alg: AlgorithmVariant,
    ver: VersionTag,
    memory_cost: u32,
    iteration_cost: u32,
    parallelism: u32,
    output_len: usize,
) -> (r: Option<bool>)
    requires
        cost_params_valid(memory_cost, iteration_cost, parallelism, output_len as nat),
        pepper_fits(pepper@),
    ensures
        r is Some <==> phc_parses(encoded@),
        r matches Some(b) ==> b == verify_outcome(password@, encoded@, pepper@),
{
    let algorithm = match alg { AlgorithmVariant::Argon2i => Algorithm::Argon2i, AlgorithmVariant::Argon2d => Algorithm::Argon2d, AlgorithmVariant::Argon2id => Algorithm::Argon2id };
    let version = match ver { VersionTag::V0x10 => Version::V0x10, VersionTag::V0x13 => Version::V0x13 };
    let params = match Params::new(memory_cost, iteration_cost, parallelism, Some(output_len)) { Ok(p) => p, Err(_) => return None };
    let argon = match Argon2::new_with_secret(pepper.as_bytes(), algorithm, version, params) { Ok(a) => a, Err(_) => return None };
    let parsed = match PasswordHash::new(encoded) { Ok(h) => h, Err(_) => return None };
    Some(argon.verify_password(password.as_bytes(), &parsed).is_ok())
}

/// Hashes the password under the resolved values, taking the keyed or the
/// unkeyed construction by whether the pepper is empty. `None` exactly when
/// the derivation step fails.
pub fn run_hash(
    password: &str,
    pepper: &str,
    alg: AlgorithmVariant,
    ver: VersionTag,
    memory_cost: u32,
    iteration_cost: u32,
    parallelism: u32,
    output_len: usize,
) -> (r: Option<String>)
    requires
        cost_params_valid(memory_cost, iteration_cost, parallelism, output_len as nat),
        pepper_fits(pepper@),
    ensures
        r is Some <==> derivation_supported(password@, output_len as nat),
        r matches Some(s) ==> hash_output_good(s@, password@, alg, pepper@),
{
    if pepper.is_empty() {
        let r = kdf_hash_unkeyed(
            password,
            alg,
            ver,
            memory_cost,
            iteration_cost,
            parallelism,
            output_len,
        );
        proof {
            assert(pepper@ =~= Seq::<char>::empty());
        }
        r
    } else {
        kdf_hash_keyed(
            password,
            pepper,
            alg,
            ver,
            memory_cost,
            iteration_cost,
            parallelism,
            output_len,
        )
    }
}

/// Checks the password against the encoded hash under the resolved values,
/// taking the keyed or the unkeyed construction by whether the pepper is
/// empty. `None` exactly when the encoded hash is malformed.
pub fn run_verify(
    password: &str,
    encoded: &str,
    pepper: &str,
    alg: AlgorithmVariant,
    ver: VersionTag,
    memory_cost: u32,
    iteration_cost: u32,
    parallelism: u32,
    output_len: usize,
) -> (r: Option<bool>)
    requires
        cost_params_valid(memory_cost, iteration_cost, parallelism, output_len as nat),
        pepper_fits(pepper@),
    ensures
        r is Some <==> phc_parses(encoded@),
        r matches Some(b) ==> b == verify_outcome(password@, encoded@, pepper@),
{
    if pepper.is_empty() {
        let r = kdf_verify_unkeyed(
            password,
            encoded,
            alg,
            ver,
            memory_cost,
            iteration_cost,
            parallelism,
            output_len,
        );
        proof {
            assert(pepper@ =~= Seq::<char>::empty());
        }
        r
    } else {
        kdf_verify_keyed(
            password,
            encoded,
            pepper,
            alg,
            ver,
            memory_cost,
            iteration_cost,
            parallelism,
            output_len,
        )
    }
}

} // verus!
