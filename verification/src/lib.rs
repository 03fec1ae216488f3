//! Password hashing and verification with the Argon2 key-derivation
//! function, driven by the plain strings and integers a host environment
//! supplies: an algorithm name, a version code, an optional secret pepper,
//! the three cost parameters and the desired digest length.

use vstd::prelude::*;

pub mod config;
pub mod kdf;

pub use config::AlgorithmVariant;
pub use config::HostError;
pub use config::ResolvedConfiguration;
pub use config::VersionTag;
pub use config::create_argon;
pub use config::decode_version;
pub use config::parse_algorithm;

use config::algorithm_of_name;
use config::recognized_algorithm;
use config::recognized_version;
use config::resolve_error;
use kdf::derivation_supported;
use kdf::hash_output_good;
use kdf::phc_parses;
use kdf::verify_outcome;

verus! {

/// What `verify` returns: the fatal resolution error if the configuration
/// values are invalid; a fatal error if the encoded hash is malformed; and
/// otherwise the verification outcome, a plain boolean. The algorithm name
/// does not enter: the verification recomputes under what the encoded hash
/// itself carries.
pub open spec fn verify_result(
    password: Seq<char>,
    encoded: Seq<char>,
    version: u32,
    pepper: Seq<char>,
    memory_cost: u32,
    iteration_cost: u32,
    parallelism: u32,
    output_len: nat,
) -> Result<bool, HostError> {
    match resolve_error(version, pepper, memory_cost, iteration_cost, parallelism, output_len) {
        Some(e) => Err(e),
        None => if !phc_parses(encoded) {
            Err(HostError::MalformedHash)
        } else {
            Ok(verify_outcome(password, encoded, pepper))
        },
    }
}

/// Hashes a password under the configuration the raw values resolve to,
/// with a fresh random salt, and returns the self-describing encoded hash.
///
/// Invalid configuration values are fatal and return the resolution error.
/// A failure of the derivation step itself is deliberately downgraded to an
/// empty-string sentinel, never an error — `hash_strict` reports it instead.
/// A successful (non-empty) result opens with the selected variant's tag and
/// verifies against the same password and pepper.
pub fn hash(
    password: &str,
    algorithm: &str,
    version: u32,
    pepper: &str,
    memory_cost: u32,
    iteration_cost: u32,
    parallelism: u32,
    output_len: usize,
) -> (r: Result<String, HostError>)
    ensures
        ({
            let err = resolve_error(
                version,
                pepper@,
                memory_cost,
                iteration_cost,
                parallelism,
                output_len as nat,
            );
            match r {
                Err(e) => err == Some(e),
                Ok(s) => {
                    &&& err is None
                    &&& (s@.len() == 0 <==> !derivation_supported(password@, output_len as nat))
                    &&& (derivation_supported(password@, output_len as nat)
                        ==> hash_output_good(
                        s@,
                        password@,
                        algorithm_of_name(algorithm@),
                        pepper@,
                    ))
                },
            }
        }),
{
    let config = match create_argon(
        algorithm,
        version,
        pepper,
        memory_cost,
        iteration_cost,
        parallelism,
        output_len,
    ) {
        Ok(c) => c,
        Err(e) => {
            return Err(e);
        },
    };
    let derived = kdf::run_hash(
        password,
        config.pepper,
        config.algorithm,
        config.version,
        config.memory_cost,
        config.iteration_cost,
        config.parallelism,
        config.output_len,
    );
    match derived {
        Some(s) => Ok(s),
        None => Ok(String::new()),
    }
}

/// As `hash`, but strict: a failure of the derivation step returns
/// `HostError::DerivationFailed` instead of the empty-string sentinel, so a
/// caller can tell the swallowed condition apart.
pub fn hash_strict(
    password: &str,
    algorithm: &str,
    version: u32,
    pepper: &str,
    memory_cost: u32,
    iteration_cost: u32,
    parallelism: u32,
    output_len: usize,
) -> (r: Result<String, HostError>)
    ensures
        ({
            let err = resolve_error(
                version,
                pepper@,
                memory_cost,
                iteration_cost,
                parallelism,
                output_len as nat,
            );
            match r {
                Err(e) => if err is Some {
                    err == Some(e)
                } else {
                    &&& e == HostError::DerivationFailed
                    &&& !derivation_supported(password@, output_len as nat)
                },
                Ok(s) => {
                    &&& err is None
                    &&& derivation_supported(password@, output_len as nat)
                    &&& hash_output_good(s@, password@, algorithm_of_name(algorithm@), pepper@)
                },
            }
        }),
{
    let config = match create_argon(
        algorithm,
        version,
        pepper,
        memory_cost,
        iteration_cost,
        parallelism,
        output_len,
    ) {
        Ok(c) => c,
        Err(e) => {
            return Err(e);
        },
    };
    let derived = kdf::run_hash(
        password,
        config.pepper,
        config.algorithm,
        config.version,
        config.memory_cost,
        config.iteration_cost,
        config.parallelism,
        config.output_len,
    );
    match derived {
        Some(s) => Ok(s),
        None => Err(HostError::DerivationFailed),
    }
}

/// Verifies a password against a previously produced encoded hash.
///
/// The raw configuration values resolve under the same policy as in `hash`;
/// invalid ones are fatal, in the same order. A malformed encoded hash is a
/// fatal contract violation, never a `false`. Otherwise the result is the
/// plain verification outcome: `true` exactly when the digest recomputed
/// under the hash's own parameters and the resolved pepper matches, compared
/// in constant time — any mismatch, whatever its cause, is `false`.
pub fn verify(
    password: &str,
    hash: &str,
    algorithm: &str,
    version: u32,
    pepper: &str,
    memory_cost: u32,
    iteration_cost: u32,
    parallelism: u32,
    output_len: usize,
) -> (r: Result<bool, HostError>)
    ensures
        r == verify_result(
            password@,
            hash@,
            version,
            pepper@,
            memory_cost,
            iteration_cost,
            parallelism,
            output_len as nat,
        ),
{
    let config = match create_argon(
        algorithm,
        version,
        pepper,
        memory_cost,
        iteration_cost,
        parallelism,
        output_len,
    ) {
        Ok(c) => c,
        Err(e) => {
            return Err(e);
        },
    };
    let checked = kdf::run_verify(
        password,
        hash,
        config.pepper,
        config.algorithm,
        config.version,
        config.memory_cost,
        config.iteration_cost,
        config.parallelism,
        config.output_len,
    );
    match checked {
        Some(b) => Ok(b),
        None => Err(HostError::MalformedHash),
    }
}

/// A hash round-trips: any encoded hash with the properties `hash` ensures
/// of a successful, non-empty result — it parses and its digest matches the
/// password and pepper it was produced from — is accepted by `verify` under
/// the same valid raw configuration values, whatever algorithm name either
/// call was given.
pub proof fn lemma_hash_output_verifies(
    password: Seq<char>,
    encoded: Seq<char>,
    alg: AlgorithmVariant,
    version: u32,
    pepper: Seq<char>,
    memory_cost: u32,
    iteration_cost: u32,
    parallelism: u32,
    output_len: nat,
)
    requires
        resolve_error(version, pepper, memory_cost, iteration_cost, parallelism, output_len)
            is None,
        hash_output_good(encoded, password, alg, pepper),
    ensures
        verify_result(
            password,
            encoded,
            version,
            pepper,
            memory_cost,
            iteration_cost,
            parallelism,
            output_len,
        ) == Ok::<bool, HostError>(true),
{
}

/// Algorithm-name leniency: every name outside the recognized set selects
/// the same variant as the name "Argon2id" — the permissive default, not an
/// error.
pub proof fn lemma_unrecognized_algorithm_defaults(name: Seq<char>)
    requires
        !recognized_algorithm(name),
    ensures
        algorithm_of_name(name) == AlgorithmVariant::Argon2id,
        algorithm_of_name(name) == algorithm_of_name("Argon2id"@),
{
    reveal_strlit("Argon2i");
    reveal_strlit("Argon2d");
    reveal_strlit("Argon2id");
    assert("Argon2id"@.len() == 8);
    assert("Argon2i"@.len() == 7);
    assert("Argon2d"@.len() == 7);
}

/// Version strictness, in deliberate contrast to the algorithm-name
/// leniency: every version code outside the recognized set makes resolution
/// fail with the fatal version error, never substitute a default.
pub proof fn lemma_unrecognized_version_is_fatal(
    version: u32,
    pepper: Seq<char>,
    memory_cost: u32,
    iteration_cost: u32,
    parallelism: u32,
    output_len: nat,
)
    requires
        !recognized_version(version),
    ensures
        resolve_error(version, pepper, memory_cost, iteration_cost, parallelism, output_len)
            == Some(HostError::UnrecognizedVersion),
{
}

/// A malformed encoded hash is fatal: under valid configuration values,
/// verification of a string that is no well-formed PHC-format hash yields
/// the fatal format error, never a `false`.
pub proof fn lemma_malformed_hash_is_fatal(
    password: Seq<char>,
    encoded: Seq<char>,
    version: u32,
    pepper: Seq<char>,
    memory_cost: u32,
    iteration_cost: u32,
    parallelism: u32,
    output_len: nat,
)
    requires
        resolve_error(version, pepper, memory_cost, iteration_cost, parallelism, output_len)
            is None,
        !phc_parses(encoded),
    ensures
        verify_result(
            password,
            encoded,
            version,
            pepper,
            memory_cost,
            iteration_cost,
            parallelism,
            output_len,
        ) == Err::<bool, HostError>(HostError::MalformedHash),
{
}

} // verus!
