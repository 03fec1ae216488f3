//! Resolving raw host-supplied values (algorithm name, version code, pepper,
//! cost parameters) into a fully specified Argon2 configuration.
//!
//! Algorithm selection is deliberately permissive: any unrecognized name
//! falls back to `Argon2id`. Version codes and cost parameters, by contrast,
//! are strict: an unmapped version code or an out-of-domain cost parameter is
//! a fatal caller contract violation and yields an error, never a silent
//! default.

use vstd::prelude::*;
use vstd::utf8::encode_utf8;

verus! {

/// The three Argon2 algorithm variants.
#[derive(Clone, Copy, PartialEq, Eq, Structural, Debug)]
pub enum AlgorithmVariant {
    Argon2i,
    Argon2d,
    Argon2id,
}

/// The two versions of the Argon2 specification, by their numeric codes
/// 0x10 (16) and 0x13 (19).
#[derive(Clone, Copy, PartialEq, Eq, Structural, Debug)]
pub enum VersionTag {
    V0x10,
    V0x13,
}

/// A fatal caller contract violation: the strict error cases of
/// configuration resolution, hashing and verification.
#[derive(Clone, Copy, PartialEq, Eq, Structural, Debug)]
pub enum HostError {
    /// The version code maps to no known Argon2 version.
    UnrecognizedVersion,
    /// A cost parameter lies outside the algorithm's legal domain.
    InvalidCostParameters,
    /// The pepper exceeds the largest secret the algorithm accepts.
    PepperTooLong,
    /// The encoded hash handed to verification is not a well-formed
    /// PHC-format string.
    MalformedHash,
    /// The key-derivation step itself failed (strict-mode reporting of the
    /// condition that the lenient entry point downgrades to an empty string).
    DerivationFailed,
}

/// The algorithm names that select a variant by exact match; every other
/// name falls back to `Argon2id`.
pub open spec fn recognized_algorithm(name: Seq<char>) -> bool {
    name == "Argon2i"@ || name == "Argon2d"@ || name == "Argon2id"@
}

/// The variant a raw algorithm name selects: exact match on the three
/// recognized names, and `Argon2id` as the deliberate permissive default
/// for anything else.
pub open spec fn algorithm_of_name(name: Seq<char>) -> AlgorithmVariant {
    if name == "Argon2i"@ {
        AlgorithmVariant::Argon2i
    } else if name == "Argon2d"@ {
        AlgorithmVariant::Argon2d
    } else {
        AlgorithmVariant::Argon2id
    }
}

/// The version codes that map to a known Argon2 version.
pub open spec fn recognized_version(code: u32) -> bool {
    code == 0x10 || code == 0x13
}

/// The version a recognized code maps to.
pub open spec fn version_of_code(code: u32) -> VersionTag
    recommends
        recognized_version(code),
{
    if code == 0x10 {
        VersionTag::V0x10
    } else {
        VersionTag::V0x13
    }
}

/// The legal domain of the four cost values: memory cost at least 8 KiB and
/// at least eight blocks per lane, at least one iteration, parallelism
/// between 1 and 2^24 - 1 lanes, and an output length of 4 to 2^32 - 1
/// bytes.
pub open spec fn cost_params_valid(
    memory_cost: u32,
    iteration_cost: u32,
    parallelism: u32,
    output_len: nat,
) -> bool {
    &&& memory_cost >= 8
    &&& memory_cost as int >= 8 * parallelism as int
    &&& iteration_cost >= 1
    &&& 1 <= parallelism <= 0xFFFFFF
    &&& 4 <= output_len <= 0xFFFFFFFF
}

/// The largest pepper the keyed construction accepts, in bytes.
pub open spec fn pepper_fits(pepper: Seq<char>) -> bool {
    encode_utf8(pepper).len() <= 0xFFFFFFFF
}

/// The fatal error, if any, that resolving a raw configuration raises, in
/// the order the checks run: version code first, then cost parameters, then
/// the pepper's length. The algorithm name raises no error ever.
pub open spec fn resolve_error(
    version: u32,
    pepper: Seq<char>,
    memory_cost: u32,
    iteration_cost: u32,
    parallelism: u32,
    output_len: nat,
) -> Option<HostError> {
    if !recognized_version(version) {
        Some(HostError::UnrecognizedVersion)
    } else if !cost_params_valid(memory_cost, iteration_cost, parallelism, output_len) {
        Some(HostError::InvalidCostParameters)
    } else if !pepper_fits(pepper) {
        Some(HostError::PepperTooLong)
    } else {
        None
    }
}

/// A fully specified Argon2 configuration: variant, version, the four cost
/// values, and the optional secret pepper, where an empty pepper means the
/// unkeyed construction.
pub struct ResolvedConfiguration<'a> {
    pub algorithm: AlgorithmVariant,
    pub version: VersionTag,
    pub memory_cost: u32,
    pub iteration_cost: u32,
    pub parallelism: u32,
    pub output_len: usize,
    pub pepper: &'a str,
}

impl<'a> ResolvedConfiguration<'a> {
    /// Whether this configuration selects the keyed construction: a
    /// non-empty pepper. An empty pepper is no secret at all, not a secret
    /// of length zero.
    pub open spec fn is_keyed(self) -> bool {
        self.pepper@.len() > 0
    }

    /// The cost values lie in the legal domain and the pepper fits; every
    /// configuration this module hands out satisfies this.
    pub open spec fn well_formed(self) -> bool {
        &&& cost_params_valid(
            self.memory_cost,
            self.iteration_cost,
            self.parallelism,
            self.output_len as nat,
        )
        &&& pepper_fits(self.pepper@)
    }
}

/// Character-for-character string equality, proved against the views.
fn str_eq(a: &str, b: &str) -> (r: bool)
    ensures
        r == (a@ == b@),
{
    let a_len = a.unicode_len();
    let b_len = b.unicode_len();
    if a_len != b_len {
        assert(a@.len() != b@.len());
        return false;
    }
    let mut i: usize = 0;
    while i < a_len
        invariant
            i <= a_len,
            a_len == a@.len(),
            a_len == b@.len(),
            forall|j: int| 0 <= j < i ==> a@[j] == b@[j],
        decreases a_len - i,
    {
        if a.get_char(i) != b.get_char(i) {
            return false;
        }
        i += 1;
    }
    proof {
        assert(a@ =~= b@);
    }
    true
}

/// Selects the algorithm variant for a raw name: exact match on the three
/// recognized names, `Argon2id` for everything else. Deliberately lenient —
/// see `algorithm_of_name`.
pub fn parse_algorithm(name: &str) -> (r: AlgorithmVariant)
    ensures
        r == algorithm_of_name(name@),
{
    if str_eq(name, "Argon2i") {
        AlgorithmVariant::Argon2i
    } else if str_eq(name, "Argon2d") {
        AlgorithmVariant::Argon2d
    } else {
        AlgorithmVariant::Argon2id
    }
}

/// Decodes a raw version code. Strictly, in contrast to the algorithm name:
/// an unmapped code is a fatal contract violation, never a silent default.
pub fn decode_version(code: u32) -> (r: Result<VersionTag, HostError>)
    ensures
        recognized_version(code) ==> r == Ok::<VersionTag, HostError>(version_of_code(code)),
        !recognized_version(code) ==> r == Err::<VersionTag, HostError>(
            HostError::UnrecognizedVersion,
        ),
{
    if code == 0x10 {
        Ok(VersionTag::V0x10)
    } else if code == 0x13 {
        Ok(VersionTag::V0x13)
    } else {
        Err(HostError::UnrecognizedVersion)
    }
}

/// Whether the four cost values lie in the legal domain.
pub fn check_cost_params(
    memory_cost: u32,
    iteration_cost: u32,
    parallelism: u32,
    output_len: usize,
) -> (r: bool)
    ensures
        r == cost_params_valid(memory_cost, iteration_cost, parallelism, output_len as nat),
{
    parallelism >= 1 && parallelism <= 0xFFFFFF && memory_cost >= 8 && memory_cost >= 8
        * parallelism && iteration_cost >= 1 && output_len >= 4 && output_len <= 0xFFFFFFFFusize
}

/// Resolves the raw host-supplied values into a full configuration.
///
/// Lenient on the algorithm name (anything unrecognized selects `Argon2id`),
/// strict on everything else: an unmapped version code, an out-of-domain
/// cost value or an oversized pepper is a fatal contract violation, reported
/// in that order.
pub fn create_argon<'a>(
    algorithm: &str,
    version: u32,
    pepper: &'a str,
    memory_cost: u32,
    iteration_cost: u32,
    parallelism: u32,
    output_len: usize,
) -> (r: Result<ResolvedConfiguration<'a>, HostError>)
    ensures
        ({
            let err = resolve_error(
                version,
                pepper@,
                memory_cost,
                iteration_cost,
                parallelism,
                output_len as nat,
            );
            match r {
                Ok(c) => {
                    &&& err is None
                    &&& c.algorithm == algorithm_of_name(algorithm@)
                    &&& c.version == version_of_code(version)
                    &&& c.memory_cost == memory_cost
                    &&& c.iteration_cost == iteration_cost
                    &&& c.parallelism == parallelism
                    &&& c.output_len == output_len
                    &&& c.pepper@ == pepper@
                    &&& (c.is_keyed() <==> pepper@.len() != 0)
                    &&& c.well_formed()
                },
                Err(e) => err == Some(e),
            }
        }),
{
    let alg = parse_algorithm(algorithm);
    let ver = match decode_version(version) {
        Ok(v) => v,
        Err(e) => {
            return Err(e);
        },
    };
    if !check_cost_params(memory_cost, iteration_cost, parallelism, output_len) {
        return Err(HostError::InvalidCostParameters);
    }
    let pepper_bytes: &[u8] = pepper.as_bytes();
    if pepper_bytes.len() > 0xFFFFFFFFusize {
        return Err(HostError::PepperTooLong);
    }
    Ok(
        ResolvedConfiguration {
            algorithm: alg,
            version: ver,
            memory_cost,
            iteration_cost,
            parallelism,
            output_len,
            pepper,
        },
    )
}

} // verus!
