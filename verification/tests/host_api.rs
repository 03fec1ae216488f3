use argon_host::AlgorithmVariant;
use argon_host::HostError;
use argon_host::VersionTag;
use argon_host::create_argon;
use argon_host::decode_version;
use argon_host::hash;
use argon_host::hash_strict;
use argon_host::parse_algorithm;
use argon_host::verify;

#[test]
fn hash_and_verify_round_trip() {
    let encoded = hash("correct horse", "Argon2id", 19, "", 19456, 2, 1, 32).unwrap();
    assert!(!encoded.is_empty());
    assert!(encoded.starts_with("$argon2id$"));
    assert_eq!(
        verify("correct horse", &encoded, "Argon2id", 19, "", 19456, 2, 1, 32),
        Ok(true)
    );
    assert_eq!(
        verify("wrong horse", &encoded, "Argon2id", 19, "", 19456, 2, 1, 32),
        Ok(false)
    );
}

#[test]
fn every_variant_and_version_round_trips() {
    for (name, tag) in [
        ("Argon2i", "$argon2i$"),
        ("Argon2d", "$argon2d$"),
        ("Argon2id", "$argon2id$"),
    ] {
        for version in [16u32, 19u32] {
            let encoded = hash("a password", name, version, "pep", 64, 1, 2, 32).unwrap();
            assert!(encoded.starts_with(tag));
            assert!(encoded.contains(&format!("$v={}$", version)));
            assert_eq!(
                verify("a password", &encoded, name, version, "pep", 64, 1, 2, 32),
                Ok(true)
            );
            assert_eq!(
                verify("b password", &encoded, name, version, "pep", 64, 1, 2, 32),
                Ok(false)
            );
        }
    }
}

#[test]
fn identical_inputs_give_distinct_hashes() {
    let first = hash("same password", "Argon2id", 19, "", 16, 1, 1, 32).unwrap();
    let second = hash("same password", "Argon2id", 19, "", 16, 1, 1, 32).unwrap();
    assert_ne!(first, second);
    assert_eq!(
        verify("same password", &first, "Argon2id", 19, "", 16, 1, 1, 32),
        Ok(true)
    );
    assert_eq!(
        verify("same password", &second, "Argon2id", 19, "", 16, 1, 1, 32),
        Ok(true)
    );
}

#[test]
fn unrecognized_algorithm_name_means_argon2id() {
    let from_unknown = hash("pw", "Argon2x", 19, "", 16, 1, 1, 32).unwrap();
    assert!(from_unknown.starts_with("$argon2id$"));
    assert_eq!(
        verify("pw", &from_unknown, "Argon2id", 19, "", 16, 1, 1, 32),
        Ok(true)
    );
    let from_empty = hash("pw", "", 19, "", 16, 1, 1, 32).unwrap();
    assert!(from_empty.starts_with("$argon2id$"));
    let from_default = hash("pw", "Argon2id", 19, "", 16, 1, 1, 32).unwrap();
    assert_eq!(
        verify("pw", &from_default, "Argon2x", 19, "", 16, 1, 1, 32),
        Ok(true)
    );
    assert_eq!(parse_algorithm("Argon2x"), AlgorithmVariant::Argon2id);
    assert_eq!(parse_algorithm(""), AlgorithmVariant::Argon2id);
    assert_eq!(parse_algorithm("argon2id"), AlgorithmVariant::Argon2id);
    assert_eq!(parse_algorithm("Argon2i"), AlgorithmVariant::Argon2i);
    assert_eq!(parse_algorithm("Argon2d"), AlgorithmVariant::Argon2d);
    assert_eq!(parse_algorithm("Argon2id"), AlgorithmVariant::Argon2id);
}

#[test]
fn empty_pepper_and_keyed_pepper_do_not_cross_verify() {
    let unkeyed = hash("pw", "Argon2id", 19, "", 16, 1, 1, 32).unwrap();
    assert_eq!(
        verify("pw", &unkeyed, "Argon2id", 19, "little secret", 16, 1, 1, 32),
        Ok(false)
    );
    let keyed = hash("pw", "Argon2id", 19, "little secret", 16, 1, 1, 32).unwrap();
    assert_eq!(
        verify("pw", &keyed, "Argon2id", 19, "", 16, 1, 1, 32),
        Ok(false)
    );
    assert_eq!(
        verify("pw", &keyed, "Argon2id", 19, "little secret", 16, 1, 1, 32),
        Ok(true)
    );
    assert_eq!(
        verify("pw", &keyed, "Argon2id", 19, "other secret", 16, 1, 1, 32),
        Ok(false)
    );
}

#[test]
fn unrecognized_version_code_is_fatal() {
    assert_eq!(
        hash("pw", "Argon2id", 17, "", 16, 1, 1, 32),
        Err(HostError::UnrecognizedVersion)
    );
    assert_eq!(
        hash("pw", "Argon2id", 0, "", 16, 1, 1, 32),
        Err(HostError::UnrecognizedVersion)
    );
    assert_eq!(
        verify("pw", "$argon2id$irrelevant", "Argon2id", 18, "", 16, 1, 1, 32),
        Err(HostError::UnrecognizedVersion)
    );
    assert_eq!(decode_version(16), Ok(VersionTag::V0x10));
    assert_eq!(decode_version(19), Ok(VersionTag::V0x13));
    assert_eq!(decode_version(17), Err(HostError::UnrecognizedVersion));
}

#[test]
fn malformed_encoded_hash_is_fatal() {
    assert_eq!(
        verify("pw", "not an encoded hash", "Argon2id", 19, "", 16, 1, 1, 32),
        Err(HostError::MalformedHash)
    );
    assert_eq!(
        verify("pw", "", "Argon2id", 19, "", 16, 1, 1, 32),
        Err(HostError::MalformedHash)
    );
    assert_eq!(
        verify("pw", "$argon2id$v=19$m=16,t=1,p=1$$", "Argon2id", 19, "", 16, 1, 1, 32),
        Err(HostError::MalformedHash)
    );
}

#[test]
fn out_of_domain_cost_parameters_are_fatal() {
    assert_eq!(
        hash("pw", "Argon2id", 19, "", 0, 1, 1, 32),
        Err(HostError::InvalidCostParameters)
    );
    assert_eq!(
        hash("pw", "Argon2id", 19, "", 16, 0, 1, 32),
        Err(HostError::InvalidCostParameters)
    );
    assert_eq!(
        hash("pw", "Argon2id", 19, "", 16, 1, 0, 32),
        Err(HostError::InvalidCostParameters)
    );
    // memory cost below eight blocks per lane
    assert_eq!(
        hash("pw", "Argon2id", 19, "", 8, 1, 2, 32),
        Err(HostError::InvalidCostParameters)
    );
    assert_eq!(
        hash("pw", "Argon2id", 19, "", 16, 1, 1, 3),
        Err(HostError::InvalidCostParameters)
    );
    assert_eq!(
        hash("pw", "Argon2id", 19, "", 16, 1, 0x1000000, 32),
        Err(HostError::InvalidCostParameters)
    );
    // the version check comes first
    assert_eq!(
        verify("pw", "x", "Argon2id", 17, "", 0, 0, 0, 0),
        Err(HostError::UnrecognizedVersion)
    );
}

#[test]
fn derivation_failure_degrades_to_the_empty_sentinel() {
    // an output length legal for the cost domain but beyond the 64-byte
    // bound of the encoded form
    assert_eq!(hash("pw", "Argon2id", 19, "", 16, 1, 1, 65), Ok(String::new()));
    assert_eq!(hash("pw", "Argon2id", 19, "", 16, 1, 1, 9), Ok(String::new()));
    assert_eq!(
        hash_strict("pw", "Argon2id", 19, "", 16, 1, 1, 65),
        Err(HostError::DerivationFailed)
    );
    assert_eq!(
        hash_strict("pw", "Argon2id", 19, "", 16, 1, 1, 9),
        Err(HostError::DerivationFailed)
    );
    let strict = hash_strict("pw", "Argon2id", 19, "", 16, 1, 1, 64).unwrap();
    assert!(strict.starts_with("$argon2id$"));
    assert_eq!(
        verify("pw", &strict, "Argon2id", 19, "", 16, 1, 1, 64),
        Ok(true)
    );
}

#[test]
fn create_argon_resolves_every_field() {
    let config = create_argon("Argon2d", 16, "pep", 1024, 3, 2, 48).unwrap();
    assert_eq!(config.algorithm, AlgorithmVariant::Argon2d);
    assert_eq!(config.version, VersionTag::V0x10);
    assert_eq!(config.memory_cost, 1024);
    assert_eq!(config.iteration_cost, 3);
    assert_eq!(config.parallelism, 2);
    assert_eq!(config.output_len, 48);
    assert_eq!(config.pepper, "pep");

    let defaulted = create_argon("whatever", 19, "", 16, 1, 1, 32).unwrap();
    assert_eq!(defaulted.algorithm, AlgorithmVariant::Argon2id);
    assert_eq!(defaulted.pepper, "");

    assert!(matches!(
        create_argon("Argon2id", 20, "", 16, 1, 1, 32),
        Err(HostError::UnrecognizedVersion)
    ));
    assert!(matches!(
        create_argon("Argon2id", 19, "", 7, 1, 1, 32),
        Err(HostError::InvalidCostParameters)
    ));
}

#[test]
fn mismatched_cost_parameters_fail_deterministically() {
    // the encoded hash carries its own parameters, so verifying under other
    // (valid) ones still checks against the embedded ones
    let encoded = hash("pw", "Argon2id", 19, "", 32, 2, 1, 32).unwrap();
    assert_eq!(
        verify("pw", &encoded, "Argon2id", 19, "", 1024, 4, 2, 16),
        Ok(true)
    );
    assert_eq!(
        verify("wrong", &encoded, "Argon2id", 19, "", 1024, 4, 2, 16),
        Ok(false)
    );
}
