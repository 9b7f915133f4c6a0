//! The Argon2 primitive, as the `argon2` crate provides it.
//!
//! The crate is built without its support for threads, so nothing in it can
//! start one: it fills the lanes one after another, whatever it is asked.
//! That changes no hash and no answer, and it leaves no call that could
//! unwind because the system refuses a thread.
//!
//! Nothing in this file is proved. The functions at its end call the crate,
//! and what they promise is what the crate's source shows: its defaults, the
//! names of its variants and versions, and the limits to which it holds a
//! configuration. The hash itself is not described here, nor the answer to
//! whether a password belongs to a hash; they have names.

use vstd::prelude::*;
use crate::config::{ConfigView, ResolvedConfig, ThreadMode, Variant, Version};
use crate::config::{variant_named, version_named};

verus! {

/// The configuration that Argon2 uses where a request overrides nothing.
pub open spec fn default_config() -> ConfigView {
    ConfigView {
        variant: Variant::Argon2i,
        version: Version::Version13,
        memory_cost: 4096,
        time_cost: 3,
        lanes: 1,
        thread_mode: ThreadMode::Sequential,
        hash_length: 32,
        secret: Seq::empty(),
        associated_data: Seq::empty(),
    }
}

/// The largest memory cost that Argon2 takes on this machine: 2 GiB where
/// addresses are 32 bits wide, and anything that fits the field otherwise.
pub open spec fn max_memory_cost() -> u32 {
    if usize::BITS == 32 {
        0x20_0000
    } else {
        0xFFFF_FFFF
    }
}

/// Why Argon2 refuses to hash a password of `password_len` bytes with a salt
/// of `salt_len` bytes under `config`, in its own words, or `None` where it
/// goes on to hash. The limits are tested in this order and the first that
/// is broken is the one reported.
pub open spec fn rejection(password_len: nat, salt_len: nat, config: ConfigView) -> Option<
    Seq<char>,
> {
    if config.lanes < 1 {
        Some("Too few lanes"@)
    } else if config.lanes > 0x00FF_FFFF {
        Some("Too many lanes"@)
    } else if config.memory_cost < 8 {
        Some("Memory cost is too small"@)
    } else if config.memory_cost > max_memory_cost() {
        Some("Memory cost is too large"@)
    } else if config.memory_cost < 8 * config.lanes {
        Some("Memory cost is too small"@)
    } else if config.time_cost < 1 {
        Some("Time cost is too small"@)
    } else if password_len > 0xFFFF_FFFF {
        Some("Password is too long"@)
    } else if salt_len < 8 {
        Some("Salt is too short"@)
    } else if salt_len > 0xFFFF_FFFF {
        Some("Salt is too long"@)
    } else if config.secret.len() > 0xFFFF_FFFF {
        Some("Secret is too long"@)
    } else if config.associated_data.len() > 0xFFFF_FFFF {
        Some("Associated data is too long"@)
    } else if config.hash_length < 4 {
        Some("Output is too short"@)
    } else {
        None
    }
}

/// The encoded hash that Argon2 computes for a password, a salt and a
/// configuration in sequential mode that it does not reject.
pub uninterp spec fn encoded_hash(password: Seq<u8>, salt: Seq<u8>, config: ConfigView) -> Seq<char>;

/// What Argon2 answers when asked whether a password belongs to an encoded
/// hash, on a machine whose addresses are `address_bits` wide: whether it
/// does, or, for an encoded hash that it cannot take apart or whose settings
/// it rejects, its words for that. The width counts because the largest
/// memory cost that Argon2 takes depends on it.
pub uninterp spec fn verification(encoded: Seq<char>, password: Seq<u8>, address_bits: nat) -> Result<
    bool,
    Seq<char>,
>;

/// `argon2::Config::default`: the documented defaults of the crate.
#[verifier::external_body]
pub(crate) fn argon2_default_config() -> (config: ResolvedConfig)
    ensures
        config@ == default_config(),
{
    let c = argon2::Config::default();
    ResolvedConfig {
        variant: match c.variant { argon2::Variant::Argon2d => Variant::Argon2d, argon2::Variant::Argon2i => Variant::Argon2i, argon2::Variant::Argon2id => Variant::Argon2id },
        version: match c.version { argon2::Version::Version10 => Version::Version10, argon2::Version::Version13 => Version::Version13 },
        memory_cost: c.mem_cost,
        time_cost: c.time_cost,
        lanes: c.lanes,
        thread_mode: match c.thread_mode { argon2::ThreadMode::Sequential => ThreadMode::Sequential },
        hash_length: c.hash_length,
        secret: c.secret.to_vec(),
        associated_data: c.ad.to_vec(),
    }
}

/// `argon2::Variant::from_str`: a match on the six names of the variants.
#[verifier::external_body]
pub(crate) fn argon2_variant_from_str(name: &str) -> (variant: Option<Variant>)
    ensures
        variant == variant_named(name@),
{
    match argon2::Variant::from_str(name) {
        Ok(argon2::Variant::Argon2d) => Some(Variant::Argon2d),
        Ok(argon2::Variant::Argon2i) => Some(Variant::Argon2i),
        Ok(argon2::Variant::Argon2id) => Some(Variant::Argon2id),
        Err(_) => None,
    }
}

/// `argon2::Version::from_str`: a match on the two names of the versions.
#[verifier::external_body]
pub(crate) fn argon2_version_from_str(name: &str) -> (version: Option<Version>)
    ensures
        version == version_named(name@),
{
    match argon2::Version::from_str(name) {
        Ok(argon2::Version::Version10) => Some(Version::Version10),
        Ok(argon2::Version::Version13) => Some(Version::Version13),
        Err(_) => None,
    }
}

/// `argon2::hash_encoded`, for a configuration in sequential mode, the one
/// mode that the crate has as it is built here. It first holds the lengths
/// and the configuration to its limits and fails with the first one that is
/// broken; the error comes back as the text that its `Display` writes.
/// Otherwise it hashes, in the calling thread, and returns the encoded hash,
/// a text that begins with `$`. The memory that the configuration asks for
/// is allocated as any vector is.
#[verifier::external_body]
pub(crate) fn argon2_hash_encoded(password: &[u8], salt: &[u8], config: &ResolvedConfig) -> (hashed:
    Result<String, String>)
    requires
        config@.thread_mode == ThreadMode::Sequential,
    ensures
        match hashed {
            Ok(encoded) => rejection(password@.len(), salt@.len(), config@) is None
                && encoded@ == encoded_hash(password@, salt@, config@) && encoded@.len() > 0,
            Err(message) => rejection(password@.len(), salt@.len(), config@) == Some(message@),
        },
{
    let c = argon2::Config {
        ad: &config.associated_data,
        hash_length: config.hash_length,
        lanes: config.lanes,
        mem_cost: config.memory_cost,
        secret: &config.secret,
        thread_mode: argon2::ThreadMode::Sequential,
        time_cost: config.time_cost,
        variant: match config.variant { Variant::Argon2d => argon2::Variant::Argon2d, Variant::Argon2i => argon2::Variant::Argon2i, Variant::Argon2id => argon2::Variant::Argon2id },
        version: match config.version { Version::Version10 => argon2::Version::Version10, Version::Version13 => argon2::Version::Version13 },
    };
    argon2::hash_encoded(password, salt, &c).map_err(|e| e.to_string())
}

/// `argon2::verify_encoded`. It takes the encoded hash apart, hashes the
/// password with the settings and the salt found there, with no secret and no
/// associated data, and compares. An encoded hash that it cannot take apart,
/// or whose settings it rejects, is an error, which comes back as the text
/// that its `Display` writes: one of a fixed list of messages, none empty.
/// Of the machine, the address width alone has a say in the answer. As the
/// crate is built here, it hashes in the calling thread however many lanes
/// the encoded hash names. The memory that the encoded hash asks for is
/// allocated as any vector is.
#[verifier::external_body]
pub(crate) fn argon2_verify_encoded(encoded: &str, password: &[u8]) -> (verified: Result<bool, String>)
    ensures
        match verified {
            Ok(matches) => verification(encoded@, password@, usize::BITS as nat) == Ok::<
                bool,
                Seq<char>,
            >(matches),
            Err(message) => verification(encoded@, password@, usize::BITS as nat) == Err::<
                bool,
                Seq<char>,
            >(message@) && message@.len() > 0,
        },
{
    argon2::verify_encoded(encoded, password).map_err(|e| e.to_string())
}

} // verus!
