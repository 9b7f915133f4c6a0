//! Hashing configuration: the optional overrides of a request and the fully
//! resolved configuration that is handed to Argon2.

use vstd::prelude::*;
use vstd::slice::slice_to_vec;
use crate::primitive::{argon2_default_config, argon2_variant_from_str, argon2_version_from_str};
use crate::primitive::default_config;

verus! {

/// The member of the Argon2 family.
#[derive(Clone, Copy, Debug, PartialEq, Eq, Structural)]
pub enum Variant {
    /// Data-dependent memory access.
    Argon2d,
    /// Data-independent memory access.
    Argon2i,
    /// The hybrid of the two.
    Argon2id,
}

/// The revision of the Argon2 specification.
#[derive(Clone, Copy, Debug, PartialEq, Eq, Structural)]
pub enum Version {
    /// Version 0x10, written `16`.
    Version10,
    /// Version 0x13, written `19`.
    Version13,
}

/// Whether the lanes are to be filled one after another or side by side.
///
/// The mode is a setting like the others and is resolved like them. It has
/// no say in the hash, which is the same in either mode, and this library
/// computes every hash in the calling thread: it starts no thread, so that
/// no call can fail for want of one.
#[derive(Clone, Copy, Debug, PartialEq, Eq, Structural)]
pub enum ThreadMode {
    Sequential,
    Parallel,
}

/// A configuration with every setting present.
#[derive(Clone, Debug, PartialEq, Eq)]
pub struct ResolvedConfig {
    pub variant: Variant,
    pub version: Version,
    /// Working memory in KiB.
    pub memory_cost: u32,
    /// Number of passes.
    pub time_cost: u32,
    /// Degree of parallelism.
    pub lanes: u32,
    pub thread_mode: ThreadMode,
    /// Length of the tag in bytes.
    pub hash_length: u32,
    pub secret: Vec<u8>,
    pub associated_data: Vec<u8>,
}

/// The mathematical value of a [`ResolvedConfig`].
pub struct ConfigView {
    pub variant: Variant,
    pub version: Version,
    pub memory_cost: u32,
    pub time_cost: u32,
    pub lanes: u32,
    pub thread_mode: ThreadMode,
    pub hash_length: u32,
    pub secret: Seq<u8>,
    pub associated_data: Seq<u8>,
}

impl View for ResolvedConfig {
    type V = ConfigView;

    open spec fn view(&self) -> ConfigView {
        ConfigView {
            variant: self.variant,
            version: self.version,
            memory_cost: self.memory_cost,
            time_cost: self.time_cost,
            lanes: self.lanes,
            thread_mode: self.thread_mode,
            hash_length: self.hash_length,
            secret: self.secret@,
            associated_data: self.associated_data@,
        }
    }
}

impl Default for ResolvedConfig {
    /// The configuration that Argon2 uses where nothing is overridden.
    fn default() -> (config: Self)
        ensures
            config@ == default_config(),
    {
        argon2_default_config()
    }
}

/// The same configuration in sequential mode.
pub open spec fn sequential(config: ConfigView) -> ConfigView {
    ConfigView { thread_mode: ThreadMode::Sequential, ..config }
}

impl ResolvedConfig {
    /// The same configuration in sequential mode.
    pub fn in_sequence(self) -> (config: ResolvedConfig)
        ensures
            config@ == sequential(self@),
    {
        ResolvedConfig { thread_mode: ThreadMode::Sequential, ..self }
    }
}

/// The settings of a hash request. Only the salt is required; every other
/// field, when present, overrides one setting of the default configuration.
#[derive(Clone, Debug, PartialEq, Eq)]
pub struct HashOptions {
    pub salt: Vec<u8>,
    pub secret: Option<Vec<u8>>,
    pub data: Option<Vec<u8>>,
    pub version: Option<String>,
    pub variant: Option<String>,
    pub memory_cost: Option<u32>,
    pub time_cost: Option<u32>,
    pub lanes: Option<u32>,
    pub thread_mode: Option<u8>,
    pub hash_length: Option<u32>,
}

/// The mathematical value of a [`HashOptions`].
pub struct OptionsView {
    pub salt: Seq<u8>,
    pub secret: Option<Seq<u8>>,
    pub data: Option<Seq<u8>>,
    pub version: Option<Seq<char>>,
    pub variant: Option<Seq<char>>,
    pub memory_cost: Option<u32>,
    pub time_cost: Option<u32>,
    pub lanes: Option<u32>,
    pub thread_mode: Option<u8>,
    pub hash_length: Option<u32>,
}

/// The bytes of an optional byte string.
pub open spec fn bytes_view(bytes: Option<Vec<u8>>) -> Option<Seq<u8>> {
    match bytes {
        Some(b) => Some(b@),
        None => None,
    }
}

/// The characters of an optional string.
pub open spec fn text_view(text: Option<String>) -> Option<Seq<char>> {
    match text {
        Some(t) => Some(t@),
        None => None,
    }
}

impl View for HashOptions {
    type V = OptionsView;

    open spec fn view(&self) -> OptionsView {
        OptionsView {
            salt: self.salt@,
            secret: bytes_view(self.secret),
            data: bytes_view(self.data),
            version: text_view(self.version),
            variant: text_view(self.variant),
            memory_cost: self.memory_cost,
            time_cost: self.time_cost,
            lanes: self.lanes,
            thread_mode: self.thread_mode,
            hash_length: self.hash_length,
        }
    }
}

/// The variant that a name stands for. Each variant has two names, one with
/// a capital and one without; any other text names none.
pub open spec fn variant_named(name: Seq<char>) -> Option<Variant> {
    if name == "Argon2d"@ || name == "argon2d"@ {
        Some(Variant::Argon2d)
    } else if name == "Argon2i"@ || name == "argon2i"@ {
        Some(Variant::Argon2i)
    } else if name == "Argon2id"@ || name == "argon2id"@ {
        Some(Variant::Argon2id)
    } else {
        None
    }
}

/// The version that a name stands for: the decimal form of its number.
pub open spec fn version_named(name: Seq<char>) -> Option<Version> {
    if name == "16"@ {
        Some(Version::Version10)
    } else if name == "19"@ {
        Some(Version::Version13)
    } else {
        None
    }
}

/// The thread mode that a number stands for.
pub open spec fn thread_mode_numbered(number: u8) -> Option<ThreadMode> {
    if number == 0 {
        Some(ThreadMode::Sequential)
    } else if number == 1 {
        Some(ThreadMode::Parallel)
    } else {
        None
    }
}

/// An override that replaces the default whenever it is present.
pub open spec fn overridden<T>(field: Option<T>, default: T) -> T {
    match field {
        Some(value) => value,
        None => default,
    }
}

/// An override that replaces the default only where it is present and
/// recognized.
pub open spec fn recognized<T>(field: Option<Option<T>>, default: T) -> T {
    match field {
        Some(Some(value)) => value,
        _ => default,
    }
}

/// What a variant override is recognized as, if it is present.
pub open spec fn variant_override(field: Option<Seq<char>>) -> Option<Option<Variant>> {
    match field {
        Some(name) => Some(variant_named(name)),
        None => None,
    }
}

/// What a version override is recognized as, if it is present.
pub open spec fn version_override(field: Option<Seq<char>>) -> Option<Option<Version>> {
    match field {
        Some(name) => Some(version_named(name)),
        None => None,
    }
}

/// What a thread mode override is recognized as, if it is present.
pub open spec fn thread_mode_override(field: Option<u8>) -> Option<Option<ThreadMode>> {
    match field {
        Some(number) => Some(thread_mode_numbered(number)),
        None => None,
    }
}

/// The configuration that `options` asks for, starting from `base`. Each
/// field of the result depends on the field of the same name in `options`
/// and in `base`, and on nothing else.
pub open spec fn resolved(options: OptionsView, base: ConfigView) -> ConfigView {
    ConfigView {
        variant: recognized(variant_override(options.variant), base.variant),
        version: recognized(version_override(options.version), base.version),
        memory_cost: overridden(options.memory_cost, base.memory_cost),
        time_cost: overridden(options.time_cost, base.time_cost),
        lanes: overridden(options.lanes, base.lanes),
        thread_mode: recognized(thread_mode_override(options.thread_mode), base.thread_mode),
        hash_length: overridden(options.hash_length, base.hash_length),
        secret: overridden(options.secret, base.secret),
        associated_data: overridden(options.data, base.associated_data),
    }
}

/// Resolves the overrides of `options` against the configuration `base`.
/// Every field that is present replaces the setting of `base` as it is: no
/// range is checked here. A variant or version of an unknown name, and a
/// thread mode other than 0 and 1, leave the setting of `base` in place.
pub fn resolve_config(options: &HashOptions, base: ResolvedConfig) -> (config: ResolvedConfig)
    ensures
        config@ == resolved(options@, base@),
{
    let mut config = base;
    if let Some(secret) = &options.secret {
        config.secret = slice_to_vec(secret.as_slice());
    }
    if let Some(data) = &options.data {
        config.associated_data = slice_to_vec(data.as_slice());
    }
    if let Some(memory_cost) = options.memory_cost {
        config.memory_cost = memory_cost;
    }
    if let Some(time_cost) = options.time_cost {
        config.time_cost = time_cost;
    }
    if let Some(variant) = &options.variant {
        if let Some(v) = argon2_variant_from_str(variant.as_str()) {
            config.variant = v;
        }
    }
    if let Some(version) = &options.version {
        if let Some(v) = argon2_version_from_str(version.as_str()) {
            config.version = v;
        }
    }
    if let Some(lanes) = options.lanes {
        config.lanes = lanes;
    }
    if let Some(hash_length) = options.hash_length {
        config.hash_length = hash_length;
    }
    if let Some(thread_mode) = options.thread_mode {
        if thread_mode == 0 {
            config.thread_mode = ThreadMode::Sequential;
        } else if thread_mode == 1 {
            config.thread_mode = ThreadMode::Parallel;
        }
    }
    config
}

/// Resolving is defined for every combination of fields, and field by field:
/// a field that is absent leaves the setting of `base`, and one that is
/// present puts its own value there, whatever the other fields hold. For the
/// variant, the version and the thread mode, "its own value" is the one that
/// the name or number stands for.
pub proof fn lemma_resolved_by_field(options: OptionsView, base: ConfigView)
    ensures
        resolved(options, base).secret == match options.secret {
            Some(secret) => secret,
            None => base.secret,
        },
        resolved(options, base).associated_data == match options.data {
            Some(data) => data,
            None => base.associated_data,
        },
        resolved(options, base).memory_cost == match options.memory_cost {
            Some(memory_cost) => memory_cost,
            None => base.memory_cost,
        },
        resolved(options, base).time_cost == match options.time_cost {
            Some(time_cost) => time_cost,
            None => base.time_cost,
        },
        resolved(options, base).lanes == match options.lanes {
            Some(lanes) => lanes,
            None => base.lanes,
        },
        resolved(options, base).hash_length == match options.hash_length {
            Some(hash_length) => hash_length,
            None => base.hash_length,
        },
        resolved(options, base).variant == match options.variant {
            Some(name) => match variant_named(name) {
                Some(variant) => variant,
                None => base.variant,
            },
            None => base.variant,
        },
        resolved(options, base).version == match options.version {
            Some(name) => match version_named(name) {
                Some(version) => version,
                None => base.version,
            },
            None => base.version,
        },
        resolved(options, base).thread_mode == match options.thread_mode {
            Some(number) => match thread_mode_numbered(number) {
                Some(thread_mode) => thread_mode,
                None => base.thread_mode,
            },
            None => base.thread_mode,
        },
{
}

/// A variant or version of an unknown name, and a thread mode that is no
/// known number, resolve as if the field had been left out.
pub proof fn lemma_unrecognized_as_absent(options: OptionsView, base: ConfigView)
    ensures
        options.variant matches Some(name) && variant_named(name) is None ==> resolved(
            options,
            base,
        ) == resolved(OptionsView { variant: None, ..options }, base),
        options.version matches Some(name) && version_named(name) is None ==> resolved(
            options,
            base,
        ) == resolved(OptionsView { version: None, ..options }, base),
        options.thread_mode matches Some(number) && thread_mode_numbered(number) is None
            ==> resolved(options, base) == resolved(
            OptionsView { thread_mode: None, ..options },
            base,
        ),
{
}

} // verus!
