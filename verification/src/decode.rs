//! Decoding of requests: from a JSON value to typed parameters.
//!
//! A hash request is an object `{ password, options }`, where `options` is
//! an object that holds the salt and any of the overrides. A verify request
//! is an object `{ password, hash }`. Members of other names are skipped.
//! Decoding checks that the required fields are there and that each field
//! has the type it should have; it does not look at what the numbers mean.
//!
//! Where a JSON text names a member twice, the reader keeps one member of
//! that name, with the value that came last, so in a payload the last
//! counts. A JSON value built in memory may still hold two members of one
//! name; of those the first counts.
//!
//! The thread mode is lenient beyond its type: any whole number is taken,
//! and one that the field cannot hold is dropped, since it names no thread
//! mode anyway.

use vstd::prelude::*;
use vstd::string::StrSliceExecFns;
use vstd::utf8::encode_utf8;
use crate::codec::{parsed, read_json};
use crate::config::{HashOptions, OptionsView};
use crate::config::{bytes_view, text_view};
use crate::json::{find_member, found_view, items_view, lemma_member_without, member};
use crate::json::{members_view, without};
use crate::json::{lemma_array_view, lemma_object_view, Json, JsonValue};

verus! {

/// A field of a request.
#[derive(Clone, Copy, Debug, PartialEq, Eq, Structural)]
pub enum Field {
    Password,
    Options,
    Salt,
    Secret,
    Data,
    Version,
    Variant,
    MemoryCost,
    TimeCost,
    Lanes,
    ThreadMode,
    HashLength,
    Hash,
}

impl Field {
    /// The name under which the field stands in a request.
    pub open spec fn name(self) -> Seq<char> {
        match self {
            Field::Password => "password"@,
            Field::Options => "options"@,
            Field::Salt => "salt"@,
            Field::Secret => "secret"@,
            Field::Data => "data"@,
            Field::Version => "version"@,
            Field::Variant => "variant"@,
            Field::MemoryCost => "memoryCost"@,
            Field::TimeCost => "timeCost"@,
            Field::Lanes => "lanes"@,
            Field::ThreadMode => "threadMode"@,
            Field::HashLength => "hashLength"@,
            Field::Hash => "hash"@,
        }
    }

    /// The name under which the field stands in a request.
    pub fn key(self) -> (key: &'static str)
        ensures
            key@ == self.name(),
    {
        match self {
            Field::Password => "password",
            Field::Options => "options",
            Field::Salt => "salt",
            Field::Secret => "secret",
            Field::Data => "data",
            Field::Version => "version",
            Field::Variant => "variant",
            Field::MemoryCost => "memoryCost",
            Field::TimeCost => "timeCost",
            Field::Lanes => "lanes",
            Field::ThreadMode => "threadMode",
            Field::HashLength => "hashLength",
            Field::Hash => "hash",
        }
    }
}

/// Why a payload is not a request.
#[derive(Clone, Debug, PartialEq, Eq)]
pub enum DecodeError {
    /// The payload is not well-formed JSON. Holds the words of the parser.
    Malformed(String),
    /// The payload is JSON, but not an object.
    NotAnObject,
    /// A required field is absent.
    Missing(Field),
    /// A field holds a value of another type than its own, or a number out
    /// of its range.
    Invalid(Field),
}

/// The mathematical value of a [`DecodeError`].
pub enum DecodeErrorView {
    Malformed(Seq<char>),
    NotAnObject,
    Missing(Field),
    Invalid(Field),
}

impl View for DecodeError {
    type V = DecodeErrorView;

    open spec fn view(&self) -> DecodeErrorView {
        match self {
            DecodeError::Malformed(message) => DecodeErrorView::Malformed(message@),
            DecodeError::NotAnObject => DecodeErrorView::NotAnObject,
            DecodeError::Missing(field) => DecodeErrorView::Missing(*field),
            DecodeError::Invalid(field) => DecodeErrorView::Invalid(*field),
        }
    }
}

impl DecodeErrorView {
    /// The error in words.
    pub open spec fn message(self) -> Seq<char> {
        match self {
            DecodeErrorView::Malformed(message) => message,
            DecodeErrorView::NotAnObject => "invalid request: expected an object"@,
            DecodeErrorView::Missing(field) => "missing field `"@ + field.name() + "`"@,
            DecodeErrorView::Invalid(field) => "invalid value for field `"@ + field.name() + "`"@,
        }
    }
}

impl DecodeError {
    /// The error in words.
    pub fn message(&self) -> (message: String)
        ensures
            message@ == self@.message(),
    {
        match self {
            DecodeError::Malformed(message) => message.clone(),
            DecodeError::NotAnObject => "invalid request: expected an object".to_owned(),
            DecodeError::Missing(field) => "missing field `".to_owned().concat(field.key()).concat(
                "`",
            ),
            DecodeError::Invalid(field) => "invalid value for field `".to_owned().concat(
                field.key(),
            ).concat("`"),
        }
    }
}

/// The parameters of a hash request.
#[derive(Clone, Debug, PartialEq, Eq)]
pub struct HashParams {
    pub password: String,
    pub options: HashOptions,
}

/// The mathematical value of a [`HashParams`].
pub struct HashParamsView {
    pub password: Seq<char>,
    pub options: OptionsView,
}

impl View for HashParams {
    type V = HashParamsView;

    open spec fn view(&self) -> HashParamsView {
        HashParamsView { password: self.password@, options: self.options@ }
    }
}

/// The parameters of a verify request.
#[derive(Clone, Debug, PartialEq, Eq)]
pub struct VerifyParams {
    pub password: String,
    /// The encoded hash that a hash request produced.
    pub hash: String,
}

/// The mathematical value of a [`VerifyParams`].
pub struct VerifyParamsView {
    pub password: Seq<char>,
    pub hash: Seq<char>,
}

impl View for VerifyParams {
    type V = VerifyParamsView;

    open spec fn view(&self) -> VerifyParamsView {
        VerifyParamsView { password: self.password@, hash: self.hash@ }
    }
}

/// The text that a value is, if it is one.
pub open spec fn as_text(value: JsonValue) -> Option<Seq<char>> {
    match value {
        JsonValue::Text(text) => Some(text),
        _ => None,
    }
}

/// The number that a value is, if it is a whole number from 0 to `max`.
pub open spec fn as_number(value: JsonValue, max: int) -> Option<int> {
    match value {
        JsonValue::Integer(i) => if 0 <= i <= max {
            Some(i)
        } else {
            None
        },
        _ => None,
    }
}

/// The byte string that a value is: a list of numbers from 0 to 255 stands
/// for those bytes, and a text for its UTF-8 bytes.
pub open spec fn as_bytes(value: JsonValue) -> Option<Seq<u8>> {
    match value {
        JsonValue::List(items) => if forall|i: int|
            0 <= i < items.len() ==> as_number(#[trigger] items[i], 255) is Some {
            Some(Seq::new(items.len(), |i: int| as_number(items[i], 255).unwrap() as u8))
        } else {
            None
        },
        JsonValue::Text(text) => Some(encode_utf8(text)),
        _ => None,
    }
}

/// A field that must be there, given what was found under its name and
/// what that was decoded to.
pub open spec fn required<T>(found: Option<JsonValue>, decoded: Option<T>, field: Field) -> Result<
    T,
    DecodeErrorView,
> {
    if found is None {
        Err(DecodeErrorView::Missing(field))
    } else if decoded is None {
        Err(DecodeErrorView::Invalid(field))
    } else {
        Ok(decoded.unwrap())
    }
}

/// A field that may be left out, or be `null`, given what was found under
/// its name and what that was decoded to.
pub open spec fn optional<T>(found: Option<JsonValue>, decoded: Option<T>, field: Field) -> Result<
    Option<T>,
    DecodeErrorView,
> {
    if found is None || found == Some(JsonValue::Null) {
        Ok(None)
    } else if decoded is None {
        Err(DecodeErrorView::Invalid(field))
    } else {
        Ok(decoded)
    }
}

/// What is decoded from the value found for a text.
pub open spec fn decoded_text(found: Option<JsonValue>) -> Option<Seq<char>> {
    match found {
        Some(value) => as_text(value),
        None => None,
    }
}

/// What is decoded from the value found for a byte string.
pub open spec fn decoded_bytes(found: Option<JsonValue>) -> Option<Seq<u8>> {
    match found {
        Some(value) => as_bytes(value),
        None => None,
    }
}

/// What is decoded from the value found for a 32-bit number.
pub open spec fn decoded_u32(found: Option<JsonValue>) -> Option<u32> {
    match found {
        Some(value) => match as_number(value, u32::MAX as int) {
            Some(i) => Some(i as u32),
            None => None,
        },
        None => None,
    }
}

/// What is decoded from the value found for an 8-bit number.
pub open spec fn decoded_u8(found: Option<JsonValue>) -> Option<u8> {
    match found {
        Some(value) => match as_number(value, u8::MAX as int) {
            Some(i) => Some(i as u8),
            None => None,
        },
        None => None,
    }
}

/// A required text, as it stands among `members`.
pub open spec fn text_field(members: Seq<(Seq<char>, JsonValue)>, field: Field) -> Result<
    Seq<char>,
    DecodeErrorView,
> {
    let found = member(members, field.name());
    required(found, decoded_text(found), field)
}

/// A required byte string, as it stands among `members`.
pub open spec fn bytes_field(members: Seq<(Seq<char>, JsonValue)>, field: Field) -> Result<
    Seq<u8>,
    DecodeErrorView,
> {
    let found = member(members, field.name());
    required(found, decoded_bytes(found), field)
}

/// An optional text, as it stands among `members`.
pub open spec fn optional_text_field(members: Seq<(Seq<char>, JsonValue)>, field: Field) -> Result<
    Option<Seq<char>>,
    DecodeErrorView,
> {
    let found = member(members, field.name());
    optional(found, decoded_text(found), field)
}

/// An optional byte string, as it stands among `members`.
pub open spec fn optional_bytes_field(members: Seq<(Seq<char>, JsonValue)>, field: Field) -> Result<
    Option<Seq<u8>>,
    DecodeErrorView,
> {
    let found = member(members, field.name());
    optional(found, decoded_bytes(found), field)
}

/// An optional 32-bit number, as it stands among `members`.
pub open spec fn optional_u32_field(members: Seq<(Seq<char>, JsonValue)>, field: Field) -> Result<
    Option<u32>,
    DecodeErrorView,
> {
    let found = member(members, field.name());
    optional(found, decoded_u32(found), field)
}

/// What is decoded from the value found for the thread mode: any whole
/// number will do, and one from 0 to 255 is kept.
pub open spec fn decoded_thread_mode(found: Option<JsonValue>) -> Option<Option<u8>> {
    match found {
        Some(JsonValue::Integer(_)) => Some(decoded_u8(found)),
        _ => None,
    }
}

/// The thread mode, as it stands among `members`.
pub open spec fn thread_mode_field(members: Seq<(Seq<char>, JsonValue)>) -> Result<
    Option<u8>,
    DecodeErrorView,
> {
    let found = member(members, Field::ThreadMode.name());
    match optional(found, decoded_thread_mode(found), Field::ThreadMode) {
        Ok(Some(kept)) => Ok(kept),
        Ok(None) => Ok(None),
        Err(error) => Err(error),
    }
}

/// Decodes what was found for a text.
fn text_of(found: Option<&Json>) -> (decoded: Option<String>)
    ensures
        text_view(decoded) == decoded_text(found_view(found)),
{
    match found {
        Some(Json::String(text)) => Some(text.clone()),
        _ => None,
    }
}

/// Decodes what was found for a 32-bit number.
fn u32_of(found: Option<&Json>) -> (decoded: Option<u32>)
    ensures
        decoded == decoded_u32(found_view(found)),
{
    match found {
        Some(Json::Integer(i)) => if 0 <= *i && *i <= u32::MAX as i128 {
            Some(*i as u32)
        } else {
            None
        },
        _ => None,
    }
}

/// Decodes what was found for an 8-bit number.
fn u8_of(found: Option<&Json>) -> (decoded: Option<u8>)
    ensures
        decoded == decoded_u8(found_view(found)),
{
    match found {
        Some(Json::Integer(i)) => if 0 <= *i && *i <= u8::MAX as i128 {
            Some(*i as u8)
        } else {
            None
        },
        _ => None,
    }
}

/// Decodes what was found for the thread mode.
fn thread_mode_of(found: Option<&Json>) -> (decoded: Option<Option<u8>>)
    ensures
        decoded == decoded_thread_mode(found_view(found)),
{
    match found {
        Some(Json::Integer(_)) => Some(u8_of(found)),
        _ => None,
    }
}

/// Decodes what was found for a byte string.
fn bytes_of(found: Option<&Json>) -> (decoded: Option<Vec<u8>>)
    ensures
        bytes_view(decoded) == decoded_bytes(found_view(found)),
{
    match found {
        Some(Json::Array(items)) => {
            proof {
                lemma_array_view(*items);
            }
            let ghost list = items_view(items@);
            let mut bytes: Vec<u8> = Vec::with_capacity(items.len());
            let mut i: usize = 0;
            while i < items.len()
                invariant
                    i <= items.len(),
                    list == items_view(items@),
                    found_view(found) == Some(JsonValue::List(list)),
                    bytes@.len() == i,
                    forall|k: int| 0 <= k < i ==> as_number(#[trigger] list[k], 255) is Some,
                    forall|k: int|
                        0 <= k < i ==> #[trigger] bytes@[k] == as_number(list[k], 255).unwrap() as u8,
                decreases items.len() - i,
            {
                match u8_of(Some(&items[i])) {
                    Some(byte) => {
                        bytes.push(byte);
                    },
                    None => {
                        assert(as_number(list[i as int], 255) is None);
                        return None;
                    },
                }
                i += 1;
            }
            assert(bytes@ =~= decoded_bytes(found_view(found)).unwrap());
            Some(bytes)
        },
        Some(Json::String(text)) => Some(text.as_str().as_bytes_vec()),
        _ => None,
    }
}

/// Settles a required field, given what was found under its name and what
/// that was decoded to.
fn require<T>(found: Option<&Json>, decoded: Option<T>, field: Field) -> (read: Result<
    T,
    DecodeError,
>)
    ensures
        match read {
            Ok(value) => required(found_view(found), decoded, field) == Ok::<T, DecodeErrorView>(
                value,
            ),
            Err(error) => required(found_view(found), decoded, field) == Err::<T, DecodeErrorView>(
                error@,
            ),
        },
{
    if found.is_none() {
        return Err(DecodeError::Missing(field));
    }
    match decoded {
        Some(value) => Ok(value),
        None => Err(DecodeError::Invalid(field)),
    }
}

/// Settles an optional field, given what was found under its name and what
/// that was decoded to.
fn allow<T>(found: Option<&Json>, decoded: Option<T>, field: Field) -> (read: Result<
    Option<T>,
    DecodeError,
>)
    ensures
        match read {
            Ok(value) => optional(found_view(found), decoded, field) == Ok::<
                Option<T>,
                DecodeErrorView,
            >(value),
            Err(error) => optional(found_view(found), decoded, field) == Err::<
                Option<T>,
                DecodeErrorView,
            >(error@),
        },
{
    match found {
        None => Ok(None),
        Some(Json::Null) => Ok(None),
        Some(_) => match decoded {
            Some(value) => Ok(Some(value)),
            None => Err(DecodeError::Invalid(field)),
        },
    }
}

/// The options that a JSON value spells. The fields are read in the order
/// in which they stand here, and the first that fails gives the error.
pub open spec fn options_of(value: JsonValue) -> Result<OptionsView, DecodeErrorView> {
    match value {
        JsonValue::Record(members) => {
            let salt = bytes_field(members, Field::Salt);
            let secret = optional_bytes_field(members, Field::Secret);
            let data = optional_bytes_field(members, Field::Data);
            let version = optional_text_field(members, Field::Version);
            let variant = optional_text_field(members, Field::Variant);
            let memory_cost = optional_u32_field(members, Field::MemoryCost);
            let time_cost = optional_u32_field(members, Field::TimeCost);
            let lanes = optional_u32_field(members, Field::Lanes);
            let thread_mode = thread_mode_field(members);
            let hash_length = optional_u32_field(members, Field::HashLength);
            if salt is Err {
                Err(salt->Err_0)
            } else if secret is Err {
                Err(secret->Err_0)
            } else if data is Err {
                Err(data->Err_0)
            } else if version is Err {
                Err(version->Err_0)
            } else if variant is Err {
                Err(variant->Err_0)
            } else if memory_cost is Err {
                Err(memory_cost->Err_0)
            } else if time_cost is Err {
                Err(time_cost->Err_0)
            } else if lanes is Err {
                Err(lanes->Err_0)
            } else if thread_mode is Err {
                Err(thread_mode->Err_0)
            } else if hash_length is Err {
                Err(hash_length->Err_0)
            } else {
                Ok(
                    OptionsView {
                        salt: salt->Ok_0,
                        secret: secret->Ok_0,
                        data: data->Ok_0,
                        version: version->Ok_0,
                        variant: variant->Ok_0,
                        memory_cost: memory_cost->Ok_0,
                        time_cost: time_cost->Ok_0,
                        lanes: lanes->Ok_0,
                        thread_mode: thread_mode->Ok_0,
                        hash_length: hash_length->Ok_0,
                    },
                )
            }
        },
        _ => Err(DecodeErrorView::Invalid(Field::Options)),
    }
}

/// The hash request that a JSON value spells: the password first, then the
/// options.
pub open spec fn hash_params_of(value: JsonValue) -> Result<HashParamsView, DecodeErrorView> {
    match value {
        JsonValue::Record(members) => {
            let password = text_field(members, Field::Password);
            let options = match member(members, Field::Options.name()) {
                Some(inner) => options_of(inner),
                None => Err(DecodeErrorView::Missing(Field::Options)),
            };
            if password is Err {
                Err(password->Err_0)
            } else if options is Err {
                Err(options->Err_0)
            } else {
                Ok(HashParamsView { password: password->Ok_0, options: options->Ok_0 })
            }
        },
        _ => Err(DecodeErrorView::NotAnObject),
    }
}

/// The verify request that a JSON value spells: the password first, then
/// the encoded hash.
pub open spec fn verify_params_of(value: JsonValue) -> Result<VerifyParamsView, DecodeErrorView> {
    match value {
        JsonValue::Record(members) => {
            let password = text_field(members, Field::Password);
            let hash = text_field(members, Field::Hash);
            if password is Err {
                Err(password->Err_0)
            } else if hash is Err {
                Err(hash->Err_0)
            } else {
                Ok(VerifyParamsView { password: password->Ok_0, hash: hash->Ok_0 })
            }
        },
        _ => Err(DecodeErrorView::NotAnObject),
    }
}

/// The error for a JSON value that spells no object with a password.
pub open spec fn missing_password(value: JsonValue) -> DecodeErrorView {
    if value is Record {
        DecodeErrorView::Missing(Field::Password)
    } else {
        DecodeErrorView::NotAnObject
    }
}

/// The hash request that a payload spells.
pub open spec fn hash_request(payload: Seq<u8>) -> Result<HashParamsView, DecodeErrorView> {
    match parsed(payload) {
        Ok(value) => hash_params_of(value),
        Err(message) => Err(DecodeErrorView::Malformed(message)),
    }
}

/// The verify request that a payload spells.
pub open spec fn verify_request(payload: Seq<u8>) -> Result<VerifyParamsView, DecodeErrorView> {
    match parsed(payload) {
        Ok(value) => verify_params_of(value),
        Err(message) => Err(DecodeErrorView::Malformed(message)),
    }
}

/// The value of what a decoder returns.
pub open spec fn decoded_view<T: View>(decoded: Result<T, DecodeError>) -> Result<
    T::V,
    DecodeErrorView,
> {
    match decoded {
        Ok(value) => Ok(value@),
        Err(error) => Err(error@),
    }
}

/// Decodes the options of a hash request.
pub fn options_from_json(json: &Json) -> (decoded: Result<HashOptions, DecodeError>)
    ensures
        decoded_view(decoded) == options_of(json@),
{
    match json {
        Json::Object(members) => {
            proof {
                lemma_object_view(*members);
            }
            let found = find_member(members, Field::Salt.key());
            let salt = require(found, bytes_of(found), Field::Salt)?;
            let found = find_member(members, Field::Secret.key());
            let secret = allow(found, bytes_of(found), Field::Secret)?;
            let found = find_member(members, Field::Data.key());
            let data = allow(found, bytes_of(found), Field::Data)?;
            let found = find_member(members, Field::Version.key());
            let version = allow(found, text_of(found), Field::Version)?;
            let found = find_member(members, Field::Variant.key());
            let variant = allow(found, text_of(found), Field::Variant)?;
            let found = find_member(members, Field::MemoryCost.key());
            let memory_cost = allow(found, u32_of(found), Field::MemoryCost)?;
            let found = find_member(members, Field::TimeCost.key());
            let time_cost = allow(found, u32_of(found), Field::TimeCost)?;
            let found = find_member(members, Field::Lanes.key());
            let lanes = allow(found, u32_of(found), Field::Lanes)?;
            let found = find_member(members, Field::ThreadMode.key());
            let thread_mode = match allow(found, thread_mode_of(found), Field::ThreadMode)? {
                Some(kept) => kept,
                None => None,
            };
            let found = find_member(members, Field::HashLength.key());
            let hash_length = allow(found, u32_of(found), Field::HashLength)?;
            Ok(
                HashOptions {
                    salt,
                    secret,
                    data,
                    version,
                    variant,
                    memory_cost,
                    time_cost,
                    lanes,
                    thread_mode,
                    hash_length,
                },
            )
        },
        _ => Err(DecodeError::Invalid(Field::Options)),
    }
}

/// Decodes a hash request from a JSON value.
pub fn hash_params_from_json(json: &Json) -> (decoded: Result<HashParams, DecodeError>)
    ensures
        decoded_view(decoded) == hash_params_of(json@),
{
    match json {
        Json::Object(members) => {
            proof {
                lemma_object_view(*members);
            }
            let found = find_member(members, Field::Password.key());
            let password = require(found, text_of(found), Field::Password)?;
            let options = match find_member(members, Field::Options.key()) {
                Some(inner) => options_from_json(inner)?,
                None => { return Err(DecodeError::Missing(Field::Options)); },
            };
            Ok(HashParams { password, options })
        },
        _ => Err(DecodeError::NotAnObject),
    }
}

/// Decodes a verify request from a JSON value.
pub fn verify_params_from_json(json: &Json) -> (decoded: Result<VerifyParams, DecodeError>)
    ensures
        decoded_view(decoded) == verify_params_of(json@),
{
    match json {
        Json::Object(members) => {
            proof {
                lemma_object_view(*members);
            }
            let found = find_member(members, Field::Password.key());
            let password = require(found, text_of(found), Field::Password)?;
            let found = find_member(members, Field::Hash.key());
            let hash = require(found, text_of(found), Field::Hash)?;
            Ok(VerifyParams { password, hash })
        },
        _ => Err(DecodeError::NotAnObject),
    }
}

/// Decodes the payload of a hash request.
pub fn decode_hash_params(payload: &[u8]) -> (decoded: Result<HashParams, DecodeError>)
    ensures
        decoded_view(decoded) == hash_request(payload@),
        decoded matches Err(error) ==> error@.message().len() > 0,
{
    match read_json(payload) {
        Ok(json) => {
            let decoded = hash_params_from_json(&json);
            proof {
                if decoded is Err {
                    lemma_shape_message(decoded->Err_0@);
                }
            }
            decoded
        },
        Err(message) => Err(DecodeError::Malformed(message)),
    }
}

/// Decodes the payload of a verify request.
pub fn decode_verify_params(payload: &[u8]) -> (decoded: Result<VerifyParams, DecodeError>)
    ensures
        decoded_view(decoded) == verify_request(payload@),
        decoded matches Err(error) ==> error@.message().len() > 0,
{
    match read_json(payload) {
        Ok(json) => {
            let decoded = verify_params_from_json(&json);
            proof {
                if decoded is Err {
                    lemma_shape_message(decoded->Err_0@);
                }
            }
            decoded
        },
        Err(message) => Err(DecodeError::Malformed(message)),
    }
}

/// An error about the shape of a request has words.
pub proof fn lemma_shape_message(error: DecodeErrorView)
    requires
        !(error is Malformed),
    ensures
        error.message().len() > 0,
{
    reveal_strlit("invalid request: expected an object");
    reveal_strlit("missing field `");
    reveal_strlit("invalid value for field `");
}

/// No two fields of the options have one name.
pub proof fn lemma_option_names_differ()
    ensures
        forall|a: Field, b: Field|
            a != b && a != Field::Password && a != Field::Options && a != Field::Hash && b
                != Field::Password && b != Field::Options && b != Field::Hash ==> #[trigger] a.name()
                != #[trigger] b.name(),
{
    reveal_strlit("salt");
    reveal_strlit("secret");
    reveal_strlit("data");
    reveal_strlit("version");
    reveal_strlit("variant");
    reveal_strlit("memoryCost");
    reveal_strlit("timeCost");
    reveal_strlit("lanes");
    reveal_strlit("threadMode");
    reveal_strlit("hashLength");
    assert("salt"@[0] != "data"@[0]);
    assert("version"@[1] != "variant"@[1]);
    assert("memoryCost"@[0] != "threadMode"@[0]);
    assert("memoryCost"@[0] != "hashLength"@[0]);
    assert("threadMode"@[0] != "hashLength"@[0]);
    assert forall|a: Field, b: Field|
        a != b && a != Field::Password && a != Field::Options && a != Field::Hash && b
            != Field::Password && b != Field::Options && b != Field::Hash implies #[trigger] a.name()
        != #[trigger] b.name() by {
        if a.name().len() == b.name().len() {
            assert(a.name()[0] != b.name()[0] || a.name()[1] != b.name()[1]);
        }
    }
}

/// Whether `field` is one of the three that take values which stand for
/// nothing, and holds, among `members`, a value of its type: a text for the
/// variant or the version, a whole number for the thread mode.
pub open spec fn lenient(members: Seq<(Seq<char>, JsonValue)>, field: Field) -> bool {
    match field {
        Field::Variant | Field::Version => member(members, field.name()) matches Some(
            JsonValue::Text(_),
        ),
        Field::ThreadMode => member(members, field.name()) matches Some(JsonValue::Integer(_)),
        _ => false,
    }
}

/// The options without one of the three fields that take values which
/// stand for nothing.
pub open spec fn cleared(options: OptionsView, field: Field) -> OptionsView {
    match field {
        Field::Variant => OptionsView { variant: None, ..options },
        Field::Version => OptionsView { version: None, ..options },
        Field::ThreadMode => OptionsView { thread_mode: None, ..options },
        _ => options,
    }
}

/// Whatever text stands for the variant or the version, and whatever whole
/// number for the thread mode, the options decode as they do without that
/// member, but for the field itself: to the same error, or to the same
/// options with the field left out. So a value that stands for nothing never
/// makes the decoding fail.
pub proof fn lemma_options_without(members: Seq<(Seq<char>, JsonValue)>, gone: Field)
    requires
        lenient(members, gone),
    ensures
        options_of(JsonValue::Record(without(members, gone.name()))) == match options_of(
            JsonValue::Record(members),
        ) {
            Ok(options) => Ok::<OptionsView, DecodeErrorView>(cleared(options, gone)),
            Err(error) => Err::<OptionsView, DecodeErrorView>(error),
        },
{
    lemma_option_names_differ();
    lemma_fields_without(members, gone);
}

/// Without the members called like `gone`, that field is absent and every
/// other field of the options is found as before.
proof fn lemma_fields_without(members: Seq<(Seq<char>, JsonValue)>, gone: Field)
    requires
        forall|field: Field|
            field != gone && field != Field::Password && field != Field::Options && field
                != Field::Hash ==> #[trigger] field.name() != gone.name(),
    ensures
        member(without(members, gone.name()), gone.name()) is None,
        forall|field: Field|
            field != gone && field != Field::Password && field != Field::Options && field
                != Field::Hash ==> member(without(members, gone.name()), #[trigger] field.name())
                == member(members, field.name()),
{
    lemma_member_without(members, gone.name(), gone.name());
    assert forall|field: Field|
        field != gone && field != Field::Password && field != Field::Options && field
            != Field::Hash implies member(without(members, gone.name()), #[trigger] field.name())
        == member(members, field.name()) by {
        lemma_member_without(members, gone.name(), field.name());
    }
}

/// A text for the variant or the version, and a whole number for the thread
/// mode, always decode.
pub proof fn lemma_lenient_fields(members: Seq<(Seq<char>, JsonValue)>)
    ensures
        member(members, Field::Variant.name()) matches Some(JsonValue::Text(name))
            ==> optional_text_field(members, Field::Variant) == Ok::<
            Option<Seq<char>>,
            DecodeErrorView,
        >(Some(name)),
        member(members, Field::Version.name()) matches Some(JsonValue::Text(name))
            ==> optional_text_field(members, Field::Version) == Ok::<
            Option<Seq<char>>,
            DecodeErrorView,
        >(Some(name)),
        member(members, Field::ThreadMode.name()) matches Some(JsonValue::Integer(i)) ==> (
        thread_mode_field(members) == Ok::<Option<u8>, DecodeErrorView>(
            if 0 <= i <= 255 {
                Some(i as u8)
            } else {
                None
            },
        )),
{
}

} // verus!
