//! The two commands, hash and verify, from a request to its framed reply.

use vstd::prelude::*;
use vstd::string::StrSliceExecFns;
use vstd::utf8::{decode_utf8, encode_utf8};
use crate::codec::{parsed, spells, write_json, written};
use crate::config::{lemma_unrecognized_as_absent, resolve_config, resolved, sequential};
use crate::config::text_view;
use crate::config::{thread_mode_numbered, variant_named, version_named};
use crate::config::{ConfigView, HashOptions, OptionsView, ResolvedConfig};
use crate::decode::{decode_hash_params, decode_verify_params, hash_request, verify_request};
use crate::decode::{hash_params_of, lemma_lenient_fields, lemma_options_without, options_of};
use crate::decode::{lemma_shape_message, missing_password, DecodeError, DecodeErrorView, Field};
use crate::decode::{text_field, HashParamsView, VerifyParamsView};
use crate::frame::{fits, frame_of, frame_text, frame_view, lemma_frame_round_trip, unframed};
use crate::json::{distinct_names, items_view, lemma_array_view, lemma_object_view, member};
use crate::json::{members_view, without, writable};
use crate::json::{Json, JsonValue, MAX_DEPTH};
use crate::primitive::{argon2_hash_encoded, argon2_verify_encoded};
use crate::primitive::{default_config, encoded_hash, rejection, verification};

verus! {

/// Why a command failed.
#[derive(Clone, Debug, PartialEq, Eq)]
pub enum Error {
    /// The payload is not a request.
    Decode(DecodeError),
    /// Argon2 rejected the configuration or the encoded hash. Holds its
    /// words.
    Algorithm(String),
}

/// The mathematical value of an [`Error`].
pub enum ErrorView {
    Decode(DecodeErrorView),
    Algorithm(Seq<char>),
}

impl View for Error {
    type V = ErrorView;

    open spec fn view(&self) -> ErrorView {
        match self {
            Error::Decode(error) => ErrorView::Decode(error@),
            Error::Algorithm(message) => ErrorView::Algorithm(message@),
        }
    }
}

impl ErrorView {
    /// The error in words.
    pub open spec fn message(self) -> Seq<char> {
        match self {
            ErrorView::Decode(error) => error.message(),
            ErrorView::Algorithm(message) => message,
        }
    }
}

impl Error {
    /// The error in words, as it goes into the `error` field of a reply.
    pub fn message(&self) -> (message: String)
        ensures
            message@ == self@.message(),
    {
        match self {
            Error::Decode(error) => error.message(),
            Error::Algorithm(message) => message.clone(),
        }
    }
}

/// The reply to a hash request. On success `result` holds the encoded hash
/// and `error` is absent; on failure `result` is empty and `error` says why.
#[derive(Clone, Debug, PartialEq, Eq)]
pub struct HashResult {
    pub result: Vec<u8>,
    pub error: Option<String>,
}

/// The mathematical value of a [`HashResult`].
pub struct HashResultView {
    pub result: Seq<u8>,
    pub error: Option<Seq<char>>,
}

impl View for HashResult {
    type V = HashResultView;

    open spec fn view(&self) -> HashResultView {
        HashResultView { result: self.result@, error: text_view(self.error) }
    }
}

/// The reply to a verify request. `result` says whether the password
/// belongs to the hash. On failure it is `false` and `error` says why.
#[derive(Clone, Debug, PartialEq, Eq)]
pub struct VerifyResult {
    pub result: bool,
    pub error: Option<String>,
}

/// The mathematical value of a [`VerifyResult`].
pub struct VerifyResultView {
    pub result: bool,
    pub error: Option<Seq<char>>,
}

impl View for VerifyResult {
    type V = VerifyResultView;

    open spec fn view(&self) -> VerifyResultView {
        VerifyResultView { result: self.result, error: text_view(self.error) }
    }
}

/// The value of the outcome of hashing.
pub open spec fn hashed_view(outcome: Result<String, Error>) -> Result<Seq<char>, ErrorView> {
    match outcome {
        Ok(encoded) => Ok(encoded@),
        Err(error) => Err(error@),
    }
}

/// The value of the outcome of verifying.
pub open spec fn verified_view(outcome: Result<bool, Error>) -> Result<bool, ErrorView> {
    match outcome {
        Ok(matches) => Ok(matches),
        Err(error) => Err(error@),
    }
}

/// What hashing `password` under `options` gives: the overrides are
/// resolved against the defaults of Argon2, and the password's UTF-8 bytes
/// are hashed with the salt, unless Argon2 rejects the lengths or the
/// configuration. Argon2 is handed the resolved configuration in sequential
/// mode, so the thread mode has no say in the outcome.
pub open spec fn hash_outcome(password: Seq<char>, options: OptionsView) -> Result<
    Seq<char>,
    ErrorView,
> {
    let config = resolved(options, default_config());
    let bytes = encode_utf8(password);
    match rejection(bytes.len(), options.salt.len(), config) {
        Some(message) => Err(ErrorView::Algorithm(message)),
        None => Ok(encoded_hash(bytes, options.salt, sequential(config))),
    }
}

/// What the hash command gives for a request that was decoded, or was not.
pub open spec fn hash_decoded(request: Result<HashParamsView, DecodeErrorView>) -> Result<
    Seq<char>,
    ErrorView,
> {
    match request {
        Ok(params) => hash_outcome(params.password, params.options),
        Err(error) => Err(ErrorView::Decode(error)),
    }
}

/// What the hash command gives for a payload.
pub open spec fn hash_command(payload: Seq<u8>) -> Result<Seq<char>, ErrorView> {
    hash_decoded(hash_request(payload))
}

/// What verifying `password` against `encoded` gives: the answer of Argon2
/// on this machine for the encoded hash and the password's UTF-8 bytes,
/// where an error holds its words.
pub open spec fn verify_outcome(encoded: Seq<char>, password: Seq<char>) -> Result<
    bool,
    ErrorView,
> {
    match verification(encoded, encode_utf8(password), usize::BITS as nat) {
        Ok(matches) => Ok(matches),
        Err(words) => Err(ErrorView::Algorithm(words)),
    }
}

/// What the verify command gives for a request that was decoded, or was
/// not.
pub open spec fn verify_decoded(request: Result<VerifyParamsView, DecodeErrorView>) -> Result<
    bool,
    ErrorView,
> {
    match request {
        Ok(params) => verify_outcome(params.hash, params.password),
        Err(error) => Err(ErrorView::Decode(error)),
    }
}

/// What the verify command gives for a payload.
pub open spec fn verify_command(payload: Seq<u8>) -> Result<bool, ErrorView> {
    verify_decoded(verify_request(payload))
}

/// The reply that carries the outcome of hashing.
pub open spec fn hash_reply(outcome: Result<Seq<char>, ErrorView>) -> HashResultView {
    match outcome {
        Ok(encoded) => HashResultView { result: encode_utf8(encoded), error: None },
        Err(error) => HashResultView { result: Seq::empty(), error: Some(error.message()) },
    }
}

/// The reply that carries the outcome of verifying.
pub open spec fn verify_reply(outcome: Result<bool, ErrorView>) -> VerifyResultView {
    match outcome {
        Ok(matches) => VerifyResultView { result: matches, error: None },
        Err(error) => VerifyResultView { result: false, error: Some(error.message()) },
    }
}

/// Argon2 has words for every rejection.
pub proof fn lemma_rejection_message(password_len: nat, salt_len: nat, config: ConfigView)
    ensures
        rejection(password_len, salt_len, config) matches Some(message) ==> message.len() > 0,
{
    reveal_strlit("Too few lanes");
    reveal_strlit("Too many lanes");
    reveal_strlit("Memory cost is too small");
    reveal_strlit("Memory cost is too large");
    reveal_strlit("Time cost is too small");
    reveal_strlit("Password is too long");
    reveal_strlit("Salt is too short");
    reveal_strlit("Salt is too long");
    reveal_strlit("Secret is too long");
    reveal_strlit("Associated data is too long");
    reveal_strlit("Output is too short");
}

/// Hashes `password` under `options`, in the calling thread.
pub fn hash_password(password: &str, options: &HashOptions) -> (outcome: Result<String, Error>)
    ensures
        hashed_view(outcome) == hash_outcome(password@, options@),
        outcome matches Ok(encoded) ==> encoded@.len() > 0,
        outcome matches Err(error) ==> error@.message().len() > 0,
{
    let config = resolve_config(options, ResolvedConfig::default()).in_sequence();
    let bytes = password.as_bytes();
    proof {
        lemma_rejection_message(bytes@.len(), options.salt@.len(), config@);
    }
    match argon2_hash_encoded(bytes, options.salt.as_slice(), &config) {
        Ok(encoded) => Ok(encoded),
        Err(message) => Err(Error::Algorithm(message)),
    }
}

/// Verifies `password` against the encoded hash `encoded`, in the calling
/// thread.
pub fn verify_password(encoded: &str, password: &str) -> (outcome: Result<bool, Error>)
    ensures
        verified_view(outcome) == verify_outcome(encoded@, password@),
        outcome matches Err(error) ==> error@.message().len() > 0,
{
    match argon2_verify_encoded(encoded, password.as_bytes()) {
        Ok(matches) => Ok(matches),
        Err(message) => Err(Error::Algorithm(message)),
    }
}

/// The hash command: decodes the payload, resolves the configuration and
/// hashes the password.
pub fn hash_internal(data_buf: &[u8]) -> (outcome: Result<String, Error>)
    ensures
        hashed_view(outcome) == hash_command(data_buf@),
        outcome matches Ok(encoded) ==> encoded@.len() > 0,
        outcome matches Err(error) ==> error@.message().len() > 0,
{
    match decode_hash_params(data_buf) {
        Ok(params) => hash_password(params.password.as_str(), &params.options),
        Err(error) => Err(Error::Decode(error)),
    }
}

/// The verify command: decodes the payload and verifies the password
/// against the encoded hash, which goes to Argon2 as it stands.
pub fn verify_internal(data_buf: &[u8]) -> (outcome: Result<bool, Error>)
    ensures
        verified_view(outcome) == verify_command(data_buf@),
        outcome matches Err(error) ==> error@.message().len() > 0,
{
    match decode_verify_params(data_buf) {
        Ok(params) => verify_password(params.hash.as_str(), params.password.as_str()),
        Err(error) => Err(Error::Decode(error)),
    }
}

/// The reply to a hash request with the given outcome.
pub fn hash_result(outcome: Result<String, Error>) -> (reply: HashResult)
    ensures
        reply@ == hash_reply(hashed_view(outcome)),
{
    match outcome {
        Ok(encoded) => HashResult { result: encoded.as_str().as_bytes_vec(), error: None },
        Err(error) => HashResult { result: Vec::new(), error: Some(error.message()) },
    }
}

/// The reply to a verify request with the given outcome.
pub fn verify_result(outcome: Result<bool, Error>) -> (reply: VerifyResult)
    ensures
        reply@ == verify_reply(verified_view(outcome)),
{
    match outcome {
        Ok(matches) => VerifyResult { result: matches, error: None },
        Err(error) => VerifyResult { result: false, error: Some(error.message()) },
    }
}

/// Hashes `password` under `options` and wraps the outcome in a reply. The
/// reply holds either a result that is not empty or an error that is not.
pub fn hash_with(password: &str, options: &HashOptions) -> (reply: HashResult)
    ensures
        reply@ == hash_reply(hash_outcome(password@, options@)),
        reply@.error is None ==> reply@.result.len() > 0,
        reply@.error matches Some(message) ==> message.len() > 0,
{
    let outcome = hash_password(password, options);
    proof {
        if outcome is Ok {
            lemma_utf8_not_empty(outcome->Ok_0@);
        }
    }
    hash_result(outcome)
}

/// Verifies `password` against `encoded` and wraps the outcome in a reply.
pub fn verify_with(encoded: &str, password: &str) -> (reply: VerifyResult)
    ensures
        reply@ == verify_reply(verify_outcome(encoded@, password@)),
        reply@.error matches Some(message) ==> message.len() > 0,
{
    verify_result(verify_password(encoded, password))
}

/// The UTF-8 bytes of a text that is not empty are not empty.
pub proof fn lemma_utf8_not_empty(text: Seq<char>)
    requires
        text.len() > 0,
    ensures
        encode_utf8(text).len() > 0,
{
}

/// A byte string as JSON: the list of its bytes as numbers.
pub open spec fn bytes_json(bytes: Seq<u8>) -> JsonValue {
    JsonValue::List(Seq::new(bytes.len(), |i: int| JsonValue::Integer(bytes[i] as int)))
}

/// The `error` field as JSON: the message, or `null` where there is none.
pub open spec fn error_json(error: Option<Seq<char>>) -> JsonValue {
    match error {
        Some(message) => JsonValue::Text(message),
        None => JsonValue::Null,
    }
}

/// A reply as JSON: an object of two members, `result` and `error`, in
/// this order.
pub open spec fn envelope(result: JsonValue, error: Option<Seq<char>>) -> JsonValue {
    JsonValue::Record(seq![("result"@, result), ("error"@, error_json(error))])
}

impl HashResultView {
    /// The reply as JSON.
    pub open spec fn json(self) -> JsonValue {
        envelope(bytes_json(self.result), self.error)
    }

    /// The reply that is sent in place of one that has no frame.
    pub open spec fn too_long() -> HashResultView {
        HashResultView { result: Seq::empty(), error: Some(too_long()) }
    }
}

impl VerifyResultView {
    /// The reply as JSON.
    pub open spec fn json(self) -> JsonValue {
        envelope(JsonValue::Bool(self.result), self.error)
    }

    /// The reply that is sent in place of one that has no frame.
    pub open spec fn too_long() -> VerifyResultView {
        VerifyResultView { result: false, error: Some(too_long()) }
    }
}

/// The frame in which a reply travels: its JSON text behind the length of
/// that text. A reply whose text is too long for the length field has none.
pub open spec fn reply_frame(json: JsonValue) -> Option<Seq<u8>> {
    frame_of(encode_utf8(written(json)))
}

/// The words of the reply that is sent in place of one that has no frame.
pub open spec fn too_long() -> Seq<char> {
    "the reply is too long for its frame"@
}

/// The reply that is sent: the reply itself where it has a frame, and
/// otherwise the one that says that it has none.
pub open spec fn sent(reply: JsonValue, instead: JsonValue) -> JsonValue {
    if reply_frame(reply) is Some {
        reply
    } else {
        instead
    }
}

/// The frame that answers a request: the frame of the reply that is sent.
/// `None` is left for the case that neither reply has a frame.
pub open spec fn answer(reply: JsonValue, instead: JsonValue) -> Option<Seq<u8>> {
    reply_frame(sent(reply, instead))
}

/// Whether `frame` reads back to `json`: the bytes behind its length field,
/// as many as that says, are JSON text that spells `json`.
pub open spec fn reads_back(frame: Seq<u8>, json: JsonValue) -> bool {
    unframed(frame) matches Some(text) && spells(text, json)
}

/// Puts a result and an error together as the JSON of a reply.
fn envelope_json(result: Json, error: &Option<String>) -> (json: Json)
    requires
        writable(result@, (MAX_DEPTH - 1) as nat),
    ensures
        json@ == envelope(result@, text_view(*error)),
        writable(json@, MAX_DEPTH as nat),
{
    let error_value = match error {
        Some(message) => Json::String(message.clone()),
        None => Json::Null,
    };
    let mut members: Vec<(String, Json)> = Vec::with_capacity(2);
    members.push(("result".to_owned(), result));
    members.push(("error".to_owned(), error_value));
    proof {
        reveal_strlit("result");
        reveal_strlit("error");
        lemma_object_view(members);
        let record = members_view(members@);
        assert(record =~= seq![("result"@, result@), ("error"@, error_json(text_view(*error)))]);
        assert("result"@.len() != "error"@.len());
        assert(distinct_names(record));
        assert(writable(record[1].1, (MAX_DEPTH - 1) as nat));
        assert forall|i: int| 0 <= i < record.len() implies writable(
            (#[trigger] record[i]).1,
            (MAX_DEPTH - 1) as nat,
        ) by {
            assert(i == 0 || i == 1);
        }
    }
    Json::Object(members)
}

impl HashResult {
    /// The reply as JSON.
    pub fn to_json(&self) -> (json: Json)
        ensures
            json@ == self@.json(),
            writable(json@, MAX_DEPTH as nat),
    {
        let mut items: Vec<Json> = Vec::with_capacity(self.result.len());
        let mut i: usize = 0;
        while i < self.result.len()
            invariant
                i <= self.result.len(),
                items@.len() == i,
                forall|k: int| 0 <= k < i ==> #[trigger] items@[k] == Json::Integer(self.result@[k] as i128),
            decreases self.result.len() - i,
        {
            items.push(Json::Integer(self.result[i] as i128));
            i += 1;
        }
        proof {
            lemma_array_view(items);
            let list = bytes_json(self.result@)->List_0;
            assert(items_view(items@) =~= list);
            assert forall|k: int| 0 <= k < list.len() implies writable(
                #[trigger] list[k],
                (MAX_DEPTH - 2) as nat,
            ) by {
                assert(list[k] == JsonValue::Integer(self.result@[k] as int));
            }
            assert(writable(JsonValue::List(list), (MAX_DEPTH - 1) as nat));
        }
        envelope_json(Json::Array(items), &self.error)
    }

    /// Writes the reply as JSON text and frames it, unless the text is too
    /// long to frame. The frame reads back to the reply.
    pub fn frame(&self) -> (frame: Option<Vec<u8>>)
        ensures
            frame_view(frame) == reply_frame(self@.json()),
            frame matches Some(bytes) ==> reads_back(bytes@, self@.json()),
    {
        let text = write_json(&self.to_json());
        proof {
            if fits(encode_utf8(text@)) {
                lemma_frame_round_trip(text@);
            }
        }
        frame_text(text.as_str())
    }
}

impl VerifyResult {
    /// The reply as JSON.
    pub fn to_json(&self) -> (json: Json)
        ensures
            json@ == self@.json(),
            writable(json@, MAX_DEPTH as nat),
    {
        envelope_json(Json::Bool(self.result), &self.error)
    }

    /// Writes the reply as JSON text and frames it, unless the text is too
    /// long to frame. The frame reads back to the reply.
    pub fn frame(&self) -> (frame: Option<Vec<u8>>)
        ensures
            frame_view(frame) == reply_frame(self@.json()),
            frame matches Some(bytes) ==> reads_back(bytes@, self@.json()),
    {
        let text = write_json(&self.to_json());
        proof {
            if fits(encode_utf8(text@)) {
                lemma_frame_round_trip(text@);
            }
        }
        frame_text(text.as_str())
    }
}

impl HashResult {
    /// The reply that is sent in place of one that has no frame.
    pub fn too_long() -> (reply: HashResult)
        ensures
            reply@ == HashResultView::too_long(),
    {
        let error = Some("the reply is too long for its frame".to_owned());
        HashResult { result: Vec::new(), error }
    }
}

impl VerifyResult {
    /// The reply that is sent in place of one that has no frame.
    pub fn too_long() -> (reply: VerifyResult)
        ensures
            reply@ == VerifyResultView::too_long(),
    {
        let error = Some("the reply is too long for its frame".to_owned());
        VerifyResult { result: false, error }
    }
}

/// Answers a hash request. The payload is the JSON text of the request; the
/// answer is the frame of the reply. Every failure on the way is reported in
/// the reply, in words, and a reply that succeeds holds a result that is not
/// empty. A reply whose text is too long for the length field is not framed:
/// the reply that says so is framed in its place.
pub fn hash(data_buf: &[u8]) -> (frame: Option<Vec<u8>>)
    ensures
        frame_view(frame) == answer(
            hash_reply(hash_command(data_buf@)).json(),
            HashResultView::too_long().json(),
        ),
        frame matches Some(bytes) ==> reads_back(
            bytes@,
            sent(hash_reply(hash_command(data_buf@)).json(), HashResultView::too_long().json()),
        ),
        hash_reply(hash_command(data_buf@)).error is None ==> hash_reply(
            hash_command(data_buf@),
        ).result.len() > 0,
        hash_reply(hash_command(data_buf@)).error matches Some(message) ==> message.len() > 0,
{
    let outcome = hash_internal(data_buf);
    proof {
        if outcome is Ok {
            lemma_utf8_not_empty(outcome->Ok_0@);
        }
    }
    match hash_result(outcome).frame() {
        Some(frame) => Some(frame),
        None => HashResult::too_long().frame(),
    }
}

/// Answers a verify request. The payload is the JSON text of the request;
/// the answer is the frame of the reply. Every failure on the way is
/// reported in the reply, in words. A reply whose text is too long for the
/// length field is not framed: the reply that says so is framed in its
/// place.
pub fn verify(data_buf: &[u8]) -> (frame: Option<Vec<u8>>)
    ensures
        frame_view(frame) == answer(
            verify_reply(verify_command(data_buf@)).json(),
            VerifyResultView::too_long().json(),
        ),
        frame matches Some(bytes) ==> reads_back(
            bytes@,
            sent(
                verify_reply(verify_command(data_buf@)).json(),
                VerifyResultView::too_long().json(),
            ),
        ),
        verify_reply(verify_command(data_buf@)).error matches Some(message) ==> message.len() > 0,
{
    match verify_result(verify_internal(data_buf)).frame() {
        Some(frame) => Some(frame),
        None => VerifyResult::too_long().frame(),
    }
}

/// Every frame that answers a request holds the JSON text of the reply
/// that is sent: the bytes behind the length field, as many as it says,
/// decode as UTF-8 to that text.
pub proof fn lemma_answer_reads_back(reply: JsonValue, instead: JsonValue)
    requires
        answer(reply, instead) is Some,
    ensures
        unframed(answer(reply, instead).unwrap()) == Some(
            encode_utf8(written(sent(reply, instead))),
        ),
        decode_utf8(unframed(answer(reply, instead).unwrap()).unwrap()) == written(
            sent(reply, instead),
        ),
{
    lemma_frame_round_trip(written(sent(reply, instead)));
}

/// A framed reply reads back: the bytes behind the length field, as many as
/// it says, are the JSON text of the reply, as long as that text is short
/// enough for the length field.
pub proof fn lemma_reply_reads_back(json: JsonValue)
    requires
        fits(encode_utf8(written(json))),
    ensures
        reply_frame(json) is Some,
        unframed(reply_frame(json).unwrap()) == Some(encode_utf8(written(json))),
        decode_utf8(unframed(reply_frame(json).unwrap()).unwrap()) == written(json),
{
    lemma_frame_round_trip(written(json));
}

/// The thread mode has no say in what hashing gives: whatever a request
/// asks for, the outcome is that of the same request without a thread mode.
pub proof fn lemma_thread_mode_has_no_say(password: Seq<char>, options: OptionsView)
    ensures
        hash_outcome(password, options) == hash_outcome(
            password,
            OptionsView { thread_mode: None, ..options },
        ),
{
    let with = resolved(options, default_config());
    let without = resolved(OptionsView { thread_mode: None, ..options }, default_config());
    assert(sequential(with) == sequential(without));
}

/// A variant or version of an unknown name, and a thread mode that is no
/// known number, never make hashing fail: the outcome is the one of the
/// same request without that field.
pub proof fn lemma_unrecognized_hashes_as_absent(password: Seq<char>, options: OptionsView)
    ensures
        options.variant matches Some(name) && variant_named(name) is None ==> hash_outcome(
            password,
            options,
        ) == hash_outcome(password, OptionsView { variant: None, ..options }),
        options.version matches Some(name) && version_named(name) is None ==> hash_outcome(
            password,
            options,
        ) == hash_outcome(password, OptionsView { version: None, ..options }),
        options.thread_mode matches Some(number) && thread_mode_numbered(number) is None
            ==> hash_outcome(password, options) == hash_outcome(
            password,
            OptionsView { thread_mode: None, ..options },
        ),
{
    lemma_unrecognized_as_absent(options, default_config());
}

/// Whether a value of one of the three lenient fields stands for nothing:
/// a name of no variant or version, or a whole number other than 0 and 1
/// for the thread mode.
pub open spec fn unrecognized(found: Option<JsonValue>, field: Field) -> bool {
    match field {
        Field::Variant => found matches Some(JsonValue::Text(name)) && variant_named(name)
            is None,
        Field::Version => found matches Some(JsonValue::Text(name)) && version_named(name)
            is None,
        Field::ThreadMode => found matches Some(JsonValue::Integer(i)) && i != 0 && i != 1,
        _ => false,
    }
}

/// A request that holds, for the variant, the version or the thread mode, a
/// value that stands for nothing is answered like the same request without
/// that member: the same hash, or the same error. Here `request` and
/// `other` are the members of two requests of one password, whose options
/// are `options` and `options` without the members called like `field`.
pub proof fn lemma_unrecognized_in_request(
    request: Seq<(Seq<char>, JsonValue)>,
    other: Seq<(Seq<char>, JsonValue)>,
    options: Seq<(Seq<char>, JsonValue)>,
    field: Field,
)
    requires
        unrecognized(member(options, field.name()), field),
        member(request, Field::Options.name()) == Some(JsonValue::Record(options)),
        member(other, Field::Options.name()) == Some(
            JsonValue::Record(without(options, field.name())),
        ),
        member(other, Field::Password.name()) == member(request, Field::Password.name()),
    ensures
        hash_decoded(hash_params_of(JsonValue::Record(other))) == hash_decoded(
            hash_params_of(JsonValue::Record(request)),
        ),
{
    lemma_options_without(options, field);
    lemma_lenient_fields(options);
    let decoded = options_of(JsonValue::Record(options));
    if decoded is Ok && text_field(request, Field::Password) is Ok {
        let password = text_field(request, Field::Password)->Ok_0;
        lemma_unrecognized_hashes_as_absent(password, decoded->Ok_0);
    }
}

/// Whether a payload is JSON but spells no object with a member
/// `password`.
pub open spec fn lacks_password(payload: Seq<u8>) -> bool {
    &&& parsed(payload) is Ok
    &&& parsed(payload)->Ok_0 matches JsonValue::Record(members) ==> member(
        members,
        Field::Password.name(),
    ) is None
}

/// A payload without a password is no hash request. The reply to it holds
/// an empty result and says in words what is missing.
pub proof fn lemma_hash_without_password(payload: Seq<u8>)
    requires
        lacks_password(payload),
    ensures
        hash_command(payload) is Err,
        hash_reply(hash_command(payload)).result.len() == 0,
        hash_reply(hash_command(payload)).error == Some(
            missing_password(parsed(payload)->Ok_0).message(),
        ),
        missing_password(parsed(payload)->Ok_0).message().len() > 0,
{
    lemma_shape_message(missing_password(parsed(payload)->Ok_0));
}

/// A payload without a password is no verify request. The reply to it
/// holds `false` and says in words what is missing.
pub proof fn lemma_verify_without_password(payload: Seq<u8>)
    requires
        lacks_password(payload),
    ensures
        verify_command(payload) is Err,
        verify_reply(verify_command(payload)).result == false,
        verify_reply(verify_command(payload)).error == Some(
            missing_password(parsed(payload)->Ok_0).message(),
        ),
        missing_password(parsed(payload)->Ok_0).message().len() > 0,
{
    lemma_shape_message(missing_password(parsed(payload)->Ok_0));
}

/// A reply holds an error exactly where the command failed, and then its
/// result is empty, or `false`.
pub proof fn lemma_reply_of_outcome(
    hashed: Result<Seq<char>, ErrorView>,
    verified: Result<bool, ErrorView>,
)
    ensures
        hash_reply(hashed).error is None <==> hashed is Ok,
        hash_reply(hashed).error is Some ==> hash_reply(hashed).result.len() == 0,
        verify_reply(verified).error is None <==> verified is Ok,
        verify_reply(verified).error is Some ==> !verify_reply(verified).result,
{
}

} // verus!
