//! What is computed around the two transcription services: the checks on
//! the audio, the requests and the reading of the responses. The calls to
//! the services themselves are the application's.

use vstd::prelude::*;
use vstd::string::StringExecFns;
use crate::json::Json;
use crate::level::{peak, peak_of};

verus! {

/// A transcription service.
#[derive(Clone, Copy, Debug, PartialEq, Eq, Structural)]
pub enum Provider {
    OpenAi,
    Google,
}

/// Why a recording was not transcribed.
#[derive(Debug, PartialEq, Eq)]
pub enum TranscribeError {
    /// There is no file at this path.
    AudioMissing(String),
    /// The file holds no bytes.
    AudioEmpty,
    /// The file holds more bytes than can be encoded for a request.
    AudioTooLarge,
    /// The samples of the file do not have 16 bits.
    NotLinear16,
    /// The file holds no samples.
    NoSamples,
    /// The service answered with a failure status.
    Service { provider: Provider, status: String, body: String },
    /// The response has no results.
    NoResults,
    /// The results of the response are no list.
    ResultsNotArray,
    /// The list of results is empty.
    NoSpeech,
}

impl TranscribeError {
    /// The text shown for this failure.
    pub open spec fn text(self) -> Seq<char> {
        match self {
            TranscribeError::AudioMissing(path) => "Audio file does not exist: "@ + path@,
            TranscribeError::AudioEmpty => "Audio file is empty"@,
            TranscribeError::AudioTooLarge => "Audio file is too large"@,
            TranscribeError::NotLinear16 =>
                "Google Speech-to-Text requires 16-bit LINEAR16 audio"@,
            TranscribeError::NoSamples => "Audio file contains no samples"@,
            TranscribeError::Service { provider: Provider::OpenAi, status, body } =>
                "OpenAI error "@ + status@ + ": "@ + body@,
            TranscribeError::Service { provider: Provider::Google, status, body } =>
                "Google Speech error "@ + status@ + ": "@ + body@,
            TranscribeError::NoResults =>
                "No speech detected in audio. The audio may be silent, too quiet, or the language may not match."@,
            TranscribeError::ResultsNotArray => "Invalid response format: results is not an array"@,
            TranscribeError::NoSpeech =>
                "No speech detected in audio. The audio may be silent or too quiet."@,
        }
    }

    /// Renders the failure as the text shown to the user.
    pub fn message(&self) -> (s: String)
        ensures
            s@ == self.text(),
    {
        match self {
            TranscribeError::AudioMissing(path) => String::from_str(
                "Audio file does not exist: ",
            ).concat(path.as_str()),
            TranscribeError::AudioEmpty => String::from_str("Audio file is empty"),
            TranscribeError::AudioTooLarge => String::from_str("Audio file is too large"),
            TranscribeError::NotLinear16 => String::from_str(
                "Google Speech-to-Text requires 16-bit LINEAR16 audio",
            ),
            TranscribeError::NoSamples => String::from_str("Audio file contains no samples"),
            TranscribeError::Service { provider: Provider::OpenAi, status, body } =>
                String::from_str("OpenAI error ").concat(status.as_str()).concat(": ").concat(
                    body.as_str(),
                ),
            TranscribeError::Service { provider: Provider::Google, status, body } =>
                String::from_str("Google Speech error ").concat(status.as_str()).concat(
                    ": ",
                ).concat(body.as_str()),
            TranscribeError::NoResults => String::from_str(
                "No speech detected in audio. The audio may be silent, too quiet, or the language may not match.",
            ),
            TranscribeError::ResultsNotArray => String::from_str(
                "Invalid response format: results is not an array",
            ),
            TranscribeError::NoSpeech => String::from_str(
                "No speech detected in audio. The audio may be silent or too quiet.",
            ),
        }
    }
}

/// `given`, or the default where nothing is given.
pub open spec fn or_default(given: Option<String>, default: Seq<char>) -> Seq<char> {
    match given {
        Some(text) => text@,
        None => default,
    }
}

fn text_or(given: Option<String>, default: &str) -> (text: String)
    ensures
        text@ == or_default(given, default@),
{
    match given {
        Some(text) => text,
        None => default.to_owned(),
    }
}

/// The model asked of the first service: `whisper-1` unless another is given.
pub fn openai_model(model: Option<String>) -> (name: String)
    ensures
        name@ == or_default(model, "whisper-1"@),
{
    text_or(model, "whisper-1")
}

/// Checks that the file of a recording holds anything at all.
pub fn check_file(bytes: &[u8]) -> (r: Result<(), TranscribeError>)
    ensures
        r == (if bytes@.len() == 0 {
            Err::<(), TranscribeError>(TranscribeError::AudioEmpty)
        } else {
            Ok::<(), TranscribeError>(())
        }),
{
    if bytes.len() == 0 {
        Err(TranscribeError::AudioEmpty)
    } else {
        Ok(())
    }
}

/// The peak below which a recording counts as silent or very quiet.
pub const QUIET_BELOW: u32 = 100;

/// How loud a recording is.
#[derive(Clone, Copy, Debug, PartialEq, Eq, Structural)]
pub struct AudioLevel {
    /// The largest magnitude among the samples.
    pub peak: u32,
    /// Whether the recording is silent or very quiet. Such a recording is
    /// still sent; the caller warns about it.
    pub quiet: bool,
}

/// Checks that a recording can be sent to the second service, which takes
/// 16-bit samples only, and measures how loud it is.
pub fn check_audio(bits_per_sample: u16, samples: &[i16]) -> (r: Result<
    AudioLevel,
    TranscribeError,
>)
    ensures
        match r {
            Ok(level) => bits_per_sample == 16 && samples@.len() > 0 && level.peak == peak(
                samples@,
            ) && level.quiet == (level.peak < QUIET_BELOW),
            Err(e) => if bits_per_sample != 16 {
                e == TranscribeError::NotLinear16
            } else {
                samples@.len() == 0 && e == TranscribeError::NoSamples
            },
        },
{
    if bits_per_sample != 16 {
        return Err(TranscribeError::NotLinear16);
    }
    if samples.len() == 0 {
        return Err(TranscribeError::NoSamples);
    }
    let loudest: u32 = peak_of(samples);
    Ok(AudioLevel { peak: loudest, quiet: loudest < QUIET_BELOW })
}

/// What the second service is asked besides the audio.
#[derive(Clone, Debug, PartialEq, Eq)]
pub struct RecognizeOptions {
    pub language_code: String,
    pub model: String,
    pub enable_automatic_punctuation: bool,
}

/// The options of a request: US English, the default model and automatic
/// punctuation, unless something else is given.
pub fn recognize_options(
    language: Option<String>,
    model: Option<String>,
    enable_automatic_punctuation: Option<bool>,
) -> (options: RecognizeOptions)
    ensures
        options.language_code@ == or_default(language, "en-US"@),
        options.model@ == or_default(model, "default"@),
        options.enable_automatic_punctuation == match enable_automatic_punctuation {
            Some(b) => b,
            None => true,
        },
{
    RecognizeOptions {
        language_code: text_or(language, "en-US"),
        model: text_or(model, "default"),
        enable_automatic_punctuation: match enable_automatic_punctuation {
            Some(b) => b,
            None => true,
        },
    }
}

/// The address of the second service for a key.
pub open spec fn recognize_address(key: Seq<char>) -> Seq<char> {
    "https://speech.googleapis.com/v1p1beta1/speech:recognize?key="@ + key
}

/// Gives the address of the second service for a key.
pub fn recognize_url(key: &str) -> (url: String)
    ensures
        url@ == recognize_address(key@),
{
    String::from_str("https://speech.googleapis.com/v1p1beta1/speech:recognize?key=").concat(key)
}

/// The standard base64 encoding, with padding, of a sequence of bytes: what
/// the `base64` crate's `STANDARD` engine gives for them.
pub uninterp spec fn base64_standard(bytes: Seq<u8>) -> Seq<char>;

/// The longest input whose encoding the `base64` crate can size.
pub open spec fn encodable(len: nat) -> bool {
    (len / 3) * 4 + 4 <= usize::MAX
}

/// Calls `base64::Engine::encode` on the `STANDARD` engine. The crate
/// computes the length of the encoding first and panics if it does not fit
/// in a `usize`; the precondition keeps it within range.
#[verifier::external_body]
fn encode_standard(bytes: &[u8]) -> (encoded: String)
    requires
        encodable(bytes@.len()),
    ensures
        encoded@ == base64_standard(bytes@),
{
    base64::Engine::encode(&base64::engine::general_purpose::STANDARD, bytes)
}

/// The text of the member with the key, where the value has such a member
/// and it is a text.
pub open spec fn text_at(value: Json, key: Seq<char>) -> Option<Seq<char>> {
    match value.field(key) {
        Some(member) => member.text(),
        None => None,
    }
}

/// Whether `body` is the request for the audio with the encoding `content`:
/// an object of the audio and of the configuration, which names the
/// encoding of 16-bit samples, the options and the sample rate.
pub open spec fn is_recognize_body(
    body: Json,
    content: Seq<char>,
    options: RecognizeOptions,
    sample_rate: u32,
) -> bool {
    &&& body.members().len() == 2
    &&& body.field("audio"@) is Some
    &&& body.field("audio"@)->0.members().len() == 1
    &&& text_at(body.field("audio"@)->0, "content"@) == Some(content)
    &&& body.field("config"@) is Some
    &&& body.field("config"@)->0.members().len() == 5
    &&& body.field("config"@)->0.field("enableAutomaticPunctuation"@) == Some(
        Json::Bool(options.enable_automatic_punctuation),
    )
    &&& text_at(body.field("config"@)->0, "encoding"@) == Some("LINEAR16"@)
    &&& text_at(body.field("config"@)->0, "languageCode"@) == Some(options.language_code@)
    &&& text_at(body.field("config"@)->0, "model"@) == Some(options.model@)
    &&& body.field("config"@)->0.field("sampleRateHertz"@) == Some(
        Json::Number(sample_rate as u64),
    )
}

/// The member at `i` is what a lookup of its key gives, if no member before
/// it has that key.
proof fn field_is_member(object: Json, key: Seq<char>, i: int)
    requires
        0 <= i < object.members().len(),
        object.members()[i].0@ == key,
        forall|j: int| 0 <= j < i ==> object.members()[j].0@ != key,
    ensures
        object.field(key) == Some(object.members()[i].1),
{
    assert(object.first_key_at(key, i));
    let chosen = choose|k: int| object.first_key_at(key, k);
    assert(chosen == i);
}

/// Builds the request for audio that is already encoded.
pub fn recognize_body_with(content: String, options: &RecognizeOptions, sample_rate: u32) -> (body:
    Json)
    ensures
        is_recognize_body(body, content@, *options, sample_rate),
{
    let audio = Json::Object(vec![("content".to_owned(), Json::Text(content))]);
    let config = Json::Object(
        vec![
            (
                "enableAutomaticPunctuation".to_owned(),
                Json::Bool(options.enable_automatic_punctuation),
            ),
            ("encoding".to_owned(), Json::Text("LINEAR16".to_owned())),
            ("languageCode".to_owned(), Json::Text(options.language_code.clone())),
            ("model".to_owned(), Json::Text(options.model.clone())),
            ("sampleRateHertz".to_owned(), Json::Number(sample_rate as u64)),
        ],
    );
    proof {
        reveal_strlit("enableAutomaticPunctuation");
        reveal_strlit("encoding");
        reveal_strlit("languageCode");
        reveal_strlit("model");
        reveal_strlit("sampleRateHertz");
        assert("enableAutomaticPunctuation"@.len() == 26);
        assert("encoding"@.len() == 8);
        assert("languageCode"@.len() == 12);
        assert("model"@.len() == 5);
        assert("sampleRateHertz"@.len() == 15);
        assert(config.members()[0].0@ == "enableAutomaticPunctuation"@);
        assert(config.members()[1].0@ == "encoding"@);
        assert(config.members()[2].0@ == "languageCode"@);
        assert(config.members()[3].0@ == "model"@);
        assert(config.members()[4].0@ == "sampleRateHertz"@);
        field_is_member(audio, "content"@, 0);
        field_is_member(config, "enableAutomaticPunctuation"@, 0);
        field_is_member(config, "encoding"@, 1);
        field_is_member(config, "languageCode"@, 2);
        field_is_member(config, "model"@, 3);
        field_is_member(config, "sampleRateHertz"@, 4);
    }
    let body = Json::Object(vec![("audio".to_owned(), audio), ("config".to_owned(), config)]);
    proof {
        reveal_strlit("audio");
        reveal_strlit("config");
        assert("audio"@.len() == 5);
        assert("config"@.len() == 6);
        assert(body.members()[0].0@ == "audio"@);
        assert(body.members()[1].0@ == "config"@);
        field_is_member(body, "audio"@, 0);
        field_is_member(body, "config"@, 1);
    }
    body
}

/// Builds the request for a recording: the audio in standard base64 and the
/// configuration. A recording too large to be encoded is refused.
pub fn recognize_body(audio: &[u8], options: &RecognizeOptions, sample_rate: u32) -> (r: Result<
    Json,
    TranscribeError,
>)
    ensures
        match r {
            Ok(body) => encodable(audio@.len()) && is_recognize_body(
                body,
                base64_standard(audio@),
                *options,
                sample_rate,
            ),
            Err(e) => !encodable(audio@.len()) && e == TranscribeError::AudioTooLarge,
        },
{
    if audio.len() / 3 > (usize::MAX - 4) / 4 {
        return Err(TranscribeError::AudioTooLarge);
    }
    let content: String = encode_standard(audio);
    Ok(recognize_body_with(content, options, sample_rate))
}

/// The text of a value, and the empty text where there is no value or the
/// value is no text.
pub open spec fn text_or_empty(value: Option<Json>) -> Seq<char> {
    match value {
        Some(json) => match json.text() {
            Some(text) => text,
            None => Seq::empty(),
        },
        None => Seq::empty(),
    }
}

/// The member of a value with the key, where there is a value.
pub open spec fn member(value: Option<Json>, key: Seq<char>) -> Option<Json> {
    match value {
        Some(json) => json.field(key),
        None => None,
    }
}

/// The first item of a value, where the value is a list that has one.
pub open spec fn first_item(value: Option<Json>) -> Option<Json> {
    match value {
        Some(json) => match json.items() {
            Some(items) => if items.len() > 0 {
                Some(items[0])
            } else {
                None
            },
            None => None,
        },
        None => None,
    }
}

fn get_in<'a>(value: Option<&'a Json>, key: &str) -> (r: Option<&'a Json>)
    ensures
        match r {
            Some(found) => member(
                match value {
                    Some(v) => Some(*v),
                    None => None,
                },
                key@,
            ) == Some(*found),
            None => member(
                match value {
                    Some(v) => Some(*v),
                    None => None,
                },
                key@,
            ) is None,
        },
{
    match value {
        Some(json) => json.get(key),
        None => None,
    }
}

fn first_in<'a>(value: Option<&'a Json>) -> (r: Option<&'a Json>)
    ensures
        match r {
            Some(found) => first_item(
                match value {
                    Some(v) => Some(*v),
                    None => None,
                },
            ) == Some(*found),
            None => first_item(
                match value {
                    Some(v) => Some(*v),
                    None => None,
                },
            ) is None,
        },
{
    match value {
        Some(json) => match json.as_list() {
            Some(items) => if items.len() > 0 {
                Some(&items[0])
            } else {
                None
            },
            None => None,
        },
        None => None,
    }
}

fn text_in(value: Option<&Json>) -> (text: String)
    ensures
        text@ == text_or_empty(
            match value {
                Some(v) => Some(*v),
                None => None,
            },
        ),
{
    match value {
        Some(json) => match json.as_text() {
            Some(text) => text.clone(),
            None => String::new(),
        },
        None => String::new(),
    }
}

/// The transcript in a response of the first service: its member `text`.
pub open spec fn openai_transcript(response: Json) -> Seq<char> {
    text_or_empty(response.field("text"@))
}

/// Reads the transcript from a response of the first service. A response
/// without one gives the empty transcript.
pub fn openai_text(response: &Json) -> (text: String)
    ensures
        text@ == openai_transcript(*response),
{
    text_in(response.get("text"))
}

/// The transcript of one result of the second service: the member
/// `transcript` of the first of its `alternatives`.
pub open spec fn result_transcript(result: Json) -> Seq<char> {
    text_or_empty(member(first_item(result.field("alternatives"@)), "transcript"@))
}

/// What a response of the second service amounts to: the transcript of its
/// first result, or why there is none.
pub open spec fn google_outcome(response: Json) -> Result<Seq<char>, TranscribeError> {
    match response.field("results"@) {
        None => Err(TranscribeError::NoResults),
        Some(results) => match results.items() {
            None => Err(TranscribeError::ResultsNotArray),
            Some(items) => if items.len() == 0 {
                Err(TranscribeError::NoSpeech)
            } else {
                Ok(result_transcript(items[0]))
            },
        },
    }
}

/// Reads the transcript from a response of the second service.
pub fn google_transcript(response: &Json) -> (r: Result<String, TranscribeError>)
    ensures
        match r {
            Ok(text) => google_outcome(*response) == Ok::<Seq<char>, TranscribeError>(text@),
            Err(e) => google_outcome(*response) == Err::<Seq<char>, TranscribeError>(e),
        },
{
    match response.get("results") {
        None => Err(TranscribeError::NoResults),
        Some(results) => match results.as_list() {
            None => Err(TranscribeError::ResultsNotArray),
            Some(items) => {
                if items.len() == 0 {
                    Err(TranscribeError::NoSpeech)
                } else {
                    let alternatives = items[0].get("alternatives");
                    Ok(text_in(get_in(first_in(alternatives), "transcript")))
                }
            },
        },
    }
}

} // verus!
