use dictation_capture::json::Json;
use dictation_capture::transcribe::{
    check_audio, check_file, google_transcript, openai_model, openai_text, recognize_body,
    recognize_body_with, recognize_options, recognize_url, AudioLevel, Provider, RecognizeOptions,
    TranscribeError,
};

fn object(members: Vec<(&str, Json)>) -> Json {
    Json::Object(members.into_iter().map(|(k, v)| (k.to_string(), v)).collect())
}

fn text(s: &str) -> Json {
    Json::Text(s.to_string())
}

fn options() -> RecognizeOptions {
    RecognizeOptions {
        language_code: "de-DE".to_string(),
        model: "latest_long".to_string(),
        enable_automatic_punctuation: false,
    }
}

#[test]
fn lookup_finds_the_first_member_with_the_key() {
    let value = object(vec![("a", Json::Number(1)), ("b", Json::Null), ("a", Json::Number(2))]);
    assert_eq!(value.get("a"), Some(&Json::Number(1)));
    assert_eq!(value.get("b"), Some(&Json::Null));
    assert_eq!(value.get("c"), None);
    assert_eq!(value.get(""), None);
}

#[test]
fn lookup_in_what_is_no_object_finds_nothing() {
    assert_eq!(text("a").get("a"), None);
    assert_eq!(Json::List(vec![text("a")]).get("a"), None);
    assert_eq!(Json::Null.get("a"), None);
}

#[test]
fn list_and_text_of_values() {
    assert_eq!(Json::List(vec![Json::Bool(true)]).as_list(), Some(&vec![Json::Bool(true)]));
    assert_eq!(text("x").as_list(), None);
    assert_eq!(text("x").as_text(), Some(&"x".to_string()));
    assert_eq!(Json::Number(3).as_text(), None);
    assert_eq!(Json::OtherNumber.as_text(), None);
}

#[test]
fn an_empty_file_is_refused() {
    assert_eq!(check_file(&[]), Err(TranscribeError::AudioEmpty));
    assert_eq!(check_file(&[0]), Ok(()));
}

#[test]
fn model_of_the_first_service() {
    assert_eq!(openai_model(None), "whisper-1");
    assert_eq!(openai_model(Some("gpt-4o-transcribe".to_string())), "gpt-4o-transcribe");
    assert_eq!(openai_model(Some(String::new())), "");
}

#[test]
fn transcript_of_the_first_service() {
    assert_eq!(openai_text(&object(vec![("text", text("hello world"))])), "hello world");
    assert_eq!(openai_text(&object(vec![("language", text("en"))])), "");
    assert_eq!(openai_text(&object(vec![("text", Json::Number(5))])), "");
    assert_eq!(openai_text(&Json::Null), "");
}

#[test]
fn audio_that_is_not_sixteen_bit_is_refused() {
    assert_eq!(check_audio(8, &[1, 2]), Err(TranscribeError::NotLinear16));
    assert_eq!(check_audio(24, &[]), Err(TranscribeError::NotLinear16));
}

#[test]
fn audio_without_samples_is_refused() {
    assert_eq!(check_audio(16, &[]), Err(TranscribeError::NoSamples));
}

#[test]
fn peak_is_the_largest_magnitude() {
    assert_eq!(check_audio(16, &[3, -700, 12, 699]), Ok(AudioLevel { peak: 700, quiet: false }));
    assert_eq!(check_audio(16, &[0, 0, 0]), Ok(AudioLevel { peak: 0, quiet: true }));
    assert_eq!(check_audio(16, &[i16::MIN, i16::MAX]), Ok(AudioLevel { peak: 32768, quiet: false }));
}

#[test]
fn audio_below_the_threshold_is_quiet() {
    assert_eq!(check_audio(16, &[99, -99]), Ok(AudioLevel { peak: 99, quiet: true }));
    assert_eq!(check_audio(16, &[99, -100]), Ok(AudioLevel { peak: 100, quiet: false }));
}

#[test]
fn options_of_the_second_service() {
    assert_eq!(
        recognize_options(None, None, None),
        RecognizeOptions {
            language_code: "en-US".to_string(),
            model: "default".to_string(),
            enable_automatic_punctuation: true,
        }
    );
    assert_eq!(
        recognize_options(Some("de-DE".to_string()), Some("latest_long".to_string()), Some(false)),
        options()
    );
}

#[test]
fn address_of_the_second_service() {
    assert_eq!(
        recognize_url("k3y"),
        "https://speech.googleapis.com/v1p1beta1/speech:recognize?key=k3y"
    );
}

#[test]
fn body_for_encoded_audio() {
    let body = recognize_body_with("QUJD".to_string(), &options(), 16000);
    assert_eq!(
        body,
        object(vec![
            ("audio", object(vec![("content", text("QUJD"))])),
            (
                "config",
                object(vec![
                    ("enableAutomaticPunctuation", Json::Bool(false)),
                    ("encoding", text("LINEAR16")),
                    ("languageCode", text("de-DE")),
                    ("model", text("latest_long")),
                    ("sampleRateHertz", Json::Number(16000)),
                ])
            ),
        ])
    );
}

#[test]
fn body_holds_the_audio_in_standard_base64() {
    let content = |audio: &[u8]| -> String {
        let body = recognize_body(audio, &options(), 44100).unwrap();
        body.get("audio").unwrap().get("content").unwrap().as_text().unwrap().clone()
    };
    assert_eq!(content(b"hello"), "aGVsbG8=");
    assert_eq!(content(b"hi"), "aGk=");
    assert_eq!(content(b"abc"), "YWJj");
    assert_eq!(content(&[0xfb, 0xff, 0xbf]), "+/+/");
    assert_eq!(content(&[]), "");
    let body = recognize_body(b"hello", &options(), 44100).unwrap();
    assert_eq!(body.get("config").unwrap().get("sampleRateHertz"), Some(&Json::Number(44100)));
}

fn results(items: Vec<Json>) -> Json {
    object(vec![("results", Json::List(items))])
}

fn result_with(transcript: Json) -> Json {
    object(vec![(
        "alternatives",
        Json::List(vec![object(vec![("transcript", transcript), ("confidence", Json::OtherNumber)])]),
    )])
}

#[test]
fn transcript_of_the_first_result_of_the_second_service() {
    let response = results(vec![result_with(text("first")), result_with(text("second"))]);
    assert_eq!(google_transcript(&response), Ok("first".to_string()));
}

#[test]
fn a_response_without_results_is_no_results() {
    assert_eq!(google_transcript(&object(vec![])), Err(TranscribeError::NoResults));
    assert_eq!(google_transcript(&Json::Null), Err(TranscribeError::NoResults));
    assert_eq!(
        google_transcript(&object(vec![("totalBilledTime", text("0s"))])),
        Err(TranscribeError::NoResults)
    );
}

#[test]
fn results_that_are_no_list_are_refused() {
    assert_eq!(
        google_transcript(&object(vec![("results", text("none"))])),
        Err(TranscribeError::ResultsNotArray)
    );
    assert_eq!(
        google_transcript(&object(vec![("results", Json::Null)])),
        Err(TranscribeError::ResultsNotArray)
    );
}

#[test]
fn an_empty_list_of_results_is_no_speech() {
    assert_eq!(google_transcript(&results(vec![])), Err(TranscribeError::NoSpeech));
}

#[test]
fn a_first_result_without_a_transcript_gives_the_empty_transcript() {
    assert_eq!(google_transcript(&results(vec![object(vec![])])), Ok(String::new()));
    assert_eq!(google_transcript(&results(vec![Json::Null])), Ok(String::new()));
    assert_eq!(
        google_transcript(&results(vec![object(vec![("alternatives", Json::List(vec![]))])])),
        Ok(String::new())
    );
    assert_eq!(
        google_transcript(&results(vec![object(vec![("alternatives", text("x"))])])),
        Ok(String::new())
    );
    assert_eq!(google_transcript(&results(vec![result_with(Json::Number(1))])), Ok(String::new()));
}

#[test]
fn transcription_error_texts() {
    assert_eq!(
        TranscribeError::AudioMissing("/cache/a.wav".to_string()).message(),
        "Audio file does not exist: /cache/a.wav"
    );
    assert_eq!(TranscribeError::AudioEmpty.message(), "Audio file is empty");
    assert_eq!(TranscribeError::AudioTooLarge.message(), "Audio file is too large");
    assert_eq!(
        TranscribeError::NotLinear16.message(),
        "Google Speech-to-Text requires 16-bit LINEAR16 audio"
    );
    assert_eq!(TranscribeError::NoSamples.message(), "Audio file contains no samples");
    assert_eq!(
        TranscribeError::Service {
            provider: Provider::OpenAi,
            status: "401 Unauthorized".to_string(),
            body: "{}".to_string(),
        }
        .message(),
        "OpenAI error 401 Unauthorized: {}"
    );
    assert_eq!(
        TranscribeError::Service {
            provider: Provider::Google,
            status: "400 Bad Request".to_string(),
            body: "bad".to_string(),
        }
        .message(),
        "Google Speech error 400 Bad Request: bad"
    );
    assert_eq!(
        TranscribeError::NoResults.message(),
        "No speech detected in audio. The audio may be silent, too quiet, or the language may not match."
    );
    assert_eq!(
        TranscribeError::ResultsNotArray.message(),
        "Invalid response format: results is not an array"
    );
    assert_eq!(
        TranscribeError::NoSpeech.message(),
        "No speech detected in audio. The audio may be silent or too quiet."
    );
}
