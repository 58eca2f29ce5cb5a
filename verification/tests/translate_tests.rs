use dictation_core::translate::TranslationError;
use dictation_core::translate::TranslationResult;
use dictation_core::translate::UpstreamOutcome;
use dictation_core::translate::check_credential;
use dictation_core::translate::extract_translation;
use dictation_core::translate::finish_translation;
use dictation_core::translate::plan_translation;

#[test]
fn translate_hello_with_mocked_upstream_yields_hola() {
    let planned = plan_translation(
        "Hello".to_string(),
        "ES".to_string(),
        None,
        Some("a-valid-credential".to_string()),
    )
    .expect("a usable credential plans a request");
    assert_eq!(planned.url, "https://api-free.deepl.com/v2/translate");
    assert_eq!(planned.auth_header, "DeepL-Auth-Key a-valid-credential");
    assert_eq!(
        planned.params,
        vec![
            ("text".to_string(), "Hello".to_string()),
            ("target_lang".to_string(), "ES".to_string()),
        ]
    );
    let outcome = UpstreamOutcome::Response {
        status: 200,
        body: "{\"translations\":[{\"text\":\"Hola\"}]}".to_string(),
    };
    assert_eq!(
        finish_translation(outcome),
        Ok(TranslationResult {
            translated_text: "Hola".to_string()
        })
    );
}

#[test]
fn source_language_is_sent_only_when_given() {
    let planned = plan_translation(
        "Hello".to_string(),
        "ES".to_string(),
        Some("EN".to_string()),
        Some("a-valid-credential".to_string()),
    )
    .expect("a usable credential plans a request");
    assert_eq!(
        planned.params,
        vec![
            ("text".to_string(), "Hello".to_string()),
            ("target_lang".to_string(), "ES".to_string()),
            ("source_lang".to_string(), "EN".to_string()),
        ]
    );
}

#[test]
fn unset_credential_is_a_config_error_before_any_request() {
    let planned = plan_translation("Hello".to_string(), "ES".to_string(), None, None);
    assert_eq!(
        planned.err().map(|e| e.message()),
        Some("credential not found".to_string())
    );
}

#[test]
fn empty_and_placeholder_credentials_are_config_errors() {
    for bad in ["", "your_deepl_api_key_here"] {
        let checked = check_credential(Some(bad.to_string()));
        assert_eq!(
            checked,
            Err(TranslationError::Config {
                message: "credential is a placeholder".to_string()
            })
        );
    }
    assert_eq!(
        check_credential(Some("real-key".to_string())),
        Ok("real-key".to_string())
    );
}

#[test]
fn upstream_error_carries_status_and_body() {
    let outcome = UpstreamOutcome::Response {
        status: 456,
        body: "quota exceeded".to_string(),
    };
    let failed = finish_translation(outcome);
    assert_eq!(
        failed,
        Err(TranslationError::Upstream {
            status: 456,
            body: "quota exceeded".to_string()
        })
    );
    let message = failed.unwrap_err().message();
    assert!(message.contains("456"));
    assert!(message.contains("quota exceeded"));
    assert_eq!(message, "Translation service error (Status: 456): quota exceeded");
}

#[test]
fn transport_failure_is_surfaced_verbatim() {
    let outcome = UpstreamOutcome::TransportFailure {
        cause: "dns lookup failed".to_string(),
    };
    assert_eq!(
        finish_translation(outcome),
        Err(TranslationError::Transport {
            cause: "dns lookup failed".to_string()
        })
    );
}

#[test]
fn unparsable_body_is_a_decode_error() {
    let outcome = UpstreamOutcome::Response {
        status: 204,
        body: "not json at all".to_string(),
    };
    assert_eq!(finish_translation(outcome), Err(TranslationError::Decode));
    let missing_shape = UpstreamOutcome::Response {
        status: 200,
        body: "{\"other\":1}".to_string(),
    };
    assert_eq!(finish_translation(missing_shape), Err(TranslationError::Decode));
}

#[test]
fn zero_entries_is_an_empty_result_error() {
    let outcome = UpstreamOutcome::Response {
        status: 200,
        body: "{\"translations\":[]}".to_string(),
    };
    assert_eq!(finish_translation(outcome), Err(TranslationError::EmptyResult));
}

#[test]
fn only_the_first_entry_is_taken() {
    let outcome = UpstreamOutcome::Response {
        status: 201,
        body: "{\"translations\":[{\"text\":\"Hola\"},{\"text\":\"Bonjour\"}],\"extra\":true}"
            .to_string(),
    };
    assert_eq!(
        finish_translation(outcome),
        Ok(TranslationResult {
            translated_text: "Hola".to_string()
        })
    );
}

#[test]
fn extraction_maps_every_decode_shape() {
    assert_eq!(extract_translation(None), Err(TranslationError::Decode));
    assert_eq!(
        extract_translation(Some(vec![])),
        Err(TranslationError::EmptyResult)
    );
    assert_eq!(
        extract_translation(Some(vec!["uno".to_string(), "dos".to_string()])),
        Ok(TranslationResult {
            translated_text: "uno".to_string()
        })
    );
}
