use dictation_core::speech::EngineOutcome;
use dictation_core::speech::SpeechError;
use dictation_core::speech::StopSignalOutcome;
use dictation_core::speech::interpret_speak_outcome;
use dictation_core::speech::interpret_stop_outcome;
use dictation_core::speech::resolve_voice;
use dictation_core::text::u16_to_string;

#[test]
fn french_cinematic_resolves_to_the_french_male_voice() {
    let choice = resolve_voice("fr-FR", "cinematic");
    assert_eq!(choice.voice_name, "Thomas");
    assert_eq!(choice.rate, 150);
}

#[test]
fn unknown_language_resolves_to_the_default_english_row() {
    let choice = resolve_voice("de-DE", "narration");
    assert_eq!(choice.voice_name, "Samantha");
    assert_eq!(choice.rate, 200);
    let cinematic = resolve_voice("de-DE", "cinematic");
    assert_eq!(cinematic.voice_name, "Alex");
    assert_eq!(cinematic.rate, 150);
}

#[test]
fn each_language_row_has_its_two_voices() {
    assert_eq!(resolve_voice("es-ES", "cinematic").voice_name, "Diego");
    assert_eq!(resolve_voice("es-ES", "plain").voice_name, "Mónica");
    assert_eq!(resolve_voice("fr-FR", "plain").voice_name, "Amélie");
    assert_eq!(resolve_voice("en-US", "cinematic").voice_name, "Alex");
    assert_eq!(resolve_voice("en-US", "plain").voice_name, "Samantha");
}

#[test]
fn a_clean_engine_exit_is_success() {
    let outcome = EngineOutcome::Exited {
        success: true,
        diagnostic: String::new(),
    };
    assert_eq!(interpret_speak_outcome(outcome), Ok(()));
}

#[test]
fn a_nonzero_engine_exit_carries_the_diagnostic() {
    let outcome = EngineOutcome::Exited {
        success: false,
        diagnostic: "voice not installed".to_string(),
    };
    let failed = interpret_speak_outcome(outcome);
    assert_eq!(
        failed,
        Err(SpeechError::Synthesis {
            diagnostic: "voice not installed".to_string()
        })
    );
    assert_eq!(
        failed.unwrap_err().message(),
        "Speech synthesis failed: voice not installed"
    );
}

#[test]
fn a_failed_engine_launch_is_an_error() {
    let outcome = EngineOutcome::LaunchFailure {
        cause: "command not found".to_string(),
    };
    assert_eq!(
        interpret_speak_outcome(outcome),
        Err(SpeechError::Launch {
            cause: "command not found".to_string()
        })
    );
}

#[test]
fn stop_speech_with_no_running_process_is_success() {
    assert_eq!(interpret_stop_outcome(StopSignalOutcome::NoRunningProcess), Ok(()));
    assert_eq!(interpret_stop_outcome(StopSignalOutcome::Delivered), Ok(()));
}

#[test]
fn an_unissuable_stop_signal_is_an_error() {
    let failed = interpret_stop_outcome(StopSignalOutcome::SignalFailure {
        cause: "command not found".to_string(),
    });
    assert!(matches!(failed, Err(SpeechError::Launch { .. })));
}

#[test]
fn decimal_rendering_is_exact() {
    assert_eq!(u16_to_string(0), "0");
    assert_eq!(u16_to_string(7), "7");
    assert_eq!(u16_to_string(456), "456");
    assert_eq!(u16_to_string(65535), "65535");
}
