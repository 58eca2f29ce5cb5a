//! The speech-output gateway: resolves a voice request to the platform voice
//! engine's settings through a fixed table, and interprets the engine's
//! outcome. Stateless and independent of the capture session.

use vstd::prelude::*;

use crate::text::str_eq;

verus! {

/// A per-call failure of the speech output; it never affects session state.
#[derive(Clone, Debug, PartialEq, Eq)]
pub enum SpeechError {
    /// The voice engine could not be invoked at all.
    Launch { cause: String },
    /// The engine ran and reported a non-zero exit; its diagnostic output is
    /// attached.
    Synthesis { diagnostic: String },
}

impl SpeechError {
    /// The diagnostic text reported to the caller.
    pub fn message(&self) -> (r: String)
        ensures
            self matches SpeechError::Launch { cause } ==> r@
                == "Failed to execute speech command: "@ + cause@,
            self matches SpeechError::Synthesis { diagnostic } ==> r@
                == "Speech synthesis failed: "@ + diagnostic@,
    {
        match self {
            SpeechError::Launch { cause } => String::from_str(
                "Failed to execute speech command: ",
            ).concat(cause.as_str()),
            SpeechError::Synthesis { diagnostic } => String::from_str(
                "Speech synthesis failed: ",
            ).concat(diagnostic.as_str()),
        }
    }
}

/// The voice settings one request resolves to: the engine's voice name and
/// the speaking rate in words per minute.
#[derive(Clone, Debug, PartialEq, Eq)]
pub struct VoiceChoice {
    pub voice_name: String,
    pub rate: u64,
}

/// The voice name for a language code and preset. Each language row has a
/// `cinematic` (male) voice and a default (female) voice; an unknown language
/// code falls back to the English row.
pub open spec fn voice_for(language_code: Seq<char>, voice_preset: Seq<char>) -> Seq<char> {
    let cinematic = voice_preset == "cinematic"@;
    if language_code == "es-ES"@ {
        if cinematic {
            "Diego"@
        } else {
            "Mónica"@
        }
    } else if language_code == "fr-FR"@ {
        if cinematic {
            "Thomas"@
        } else {
            "Amélie"@
        }
    } else {
        if cinematic {
            "Alex"@
        } else {
            "Samantha"@
        }
    }
}

/// The speaking rate for a preset: the `cinematic` preset slows the engine
/// down, every other preset speaks at the normal rate.
pub open spec fn rate_for(voice_preset: Seq<char>) -> u64 {
    if voice_preset == "cinematic"@ {
        150
    } else {
        200
    }
}

/// Resolves a voice request through the fixed table, with the English row as
/// the default for unknown language codes.
pub fn resolve_voice(language_code: &str, voice_preset: &str) -> (r: VoiceChoice)
    ensures
        r.voice_name@ == voice_for(language_code@, voice_preset@),
        r.rate == rate_for(voice_preset@),
{
    let cinematic = str_eq(voice_preset, "cinematic");
    let voice_name = if str_eq(language_code, "es-ES") {
        if cinematic {
            String::from_str("Diego")
        } else {
            String::from_str("Mónica")
        }
    } else if str_eq(language_code, "fr-FR") {
        if cinematic {
            String::from_str("Thomas")
        } else {
            String::from_str("Amélie")
        }
    } else {
        if cinematic {
            String::from_str("Alex")
        } else {
            String::from_str("Samantha")
        }
    };
    let rate: u64 = if cinematic {
        150
    } else {
        200
    };
    VoiceChoice { voice_name, rate }
}

/// In every language row the `cinematic` preset resolves to a different voice
/// and a different rate than any other preset: the alternate preset is never
/// the default one.
pub proof fn lemma_voice_presets_distinct(language_code: Seq<char>, voice_preset: Seq<char>)
    requires
        voice_preset != "cinematic"@,
    ensures
        voice_for(language_code, "cinematic"@) != voice_for(language_code, voice_preset),
        rate_for("cinematic"@) != rate_for(voice_preset),
{
    reveal_strlit("Diego");
    reveal_strlit("Mónica");
    reveal_strlit("Thomas");
    reveal_strlit("Amélie");
    reveal_strlit("Alex");
    reveal_strlit("Samantha");
    assert("Thomas"@[0] != "Amélie"@[0]);
    assert("Diego"@.len() != "Mónica"@.len());
    assert("Alex"@.len() != "Samantha"@.len());
}

/// What invoking the voice engine for one utterance yielded: the engine never
/// started, or it ran and exited, successfully or not, with its diagnostic
/// output.
pub enum EngineOutcome {
    LaunchFailure { cause: String },
    Exited { success: bool, diagnostic: String },
}

/// Interprets the voice engine's outcome for `speak`: a failed launch and a
/// non-zero exit are errors, the latter carrying the engine's diagnostic
/// output; a clean exit is success.
pub fn interpret_speak_outcome(outcome: EngineOutcome) -> (r: Result<(), SpeechError>)
    ensures
        match outcome {
            EngineOutcome::LaunchFailure { cause } => r == Err::<(), SpeechError>(
                SpeechError::Launch { cause },
            ),
            EngineOutcome::Exited { success, diagnostic } => if success {
                r is Ok
            } else {
                r == Err::<(), SpeechError>(SpeechError::Synthesis { diagnostic })
            },
        },
{
    match outcome {
        EngineOutcome::LaunchFailure { cause } => Err(SpeechError::Launch { cause }),
        EngineOutcome::Exited { success, diagnostic } => {
            if success {
                Ok(())
            } else {
                Err(SpeechError::Synthesis { diagnostic })
            }
        },
    }
}

/// What the best-effort termination signal for `stop_speech` yielded: it
/// reached a running synthesis process, there was none to reach, or the
/// signal could not be issued at all.
pub enum StopSignalOutcome {
    Delivered,
    NoRunningProcess,
    SignalFailure { cause: String },
}

/// Interprets the outcome of the termination signal: the absence of a running
/// synthesis process is success, exactly like a delivered signal; only a
/// signal that could not be issued is an error.
pub fn interpret_stop_outcome(outcome: StopSignalOutcome) -> (r: Result<(), SpeechError>)
    ensures
        match outcome {
            StopSignalOutcome::Delivered => r is Ok,
            StopSignalOutcome::NoRunningProcess => r is Ok,
            StopSignalOutcome::SignalFailure { cause } => r == Err::<(), SpeechError>(
                SpeechError::Launch { cause },
            ),
        },
{
    match outcome {
        StopSignalOutcome::Delivered => Ok(()),
        StopSignalOutcome::NoRunningProcess => Ok(()),
        StopSignalOutcome::SignalFailure { cause } => Err(SpeechError::Launch { cause }),
    }
}

} // verus!
