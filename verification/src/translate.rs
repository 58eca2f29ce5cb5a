//! The translation gateway: a stateless operation, independent of session
//! state. Planning a call validates the credential and assembles the request;
//! finishing a call classifies the transport outcome, decodes the body of a
//! successful response, and extracts the single translated text.

use vstd::prelude::*;

use crate::text::dec_str;
use crate::text::str_eq;
use crate::text::u16_to_string;

verus! {

/// A successful translation: the first entry of the upstream answer.
#[derive(Clone, Debug, PartialEq, Eq)]
pub struct TranslationResult {
    pub translated_text: String,
}

/// Why a translation call failed. Every kind is local to the one call and
/// never retried automatically.
#[derive(Clone, Debug, PartialEq, Eq)]
pub enum TranslationError {
    /// The credential is missing or unusable; no request is issued.
    Config { message: String },
    /// The request never yielded a response (DNS, TCP, TLS).
    Transport { cause: String },
    /// The service answered with a non-success status; the status and the
    /// full response body are kept for diagnosability.
    Upstream { status: u16, body: String },
    /// The service answered successfully but the body was not decodable.
    Decode,
    /// The decoded answer holds no translation entry at all.
    EmptyResult,
}

impl TranslationError {
    /// The diagnostic text reported to the caller.
    pub fn message(&self) -> (r: String)
        ensures
            self matches TranslationError::Config { message } ==> r@ == message@,
            self matches TranslationError::Transport { cause } ==> r@
                == "Failed to connect to translation service: "@ + cause@,
            self matches TranslationError::Upstream { status, body } ==> r@
                == "Translation service error (Status: "@ + dec_str(status as nat) + "): "@
                + body@,
            self is Decode ==> r@ == "Failed to parse translation response."@,
            self is EmptyResult ==> r@ == "No translation found in response."@,
    {
        match self {
            TranslationError::Config { message } => message.clone(),
            TranslationError::Transport { cause } => String::from_str(
                "Failed to connect to translation service: ",
            ).concat(cause.as_str()),
            TranslationError::Upstream { status, body } => String::from_str(
                "Translation service error (Status: ",
            ).concat(u16_to_string(*status).as_str()).concat("): ").concat(body.as_str()),
            TranslationError::Decode => String::from_str("Failed to parse translation response."),
            TranslationError::EmptyResult => String::from_str("No translation found in response."),
        }
    }
}

/// The credential value that the configuration template ships with; it is as
/// unusable as no credential at all.
pub open spec fn placeholder_credential() -> Seq<char> {
    "your_deepl_api_key_here"@
}

/// A credential is usable when it is present, nonempty and not the template
/// placeholder.
pub open spec fn credential_usable(credential: Option<Seq<char>>) -> bool {
    match credential {
        Option::None => false,
        Option::Some(key) => key.len() != 0 && key != placeholder_credential(),
    }
}

/// Validates the credential. A missing credential and a placeholder value are
/// distinct configuration errors; a usable credential is returned unchanged.
pub fn check_credential(credential: Option<String>) -> (r: Result<String, TranslationError>)
    ensures
        r is Ok <==> credential_usable(match credential {
            Option::None => Option::None,
            Option::Some(key) => Option::Some(key@),
        }),
        r matches Ok(key) ==> {
            &&& credential matches Some(given) && key == given
            &&& credential_usable(Some(key@))
        },
        credential is None ==> {
            &&& r matches Err(TranslationError::Config { message })
            &&& message@ == "credential not found"@
        },
        (credential matches Some(given) && !credential_usable(Some(given@))) ==> {
            &&& r matches Err(TranslationError::Config { message })
            &&& message@ == "credential is a placeholder"@
        },
{
    match credential {
        Option::None => Err(
            TranslationError::Config { message: String::from_str("credential not found") },
        ),
        Option::Some(key) => {
            if key.as_str().is_empty() || str_eq(key.as_str(), "your_deepl_api_key_here") {
                Err(
                    TranslationError::Config {
                        message: String::from_str("credential is a placeholder"),
                    },
                )
            } else {
                Ok(key)
            }
        },
    }
}

/// A fully assembled upstream request: the endpoint, the authorization
/// header value, and the form parameters in the order they are sent.
pub struct TranslationRequest {
    pub url: String,
    pub auth_header: String,
    pub params: Vec<(String, String)>,
}

/// The form parameters of one request: the text, the target language, and the
/// source language only when the caller gave one.
pub open spec fn request_params(
    text: Seq<char>,
    target_lang: Seq<char>,
    source_lang: Option<Seq<char>>,
) -> Seq<(Seq<char>, Seq<char>)> {
    let base = seq![("text"@, text), ("target_lang"@, target_lang)];
    match source_lang {
        Option::None => base,
        Option::Some(source) => base.push(("source_lang"@, source)),
    }
}

/// Validates the credential and assembles the request. An error here means
/// the configuration is bad and no request may be issued; success hands the
/// caller everything the transport needs.
pub fn plan_translation(
    text: String,
    target_lang: String,
    source_lang: Option<String>,
    credential: Option<String>,
) -> (r: Result<TranslationRequest, TranslationError>)
    ensures
        r is Ok <==> credential_usable(match credential {
            Option::None => Option::None,
            Option::Some(key) => Option::Some(key@),
        }),
        r matches Ok(req) ==> {
            &&& req.url@ == "https://api-free.deepl.com/v2/translate"@
            &&& credential matches Some(key) && req.auth_header@ == "DeepL-Auth-Key "@ + key@
            &&& req.params.deep_view() == request_params(
                text@,
                target_lang@,
                match source_lang {
                    Option::None => Option::None,
                    Option::Some(source) => Option::Some(source@),
                },
            )
        },
        credential is None ==> {
            &&& r matches Err(TranslationError::Config { message })
            &&& message@ == "credential not found"@
        },
        (credential matches Some(key) && !credential_usable(Some(key@))) ==> {
            &&& r matches Err(TranslationError::Config { message })
            &&& message@ == "credential is a placeholder"@
        },
{
    let key = match check_credential(credential) {
        Ok(key) => key,
        Err(e) => {
            return Err(e);
        },
    };
    let mut params: Vec<(String, String)> = Vec::new();
    params.push((String::from_str("text"), text));
    params.push((String::from_str("target_lang"), target_lang));
    match source_lang {
        Option::None => {},
        Option::Some(source) => params.push((String::from_str("source_lang"), source)),
    }
    proof {
        assert(params.deep_view() =~= request_params(
            params.deep_view()[0].1,
            params.deep_view()[1].1,
            match source_lang {
                Option::None => Option::None,
                Option::Some(source) => Option::Some(source@),
            },
        ));
    }
    Ok(
        TranslationRequest {
            url: String::from_str("https://api-free.deepl.com/v2/translate"),
            auth_header: String::from_str("DeepL-Auth-Key ").concat(key.as_str()),
            params,
        },
    )
}

/// What the transport observed for one issued request: either no response at
/// all, or a response with its status and full body text.
pub enum UpstreamOutcome {
    TransportFailure { cause: String },
    Response { status: u16, body: String },
}

/// An HTTP status that counts as success.
pub open spec fn status_success(status: u16) -> bool {
    200 <= status < 300
}

/// The translation entries held by a response body, in order, or nothing
/// when the body is not a well-formed translation answer.
pub uninterp spec fn decoded_translations(body: Seq<char>) -> Option<Seq<Seq<char>>>;

/// Relies on serde_json::from_str and serde_json::Value's accessors: decoding
/// the answer's JSON body is a function of the body text alone. The entries
/// are the `text` fields of the top-level `translations` array; a body
/// missing that shape decodes to nothing.
#[verifier::external_body]
fn decode_translations(body: &str) -> (r: Option<Vec<String>>)
    ensures
        r.deep_view() == decoded_translations(body@),
{
    let value: serde_json::Value = serde_json::from_str(body).ok()?;
    let entries = value.get("translations")?.as_array()?;
    let mut texts: Vec<String> = Vec::new();
    for entry in entries {
        texts.push(entry.get("text")?.as_str()?.to_owned());
    }
    Some(texts)
}

/// Extracts the result from the decoded entries: an undecodable body is a
/// decode error, an empty entry list is an empty-result error, and otherwise
/// the first entry's text is the answer — later entries are ignored.
pub fn extract_translation(decoded: Option<Vec<String>>) -> (r: Result<
    TranslationResult,
    TranslationError,
>)
    ensures
        match decoded {
            Option::None => r == Err::<TranslationResult, TranslationError>(
                TranslationError::Decode,
            ),
            Option::Some(texts) => {
                &&& texts@.len() == 0 ==> r == Err::<TranslationResult, TranslationError>(
                    TranslationError::EmptyResult,
                )
                &&& texts@.len() > 0 ==> {
                    &&& r matches Ok(t)
                    &&& t.translated_text@ == texts.deep_view()[0]
                }
            },
        },
{
    match decoded {
        Option::None => Err(TranslationError::Decode),
        Option::Some(texts) => {
            if texts.len() == 0 {
                Err(TranslationError::EmptyResult)
            } else {
                let first = texts[0].clone();
                Ok(TranslationResult { translated_text: first })
            }
        },
    }
}

/// Classifies the transport outcome and, on a successful status, decodes the
/// body and extracts the single translated text. A failed transport and a
/// non-success status are surfaced verbatim; the upstream error keeps both
/// the numeric status and the full body.
pub fn finish_translation(outcome: UpstreamOutcome) -> (r: Result<
    TranslationResult,
    TranslationError,
>)
    ensures
        match outcome {
            UpstreamOutcome::TransportFailure { cause } => r == Err::<
                TranslationResult,
                TranslationError,
            >(TranslationError::Transport { cause }),
            UpstreamOutcome::Response { status, body } => if !status_success(status) {
                r == Err::<TranslationResult, TranslationError>(
                    TranslationError::Upstream { status, body },
                )
            } else {
                match decoded_translations(body@) {
                    Option::None => r == Err::<TranslationResult, TranslationError>(
                        TranslationError::Decode,
                    ),
                    Option::Some(texts) => {
                        &&& texts.len() == 0 ==> r == Err::<TranslationResult, TranslationError>(
                            TranslationError::EmptyResult,
                        )
                        &&& texts.len() > 0 ==> {
                            &&& r matches Ok(t)
                            &&& t.translated_text@ == texts[0]
                        }
                    },
                }
            },
        },
{
    match outcome {
        UpstreamOutcome::TransportFailure { cause } => Err(
            TranslationError::Transport { cause },
        ),
        UpstreamOutcome::Response { status, body } => {
            if !(200 <= status && status < 300) {
                Err(TranslationError::Upstream { status, body })
            } else {
                extract_translation(decode_translations(body.as_str()))
            }
        },
    }
}

} // verus!
