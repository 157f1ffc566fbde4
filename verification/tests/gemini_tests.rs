use llm_commit::error::{ErrorKind, GenerationError};
use llm_commit::http::{HttpStatus, SendOutcome};
use llm_commit::models::{Candidate, Content, Contents, GeminiRequest, GeminiResponse, Part};
use llm_commit::services::gemini::{GeminiService, GEMINI_ENDPOINT, MISSING_KEY};
use llm_commit::services::LlmService;

fn responded(code: u16) -> SendOutcome {
    SendOutcome::Responded { status: HttpStatus::new(code).unwrap() }
}

fn service() -> GeminiService {
    GeminiService::new(Some("k-123".to_string()))
}

fn answer(text: &str) -> GeminiResponse {
    GeminiResponse {
        candidates: vec![Candidate {
            content: Content { parts: vec![Part { text: text.to_string() }] },
        }],
    }
}

#[test]
fn hosted_knows_whether_it_has_a_key() {
    assert!(service().has_key());
    assert!(GeminiService::new(Some(String::new())).has_key());
    assert!(!GeminiService::new(None).has_key());
}

#[test]
fn hosted_request_appends_the_key_to_the_endpoint() {
    let request = service().request("the prompt").unwrap();
    assert_eq!(
        GEMINI_ENDPOINT,
        "https://generativelanguage.googleapis.com/v1beta/models/gemini-flash-latest:generateContent?key="
    );
    assert_eq!(
        request.url,
        "https://generativelanguage.googleapis.com/v1beta/models/gemini-flash-latest:generateContent?key=k-123"
    );
}

#[test]
fn hosted_request_carries_the_prompt_as_its_only_part() {
    let request = service().request("the prompt").unwrap();
    assert_eq!(
        request.body,
        GeminiRequest {
            contents: vec![Contents { parts: vec![Part { text: "the prompt".to_string() }] }]
        }
    );
}

#[test]
fn hosted_request_does_not_escape_the_key() {
    let request = GeminiService::new(Some("a b&c=d".to_string())).request("p").unwrap();
    assert_eq!(request.url, format!("{}a b&c=d", GEMINI_ENDPOINT));
    let bare = GeminiService::new(Some(String::new())).request("p").unwrap();
    assert_eq!(bare.url, GEMINI_ENDPOINT);
}

#[test]
fn hosted_without_key_makes_no_request() {
    let error = GeminiService::new(None).request("the prompt").unwrap_err();
    assert_eq!(MISSING_KEY, "GEMINI_API_KEY environment variable not set");
    assert_eq!(
        error,
        GenerationError {
            kind: ErrorKind::MissingCredential,
            message: "GEMINI_API_KEY environment variable not set".to_string(),
            diagnostics: vec!["GEMINI_API_KEY environment variable not set".to_string()],
        }
    );
}

#[test]
fn hosted_accepts_every_successful_status() {
    for code in [200u16, 202, 299] {
        assert_eq!(service().accept(responded(code)), Ok(()));
    }
}

#[test]
fn hosted_status_error_shows_the_status() {
    let error = service().accept(responded(403)).unwrap_err();
    assert_eq!(
        error,
        GenerationError {
            kind: ErrorKind::Status,
            message: "Gemini server error: 403 Forbidden".to_string(),
            diagnostics: vec!["Error from Gemini server: Status 403 Forbidden".to_string()],
        }
    );
}

#[test]
fn hosted_404_is_a_status_error_like_any_other() {
    let error = service().accept(responded(404)).unwrap_err();
    assert_eq!(error.kind, ErrorKind::Status);
    assert_eq!(error.message, "Gemini server error: 404 Not Found");
    assert_eq!(error.diagnostics, vec!["Error from Gemini server: Status 404 Not Found"]);
}

#[test]
fn hosted_send_failure_is_reported_with_its_reason() {
    for connect in [true, false] {
        let outcome = SendOutcome::Failed { connect, message: "dns error".to_string() };
        let error = service().accept(outcome).unwrap_err();
        assert_eq!(
            error,
            GenerationError {
                kind: ErrorKind::Request,
                message: "dns error".to_string(),
                diagnostics: vec!["Error sending request to Gemini server: dns error".to_string()],
            }
        );
    }
}

#[test]
fn hosted_status_error_takes_the_status_as_it_is_shown() {
    let error = GeminiService::status_error("429 Too Many Requests");
    assert_eq!(error.kind, ErrorKind::Status);
    assert_eq!(error.message, "Gemini server error: 429 Too Many Requests");
    assert_eq!(error.diagnostics, vec!["Error from Gemini server: Status 429 Too Many Requests"]);
}

#[test]
fn hosted_answer_is_the_first_text() {
    assert_eq!(service().conclude(Ok(answer("feat: ✨add x"))), Ok("feat: ✨add x".to_string()));
}

#[test]
fn hosted_answer_ignores_later_candidates_and_parts() {
    let response = GeminiResponse {
        candidates: vec![
            Candidate {
                content: Content {
                    parts: vec![
                        Part { text: "chosen".to_string() },
                        Part { text: "second part".to_string() },
                    ],
                },
            },
            Candidate { content: Content { parts: vec![Part { text: "other".to_string() }] } },
        ],
    };
    assert_eq!(service().conclude(Ok(response)), Ok("chosen".to_string()));
}

#[test]
fn hosted_undecodable_body_is_a_parse_error() {
    let error = service().conclude(Err("missing field `candidates`".to_string())).unwrap_err();
    assert_eq!(
        error,
        GenerationError {
            kind: ErrorKind::Parse,
            message: "missing field `candidates`".to_string(),
            diagnostics: vec![
                "Error parsing response from Gemini server: missing field `candidates`"
                    .to_string()
            ],
        }
    );
}
