use llm_commit::models::{
    Candidate, Content, Contents, GeminiRequest, GeminiResponse, OllamaRequest, OllamaResponse,
    Part,
};

fn part(text: &str) -> Part {
    Part { text: text.to_string() }
}

fn candidate(texts: &[&str]) -> Candidate {
    Candidate { content: Content { parts: texts.iter().map(|t| part(t)).collect() } }
}

#[test]
fn ollama_request_is_never_streamed() {
    let request = OllamaRequest::new("gemma3", "say hi");
    assert_eq!(
        request,
        OllamaRequest { model: "gemma3".to_string(), prompt: "say hi".to_string(), stream: false }
    );
}

#[test]
fn ollama_request_keeps_empty_texts() {
    let request = OllamaRequest::new("", "");
    assert_eq!(request.model, "");
    assert_eq!(request.prompt, "");
    assert!(!request.stream);
}

#[test]
fn ollama_response_carries_its_text() {
    let response = OllamaResponse { response: "fix: 🐛bug".to_string() };
    assert_eq!(response.response, "fix: 🐛bug");
}

#[test]
fn gemini_request_holds_one_block_of_one_part() {
    let request = GeminiRequest::new("the prompt");
    assert_eq!(
        request,
        GeminiRequest { contents: vec![Contents { parts: vec![part("the prompt")] }] }
    );
    assert_eq!(request.contents.len(), 1);
    assert_eq!(request.contents[0].parts.len(), 1);
}

#[test]
fn gemini_request_keeps_the_prompt_as_it_is() {
    let prompt = " line one\nline \"two\" ✨ ";
    let request = GeminiRequest::new(prompt);
    assert_eq!(request.contents[0].parts[0].text, prompt);
}

#[test]
fn first_text_is_the_first_part_of_the_first_candidate() {
    let response = GeminiResponse {
        candidates: vec![candidate(&["first", "second"]), candidate(&["other"])],
    };
    assert_eq!(response.first_text(), Some(&"first".to_string()));
}

#[test]
fn first_text_of_a_single_candidate() {
    let response = GeminiResponse { candidates: vec![candidate(&["only"])] };
    assert_eq!(response.first_text().map(|t| t.as_str()), Some("only"));
}

#[test]
fn first_text_is_missing_without_candidates() {
    let response = GeminiResponse { candidates: vec![] };
    assert_eq!(response.first_text(), None);
}

#[test]
fn first_text_is_missing_where_the_first_candidate_is_empty() {
    let response = GeminiResponse { candidates: vec![candidate(&[]), candidate(&["later"])] };
    assert_eq!(response.first_text(), None);
}

#[test]
fn first_text_may_be_empty() {
    let response = GeminiResponse { candidates: vec![candidate(&[""])] };
    assert_eq!(response.first_text().map(|t| t.as_str()), Some(""));
}
