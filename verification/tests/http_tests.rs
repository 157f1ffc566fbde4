use llm_commit::http::HttpStatus;

fn status(code: u16) -> HttpStatus {
    HttpStatus::new(code).unwrap()
}

#[test]
fn status_numbers_run_from_100_to_999() {
    assert!(HttpStatus::new(0).is_none());
    assert!(HttpStatus::new(99).is_none());
    assert!(HttpStatus::new(100).is_some());
    assert!(HttpStatus::new(999).is_some());
    assert!(HttpStatus::new(1000).is_none());
    assert!(HttpStatus::new(u16::MAX).is_none());
}

#[test]
fn status_keeps_its_number() {
    assert_eq!(status(100).code(), 100);
    assert_eq!(status(404).code(), 404);
    assert_eq!(status(999).code(), 999);
}

#[test]
fn success_is_the_two_hundreds() {
    assert!(!status(199).is_success());
    assert!(status(200).is_success());
    assert!(status(204).is_success());
    assert!(status(299).is_success());
    assert!(!status(300).is_success());
    assert!(!status(404).is_success());
    assert!(!status(500).is_success());
    assert!(!status(100).is_success());
    assert!(!status(999).is_success());
}

#[test]
fn not_found_is_404_alone() {
    assert!(status(404).is_not_found());
    assert!(!status(403).is_not_found());
    assert!(!status(405).is_not_found());
    assert!(!status(200).is_not_found());
    assert!(!status(410).is_not_found());
}

#[test]
fn status_text_is_number_and_reason() {
    assert_eq!(status(200).text(), "200 OK");
    assert_eq!(status(404).text(), "404 Not Found");
    assert_eq!(status(500).text(), "500 Internal Server Error");
    assert_eq!(status(429).text(), "429 Too Many Requests");
}

#[test]
fn status_text_of_a_number_without_reason() {
    assert_eq!(status(299).text(), "299 <unknown status code>");
    assert_eq!(status(999).text(), "999 <unknown status code>");
}

#[test]
fn status_text_agrees_with_reqwest() {
    for code in [100u16, 201, 301, 400, 401, 403, 404, 418, 502, 503, 600] {
        let theirs = reqwest::StatusCode::from_u16(code).unwrap();
        assert_eq!(status(code).text(), theirs.to_string());
        assert_eq!(status(code).is_success(), theirs.is_success());
        assert_eq!(status(code).is_not_found(), theirs == reqwest::StatusCode::NOT_FOUND);
    }
}

#[test]
fn every_status_number_agrees_with_reqwest() {
    for code in 0u16..=1100 {
        match (HttpStatus::new(code), reqwest::StatusCode::from_u16(code)) {
            (Some(ours), Ok(theirs)) => {
                assert_eq!(ours.code(), theirs.as_u16());
                assert_eq!(ours.is_success(), theirs.is_success());
                assert_eq!(ours.is_success(), (200..=299).contains(&code));
                assert_eq!(ours.is_not_found(), code == 404);
            }
            (None, Err(_)) => {}
            _ => panic!("status {} is judged differently", code),
        }
    }
}
