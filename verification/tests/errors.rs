use openai_client::error_handling::{report, Category, OpenAIError};

fn transport_failure() -> reqwest::Error {
    reqwest::Client::new().get("not an address").build().unwrap_err()
}

fn encoding_failure() -> serde_json::Error {
    serde_json::from_str::<serde_json::Value>("{").unwrap_err()
}

fn io_failure() -> std::io::Error {
    std::io::Error::new(std::io::ErrorKind::NotFound, "no such file: audio.mp3")
}

#[test]
fn reports_begin_with_the_category() {
    assert_eq!(report(Category::Transport, "timed out"), "Transport Error: timed out");
    assert_eq!(report(Category::Encoding, "eof"), "Encoding Error: eof");
    assert_eq!(report(Category::LocalIo, "denied"), "LocalIO Error: denied");
    assert_eq!(report(Category::LocalIo, ""), "LocalIO Error: ");
}

#[test]
fn transport_cause_converts_to_transport() {
    let said = transport_failure().to_string();
    let e: OpenAIError = transport_failure().into();
    assert!(matches!(e, OpenAIError::ReqwestError(_)));
    assert_eq!(e.category(), Category::Transport);
    assert_eq!(e.message(), format!("Transport Error: {}", said));
}

#[test]
fn json_cause_converts_to_encoding() {
    let said = encoding_failure().to_string();
    let e = OpenAIError::from(encoding_failure());
    assert!(matches!(e, OpenAIError::SerdeJsonError(_)));
    assert_eq!(e.category(), Category::Encoding);
    assert_eq!(e.message(), format!("Encoding Error: {}", said));
}

#[test]
fn io_cause_converts_to_local_io() {
    let e = OpenAIError::from(io_failure());
    assert!(matches!(e, OpenAIError::IoError(_)));
    assert_eq!(e.category(), Category::LocalIo);
    assert_eq!(e.message(), "LocalIO Error: no such file: audio.mp3");
}

fn read_upload(outcome: Result<Vec<u8>, std::io::Error>) -> Result<Vec<u8>, OpenAIError> {
    let bytes = outcome?;
    Ok(bytes)
}

#[test]
fn question_mark_converts_the_cause() {
    assert_eq!(read_upload(Ok(vec![1, 2, 3])).unwrap(), vec![1, 2, 3]);
    match read_upload(Err(io_failure())) {
        Err(e) => assert_eq!(e.category(), Category::LocalIo),
        Ok(_) => panic!("a failed read gave content"),
    }
}
