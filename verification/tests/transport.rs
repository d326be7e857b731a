use openai_client::error_handling::{Category, OpenAIError};
use openai_client::json::Json;
use openai_client::openai::{conclude, decode, OpenAI};
use openai_client::request::{Body, FormPart, Header, Method, MultipartForm, Request};
use openai_client::request_client::RequestClient;

fn header(name: &str, value: &str) -> Header {
    Header { name: name.to_string(), value: value.to_string() }
}

fn transport_failure() -> reqwest::Error {
    reqwest::Client::new().get("not an address").build().unwrap_err()
}

#[test]
fn empty_base_url_selects_the_default() {
    let api = OpenAI::new("sk-test", "");
    assert_eq!(api.get_base_url(), "https://api.openai.com/v1");
}

#[test]
fn given_base_url_is_kept() {
    let api = OpenAI::new("sk-test", "http://localhost:8080/v1");
    assert_eq!(api.get_base_url(), "http://localhost:8080/v1");
}

#[test]
fn get_models_targets_the_models_path() {
    let api = OpenAI::new("sk-test", "http://localhost:8080/v1");
    let request = api.client().get_models();
    assert_eq!(request.method, Method::Get);
    assert_eq!(request.url, "http://localhost:8080/v1/models");
    assert_eq!(request.headers, vec![header("Authorization", "Bearer sk-test")]);
    assert_eq!(request.body, Body::Empty);
}

#[test]
fn fetch_carries_the_credential() {
    let api = OpenAI::new("key", "http://h");
    let request = api.get("/things?x=1");
    assert_eq!(
        request,
        Request {
            method: Method::Get,
            url: "http://h/things?x=1".to_string(),
            headers: vec![header("Authorization", "Bearer key")],
            body: Body::Empty,
        }
    );
}

#[test]
fn submit_json_announces_its_content_type() {
    let api = OpenAI::new("key", "http://h");
    let request = api.post_json("/things", "{\"a\":1}".to_string());
    assert_eq!(
        request,
        Request {
            method: Method::Post,
            url: "http://h/things".to_string(),
            headers: vec![
                header("Authorization", "Bearer key"),
                header("Content-Type", "application/json"),
            ],
            body: Body::Json("{\"a\":1}".to_string()),
        }
    );
}

#[test]
fn submit_multipart_carries_the_form() {
    let api = OpenAI::new("key", "http://h");
    let form = || {
        MultipartForm::new().text("a", "b").file("f", "x.bin", "application/octet-stream", vec![1, 2])
    };
    let request = api.post_form("/upload", form());
    assert_eq!(
        request,
        Request {
            method: Method::Post,
            url: "http://h/upload".to_string(),
            headers: vec![header("Authorization", "Bearer key")],
            body: Body::Multipart(form()),
        }
    );
}

#[test]
fn remove_carries_the_credential() {
    let api = OpenAI::new("key", "http://h");
    let request = api.delete("/things/1");
    assert_eq!(
        request,
        Request {
            method: Method::Delete,
            url: "http://h/things/1".to_string(),
            headers: vec![header("Authorization", "Bearer key")],
            body: Body::Empty,
        }
    );
}

#[test]
fn changed_base_url_is_used_by_the_next_request() {
    let mut api = OpenAI::new("key", "http://first");
    let before = api.get("/models");
    api.set_base_url("http://second/v2");
    assert_eq!(api.get_base_url(), "http://second/v2");
    let after = api.get("/models");
    assert_eq!(before.url, "http://first/models");
    assert_eq!(after.url, "http://second/v2/models");
    assert_eq!(after.headers, vec![header("Authorization", "Bearer key")]);
    assert_eq!(api.client().get_models().url, "http://second/v2/models");
}

#[test]
fn base_url_can_be_set_to_empty() {
    let mut api = OpenAI::new("key", "");
    api.set_base_url("");
    assert_eq!(api.get_base_url(), "");
    assert_eq!(api.get("/models").url, "/models");
}

#[test]
fn form_parts_keep_their_order() {
    let form = MultipartForm::new()
        .text("model", "m")
        .opt_text("prompt", None)
        .opt_text("language", Some("en"))
        .opt_unsigned("n", Some(3))
        .opt_unsigned("k", None)
        .file("file", "a.mp3", "audio/mpeg", vec![9]);
    assert_eq!(
        form.parts,
        vec![
            FormPart::Text { name: "model".to_string(), value: "m".to_string() },
            FormPart::Text { name: "language".to_string(), value: "en".to_string() },
            FormPart::Text { name: "n".to_string(), value: "3".to_string() },
            FormPart::File {
                name: "file".to_string(),
                file_name: "a.mp3".to_string(),
                mime: "audio/mpeg".to_string(),
                bytes: vec![9],
            },
        ]
    );
}

#[test]
fn valid_json_body_is_a_response() {
    let value = decode(br#"{"data":[1,2,3],"object":"list"}"#).unwrap();
    assert_eq!(value["object"], serde_json::Value::from("list"));
    assert_eq!(value["data"][2], serde_json::Value::from(3));
}

#[test]
fn service_reported_error_is_still_a_response() {
    let value = conclude(Ok(br#"{"error":{"message":"bad key"}}"#.to_vec())).unwrap();
    assert_eq!(value["error"]["message"], serde_json::Value::from("bad key"));
}

#[test]
fn malformed_body_is_an_encoding_failure() {
    for body in [&b"<html>"[..], &b""[..], &b"{\"a\":1"[..], &[0xff, 0xfe][..]] {
        match decode(body) {
            Err(e) => {
                assert_eq!(e.category(), Category::Encoding);
                assert!(matches!(e, OpenAIError::SerdeJsonError(_)));
                assert!(e.message().starts_with("Encoding Error: "));
            },
            Ok(_) => panic!("{:?} was decoded", body),
        }
        match conclude(Ok(body.to_vec())) {
            Err(e) => assert_eq!(e.category(), Category::Encoding),
            Ok(_) => panic!("{:?} was decoded", body),
        }
    }
}

#[test]
fn failed_exchange_is_a_transport_failure() {
    let cause = transport_failure();
    let said = cause.to_string();
    match conclude(Err(cause)) {
        Err(e) => {
            assert_eq!(e.category(), Category::Transport);
            assert!(matches!(e, OpenAIError::ReqwestError(_)));
            assert_eq!(e.message(), format!("Transport Error: {}", said));
        },
        Ok(_) => panic!("a failed exchange gave a response"),
    }
}

#[test]
fn plain_client_requests() {
    let client = RequestClient::new("abc");
    assert_eq!(client.api_key, "abc");
    assert_eq!(
        client.get("http://h/x"),
        Request {
            method: Method::Get,
            url: "http://h/x".to_string(),
            headers: vec![header("Authorization", "Bearer abc")],
            body: Body::Empty,
        }
    );
    let body = Json::parse(r#"{"q":[1,2]}"#).unwrap();
    assert_eq!(
        client.post("http://h/y", &body),
        Request {
            method: Method::Post,
            url: "http://h/y".to_string(),
            headers: vec![
                header("Authorization", "Bearer abc"),
                header("Content-Type", "application/json"),
            ],
            body: Body::Json(r#"{"q":[1,2]}"#.to_string()),
        }
    );
}
