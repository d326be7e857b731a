use openai_client::json::{Json, JsonNumber};
use openai_client::openai_api::assistants::{AssistantCreationRequest, AssistantModificationRequest};
use openai_client::openai_api::completion::ChatCompletionRequest;
use openai_client::openai_api::threads::{ThreadCreationRequest, ThreadModificationRequest};
use openai_client::openai_api::vectors::{VectorStoreCreationRequest, VectorStoreModificationRequest};

fn json(text: &str) -> Json {
    Json::parse(text).unwrap()
}

fn number(value: f64) -> JsonNumber {
    JsonNumber::parse(&serde_json::to_string(&value).unwrap()).unwrap()
}

fn keys(text: &str) -> Vec<String> {
    let value: serde_json::Value = serde_json::from_str(text).unwrap();
    let mut names: Vec<String> = value.as_object().unwrap().keys().cloned().collect();
    names.sort();
    names
}

fn sorted(names: &[&str]) -> Vec<String> {
    let mut names: Vec<String> = names.iter().map(|n| n.to_string()).collect();
    names.sort();
    names
}

fn user_message() -> Json {
    json(r#"{"role":"user","content":"hi"}"#)
}

#[test]
fn chat_request_with_temperature_and_stream() {
    let request = ChatCompletionRequest::new("gpt-x".to_string(), vec![user_message()])
        .temperature(number(0.5))
        .stream(true);
    assert_eq!(
        request.to_json(),
        r#"{"model":"gpt-x","messages":[{"role":"user","content":"hi"}],"temperature":0.5,"stream":true}"#
    );
}

#[test]
fn chat_request_without_setters_sends_mandatory_fields_only() {
    let text = ChatCompletionRequest::new("gpt-x".to_string(), vec![user_message()]).to_json();
    assert_eq!(text, r#"{"model":"gpt-x","messages":[{"role":"user","content":"hi"}]}"#);
    let value: serde_json::Value = serde_json::from_str(&text).unwrap();
    let object = value.as_object().unwrap();
    assert_eq!(object.len(), 2);
    assert_eq!(object["model"], serde_json::Value::from("gpt-x"));
    assert_eq!(object["messages"][0]["content"], serde_json::Value::from("hi"));
    assert_eq!(keys(&text), sorted(&["model", "messages"]));
}

#[test]
fn chat_request_mandatory_fields_are_sent_even_when_empty() {
    let text = ChatCompletionRequest::new(String::new(), Vec::new()).to_json();
    assert_eq!(text, r#"{"model":"","messages":[]}"#);
}

#[test]
fn chat_request_default_is_empty() {
    let text = ChatCompletionRequest::default().to_json();
    assert_eq!(text, r#"{"model":"","messages":[]}"#);
}

#[test]
fn chat_request_setter_order_does_not_matter() {
    let one = ChatCompletionRequest::new("m".to_string(), Vec::new())
        .user("u".to_string())
        .max_tokens(7)
        .stop(vec!["a".to_string(), "b".to_string()])
        .n(2);
    let other = ChatCompletionRequest::new("m".to_string(), Vec::new())
        .n(2)
        .stop(vec!["a".to_string(), "b".to_string()])
        .max_tokens(7)
        .user("u".to_string());
    let expected = r#"{"model":"m","messages":[],"max_tokens":7,"n":2,"stop":["a","b"],"user":"u"}"#;
    assert_eq!(one.to_json(), expected);
    assert_eq!(other.to_json(), expected);
    assert_eq!(keys(expected), sorted(&["model", "messages", "max_tokens", "n", "stop", "user"]));
}

#[test]
fn chat_request_every_field_set() {
    let request = ChatCompletionRequest::new("m".to_string(), vec![json("1"), json("null")])
        .max_tokens(18446744073709551615)
        .temperature(number(0.25))
        .top_p(number(1.5))
        .n(0)
        .stream(false)
        .stop(vec!["end".to_string()])
        .presence_penalty(number(-2.0))
        .frequency_penalty(number(2.0))
        .logit_bias(json(r#"{"50256":-100}"#))
        .user("someone".to_string());
    assert_eq!(
        request.to_json(),
        concat_parts(&[
            r#"{"model":"m","messages":[1,null],"max_tokens":18446744073709551615,"#,
            r#""temperature":0.25,"top_p":1.5,"n":0,"stream":false,"stop":["end"],"#,
            r#""presence_penalty":-2.0,"frequency_penalty":2.0,"#,
            r#""logit_bias":{"50256":-100},"user":"someone"}"#,
        ])
    );
}

fn concat_parts(parts: &[&str]) -> String {
    let mut out = String::new();
    for part in parts {
        out.push_str(part);
    }
    out
}

#[test]
fn setting_a_field_twice_keeps_the_last_value() {
    let request = ChatCompletionRequest::new("m".to_string(), Vec::new())
        .max_tokens(1)
        .user("first".to_string())
        .max_tokens(2)
        .user("second".to_string());
    assert_eq!(request.max_tokens, Some(2));
    assert_eq!(request.user, Some("second".to_string()));
    assert_eq!(
        request.to_json(),
        r#"{"model":"m","messages":[],"max_tokens":2,"user":"second"}"#
    );
}

#[test]
fn empty_values_are_present_not_absent() {
    let request = ChatCompletionRequest::new("m".to_string(), Vec::new())
        .stop(Vec::new())
        .user(String::new());
    assert_eq!(request.to_json(), r#"{"model":"m","messages":[],"stop":[],"user":""}"#);
}

#[test]
fn strings_are_quoted_and_escaped() {
    let request = ChatCompletionRequest::new("a\"b\\c\nd".to_string(), Vec::new())
        .user("tab\there".to_string());
    let text = request.to_json();
    assert_eq!(text, r#"{"model":"a\"b\\c\nd","messages":[],"user":"tab\there"}"#);
    let value: serde_json::Value = serde_json::from_str(&text).unwrap();
    assert_eq!(value["model"], serde_json::Value::from("a\"b\\c\nd"));
    assert_eq!(value["user"], serde_json::Value::from("tab\there"));
}

#[test]
fn raw_values_are_kept_as_given() {
    let given = r#"{ "b" : [1, 2],  "a" : null }"#;
    let request = ChatCompletionRequest::new("m".to_string(), Vec::new()).logit_bias(json(given));
    let text = request.to_json();
    assert_eq!(text, format!(r#"{{"model":"m","messages":[],"logit_bias":{}}}"#, given));
    let value: serde_json::Value = serde_json::from_str(&text).unwrap();
    assert_eq!(value["logit_bias"]["b"][1], serde_json::Value::from(2));
}

#[test]
fn assistant_creation_request_fields() {
    let request = AssistantCreationRequest::new("gpt-x".to_string())
        .response_format(json(r#"{"type":"json_object"}"#))
        .tools(vec![json(r#"{"type":"code_interpreter"}"#)])
        .name("helper".to_string())
        .top_p(number(0.9))
        .temperature(number(1.0))
        .metadata(json("{}"))
        .tool_resources(json("{}"))
        .instructions("be brief".to_string())
        .description("d".to_string());
    assert_eq!(
        request.to_json(),
        concat_parts(&[
            r#"{"model":"gpt-x","name":"helper","description":"d","instructions":"be brief","#,
            r#""tools":[{"type":"code_interpreter"}],"tool_resources":{},"metadata":{},"#,
            r#""temperature":1.0,"top_p":0.9,"response_format":{"type":"json_object"}}"#,
        ])
    );
}

#[test]
fn assistant_creation_request_without_setters() {
    assert_eq!(AssistantCreationRequest::new("gpt-x".to_string()).to_json(), r#"{"model":"gpt-x"}"#);
    assert_eq!(AssistantCreationRequest::default().to_json(), r#"{"model":""}"#);
}

#[test]
fn assistant_modification_request_fields() {
    assert_eq!(AssistantModificationRequest::default().to_json(), "{}");
    let request = AssistantModificationRequest::default()
        .description("new".to_string())
        .name("old".to_string())
        .name("renamed".to_string());
    assert_eq!(request.to_json(), r#"{"name":"renamed","description":"new"}"#);
    let text = AssistantModificationRequest::default()
        .instructions("i".to_string())
        .tools(Vec::new())
        .tool_resources(json("null"))
        .metadata(json(r#"{"k":"v"}"#))
        .temperature(number(0.0))
        .top_p(number(0.5))
        .response_format(json("\"auto\""))
        .to_json();
    assert_eq!(
        text,
        concat_parts(&[
            r#"{"instructions":"i","tools":[],"tool_resources":null,"metadata":{"k":"v"},"#,
            r#""temperature":0.0,"top_p":0.5,"response_format":"auto"}"#,
        ])
    );
}

#[test]
fn thread_requests_fields() {
    assert_eq!(ThreadCreationRequest::default().to_json(), "{}");
    let creation = ThreadCreationRequest::default()
        .metadata(json(r#"{"a":1}"#))
        .messages(vec![user_message(), user_message()])
        .tool_resources(json("{}"));
    assert_eq!(
        creation.to_json(),
        concat_parts(&[
            r#"{"messages":[{"role":"user","content":"hi"},{"role":"user","content":"hi"}],"#,
            r#""tool_resources":{},"metadata":{"a":1}}"#,
        ])
    );
    assert_eq!(ThreadModificationRequest::default().to_json(), "{}");
    let modification =
        ThreadModificationRequest::default().metadata(json("{}")).tool_resources(json("[]"));
    assert_eq!(modification.to_json(), r#"{"tool_resources":[],"metadata":{}}"#);
}

#[test]
fn vector_store_requests_fields() {
    assert_eq!(VectorStoreCreationRequest::default().to_json(), "{}");
    let creation = VectorStoreCreationRequest::default()
        .metadata(json("{}"))
        .chunking_strategy(json(r#"{"type":"auto"}"#))
        .expires_after(json(r#"{"anchor":"last_active_at","days":7}"#))
        .name("store".to_string())
        .file_ids(vec!["file-1".to_string(), "file-2".to_string()]);
    assert_eq!(
        creation.to_json(),
        concat_parts(&[
            r#"{"file_ids":["file-1","file-2"],"name":"store","#,
            r#""expires_after":{"anchor":"last_active_at","days":7},"#,
            r#""chunking_strategy":{"type":"auto"},"metadata":{}}"#,
        ])
    );
    assert_eq!(VectorStoreModificationRequest::default().to_json(), "{}");
    let mut modification = VectorStoreModificationRequest::default();
    modification.name = Some("renamed".to_string());
    assert_eq!(modification.to_json(), r#"{"name":"renamed"}"#);
}
