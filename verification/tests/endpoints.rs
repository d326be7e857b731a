use openai_client::json::{Json, JsonNumber};
use openai_client::openai::OpenAI;
use openai_client::openai_api::assistants::{AssistantCreationRequest, AssistantModificationRequest};
use openai_client::openai_api::completion::ChatCompletionRequest;
use openai_client::openai_api::projects::ProjectsApi;
use openai_client::openai_api::threads::{ThreadCreationRequest, ThreadModificationRequest};
use openai_client::openai_api::vectors::{VectorStoreCreationRequest, VectorStoreModificationRequest};
use openai_client::request::{Body, FormPart, Method, Request};

const BASE: &str = "http://api.test/v1";

fn api() -> OpenAI {
    OpenAI::new("k", BASE)
}

fn json(text: &str) -> Json {
    Json::parse(text).unwrap()
}

fn number(text: &str) -> JsonNumber {
    JsonNumber::parse(text).unwrap()
}

fn parts(pieces: &[&str]) -> String {
    let mut out = String::new();
    for piece in pieces {
        out.push_str(piece);
    }
    out
}

fn text(name: &str, value: &str) -> FormPart {
    FormPart::Text { name: name.to_string(), value: value.to_string() }
}

fn file(name: &str, file_name: &str, mime: &str, bytes: &[u8]) -> FormPart {
    FormPart::File {
        name: name.to_string(),
        file_name: file_name.to_string(),
        mime: mime.to_string(),
        bytes: bytes.to_vec(),
    }
}

fn expect_get(request: Request, path: &str) {
    assert_eq!(request.method, Method::Get);
    assert_eq!(request.url, format!("{}{}", BASE, path));
    assert_eq!(request.headers.len(), 1);
    assert_eq!(request.headers[0].name, "Authorization");
    assert_eq!(request.headers[0].value, "Bearer k");
    assert_eq!(request.body, Body::Empty);
}

fn expect_delete(request: Request, path: &str) {
    assert_eq!(request.method, Method::Delete);
    assert_eq!(request.url, format!("{}{}", BASE, path));
    assert_eq!(request.headers.len(), 1);
    assert_eq!(request.headers[0].value, "Bearer k");
    assert_eq!(request.body, Body::Empty);
}

fn expect_json(request: Request, path: &str, body: &str) {
    assert_eq!(request.method, Method::Post);
    assert_eq!(request.url, format!("{}{}", BASE, path));
    assert_eq!(request.headers.len(), 2);
    assert_eq!(request.headers[0].name, "Authorization");
    assert_eq!(request.headers[0].value, "Bearer k");
    assert_eq!(request.headers[1].name, "Content-Type");
    assert_eq!(request.headers[1].value, "application/json");
    assert_eq!(request.body, Body::Json(body.to_string()));
}

fn expect_form(request: Request, path: &str, parts: Vec<FormPart>) {
    assert_eq!(request.method, Method::Post);
    assert_eq!(request.url, format!("{}{}", BASE, path));
    assert_eq!(request.headers.len(), 1);
    assert_eq!(request.headers[0].name, "Authorization");
    match request.body {
        Body::Multipart(form) => assert_eq!(form.parts, parts),
        other => panic!("no form: {:?}", other),
    }
}

#[test]
fn chat_completion_is_submitted() {
    let api = api();
    let request = ChatCompletionRequest::new("gpt-x".to_string(), vec![json(r#"{"role":"user","content":"hi"}"#)])
        .temperature(number("0.5"))
        .stream(true);
    expect_json(
        api.completions().create(request),
        "/chat/completions",
        r#"{"model":"gpt-x","messages":[{"role":"user","content":"hi"}],"temperature":0.5,"stream":true}"#,
    );
}

#[test]
fn audio_upload_with_mandatory_fields_has_two_parts() {
    let api = api();
    let request = api.audio().transcribe("whisper-1", "audio.mp3", vec![1, 2, 3], None, None, None, None);
    expect_form(
        request,
        "/audio/transcriptions",
        vec![text("model", "whisper-1"), file("file", "audio.mp3", "audio/mpeg", &[1, 2, 3])],
    );
}

#[test]
fn audio_upload_with_every_option() {
    let api = api();
    let request = api.audio().transcribe(
        "whisper-1",
        "clips/a.mp3",
        Vec::new(),
        Some("names"),
        Some("json"),
        Some(number("0.2")),
        Some("en"),
    );
    expect_form(
        request,
        "/audio/transcriptions",
        vec![
            text("model", "whisper-1"),
            file("file", "clips/a.mp3", "audio/mpeg", &[]),
            text("prompt", "names"),
            text("response_format", "json"),
            text("temperature", "0.2"),
            text("language", "en"),
        ],
    );
}

#[test]
fn audio_translation_upload() {
    let api = api();
    expect_form(
        api.audio().translate("whisper-1", "a.mp3", vec![7], None, Some("text"), None),
        "/audio/translations",
        vec![
            text("model", "whisper-1"),
            file("file", "a.mp3", "audio/mpeg", &[7]),
            text("response_format", "text"),
        ],
    );
    expect_form(
        api.audio().translate("whisper-1", "a.mp3", vec![7], Some(""), None, Some(number("1"))),
        "/audio/translations",
        vec![
            text("model", "whisper-1"),
            file("file", "a.mp3", "audio/mpeg", &[7]),
            text("prompt", ""),
            text("temperature", "1"),
        ],
    );
}

#[test]
fn image_generation_is_submitted() {
    let api = api();
    expect_json(
        api.images().generate("a cat", "dall-e", None, None, None, None),
        "/images/generations",
        r#"{"prompt":"a cat","model":"dall-e"}"#,
    );
    expect_json(
        api.images().generate("a cat", "dall-e", Some("256x256"), Some("url"), Some(2), Some("u")),
        "/images/generations",
        r#"{"prompt":"a cat","model":"dall-e","size":"256x256","response_format":"url","n":2,"user":"u"}"#,
    );
}

#[test]
fn image_edit_upload() {
    let api = api();
    expect_form(
        api.images().edit("dall-e", "i.png", vec![1], "m.png", vec![2], "add a hat", None, None, None, None),
        "/images/edits",
        vec![
            text("model", "dall-e"),
            file("image", "i.png", "image/png", &[1]),
            file("mask", "m.png", "image/png", &[2]),
            text("prompt", "add a hat"),
        ],
    );
    expect_form(
        api.images().edit(
            "dall-e",
            "i.png",
            vec![1],
            "m.png",
            vec![2],
            "add a hat",
            Some("512x512"),
            Some("b64_json"),
            Some(10),
            Some("u"),
        ),
        "/images/edits",
        vec![
            text("model", "dall-e"),
            file("image", "i.png", "image/png", &[1]),
            file("mask", "m.png", "image/png", &[2]),
            text("prompt", "add a hat"),
            text("size", "512x512"),
            text("response_format", "b64_json"),
            text("n", "10"),
            text("user", "u"),
        ],
    );
}

#[test]
fn image_variation_upload() {
    let api = api();
    expect_form(
        api.images().variation("dall-e", "i.png", vec![5, 6], None, None, Some(0), None),
        "/images/variations",
        vec![text("model", "dall-e"), file("image", "i.png", "image/png", &[5, 6]), text("n", "0")],
    );
}

#[test]
fn embeddings_are_submitted() {
    let api = api();
    expect_json(
        api.embeddings().create("some text", "embed-1", None, None, None),
        "/embeddings",
        r#"{"input":"some text","model":"embed-1"}"#,
    );
    expect_json(
        api.embeddings().create("some text", "embed-1", Some("float"), Some(256), Some("u")),
        "/embeddings",
        r#"{"input":"some text","model":"embed-1","encoding_format":"float","dimensions":256,"user":"u"}"#,
    );
}

#[test]
fn moderation_is_submitted() {
    let api = api();
    expect_json(api.moderation().moderate("text", None), "/moderations", r#"{"input":"text"}"#);
    expect_json(
        api.moderation().moderate("text", Some("latest")),
        "/moderations",
        r#"{"input":"text","model":"latest"}"#,
    );
}

#[test]
fn fine_tuning_requests() {
    let api = api();
    expect_json(
        api.fine_tuning().create_fine_tuning_job(
            "base", "file-1", None, None, None, None, None, None, None, None, None,
        ),
        "/fine-tuning/jobs",
        r#"{"model":"base","training_file":"file-1"}"#,
    );
    expect_json(
        api.fine_tuning().create_fine_tuning_job(
            "base",
            "file-1",
            Some("file-2"),
            Some(3),
            Some(16),
            Some(number("0.1")),
            Some(number("0.01")),
            Some(true),
            Some(2),
            Some("yes"),
            Some(vec![number("0.5"), number("1.0")]),
        ),
        "/fine-tuning/jobs",
        &parts(&[
            r#"{"model":"base","training_file":"file-1","validation_file":"file-2","n_epochs":3,"#,
            r#""batch_size":16,"learning_rate_multiplier":0.1,"prompt_loss_weight":0.01,"#,
            r#""compute_classification_metrics":true,"classification_n_classes":2,"#,
            r#""classification_positive_class":"yes","classification_betas":[0.5,1.0]}"#,
        ]),
    );
    expect_get(api.fine_tuning().list_fine_tuning_jobs(), "/fine-tuning/jobs");
    expect_get(api.fine_tuning().retrieve_fine_tuning_job("job-9"), "/fine-tuning/jobs/job-9");
}

#[test]
fn assistants_requests() {
    let api = api();
    expect_json(
        api.assistants().create(AssistantCreationRequest::new("gpt-x".to_string()).name("n".to_string())),
        "/assistants",
        r#"{"model":"gpt-x","name":"n"}"#,
    );
    expect_get(api.assistants().retrieve("asst_1"), "/assistants/asst_1");
    expect_json(
        api.assistants().modify("asst_1", AssistantModificationRequest::default().description("d".to_string())),
        "/assistants/asst_1",
        r#"{"description":"d"}"#,
    );
    expect_delete(api.assistants().delete("asst_1"), "/assistants/asst_1");
}

#[test]
fn list_without_parameters_has_no_query() {
    let api = api();
    expect_get(api.assistants().list(None, None, None, None), "/assistants");
    expect_get(api.threads().list_messages("t", None, None, None, None), "/threads/t/messages");
    expect_get(api.vectors().list_vector_stores(None, None, None, None), "/vector_stores");
    expect_get(ProjectsApi(&api).list_projects(None, None, None), "/organization/projects");
}

#[test]
fn list_parameters_are_joined() {
    let api = api();
    expect_get(api.assistants().list(Some(20), None, None, None), "/assistants?limit=20");
    expect_get(api.assistants().list(None, None, None, Some("b")), "/assistants?before=b");
    expect_get(
        api.assistants().list(Some(4294967295), Some("desc"), Some("a"), Some("b")),
        "/assistants?limit=4294967295&order=desc&after=a&before=b",
    );
    expect_get(
        api.assistants().list(None, Some("asc"), None, Some("")),
        "/assistants?order=asc&before=",
    );
}

#[test]
fn threads_requests() {
    let api = api();
    expect_json(api.threads().create(ThreadCreationRequest::default()), "/threads", "{}");
    expect_get(api.threads().retrieve("t1"), "/threads/t1");
    expect_json(
        api.threads().modify("t1", ThreadModificationRequest::default().metadata(json("{}"))),
        "/threads/t1",
        r#"{"metadata":{}}"#,
    );
    expect_delete(api.threads().delete("t1"), "/threads/t1");
}

#[test]
fn thread_message_requests() {
    let api = api();
    expect_json(
        api.threads().create_message("t1", "user", json("\"hello\""), None, None),
        "/threads/t1/messages",
        r#"{"role":"user","content":"hello"}"#,
    );
    expect_json(
        api.threads().create_message("t1", "user", json("[]"), Some(json("[1]")), Some(json("{}"))),
        "/threads/t1/messages",
        r#"{"role":"user","content":[],"attachments":[1],"metadata":{}}"#,
    );
    expect_get(
        api.threads().list_messages("t1", Some(5), None, Some("m0"), None),
        "/threads/t1/messages?limit=5&after=m0",
    );
    expect_get(api.threads().retrieve_message("t1", "m1"), "/threads/t1/messages/m1");
    expect_json(
        api.threads().modify_message("t1", "m1", json(r#"{"k":"v"}"#)),
        "/threads/t1/messages/m1",
        r#"{"metadata":{"k":"v"}}"#,
    );
    expect_delete(api.threads().delete_message("t1", "m1"), "/threads/t1/messages/m1");
}

#[test]
fn run_with_mandatory_fields_only() {
    let api = api();
    expect_json(
        api.threads().create_run(
            "t1", "asst_1", None, None, None, None, None, None, None, None, None, None, None, None,
            None, None, None,
        ),
        "/threads/t1/runs",
        r#"{"assistant_id":"asst_1"}"#,
    );
}

#[test]
fn run_with_every_field() {
    let api = api();
    expect_json(
        api.threads().create_run(
            "t1",
            "asst_1",
            Some("gpt-x"),
            Some("i"),
            Some("more"),
            Some(vec![json("{}")]),
            Some(Vec::new()),
            Some(json("{}")),
            Some(number("0.7")),
            Some(number("1")),
            Some(false),
            Some(100),
            Some(200),
            Some(json(r#"{"type":"auto"}"#)),
            Some(json("\"none\"")),
            Some(true),
            Some(json("\"auto\"")),
        ),
        "/threads/t1/runs",
        &parts(&[
            r#"{"assistant_id":"asst_1","model":"gpt-x","instructions":"i","#,
            r#""additional_instructions":"more","additional_messages":[{}],"tools":[],"#,
            r#""metadata":{},"temperature":0.7,"top_p":1,"stream":false,"#,
            r#""max_prompt_tokens":100,"max_completion_tokens":200,"#,
            r#""truncation_strategy":{"type":"auto"},"tool_choice":"none","#,
            r#""parallel_tool_calls":true,"response_format":"auto"}"#,
        ]),
    );
}

#[test]
fn run_requests() {
    let api = api();
    expect_get(
        api.threads().list_runs("t1", None, Some("asc"), None, None),
        "/threads/t1/runs?order=asc",
    );
    expect_get(api.threads().retrieve_run("t1", "r1"), "/threads/t1/runs/r1");
    expect_json(
        api.threads().modify_run("t1", "r1", json("null")),
        "/threads/t1/runs/r1",
        r#"{"metadata":null}"#,
    );
    expect_delete(api.threads().delete_run("t1", "r1"), "/threads/t1/runs/r1");
    expect_json(
        api.threads().submit_tool_outputs("t1", "r1", vec![json(r#"{"output":"4"}"#)], None),
        "/threads/t1/runs/r1/submit_tool_outputs",
        r#"{"tool_outputs":[{"output":"4"}]}"#,
    );
    expect_json(
        api.threads().submit_tool_outputs("t1", "r1", Vec::new(), Some(true)),
        "/threads/t1/runs/r1/submit_tool_outputs",
        r#"{"tool_outputs":[],"stream":true}"#,
    );
    expect_json(api.threads().cancel_run("t1", "r1"), "/threads/t1/runs/r1/cancel", "{}");
    expect_get(
        api.threads().list_run_steps("t1", "r1", Some(1), Some("desc"), Some("a"), Some("b")),
        "/threads/t1/runs/r1/steps?limit=1&order=desc&after=a&before=b",
    );
    expect_get(api.threads().retrieve_run_step("t1", "r1", "s1"), "/threads/t1/runs/r1/steps/s1");
}

#[test]
fn vector_store_requests() {
    let api = api();
    expect_json(
        api.vectors().create_vector_store(VectorStoreCreationRequest::default().name("s".to_string())),
        "/vector_stores",
        r#"{"name":"s"}"#,
    );
    expect_get(
        api.vectors().list_vector_stores(
            Some(18446744073709551615),
            Some("desc".to_string()),
            None,
            Some("vs_2".to_string()),
        ),
        "/vector_stores?limit=18446744073709551615&order=desc&before=vs_2",
    );
    expect_get(api.vectors().retrieve_vector_store("vs_1"), "/vector_stores/vs_1");
    expect_json(
        api.vectors().modify_vector_store("vs_1", VectorStoreModificationRequest::default()),
        "/vector_stores/vs_1",
        "{}",
    );
    expect_delete(api.vectors().delete_vector_store("vs_1"), "/vector_stores/vs_1");
}

#[test]
fn project_requests() {
    let api = api();
    let projects = ProjectsApi(&api);
    expect_get(
        projects.list_projects(Some(100), Some("p0"), Some(true)),
        "/organization/projects?limit=100&after=p0&include_archived=true",
    );
    expect_get(
        projects.list_projects(None, None, Some(false)),
        "/organization/projects?include_archived=false",
    );
    expect_get(projects.list_projects(Some(255), None, None), "/organization/projects?limit=255");
    expect_json(
        projects.create_project("p", None, None),
        "/organization/projects",
        r#"{"name":"p"}"#,
    );
    expect_json(
        projects.create_project("p", Some("use"), Some("https://example.org")),
        "/organization/projects",
        r#"{"name":"p","app_use_case":"use","business_website":"https://example.org"}"#,
    );
    expect_get(projects.retrieve_project("p1"), "/organization/projects/p1");
    expect_json(
        projects.modify_project("p1", "q", None, Some("w")),
        "/organization/projects/p1",
        r#"{"name":"q","business_website":"w"}"#,
    );
    expect_json(projects.archive_project("p1"), "/organization/projects/p1/archive", "{}");
}

#[test]
fn project_user_requests() {
    let api = api();
    let projects = ProjectsApi(&api);
    expect_get(projects.list_project_users("p1", None, None), "/organization/projects/p1/users");
    expect_get(
        projects.list_project_users("p1", Some(0), Some("u0")),
        "/organization/projects/p1/users?limit=0&after=u0",
    );
    expect_json(
        projects.create_project_user("p1", "u1", "member"),
        "/organization/projects/p1/users",
        r#"{"user_id":"u1","role":"member"}"#,
    );
    expect_get(projects.retrieve_project_user("p1", "u1"), "/organization/projects/p1/users/u1");
    expect_json(
        projects.modify_project_user("p1", "u1", "owner"),
        "/organization/projects/p1/users/u1",
        r#"{"role":"owner"}"#,
    );
    expect_delete(projects.delete_project_user("p1", "u1"), "/organization/projects/p1/users/u1");
}
