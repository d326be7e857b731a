//! Threads: the bodies that create and modify one, and the requests of the
//! threads, messages, runs and run steps endpoints.

use vstd::prelude::*;
use vstd::string::*;
use crate::json::{array_text, json_quoted, Json, JsonNumber};
use crate::openai::OpenAI;
use crate::payload::{
    lemma_name_if_contains, lemma_names_maybe, maybe, member_names, name_if, object_text, one,
    opt_array, opt_bool, opt_decimal32, opt_quoted, Member, ObjectWriter,
};
use crate::request::{BodyView, Method, Request};
use crate::util::{maybe_param, query_text, UrlWriter};

verus! {

/// The threads endpoints: threads, their messages, their runs and the steps
/// of a run.
pub struct ThreadsApi<'a>(pub &'a OpenAI);

/// A request to create a thread. Each field is sent only once it has been
/// set.
pub struct ThreadCreationRequest {
    /// Messages to start the thread with
    pub messages: Option<Vec<Json>>,
    /// Resources for the tools
    pub tool_resources: Option<Json>,
    /// Metadata for the thread
    pub metadata: Option<Json>,
}

impl Default for ThreadCreationRequest {
    /// A request with no field set.
    fn default() -> (r: Self)
        ensures
            r == (ThreadCreationRequest {
                messages: None,
                tool_resources: None,
                metadata: None,
            }),
    {
        ThreadCreationRequest {
            messages: None,
            tool_resources: None,
            metadata: None,
        }
    }
}

impl ThreadCreationRequest {
    /// The members of the body: each field that is set, in the order of
    /// declaration.
    pub open spec fn spec_members(&self) -> Seq<Member> {
        maybe("messages"@, opt_array(self.messages.deep_view()))
            + maybe("tool_resources"@, self.tool_resources.deep_view())
            + maybe("metadata"@, self.metadata.deep_view())
    }

    /// The names of the fields that are sent, in the order of declaration.
    pub open spec fn spec_keys(&self) -> Seq<Seq<char>> {
        name_if(self.messages is Some, "messages"@)
            + name_if(self.tool_resources is Some, "tool_resources"@)
            + name_if(self.metadata is Some, "metadata"@)
    }

    /// Sets the messages the thread starts with.
    pub fn messages(self, messages: Vec<Json>) -> (r: Self)
        ensures
            r == (ThreadCreationRequest { messages: Some(messages), ..self }),
    {
        let mut r = self;
        r.messages = Some(messages);
        r
    }

    /// Sets the resources for the tools.
    pub fn tool_resources(self, tool_resources: Json) -> (r: Self)
        ensures
            r == (ThreadCreationRequest { tool_resources: Some(tool_resources), ..self }),
    {
        let mut r = self;
        r.tool_resources = Some(tool_resources);
        r
    }

    /// Sets the metadata of the thread.
    pub fn metadata(self, metadata: Json) -> (r: Self)
        ensures
            r == (ThreadCreationRequest { metadata: Some(metadata), ..self }),
    {
        let mut r = self;
        r.metadata = Some(metadata);
        r
    }

    /// The body as JSON text.
    pub fn to_json(&self) -> (r: String)
        ensures
            r@ == object_text(self.spec_members()),
    {
        let w = ObjectWriter::new();
        let w = w.opt_json_list("messages", &self.messages);
        let w = w.opt_json("tool_resources", &self.tool_resources);
        let w = w.opt_json("metadata", &self.metadata);
        assert(w.members() =~= self.spec_members());
        w.finish()
    }

    /// The names of the members of the body are the names of the fields that
    /// are set, and no others.
    pub proof fn lemma_keys(&self)
        ensures
            member_names(self.spec_members()) == self.spec_keys(),
    {
        let m0 = Seq::<Member>::empty();
        let m1 = m0 + maybe("messages"@, opt_array(self.messages.deep_view()));
        let m2 = m1 + maybe("tool_resources"@, self.tool_resources.deep_view());
        let m3 = m2 + maybe("metadata"@, self.metadata.deep_view());
        lemma_names_maybe(m0, "messages"@, opt_array(self.messages.deep_view()));
        lemma_names_maybe(m1, "tool_resources"@, self.tool_resources.deep_view());
        lemma_names_maybe(m2, "metadata"@, self.metadata.deep_view());
        assert(m1 =~= maybe("messages"@, opt_array(self.messages.deep_view())));
        assert(m3 == self.spec_members());
        assert(member_names(m0) =~= Seq::<Seq<char>>::empty());
        assert(member_names(m1) =~= name_if(self.messages is Some, "messages"@));
        assert(member_names(m3) == self.spec_keys());
    }

    /// Whether a field of the name `k` is sent: a field once it is set, and
    /// nothing else.
    pub open spec fn sends(&self, k: Seq<char>) -> bool {
        ||| (self.messages is Some && k == "messages"@)
        ||| (self.tool_resources is Some && k == "tool_resources"@)
        ||| (self.metadata is Some && k == "metadata"@)
    }

    /// A name is among the names of the members of the body exactly where a
    /// field of that name is sent.
    pub proof fn lemma_sends(&self, k: Seq<char>)
        ensures
            member_names(self.spec_members()).contains(k) <==> self.sends(k),
    {
        self.lemma_keys();
        let s0 = Seq::<Seq<char>>::empty();
        let s1 = s0 + name_if(self.messages is Some, "messages"@);
        let s2 = s1 + name_if(self.tool_resources is Some, "tool_resources"@);
        let s3 = s2 + name_if(self.metadata is Some, "metadata"@);
        lemma_name_if_contains(s0, self.messages is Some, "messages"@, k);
        lemma_name_if_contains(s1, self.tool_resources is Some, "tool_resources"@, k);
        lemma_name_if_contains(s2, self.metadata is Some, "metadata"@, k);
        assert(s1 =~= name_if(self.messages is Some, "messages"@));
        assert(s3 == self.spec_keys());
    }
}

/// A request to modify a thread. Each field is sent only once it has been
/// set.
pub struct ThreadModificationRequest {
    /// Resources for the tools
    pub tool_resources: Option<Json>,
    /// Metadata for the thread
    pub metadata: Option<Json>,
}

impl Default for ThreadModificationRequest {
    /// A request with no field set.
    fn default() -> (r: Self)
        ensures
            r == (ThreadModificationRequest {
                tool_resources: None,
                metadata: None,
            }),
    {
        ThreadModificationRequest {
            tool_resources: None,
            metadata: None,
        }
    }
}

impl ThreadModificationRequest {
    /// The members of the body: each field that is set, in the order of
    /// declaration.
    pub open spec fn spec_members(&self) -> Seq<Member> {
        maybe("tool_resources"@, self.tool_resources.deep_view())
            + maybe("metadata"@, self.metadata.deep_view())
    }

    /// The names of the fields that are sent, in the order of declaration.
    pub open spec fn spec_keys(&self) -> Seq<Seq<char>> {
        name_if(self.tool_resources is Some, "tool_resources"@)
            + name_if(self.metadata is Some, "metadata"@)
    }

    /// Sets the resources for the tools.
    pub fn tool_resources(self, tool_resources: Json) -> (r: Self)
        ensures
            r == (ThreadModificationRequest { tool_resources: Some(tool_resources), ..self }),
    {
        let mut r = self;
        r.tool_resources = Some(tool_resources);
        r
    }

    /// Sets the metadata of the thread.
    pub fn metadata(self, metadata: Json) -> (r: Self)
        ensures
            r == (ThreadModificationRequest { metadata: Some(metadata), ..self }),
    {
        let mut r = self;
        r.metadata = Some(metadata);
        r
    }

    /// The body as JSON text.
    pub fn to_json(&self) -> (r: String)
        ensures
            r@ == object_text(self.spec_members()),
    {
        let w = ObjectWriter::new();
        let w = w.opt_json("tool_resources", &self.tool_resources);
        let w = w.opt_json("metadata", &self.metadata);
        assert(w.members() =~= self.spec_members());
        w.finish()
    }

    /// The names of the members of the body are the names of the fields that
    /// are set, and no others.
    pub proof fn lemma_keys(&self)
        ensures
            member_names(self.spec_members()) == self.spec_keys(),
    {
        let m0 = Seq::<Member>::empty();
        let m1 = m0 + maybe("tool_resources"@, self.tool_resources.deep_view());
        let m2 = m1 + maybe("metadata"@, self.metadata.deep_view());
        lemma_names_maybe(m0, "tool_resources"@, self.tool_resources.deep_view());
        lemma_names_maybe(m1, "metadata"@, self.metadata.deep_view());
        assert(m1 =~= maybe("tool_resources"@, self.tool_resources.deep_view()));
        assert(m2 == self.spec_members());
        assert(member_names(m0) =~= Seq::<Seq<char>>::empty());
        assert(member_names(m1) =~= name_if(self.tool_resources is Some, "tool_resources"@));
        assert(member_names(m2) == self.spec_keys());
    }

    /// Whether a field of the name `k` is sent: a field once it is set, and
    /// nothing else.
    pub open spec fn sends(&self, k: Seq<char>) -> bool {
        ||| (self.tool_resources is Some && k == "tool_resources"@)
        ||| (self.metadata is Some && k == "metadata"@)
    }

    /// A name is among the names of the members of the body exactly where a
    /// field of that name is sent.
    pub proof fn lemma_sends(&self, k: Seq<char>)
        ensures
            member_names(self.spec_members()).contains(k) <==> self.sends(k),
    {
        self.lemma_keys();
        let s0 = Seq::<Seq<char>>::empty();
        let s1 = s0 + name_if(self.tool_resources is Some, "tool_resources"@);
        let s2 = s1 + name_if(self.metadata is Some, "metadata"@);
        lemma_name_if_contains(s0, self.tool_resources is Some, "tool_resources"@, k);
        lemma_name_if_contains(s1, self.metadata is Some, "metadata"@, k);
        assert(s1 =~= name_if(self.tool_resources is Some, "tool_resources"@));
        assert(s2 == self.spec_keys());
    }
}

impl<'a> ThreadsApi<'a> {
    /// A submission of `request` to create a thread.
    pub fn create(&self, request: ThreadCreationRequest) -> (r: Request)
        ensures
            r@ == self.0.spec_request(
                Method::Post,
                "/threads"@,
                BodyView::Json(object_text(request.spec_members())),
            ),
    {
        self.0.post_json("/threads", request.to_json())
    }

    /// A retrieval of the thread `thread_id`.
    pub fn retrieve(&self, thread_id: &str) -> (r: Request)
        ensures
            r@ == self.0.spec_request(
                Method::Get,
                "/threads/"@ + thread_id@,
                BodyView::Empty,
            ),
    {
        let mut url = String::from_str("/threads/");
        url.append(thread_id);
        self.0.get(url.as_str())
    }

    /// A submission of `request` to modify the thread `thread_id`.
    pub fn modify(&self, thread_id: &str, request: ThreadModificationRequest) -> (r: Request)
        ensures
            r@ == self.0.spec_request(
                Method::Post,
                "/threads/"@ + thread_id@,
                BodyView::Json(object_text(request.spec_members())),
            ),
    {
        let mut url = String::from_str("/threads/");
        url.append(thread_id);
        self.0.post_json(url.as_str(), request.to_json())
    }

    /// A deletion of the thread `thread_id`.
    pub fn delete(&self, thread_id: &str) -> (r: Request)
        ensures
            r@ == self.0.spec_request(
                Method::Delete,
                "/threads/"@ + thread_id@,
                BodyView::Empty,
            ),
    {
        let mut url = String::from_str("/threads/");
        url.append(thread_id);
        self.0.delete(url.as_str())
    }

    /// A submission of a new message to the thread `thread_id`. The role and
    /// the content are always sent, the attachments and the metadata where
    /// they are given.
    pub fn create_message(
        &self,
        thread_id: &str,
        role: &str,
        content: Json,
        attachments: Option<Json>,
        metadata: Option<Json>,
    ) -> (r: Request)
        ensures
            r@ == self.0.spec_request(
                Method::Post,
                "/threads/"@ + thread_id@ + "/messages"@,
                BodyView::Json(
                    object_text(
                        one("role"@, json_quoted(role@))
                        + one("content"@, content@)
                        + maybe("attachments"@, attachments.deep_view())
                        + maybe("metadata"@, metadata.deep_view()),
                    ),
                ),
            ),
    {
        let mut url = String::from_str("/threads/");
        url.append(thread_id);
        url.append("/messages");
        let w = ObjectWriter::new();
        let w = w.string("role", role);
        let w = w.json("content", &content);
        let w = w.opt_json("attachments", &attachments);
        let w = w.opt_json("metadata", &metadata);
        assert(w.members() =~= one("role"@, json_quoted(role@))
            + one("content"@, content@)
            + maybe("attachments"@, attachments.deep_view())
            + maybe("metadata"@, metadata.deep_view()));
        self.0.post_json(url.as_str(), w.finish())
    }

    /// A retrieval of the messages of the thread `thread_id`, narrowed by the
    /// parameters that are given.
    pub fn list_messages(
        &self,
        thread_id: &str,
        limit: Option<u32>,
        order: Option<&str>,
        after: Option<&str>,
        before: Option<&str>,
    ) -> (r: Request)
        ensures
            r@ == self.0.spec_request(
                Method::Get,
                "/threads/"@ + thread_id@ + "/messages"@ + query_text(
                    maybe_param("limit"@, opt_decimal32(limit))
                    + maybe_param("order"@, order.deep_view())
                    + maybe_param("after"@, after.deep_view())
                    + maybe_param("before"@, before.deep_view()),
                ),
                BodyView::Empty,
            ),
    {
        let mut url = String::from_str("/threads/");
        url.append(thread_id);
        url.append("/messages");
        let q = UrlWriter::new(url.as_str());
        let q = q.opt_unsigned32("limit", limit);
        let q = q.opt_str("order", order);
        let q = q.opt_str("after", after);
        let q = q.opt_str("before", before);
        assert(q.params() =~= maybe_param("limit"@, opt_decimal32(limit))
            + maybe_param("order"@, order.deep_view())
            + maybe_param("after"@, after.deep_view())
            + maybe_param("before"@, before.deep_view()));
        let url = q.finish();
        self.0.get(url.as_str())
    }

    /// A retrieval of the message `message_id` of the thread `thread_id`.
    pub fn retrieve_message(&self, thread_id: &str, message_id: &str) -> (r: Request)
        ensures
            r@ == self.0.spec_request(
                Method::Get,
                "/threads/"@ + thread_id@ + "/messages/"@ + message_id@,
                BodyView::Empty,
            ),
    {
        let mut url = String::from_str("/threads/");
        url.append(thread_id);
        url.append("/messages/");
        url.append(message_id);
        self.0.get(url.as_str())
    }

    /// A submission of new metadata for the message `message_id` of the
    /// thread `thread_id`.
    pub fn modify_message(&self, thread_id: &str, message_id: &str, metadata: Json) -> (r: Request)
        ensures
            r@ == self.0.spec_request(
                Method::Post,
                "/threads/"@ + thread_id@ + "/messages/"@ + message_id@,
                BodyView::Json(
                    object_text(
                        one("metadata"@, metadata@),
                    ),
                ),
            ),
    {
        let mut url = String::from_str("/threads/");
        url.append(thread_id);
        url.append("/messages/");
        url.append(message_id);
        let w = ObjectWriter::new();
        let w = w.json("metadata", &metadata);
        assert(w.members() =~= one("metadata"@, metadata@));
        self.0.post_json(url.as_str(), w.finish())
    }

    /// A deletion of the message `message_id` of the thread `thread_id`.
    pub fn delete_message(&self, thread_id: &str, message_id: &str) -> (r: Request)
        ensures
            r@ == self.0.spec_request(
                Method::Delete,
                "/threads/"@ + thread_id@ + "/messages/"@ + message_id@,
                BodyView::Empty,
            ),
    {
        let mut url = String::from_str("/threads/");
        url.append(thread_id);
        url.append("/messages/");
        url.append(message_id);
        self.0.delete(url.as_str())
    }

    /// A submission of a new run on the thread `thread_id`. The assistant is
    /// always sent, each other parameter where it is given.
    pub fn create_run(
        &self,
        thread_id: &str,
        assistant_id: &str,
        model: Option<&str>,
        instructions: Option<&str>,
        additional_instructions: Option<&str>,
        additional_messages: Option<Vec<Json>>,
        tools: Option<Vec<Json>>,
        metadata: Option<Json>,
        temperature: Option<JsonNumber>,
        top_p: Option<JsonNumber>,
        stream: Option<bool>,
        max_prompt_tokens: Option<u32>,
        max_completion_tokens: Option<u32>,
        truncation_strategy: Option<Json>,
        tool_choice: Option<Json>,
        parallel_tool_calls: Option<bool>,
        response_format: Option<Json>,
    ) -> (r: Request)
        ensures
            r@ == self.0.spec_request(
                Method::Post,
                "/threads/"@ + thread_id@ + "/runs"@,
                BodyView::Json(
                    object_text(
                        one("assistant_id"@, json_quoted(assistant_id@))
                        + maybe("model"@, opt_quoted(model.deep_view()))
                        + maybe("instructions"@, opt_quoted(instructions.deep_view()))
                        + maybe(
                            "additional_instructions"@,
                            opt_quoted(additional_instructions.deep_view()),
                        )
                        + maybe("additional_messages"@, opt_array(additional_messages.deep_view()))
                        + maybe("tools"@, opt_array(tools.deep_view()))
                        + maybe("metadata"@, metadata.deep_view())
                        + maybe("temperature"@, temperature.deep_view())
                        + maybe("top_p"@, top_p.deep_view())
                        + maybe("stream"@, opt_bool(stream))
                        + maybe("max_prompt_tokens"@, opt_decimal32(max_prompt_tokens))
                        + maybe("max_completion_tokens"@, opt_decimal32(max_completion_tokens))
                        + maybe("truncation_strategy"@, truncation_strategy.deep_view())
                        + maybe("tool_choice"@, tool_choice.deep_view())
                        + maybe("parallel_tool_calls"@, opt_bool(parallel_tool_calls))
                        + maybe("response_format"@, response_format.deep_view()),
                    ),
                ),
            ),
    {
        let mut url = String::from_str("/threads/");
        url.append(thread_id);
        url.append("/runs");
        let w = ObjectWriter::new();
        let w = w.string("assistant_id", assistant_id);
        let w = w.opt_str("model", model);
        let w = w.opt_str("instructions", instructions);
        let w = w.opt_str("additional_instructions", additional_instructions);
        let w = w.opt_json_list("additional_messages", &additional_messages);
        let w = w.opt_json_list("tools", &tools);
        let w = w.opt_json("metadata", &metadata);
        let w = w.opt_number("temperature", &temperature);
        let w = w.opt_number("top_p", &top_p);
        let w = w.opt_bool("stream", stream);
        let w = w.opt_unsigned32("max_prompt_tokens", max_prompt_tokens);
        let w = w.opt_unsigned32("max_completion_tokens", max_completion_tokens);
        let w = w.opt_json("truncation_strategy", &truncation_strategy);
        let w = w.opt_json("tool_choice", &tool_choice);
        let w = w.opt_bool("parallel_tool_calls", parallel_tool_calls);
        let w = w.opt_json("response_format", &response_format);
        assert(w.members() =~= one("assistant_id"@, json_quoted(assistant_id@))
            + maybe("model"@, opt_quoted(model.deep_view()))
            + maybe("instructions"@, opt_quoted(instructions.deep_view()))
            + maybe("additional_instructions"@, opt_quoted(additional_instructions.deep_view()))
            + maybe("additional_messages"@, opt_array(additional_messages.deep_view()))
            + maybe("tools"@, opt_array(tools.deep_view()))
            + maybe("metadata"@, metadata.deep_view())
            + maybe("temperature"@, temperature.deep_view())
            + maybe("top_p"@, top_p.deep_view())
            + maybe("stream"@, opt_bool(stream))
            + maybe("max_prompt_tokens"@, opt_decimal32(max_prompt_tokens))
            + maybe("max_completion_tokens"@, opt_decimal32(max_completion_tokens))
            + maybe("truncation_strategy"@, truncation_strategy.deep_view())
            + maybe("tool_choice"@, tool_choice.deep_view())
            + maybe("parallel_tool_calls"@, opt_bool(parallel_tool_calls))
            + maybe("response_format"@, response_format.deep_view()));
        self.0.post_json(url.as_str(), w.finish())
    }

    /// A retrieval of the runs of the thread `thread_id`, narrowed by the
    /// parameters that are given.
    pub fn list_runs(
        &self,
        thread_id: &str,
        limit: Option<u32>,
        order: Option<&str>,
        after: Option<&str>,
        before: Option<&str>,
    ) -> (r: Request)
        ensures
            r@ == self.0.spec_request(
                Method::Get,
                "/threads/"@ + thread_id@ + "/runs"@ + query_text(
                    maybe_param("limit"@, opt_decimal32(limit))
                    + maybe_param("order"@, order.deep_view())
                    + maybe_param("after"@, after.deep_view())
                    + maybe_param("before"@, before.deep_view()),
                ),
                BodyView::Empty,
            ),
    {
        let mut url = String::from_str("/threads/");
        url.append(thread_id);
        url.append("/runs");
        let q = UrlWriter::new(url.as_str());
        let q = q.opt_unsigned32("limit", limit);
        let q = q.opt_str("order", order);
        let q = q.opt_str("after", after);
        let q = q.opt_str("before", before);
        assert(q.params() =~= maybe_param("limit"@, opt_decimal32(limit))
            + maybe_param("order"@, order.deep_view())
            + maybe_param("after"@, after.deep_view())
            + maybe_param("before"@, before.deep_view()));
        let url = q.finish();
        self.0.get(url.as_str())
    }

    /// A retrieval of the run `run_id` of the thread `thread_id`.
    pub fn retrieve_run(&self, thread_id: &str, run_id: &str) -> (r: Request)
        ensures
            r@ == self.0.spec_request(
                Method::Get,
                "/threads/"@ + thread_id@ + "/runs/"@ + run_id@,
                BodyView::Empty,
            ),
    {
        let mut url = String::from_str("/threads/");
        url.append(thread_id);
        url.append("/runs/");
        url.append(run_id);
        self.0.get(url.as_str())
    }

    /// A submission of new metadata for the run `run_id` of the thread
    /// `thread_id`.
    pub fn modify_run(&self, thread_id: &str, run_id: &str, metadata: Json) -> (r: Request)
        ensures
            r@ == self.0.spec_request(
                Method::Post,
                "/threads/"@ + thread_id@ + "/runs/"@ + run_id@,
                BodyView::Json(
                    object_text(
                        one("metadata"@, metadata@),
                    ),
                ),
            ),
    {
        let mut url = String::from_str("/threads/");
        url.append(thread_id);
        url.append("/runs/");
        url.append(run_id);
        let w = ObjectWriter::new();
        let w = w.json("metadata", &metadata);
        assert(w.members() =~= one("metadata"@, metadata@));
        self.0.post_json(url.as_str(), w.finish())
    }

    /// A deletion of the run `run_id` of the thread `thread_id`.
    pub fn delete_run(&self, thread_id: &str, run_id: &str) -> (r: Request)
        ensures
            r@ == self.0.spec_request(
                Method::Delete,
                "/threads/"@ + thread_id@ + "/runs/"@ + run_id@,
                BodyView::Empty,
            ),
    {
        let mut url = String::from_str("/threads/");
        url.append(thread_id);
        url.append("/runs/");
        url.append(run_id);
        self.0.delete(url.as_str())
    }

    /// A submission of tool outputs to the run `run_id` of the thread
    /// `thread_id`. The outputs are always sent, the streaming flag where it
    /// is given.
    pub fn submit_tool_outputs(
        &self,
        thread_id: &str,
        run_id: &str,
        tool_outputs: Vec<Json>,
        stream: Option<bool>,
    ) -> (r: Request)
        ensures
            r@ == self.0.spec_request(
                Method::Post,
                "/threads/"@ + thread_id@ + "/runs/"@ + run_id@ + "/submit_tool_outputs"@,
                BodyView::Json(
                    object_text(
                        one("tool_outputs"@, array_text(tool_outputs.deep_view()))
                        + maybe("stream"@, opt_bool(stream)),
                    ),
                ),
            ),
    {
        let mut url = String::from_str("/threads/");
        url.append(thread_id);
        url.append("/runs/");
        url.append(run_id);
        url.append("/submit_tool_outputs");
        let w = ObjectWriter::new();
        let w = w.json_list("tool_outputs", &tool_outputs);
        let w = w.opt_bool("stream", stream);
        assert(w.members() =~= one("tool_outputs"@, array_text(tool_outputs.deep_view()))
            + maybe("stream"@, opt_bool(stream)));
        self.0.post_json(url.as_str(), w.finish())
    }

    /// A submission of an empty object to cancel the run `run_id` of the
    /// thread `thread_id`.
    pub fn cancel_run(&self, thread_id: &str, run_id: &str) -> (r: Request)
        ensures
            r@ == self.0.spec_request(
                Method::Post,
                "/threads/"@ + thread_id@ + "/runs/"@ + run_id@ + "/cancel"@,
                BodyView::Json(object_text(Seq::empty())),
            ),
    {
        let mut url = String::from_str("/threads/");
        url.append(thread_id);
        url.append("/runs/");
        url.append(run_id);
        url.append("/cancel");
        self.0.post_json(url.as_str(), ObjectWriter::new().finish())
    }

    /// A retrieval of the steps of the run `run_id` of the thread
    /// `thread_id`, narrowed by the parameters that are given.
    pub fn list_run_steps(
        &self,
        thread_id: &str,
        run_id: &str,
        limit: Option<u32>,
        order: Option<&str>,
        after: Option<&str>,
        before: Option<&str>,
    ) -> (r: Request)
        ensures
            r@ == self.0.spec_request(
                Method::Get,
                "/threads/"@ + thread_id@ + "/runs/"@ + run_id@ + "/steps"@ + query_text(
                    maybe_param("limit"@, opt_decimal32(limit))
                    + maybe_param("order"@, order.deep_view())
                    + maybe_param("after"@, after.deep_view())
                    + maybe_param("before"@, before.deep_view()),
                ),
                BodyView::Empty,
            ),
    {
        let mut url = String::from_str("/threads/");
        url.append(thread_id);
        url.append("/runs/");
        url.append(run_id);
        url.append("/steps");
        let q = UrlWriter::new(url.as_str());
        let q = q.opt_unsigned32("limit", limit);
        let q = q.opt_str("order", order);
        let q = q.opt_str("after", after);
        let q = q.opt_str("before", before);
        assert(q.params() =~= maybe_param("limit"@, opt_decimal32(limit))
            + maybe_param("order"@, order.deep_view())
            + maybe_param("after"@, after.deep_view())
            + maybe_param("before"@, before.deep_view()));
        let url = q.finish();
        self.0.get(url.as_str())
    }

    /// A retrieval of the step `step_id` of the run `run_id` of the thread
    /// `thread_id`.
    pub fn retrieve_run_step(&self, thread_id: &str, run_id: &str, step_id: &str) -> (r: Request)
        ensures
            r@ == self.0.spec_request(
                Method::Get,
                "/threads/"@ + thread_id@ + "/runs/"@ + run_id@ + "/steps/"@ + step_id@,
                BodyView::Empty,
            ),
    {
        let mut url = String::from_str("/threads/");
        url.append(thread_id);
        url.append("/runs/");
        url.append(run_id);
        url.append("/steps/");
        url.append(step_id);
        self.0.get(url.as_str())
    }
}

} // verus!
