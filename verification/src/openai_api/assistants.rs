//! Assistants: the bodies that create and modify one, and the requests of
//! the assistants endpoints.

use vstd::prelude::*;
use vstd::string::*;
use crate::json::{json_quoted, Json, JsonNumber};
use crate::openai::OpenAI;
use crate::payload::{
    lemma_name_if_contains, lemma_names_maybe, lemma_names_one, maybe, member_names, name_if,
    object_text, one, opt_array, opt_decimal32, opt_quoted, Member, ObjectWriter,
};
use crate::request::{BodyView, Method, Request};
use crate::util::{maybe_param, query_text, UrlWriter};

verus! {

/// The assistants endpoints.
pub struct AssistantsApi<'a>(pub &'a OpenAI);

/// A request to create an assistant. `model` is always sent; each of the
/// others is sent only once it has been set.
pub struct AssistantCreationRequest {
    /// Model name to be used for the assistant
    pub model: String,
    /// Name for the assistant
    pub name: Option<String>,
    /// Description of the assistant
    pub description: Option<String>,
    /// Instructions for the assistant
    pub instructions: Option<String>,
    /// Tools to be used by the assistant
    pub tools: Option<Vec<Json>>,
    /// Resources for the tools
    pub tool_resources: Option<Json>,
    /// Metadata for the assistant
    pub metadata: Option<Json>,
    /// Sampling temperature
    pub temperature: Option<JsonNumber>,
    /// Nucleus sampling parameter
    pub top_p: Option<JsonNumber>,
    /// Format of responses from the assistant
    pub response_format: Option<Json>,
}

impl Default for AssistantCreationRequest {
    /// A request with empty mandatory fields and no optional field set.
    fn default() -> (r: Self)
        ensures
            r.model@.len() == 0,
            r.name is None,
            r.description is None,
            r.instructions is None,
            r.tools is None,
            r.tool_resources is None,
            r.metadata is None,
            r.temperature is None,
            r.top_p is None,
            r.response_format is None,
    {
        AssistantCreationRequest {
            model: String::new(),
            name: None,
            description: None,
            instructions: None,
            tools: None,
            tool_resources: None,
            metadata: None,
            temperature: None,
            top_p: None,
            response_format: None,
        }
    }
}

impl AssistantCreationRequest {
    /// The members of the body: the mandatory fields, then each optional
    /// field that is set, in the order of declaration.
    pub open spec fn spec_members(&self) -> Seq<Member> {
        one("model"@, json_quoted(self.model@))
            + maybe("name"@, opt_quoted(self.name.deep_view()))
            + maybe("description"@, opt_quoted(self.description.deep_view()))
            + maybe("instructions"@, opt_quoted(self.instructions.deep_view()))
            + maybe("tools"@, opt_array(self.tools.deep_view()))
            + maybe("tool_resources"@, self.tool_resources.deep_view())
            + maybe("metadata"@, self.metadata.deep_view())
            + maybe("temperature"@, self.temperature.deep_view())
            + maybe("top_p"@, self.top_p.deep_view())
            + maybe("response_format"@, self.response_format.deep_view())
    }

    /// The names of the fields that are sent, in the order of declaration.
    pub open spec fn spec_keys(&self) -> Seq<Seq<char>> {
        seq!["model"@]
            + name_if(self.name is Some, "name"@)
            + name_if(self.description is Some, "description"@)
            + name_if(self.instructions is Some, "instructions"@)
            + name_if(self.tools is Some, "tools"@)
            + name_if(self.tool_resources is Some, "tool_resources"@)
            + name_if(self.metadata is Some, "metadata"@)
            + name_if(self.temperature is Some, "temperature"@)
            + name_if(self.top_p is Some, "top_p"@)
            + name_if(self.response_format is Some, "response_format"@)
    }

    /// A request with the mandatory fields and no optional field set.
    pub fn new(model: String) -> (r: Self)
        ensures
            r == (AssistantCreationRequest {
                model,
                name: None,
                description: None,
                instructions: None,
                tools: None,
                tool_resources: None,
                metadata: None,
                temperature: None,
                top_p: None,
                response_format: None,
            }),
    {
        AssistantCreationRequest {
            model,
            name: None,
            description: None,
            instructions: None,
            tools: None,
            tool_resources: None,
            metadata: None,
            temperature: None,
            top_p: None,
            response_format: None,
        }
    }

    /// Sets the name of the assistant.
    pub fn name(self, name: String) -> (r: Self)
        ensures
            r == (AssistantCreationRequest { name: Some(name), ..self }),
    {
        let mut r = self;
        r.name = Some(name);
        r
    }

    /// Sets the description of the assistant.
    pub fn description(self, description: String) -> (r: Self)
        ensures
            r == (AssistantCreationRequest { description: Some(description), ..self }),
    {
        let mut r = self;
        r.description = Some(description);
        r
    }

    /// Sets the instructions for the assistant.
    pub fn instructions(self, instructions: String) -> (r: Self)
        ensures
            r == (AssistantCreationRequest { instructions: Some(instructions), ..self }),
    {
        let mut r = self;
        r.instructions = Some(instructions);
        r
    }

    /// Sets the tools of the assistant.
    pub fn tools(self, tools: Vec<Json>) -> (r: Self)
        ensures
            r == (AssistantCreationRequest { tools: Some(tools), ..self }),
    {
        let mut r = self;
        r.tools = Some(tools);
        r
    }

    /// Sets the resources for the tools.
    pub fn tool_resources(self, tool_resources: Json) -> (r: Self)
        ensures
            r == (AssistantCreationRequest { tool_resources: Some(tool_resources), ..self }),
    {
        let mut r = self;
        r.tool_resources = Some(tool_resources);
        r
    }

    /// Sets the metadata of the assistant.
    pub fn metadata(self, metadata: Json) -> (r: Self)
        ensures
            r == (AssistantCreationRequest { metadata: Some(metadata), ..self }),
    {
        let mut r = self;
        r.metadata = Some(metadata);
        r
    }

    /// Sets the sampling temperature.
    pub fn temperature(self, temperature: JsonNumber) -> (r: Self)
        ensures
            r == (AssistantCreationRequest { temperature: Some(temperature), ..self }),
    {
        let mut r = self;
        r.temperature = Some(temperature);
        r
    }

    /// Sets the nucleus sampling parameter.
    pub fn top_p(self, top_p: JsonNumber) -> (r: Self)
        ensures
            r == (AssistantCreationRequest { top_p: Some(top_p), ..self }),
    {
        let mut r = self;
        r.top_p = Some(top_p);
        r
    }

    /// Sets the format of responses.
    pub fn response_format(self, response_format: Json) -> (r: Self)
        ensures
            r == (AssistantCreationRequest { response_format: Some(response_format), ..self }),
    {
        let mut r = self;
        r.response_format = Some(response_format);
        r
    }

    /// The body as JSON text.
    pub fn to_json(&self) -> (r: String)
        ensures
            r@ == object_text(self.spec_members()),
    {
        let w = ObjectWriter::new();
        let w = w.string("model", self.model.as_str());
        let w = w.opt_string("name", &self.name);
        let w = w.opt_string("description", &self.description);
        let w = w.opt_string("instructions", &self.instructions);
        let w = w.opt_json_list("tools", &self.tools);
        let w = w.opt_json("tool_resources", &self.tool_resources);
        let w = w.opt_json("metadata", &self.metadata);
        let w = w.opt_number("temperature", &self.temperature);
        let w = w.opt_number("top_p", &self.top_p);
        let w = w.opt_json("response_format", &self.response_format);
        assert(w.members() =~= self.spec_members());
        w.finish()
    }

    /// The names of the members of the body are the names of the mandatory
    /// fields and of the optional fields that are set, and no others.
    pub proof fn lemma_keys(&self)
        ensures
            member_names(self.spec_members()) == self.spec_keys(),
    {
        let m0 = Seq::<Member>::empty();
        let m1 = m0 + one("model"@, json_quoted(self.model@));
        let m2 = m1 + maybe("name"@, opt_quoted(self.name.deep_view()));
        let m3 = m2 + maybe("description"@, opt_quoted(self.description.deep_view()));
        let m4 = m3 + maybe("instructions"@, opt_quoted(self.instructions.deep_view()));
        let m5 = m4 + maybe("tools"@, opt_array(self.tools.deep_view()));
        let m6 = m5 + maybe("tool_resources"@, self.tool_resources.deep_view());
        let m7 = m6 + maybe("metadata"@, self.metadata.deep_view());
        let m8 = m7 + maybe("temperature"@, self.temperature.deep_view());
        let m9 = m8 + maybe("top_p"@, self.top_p.deep_view());
        let m10 = m9 + maybe("response_format"@, self.response_format.deep_view());
        lemma_names_one(m0, "model"@, json_quoted(self.model@));
        lemma_names_maybe(m1, "name"@, opt_quoted(self.name.deep_view()));
        lemma_names_maybe(m2, "description"@, opt_quoted(self.description.deep_view()));
        lemma_names_maybe(m3, "instructions"@, opt_quoted(self.instructions.deep_view()));
        lemma_names_maybe(m4, "tools"@, opt_array(self.tools.deep_view()));
        lemma_names_maybe(m5, "tool_resources"@, self.tool_resources.deep_view());
        lemma_names_maybe(m6, "metadata"@, self.metadata.deep_view());
        lemma_names_maybe(m7, "temperature"@, self.temperature.deep_view());
        lemma_names_maybe(m8, "top_p"@, self.top_p.deep_view());
        lemma_names_maybe(m9, "response_format"@, self.response_format.deep_view());
        assert(m1 =~= one("model"@, json_quoted(self.model@)));
        assert(m10 == self.spec_members());
        assert(member_names(m0) =~= Seq::<Seq<char>>::empty());
        assert(member_names(m1) =~= seq!["model"@]);
        assert(member_names(m10) == self.spec_keys());
    }

    /// Whether a field of the name `k` is sent: a mandatory field always, an
    /// optional field once it is set, and nothing else.
    pub open spec fn sends(&self, k: Seq<char>) -> bool {
        ||| k == "model"@
        ||| (self.name is Some && k == "name"@)
        ||| (self.description is Some && k == "description"@)
        ||| (self.instructions is Some && k == "instructions"@)
        ||| (self.tools is Some && k == "tools"@)
        ||| (self.tool_resources is Some && k == "tool_resources"@)
        ||| (self.metadata is Some && k == "metadata"@)
        ||| (self.temperature is Some && k == "temperature"@)
        ||| (self.top_p is Some && k == "top_p"@)
        ||| (self.response_format is Some && k == "response_format"@)
    }

    /// A name is among the names of the members of the body exactly where a
    /// field of that name is sent.
    pub proof fn lemma_sends(&self, k: Seq<char>)
        ensures
            member_names(self.spec_members()).contains(k) <==> self.sends(k),
    {
        self.lemma_keys();
        let s0 = seq!["model"@];
        assert(s0.contains(k) <==> (k == "model"@)) by {
            assert(s0[0] == "model"@);
        }
        let s1 = s0 + name_if(self.name is Some, "name"@);
        let s2 = s1 + name_if(self.description is Some, "description"@);
        let s3 = s2 + name_if(self.instructions is Some, "instructions"@);
        let s4 = s3 + name_if(self.tools is Some, "tools"@);
        let s5 = s4 + name_if(self.tool_resources is Some, "tool_resources"@);
        let s6 = s5 + name_if(self.metadata is Some, "metadata"@);
        let s7 = s6 + name_if(self.temperature is Some, "temperature"@);
        let s8 = s7 + name_if(self.top_p is Some, "top_p"@);
        let s9 = s8 + name_if(self.response_format is Some, "response_format"@);
        lemma_name_if_contains(s0, self.name is Some, "name"@, k);
        lemma_name_if_contains(s1, self.description is Some, "description"@, k);
        lemma_name_if_contains(s2, self.instructions is Some, "instructions"@, k);
        lemma_name_if_contains(s3, self.tools is Some, "tools"@, k);
        lemma_name_if_contains(s4, self.tool_resources is Some, "tool_resources"@, k);
        lemma_name_if_contains(s5, self.metadata is Some, "metadata"@, k);
        lemma_name_if_contains(s6, self.temperature is Some, "temperature"@, k);
        lemma_name_if_contains(s7, self.top_p is Some, "top_p"@, k);
        lemma_name_if_contains(s8, self.response_format is Some, "response_format"@, k);
        assert(s9 == self.spec_keys());
    }
}

/// A request to modify an assistant. Each field is sent only once it has been
/// set.
pub struct AssistantModificationRequest {
    /// Name for the assistant
    pub name: Option<String>,
    /// Description of the assistant
    pub description: Option<String>,
    /// Instructions for the assistant
    pub instructions: Option<String>,
    /// Tools to be used by the assistant
    pub tools: Option<Vec<Json>>,
    /// Resources for the tools
    pub tool_resources: Option<Json>,
    /// Metadata for the assistant
    pub metadata: Option<Json>,
    /// Sampling temperature
    pub temperature: Option<JsonNumber>,
    /// Nucleus sampling parameter
    pub top_p: Option<JsonNumber>,
    /// Format of responses from the assistant
    pub response_format: Option<Json>,
}

impl Default for AssistantModificationRequest {
    /// A request with no field set.
    fn default() -> (r: Self)
        ensures
            r == (AssistantModificationRequest {
                name: None,
                description: None,
                instructions: None,
                tools: None,
                tool_resources: None,
                metadata: None,
                temperature: None,
                top_p: None,
                response_format: None,
            }),
    {
        AssistantModificationRequest {
            name: None,
            description: None,
            instructions: None,
            tools: None,
            tool_resources: None,
            metadata: None,
            temperature: None,
            top_p: None,
            response_format: None,
        }
    }
}

impl AssistantModificationRequest {
    /// The members of the body: each field that is set, in the order of
    /// declaration.
    pub open spec fn spec_members(&self) -> Seq<Member> {
        maybe("name"@, opt_quoted(self.name.deep_view()))
            + maybe("description"@, opt_quoted(self.description.deep_view()))
            + maybe("instructions"@, opt_quoted(self.instructions.deep_view()))
            + maybe("tools"@, opt_array(self.tools.deep_view()))
            + maybe("tool_resources"@, self.tool_resources.deep_view())
            + maybe("metadata"@, self.metadata.deep_view())
            + maybe("temperature"@, self.temperature.deep_view())
            + maybe("top_p"@, self.top_p.deep_view())
            + maybe("response_format"@, self.response_format.deep_view())
    }

    /// The names of the fields that are sent, in the order of declaration.
    pub open spec fn spec_keys(&self) -> Seq<Seq<char>> {
        name_if(self.name is Some, "name"@)
            + name_if(self.description is Some, "description"@)
            + name_if(self.instructions is Some, "instructions"@)
            + name_if(self.tools is Some, "tools"@)
            + name_if(self.tool_resources is Some, "tool_resources"@)
            + name_if(self.metadata is Some, "metadata"@)
            + name_if(self.temperature is Some, "temperature"@)
            + name_if(self.top_p is Some, "top_p"@)
            + name_if(self.response_format is Some, "response_format"@)
    }

    /// Sets the name of the assistant.
    pub fn name(self, name: String) -> (r: Self)
        ensures
            r == (AssistantModificationRequest { name: Some(name), ..self }),
    {
        let mut r = self;
        r.name = Some(name);
        r
    }

    /// Sets the description of the assistant.
    pub fn description(self, description: String) -> (r: Self)
        ensures
            r == (AssistantModificationRequest { description: Some(description), ..self }),
    {
        let mut r = self;
        r.description = Some(description);
        r
    }

    /// Sets the instructions for the assistant.
    pub fn instructions(self, instructions: String) -> (r: Self)
        ensures
            r == (AssistantModificationRequest { instructions: Some(instructions), ..self }),
    {
        let mut r = self;
        r.instructions = Some(instructions);
        r
    }

    /// Sets the tools of the assistant.
    pub fn tools(self, tools: Vec<Json>) -> (r: Self)
        ensures
            r == (AssistantModificationRequest { tools: Some(tools), ..self }),
    {
        let mut r = self;
        r.tools = Some(tools);
        r
    }

    /// Sets the resources for the tools.
    pub fn tool_resources(self, tool_resources: Json) -> (r: Self)
        ensures
            r == (AssistantModificationRequest { tool_resources: Some(tool_resources), ..self }),
    {
        let mut r = self;
        r.tool_resources = Some(tool_resources);
        r
    }

    /// Sets the metadata of the assistant.
    pub fn metadata(self, metadata: Json) -> (r: Self)
        ensures
            r == (AssistantModificationRequest { metadata: Some(metadata), ..self }),
    {
        let mut r = self;
        r.metadata = Some(metadata);
        r
    }

    /// Sets the sampling temperature.
    pub fn temperature(self, temperature: JsonNumber) -> (r: Self)
        ensures
            r == (AssistantModificationRequest { temperature: Some(temperature), ..self }),
    {
        let mut r = self;
        r.temperature = Some(temperature);
        r
    }

    /// Sets the nucleus sampling parameter.
    pub fn top_p(self, top_p: JsonNumber) -> (r: Self)
        ensures
            r == (AssistantModificationRequest { top_p: Some(top_p), ..self }),
    {
        let mut r = self;
        r.top_p = Some(top_p);
        r
    }

    /// Sets the format of responses.
    pub fn response_format(self, response_format: Json) -> (r: Self)
        ensures
            r == (AssistantModificationRequest { response_format: Some(response_format), ..self }),
    {
        let mut r = self;
        r.response_format = Some(response_format);
        r
    }

    /// The body as JSON text.
    pub fn to_json(&self) -> (r: String)
        ensures
            r@ == object_text(self.spec_members()),
    {
        let w = ObjectWriter::new();
        let w = w.opt_string("name", &self.name);
        let w = w.opt_string("description", &self.description);
        let w = w.opt_string("instructions", &self.instructions);
        let w = w.opt_json_list("tools", &self.tools);
        let w = w.opt_json("tool_resources", &self.tool_resources);
        let w = w.opt_json("metadata", &self.metadata);
        let w = w.opt_number("temperature", &self.temperature);
        let w = w.opt_number("top_p", &self.top_p);
        let w = w.opt_json("response_format", &self.response_format);
        assert(w.members() =~= self.spec_members());
        w.finish()
    }

    /// The names of the members of the body are the names of the fields that
    /// are set, and no others.
    pub proof fn lemma_keys(&self)
        ensures
            member_names(self.spec_members()) == self.spec_keys(),
    {
        let m0 = Seq::<Member>::empty();
        let m1 = m0 + maybe("name"@, opt_quoted(self.name.deep_view()));
        let m2 = m1 + maybe("description"@, opt_quoted(self.description.deep_view()));
        let m3 = m2 + maybe("instructions"@, opt_quoted(self.instructions.deep_view()));
        let m4 = m3 + maybe("tools"@, opt_array(self.tools.deep_view()));
        let m5 = m4 + maybe("tool_resources"@, self.tool_resources.deep_view());
        let m6 = m5 + maybe("metadata"@, self.metadata.deep_view());
        let m7 = m6 + maybe("temperature"@, self.temperature.deep_view());
        let m8 = m7 + maybe("top_p"@, self.top_p.deep_view());
        let m9 = m8 + maybe("response_format"@, self.response_format.deep_view());
        lemma_names_maybe(m0, "name"@, opt_quoted(self.name.deep_view()));
        lemma_names_maybe(m1, "description"@, opt_quoted(self.description.deep_view()));
        lemma_names_maybe(m2, "instructions"@, opt_quoted(self.instructions.deep_view()));
        lemma_names_maybe(m3, "tools"@, opt_array(self.tools.deep_view()));
        lemma_names_maybe(m4, "tool_resources"@, self.tool_resources.deep_view());
        lemma_names_maybe(m5, "metadata"@, self.metadata.deep_view());
        lemma_names_maybe(m6, "temperature"@, self.temperature.deep_view());
        lemma_names_maybe(m7, "top_p"@, self.top_p.deep_view());
        lemma_names_maybe(m8, "response_format"@, self.response_format.deep_view());
        assert(m1 =~= maybe("name"@, opt_quoted(self.name.deep_view())));
        assert(m9 == self.spec_members());
        assert(member_names(m0) =~= Seq::<Seq<char>>::empty());
        assert(member_names(m1) =~= name_if(self.name is Some, "name"@));
        assert(member_names(m9) == self.spec_keys());
    }

    /// Whether a field of the name `k` is sent: a field once it is set, and
    /// nothing else.
    pub open spec fn sends(&self, k: Seq<char>) -> bool {
        ||| (self.name is Some && k == "name"@)
        ||| (self.description is Some && k == "description"@)
        ||| (self.instructions is Some && k == "instructions"@)
        ||| (self.tools is Some && k == "tools"@)
        ||| (self.tool_resources is Some && k == "tool_resources"@)
        ||| (self.metadata is Some && k == "metadata"@)
        ||| (self.temperature is Some && k == "temperature"@)
        ||| (self.top_p is Some && k == "top_p"@)
        ||| (self.response_format is Some && k == "response_format"@)
    }

    /// A name is among the names of the members of the body exactly where a
    /// field of that name is sent.
    pub proof fn lemma_sends(&self, k: Seq<char>)
        ensures
            member_names(self.spec_members()).contains(k) <==> self.sends(k),
    {
        self.lemma_keys();
        let s0 = Seq::<Seq<char>>::empty();
        let s1 = s0 + name_if(self.name is Some, "name"@);
        let s2 = s1 + name_if(self.description is Some, "description"@);
        let s3 = s2 + name_if(self.instructions is Some, "instructions"@);
        let s4 = s3 + name_if(self.tools is Some, "tools"@);
        let s5 = s4 + name_if(self.tool_resources is Some, "tool_resources"@);
        let s6 = s5 + name_if(self.metadata is Some, "metadata"@);
        let s7 = s6 + name_if(self.temperature is Some, "temperature"@);
        let s8 = s7 + name_if(self.top_p is Some, "top_p"@);
        let s9 = s8 + name_if(self.response_format is Some, "response_format"@);
        lemma_name_if_contains(s0, self.name is Some, "name"@, k);
        lemma_name_if_contains(s1, self.description is Some, "description"@, k);
        lemma_name_if_contains(s2, self.instructions is Some, "instructions"@, k);
        lemma_name_if_contains(s3, self.tools is Some, "tools"@, k);
        lemma_name_if_contains(s4, self.tool_resources is Some, "tool_resources"@, k);
        lemma_name_if_contains(s5, self.metadata is Some, "metadata"@, k);
        lemma_name_if_contains(s6, self.temperature is Some, "temperature"@, k);
        lemma_name_if_contains(s7, self.top_p is Some, "top_p"@, k);
        lemma_name_if_contains(s8, self.response_format is Some, "response_format"@, k);
        assert(s1 =~= name_if(self.name is Some, "name"@));
        assert(s9 == self.spec_keys());
    }
}

impl<'a> AssistantsApi<'a> {
    /// A submission of `request` to create an assistant.
    pub fn create(&self, request: AssistantCreationRequest) -> (r: Request)
        ensures
            r@ == self.0.spec_request(
                Method::Post,
                "/assistants"@,
                BodyView::Json(object_text(request.spec_members())),
            ),
    {
        self.0.post_json("/assistants", request.to_json())
    }

    /// A retrieval of the assistants, narrowed by the parameters that are
    /// given.
    pub fn list(
        &self,
        limit: Option<u32>,
        order: Option<&str>,
        after: Option<&str>,
        before: Option<&str>,
    ) -> (r: Request)
        ensures
            r@ == self.0.spec_request(
                Method::Get,
                "/assistants"@ + query_text(
                    maybe_param("limit"@, opt_decimal32(limit))
                    + maybe_param("order"@, order.deep_view())
                    + maybe_param("after"@, after.deep_view())
                    + maybe_param("before"@, before.deep_view()),
                ),
                BodyView::Empty,
            ),
    {
        let q = UrlWriter::new("/assistants");
        let q = q.opt_unsigned32("limit", limit);
        let q = q.opt_str("order", order);
        let q = q.opt_str("after", after);
        let q = q.opt_str("before", before);
        assert(q.params() =~= maybe_param("limit"@, opt_decimal32(limit))
            + maybe_param("order"@, order.deep_view())
            + maybe_param("after"@, after.deep_view())
            + maybe_param("before"@, before.deep_view()));
        let url = q.finish();
        self.0.get(url.as_str())
    }

    /// A retrieval of the assistant `assistant_id`.
    pub fn retrieve(&self, assistant_id: &str) -> (r: Request)
        ensures
            r@ == self.0.spec_request(
                Method::Get,
                "/assistants/"@ + assistant_id@,
                BodyView::Empty,
            ),
    {
        let mut url = String::from_str("/assistants/");
        url.append(assistant_id);
        self.0.get(url.as_str())
    }

    /// A submission of `request` to modify the assistant `assistant_id`.
    pub fn modify(&self, assistant_id: &str, request: AssistantModificationRequest) -> (r: Request)
        ensures
            r@ == self.0.spec_request(
                Method::Post,
                "/assistants/"@ + assistant_id@,
                BodyView::Json(object_text(request.spec_members())),
            ),
    {
        let mut url = String::from_str("/assistants/");
        url.append(assistant_id);
        self.0.post_json(url.as_str(), request.to_json())
    }

    /// A deletion of the assistant `assistant_id`.
    pub fn delete(&self, assistant_id: &str) -> (r: Request)
        ensures
            r@ == self.0.spec_request(
                Method::Delete,
                "/assistants/"@ + assistant_id@,
                BodyView::Empty,
            ),
    {
        let mut url = String::from_str("/assistants/");
        url.append(assistant_id);
        self.0.delete(url.as_str())
    }
}

} // verus!
