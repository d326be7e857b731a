//! Chat completions: the request body with its optional fields, what holds
//! of its members whatever setters were called, and the request of the
//! endpoint.

use vstd::prelude::*;
use crate::json::{array_text, json_quoted, Json, JsonNumber};
use crate::openai::OpenAI;
use crate::payload::{
    lemma_name_if_contains, lemma_names_maybe, lemma_names_one, lemma_pair_contains, maybe,
    member_names, name_if, object_text, one, opt_bool, opt_decimal, opt_quoted, opt_quoted_array,
    Member, ObjectWriter,
};
use crate::request::{BodyView, Method, Request};

verus! {

/// The chat completion endpoint.
pub struct CompletionsApi<'a>(pub &'a OpenAI);

/// A request for a chat completion. `model` and `messages` are always sent;
/// each of the others is sent only once it has been set.
pub struct ChatCompletionRequest {
    /// Model name to be used for the chat completion
    pub model: String,
    /// History of messages in the conversation
    pub messages: Vec<Json>,
    /// Maximum number of tokens to generate
    pub max_tokens: Option<u64>,
    /// Sampling temperature
    pub temperature: Option<JsonNumber>,
    /// Nucleus sampling parameter
    pub top_p: Option<JsonNumber>,
    /// Number of completions to generate for each prompt
    pub n: Option<u64>,
    /// Whether to stream back partial progress
    pub stream: Option<bool>,
    /// Sequences at which generation stops
    pub stop: Option<Vec<String>>,
    /// Presence penalty to apply
    pub presence_penalty: Option<JsonNumber>,
    /// Frequency penalty to apply
    pub frequency_penalty: Option<JsonNumber>,
    /// Bias for logits
    pub logit_bias: Option<Json>,
    /// User ID
    pub user: Option<String>,
}

impl Default for ChatCompletionRequest {
    /// A request with empty mandatory fields and no optional field set.
    fn default() -> (r: Self)
        ensures
            r.model@.len() == 0,
            r.messages@.len() == 0,
            r.max_tokens is None,
            r.temperature is None,
            r.top_p is None,
            r.n is None,
            r.stream is None,
            r.stop is None,
            r.presence_penalty is None,
            r.frequency_penalty is None,
            r.logit_bias is None,
            r.user is None,
    {
        ChatCompletionRequest {
            model: String::new(),
            messages: Vec::new(),
            max_tokens: None,
            temperature: None,
            top_p: None,
            n: None,
            stream: None,
            stop: None,
            presence_penalty: None,
            frequency_penalty: None,
            logit_bias: None,
            user: None,
        }
    }
}

impl ChatCompletionRequest {
    /// The members of the body: the two mandatory fields, then each
    /// optional field that is set, in the order of declaration.
    pub open spec fn spec_members(&self) -> Seq<Member> {
        one("model"@, json_quoted(self.model@))
            + one("messages"@, array_text(self.messages.deep_view()))
            + maybe("max_tokens"@, opt_decimal(self.max_tokens))
            + maybe("temperature"@, self.temperature.deep_view())
            + maybe("top_p"@, self.top_p.deep_view())
            + maybe("n"@, opt_decimal(self.n))
            + maybe("stream"@, opt_bool(self.stream))
            + maybe("stop"@, opt_quoted_array(self.stop.deep_view()))
            + maybe("presence_penalty"@, self.presence_penalty.deep_view())
            + maybe("frequency_penalty"@, self.frequency_penalty.deep_view())
            + maybe("logit_bias"@, self.logit_bias.deep_view())
            + maybe("user"@, opt_quoted(self.user.deep_view()))
    }

    /// The names of the fields that are sent: the two mandatory ones, then
    /// each optional one that is set, in the order of declaration.
    pub open spec fn spec_keys(&self) -> Seq<Seq<char>> {
        seq!["model"@, "messages"@]
            + name_if(self.max_tokens is Some, "max_tokens"@)
            + name_if(self.temperature is Some, "temperature"@)
            + name_if(self.top_p is Some, "top_p"@)
            + name_if(self.n is Some, "n"@)
            + name_if(self.stream is Some, "stream"@)
            + name_if(self.stop is Some, "stop"@)
            + name_if(self.presence_penalty is Some, "presence_penalty"@)
            + name_if(self.frequency_penalty is Some, "frequency_penalty"@)
            + name_if(self.logit_bias is Some, "logit_bias"@)
            + name_if(self.user is Some, "user"@)
    }

    /// A request with the two mandatory fields and no optional field set.
    pub fn new(model: String, messages: Vec<Json>) -> (r: Self)
        ensures
            r == (ChatCompletionRequest {
                model,
                messages,
                max_tokens: None,
                temperature: None,
                top_p: None,
                n: None,
                stream: None,
                stop: None,
                presence_penalty: None,
                frequency_penalty: None,
                logit_bias: None,
                user: None,
            }),
    {
        ChatCompletionRequest {
            model,
            messages,
            max_tokens: None,
            temperature: None,
            top_p: None,
            n: None,
            stream: None,
            stop: None,
            presence_penalty: None,
            frequency_penalty: None,
            logit_bias: None,
            user: None,
        }
    }

    /// Sets the maximum number of tokens to generate.
    pub fn max_tokens(self, max_tokens: u64) -> (r: Self)
        ensures
            r == self.with(ChatOption::MaxTokens(max_tokens)),
    {
        let mut r = self;
        r.max_tokens = Some(max_tokens);
        r
    }

    /// Sets the sampling temperature.
    pub fn temperature(self, temperature: JsonNumber) -> (r: Self)
        ensures
            r == self.with(ChatOption::Temperature(temperature)),
    {
        let mut r = self;
        r.temperature = Some(temperature);
        r
    }

    /// Sets the nucleus sampling parameter.
    pub fn top_p(self, top_p: JsonNumber) -> (r: Self)
        ensures
            r == self.with(ChatOption::TopP(top_p)),
    {
        let mut r = self;
        r.top_p = Some(top_p);
        r
    }

    /// Sets the number of completions to generate.
    pub fn n(self, n: u64) -> (r: Self)
        ensures
            r == self.with(ChatOption::N(n)),
    {
        let mut r = self;
        r.n = Some(n);
        r
    }

    /// Sets whether partial progress is streamed back.
    pub fn stream(self, stream: bool) -> (r: Self)
        ensures
            r == self.with(ChatOption::Stream(stream)),
    {
        let mut r = self;
        r.stream = Some(stream);
        r
    }

    /// Sets the sequences at which generation stops.
    pub fn stop(self, stop: Vec<String>) -> (r: Self)
        ensures
            r == self.with(ChatOption::Stop(stop)),
    {
        let mut r = self;
        r.stop = Some(stop);
        r
    }

    /// Sets the presence penalty.
    pub fn presence_penalty(self, presence_penalty: JsonNumber) -> (r: Self)
        ensures
            r == self.with(ChatOption::PresencePenalty(presence_penalty)),
    {
        let mut r = self;
        r.presence_penalty = Some(presence_penalty);
        r
    }

    /// Sets the frequency penalty.
    pub fn frequency_penalty(self, frequency_penalty: JsonNumber) -> (r: Self)
        ensures
            r == self.with(ChatOption::FrequencyPenalty(frequency_penalty)),
    {
        let mut r = self;
        r.frequency_penalty = Some(frequency_penalty);
        r
    }

    /// Sets the bias for logits.
    pub fn logit_bias(self, logit_bias: Json) -> (r: Self)
        ensures
            r == self.with(ChatOption::LogitBias(logit_bias)),
    {
        let mut r = self;
        r.logit_bias = Some(logit_bias);
        r
    }

    /// Sets the user ID.
    pub fn user(self, user: String) -> (r: Self)
        ensures
            r == self.with(ChatOption::User(user)),
    {
        let mut r = self;
        r.user = Some(user);
        r
    }

    /// The body as JSON text.
    pub fn to_json(&self) -> (r: String)
        ensures
            r@ == object_text(self.spec_members()),
    {
        let w = ObjectWriter::new();
        let w = w.string("model", self.model.as_str());
        let w = w.json_list("messages", &self.messages);
        let w = w.opt_unsigned("max_tokens", self.max_tokens);
        let w = w.opt_number("temperature", &self.temperature);
        let w = w.opt_number("top_p", &self.top_p);
        let w = w.opt_unsigned("n", self.n);
        let w = w.opt_bool("stream", self.stream);
        let w = w.opt_string_list("stop", &self.stop);
        let w = w.opt_number("presence_penalty", &self.presence_penalty);
        let w = w.opt_number("frequency_penalty", &self.frequency_penalty);
        let w = w.opt_json("logit_bias", &self.logit_bias);
        let w = w.opt_string("user", &self.user);
        assert(w.members() =~= self.spec_members());
        w.finish()
    }
}

/// One optional field of a chat completion request together with a value
/// for it: what one setter call carries.
pub enum ChatOption {
    MaxTokens(u64),
    Temperature(JsonNumber),
    TopP(JsonNumber),
    N(u64),
    Stream(bool),
    Stop(Vec<String>),
    PresencePenalty(JsonNumber),
    FrequencyPenalty(JsonNumber),
    LogitBias(Json),
    User(String),
}

impl ChatOption {
    /// The name of the field that the option sets.
    pub open spec fn name(&self) -> Seq<char> {
        match self {
            ChatOption::MaxTokens(_) => "max_tokens"@,
            ChatOption::Temperature(_) => "temperature"@,
            ChatOption::TopP(_) => "top_p"@,
            ChatOption::N(_) => "n"@,
            ChatOption::Stream(_) => "stream"@,
            ChatOption::Stop(_) => "stop"@,
            ChatOption::PresencePenalty(_) => "presence_penalty"@,
            ChatOption::FrequencyPenalty(_) => "frequency_penalty"@,
            ChatOption::LogitBias(_) => "logit_bias"@,
            ChatOption::User(_) => "user"@,
        }
    }

    /// The place of the field that the option sets among the optional
    /// fields, in the order of declaration.
    pub open spec fn field(&self) -> nat {
        match self {
            ChatOption::MaxTokens(_) => 0,
            ChatOption::Temperature(_) => 1,
            ChatOption::TopP(_) => 2,
            ChatOption::N(_) => 3,
            ChatOption::Stream(_) => 4,
            ChatOption::Stop(_) => 5,
            ChatOption::PresencePenalty(_) => 6,
            ChatOption::FrequencyPenalty(_) => 7,
            ChatOption::LogitBias(_) => 8,
            ChatOption::User(_) => 9,
        }
    }

    /// Whether two options set the same field.
    pub open spec fn same_field(&self, other: &ChatOption) -> bool {
        self.field() == other.field()
    }
}

/// The last of `options` that sets the field at the place `field`, if there
/// is one.
pub open spec fn last_setting(options: Seq<ChatOption>, field: nat) -> Option<ChatOption>
    decreases options.len(),
{
    if options.len() == 0 {
        None
    } else if options.last().field() == field {
        Some(options.last())
    } else {
        last_setting(options.drop_last(), field)
    }
}

/// The last setting of a field is one of the options, and sets that field;
/// where there is none, no option sets that field.
pub proof fn lemma_last_setting(options: Seq<ChatOption>, field: nat)
    ensures
        match last_setting(options, field) {
            Some(o) => o.field() == field && options.contains(o),
            None => forall|i: int| 0 <= i < options.len() ==> options[i].field() != field,
        },
    decreases options.len(),
{
    if options.len() > 0 {
        let front = options.drop_last();
        lemma_last_setting(front, field);
        if options.last().field() == field {
            assert(options[options.len() - 1] == options.last());
        } else {
            match last_setting(front, field) {
                Some(o) => {
                    let i = choose|i: int| 0 <= i < front.len() && front[i] == o;
                    assert(options[i] == o);
                },
                None => {
                    assert forall|i: int| 0 <= i < options.len() implies options[i].field()
                        != field by {
                        if i < front.len() {
                            assert(front[i] == options[i]);
                        }
                    }
                },
            }
        }
    }
}

impl ChatCompletionRequest {
    /// The request after the setter call that `option` stands for.
    pub open spec fn with(self, option: ChatOption) -> ChatCompletionRequest {
        match option {
            ChatOption::MaxTokens(v) => ChatCompletionRequest { max_tokens: Some(v), ..self },
            ChatOption::Temperature(v) => ChatCompletionRequest { temperature: Some(v), ..self },
            ChatOption::TopP(v) => ChatCompletionRequest { top_p: Some(v), ..self },
            ChatOption::N(v) => ChatCompletionRequest { n: Some(v), ..self },
            ChatOption::Stream(v) => ChatCompletionRequest { stream: Some(v), ..self },
            ChatOption::Stop(v) => ChatCompletionRequest { stop: Some(v), ..self },
            ChatOption::PresencePenalty(v) => ChatCompletionRequest {
                presence_penalty: Some(v),
                ..self
            },
            ChatOption::FrequencyPenalty(v) => ChatCompletionRequest {
                frequency_penalty: Some(v),
                ..self
            },
            ChatOption::LogitBias(v) => ChatCompletionRequest { logit_bias: Some(v), ..self },
            ChatOption::User(v) => ChatCompletionRequest { user: Some(v), ..self },
        }
    }

    /// The request after the setter calls that `options` stand for, made in
    /// that order.
    pub open spec fn with_all(self, options: Seq<ChatOption>) -> ChatCompletionRequest
        decreases options.len(),
    {
        if options.len() == 0 {
            self
        } else {
            self.with_all(options.drop_last()).with(options.last())
        }
    }

    /// The names of the members of the body are the names of the two
    /// mandatory fields and of the optional fields that are set, and no
    /// others.
    pub proof fn lemma_keys(&self)
        ensures
            member_names(self.spec_members()) == self.spec_keys(),
    {
        let m0 = Seq::<Member>::empty();
        let m1 = m0 + one("model"@, json_quoted(self.model@));
        let m2 = m1 + one("messages"@, array_text(self.messages.deep_view()));
        let m3 = m2 + maybe("max_tokens"@, opt_decimal(self.max_tokens));
        let m4 = m3 + maybe("temperature"@, self.temperature.deep_view());
        let m5 = m4 + maybe("top_p"@, self.top_p.deep_view());
        let m6 = m5 + maybe("n"@, opt_decimal(self.n));
        let m7 = m6 + maybe("stream"@, opt_bool(self.stream));
        let m8 = m7 + maybe("stop"@, opt_quoted_array(self.stop.deep_view()));
        let m9 = m8 + maybe("presence_penalty"@, self.presence_penalty.deep_view());
        let m10 = m9 + maybe("frequency_penalty"@, self.frequency_penalty.deep_view());
        let m11 = m10 + maybe("logit_bias"@, self.logit_bias.deep_view());
        let m12 = m11 + maybe("user"@, opt_quoted(self.user.deep_view()));
        lemma_names_one(m0, "model"@, json_quoted(self.model@));
        lemma_names_one(m1, "messages"@, array_text(self.messages.deep_view()));
        lemma_names_maybe(m2, "max_tokens"@, opt_decimal(self.max_tokens));
        lemma_names_maybe(m3, "temperature"@, self.temperature.deep_view());
        lemma_names_maybe(m4, "top_p"@, self.top_p.deep_view());
        lemma_names_maybe(m5, "n"@, opt_decimal(self.n));
        lemma_names_maybe(m6, "stream"@, opt_bool(self.stream));
        lemma_names_maybe(m7, "stop"@, opt_quoted_array(self.stop.deep_view()));
        lemma_names_maybe(m8, "presence_penalty"@, self.presence_penalty.deep_view());
        lemma_names_maybe(m9, "frequency_penalty"@, self.frequency_penalty.deep_view());
        lemma_names_maybe(m10, "logit_bias"@, self.logit_bias.deep_view());
        lemma_names_maybe(m11, "user"@, opt_quoted(self.user.deep_view()));
        assert(m1 =~= one("model"@, json_quoted(self.model@)));
        assert(m12 == self.spec_members());
        assert(member_names(m0) =~= Seq::<Seq<char>>::empty());
        assert(member_names(m2) =~= seq!["model"@, "messages"@]);
        assert(member_names(m12) == self.spec_keys());
    }

    /// A request on which no setter was called sends the two mandatory
    /// fields alone.
    pub proof fn lemma_keys_of_new(&self)
        requires
            self.max_tokens is None,
            self.temperature is None,
            self.top_p is None,
            self.n is None,
            self.stream is None,
            self.stop is None,
            self.presence_penalty is None,
            self.frequency_penalty is None,
            self.logit_bias is None,
            self.user is None,
        ensures
            member_names(self.spec_members()) == seq!["model"@, "messages"@],
            self.spec_members() == one("model"@, json_quoted(self.model@)) + one(
                "messages"@,
                array_text(self.messages.deep_view()),
            ),
    {
        self.lemma_keys();
        reveal(name_if);
        assert(self.spec_keys() =~= seq!["model"@, "messages"@]);
        assert(self.spec_members() =~= one("model"@, json_quoted(self.model@)) + one(
            "messages"@,
            array_text(self.messages.deep_view()),
        ));
    }

    /// Setting a field twice leaves the request that the second call alone
    /// would leave.
    pub proof fn lemma_last_write_wins(self, first: ChatOption, second: ChatOption)
        requires
            first.same_field(&second),
        ensures
            self.with(first).with(second) == self.with(second),
    {
    }

    /// Setting two different fields leaves the same request in either order.
    pub proof fn lemma_order_is_immaterial(self, a: ChatOption, b: ChatOption)
        requires
            !a.same_field(&b),
        ensures
            self.with(a).with(b) == self.with(b).with(a),
    {
    }

    /// Whether a field of the name `k` is sent: the two mandatory fields
    /// always, an optional field once it is set, and nothing else.
    pub open spec fn sends(&self, k: Seq<char>) -> bool {
        ||| k == "model"@
        ||| k == "messages"@
        ||| (self.max_tokens is Some && k == "max_tokens"@)
        ||| (self.temperature is Some && k == "temperature"@)
        ||| (self.top_p is Some && k == "top_p"@)
        ||| (self.n is Some && k == "n"@)
        ||| (self.stream is Some && k == "stream"@)
        ||| (self.stop is Some && k == "stop"@)
        ||| (self.presence_penalty is Some && k == "presence_penalty"@)
        ||| (self.frequency_penalty is Some && k == "frequency_penalty"@)
        ||| (self.logit_bias is Some && k == "logit_bias"@)
        ||| (self.user is Some && k == "user"@)
    }

    /// A name is among the names that are sent exactly where a field of
    /// that name is sent.
    pub proof fn lemma_keys_contain(&self, k: Seq<char>)
        ensures
            self.spec_keys().contains(k) <==> self.sends(k),
    {
        let s0 = seq!["model"@, "messages"@];
        let s1 = s0 + name_if(self.max_tokens is Some, "max_tokens"@);
        let s2 = s1 + name_if(self.temperature is Some, "temperature"@);
        let s3 = s2 + name_if(self.top_p is Some, "top_p"@);
        let s4 = s3 + name_if(self.n is Some, "n"@);
        let s5 = s4 + name_if(self.stream is Some, "stream"@);
        let s6 = s5 + name_if(self.stop is Some, "stop"@);
        let s7 = s6 + name_if(self.presence_penalty is Some, "presence_penalty"@);
        let s8 = s7 + name_if(self.frequency_penalty is Some, "frequency_penalty"@);
        let s9 = s8 + name_if(self.logit_bias is Some, "logit_bias"@);
        let s10 = s9 + name_if(self.user is Some, "user"@);
        lemma_pair_contains("model"@, "messages"@, k);
        lemma_name_if_contains(s0, self.max_tokens is Some, "max_tokens"@, k);
        lemma_name_if_contains(s1, self.temperature is Some, "temperature"@, k);
        lemma_name_if_contains(s2, self.top_p is Some, "top_p"@, k);
        lemma_name_if_contains(s3, self.n is Some, "n"@, k);
        lemma_name_if_contains(s4, self.stream is Some, "stream"@, k);
        lemma_name_if_contains(s5, self.stop is Some, "stop"@, k);
        lemma_name_if_contains(s6, self.presence_penalty is Some, "presence_penalty"@, k);
        lemma_name_if_contains(s7, self.frequency_penalty is Some, "frequency_penalty"@, k);
        lemma_name_if_contains(s8, self.logit_bias is Some, "logit_bias"@, k);
        lemma_name_if_contains(s9, self.user is Some, "user"@, k);
        assert(s10 == self.spec_keys());
    }

    /// A name is among the names of the members of the body exactly where
    /// a field of that name is sent.
    pub proof fn lemma_sends(&self, k: Seq<char>)
        ensures
            member_names(self.spec_members()).contains(k) <==> self.sends(k),
    {
        self.lemma_keys();
        self.lemma_keys_contain(k);
    }

    /// A setter call adds the name of its field to the names that are sent,
    /// and changes no other: the names sent after any calls, in any order,
    /// are those sent before and those of the fields that were set.
    pub proof fn lemma_with_keys(self, option: ChatOption)
        ensures
            member_names(self.with(option).spec_members()).to_set() == member_names(
                self.spec_members(),
            ).to_set().insert(option.name()),
    {
        let before = member_names(self.spec_members());
        let after = member_names(self.with(option).spec_members());
        assert forall|k: Seq<char>| after.contains(k) <==> (before.contains(k) || k
            == option.name()) by {
            self.lemma_sends(k);
            self.with(option).lemma_sends(k);
        }
        assert(after.to_set() =~= before.to_set().insert(option.name()));
    }

    /// Whether this request is `before` with each optional field for which
    /// `options` hold a setting set to the last of them, and every other
    /// field as it was.
    pub open spec fn holds_last(self, before: ChatCompletionRequest, options: Seq<ChatOption>)
        -> bool {
        &&& self.model == before.model
        &&& self.messages == before.messages
        &&& self.max_tokens == match last_setting(options, 0) {
            Some(ChatOption::MaxTokens(v)) => Some(v),
            _ => before.max_tokens,
        }
        &&& self.temperature == match last_setting(options, 1) {
            Some(ChatOption::Temperature(v)) => Some(v),
            _ => before.temperature,
        }
        &&& self.top_p == match last_setting(options, 2) {
            Some(ChatOption::TopP(v)) => Some(v),
            _ => before.top_p,
        }
        &&& self.n == match last_setting(options, 3) {
            Some(ChatOption::N(v)) => Some(v),
            _ => before.n,
        }
        &&& self.stream == match last_setting(options, 4) {
            Some(ChatOption::Stream(v)) => Some(v),
            _ => before.stream,
        }
        &&& self.stop == match last_setting(options, 5) {
            Some(ChatOption::Stop(v)) => Some(v),
            _ => before.stop,
        }
        &&& self.presence_penalty == match last_setting(options, 6) {
            Some(ChatOption::PresencePenalty(v)) => Some(v),
            _ => before.presence_penalty,
        }
        &&& self.frequency_penalty == match last_setting(options, 7) {
            Some(ChatOption::FrequencyPenalty(v)) => Some(v),
            _ => before.frequency_penalty,
        }
        &&& self.logit_bias == match last_setting(options, 8) {
            Some(ChatOption::LogitBias(v)) => Some(v),
            _ => before.logit_bias,
        }
        &&& self.user == match last_setting(options, 9) {
            Some(ChatOption::User(v)) => Some(v),
            _ => before.user,
        }
    }

    /// After any setter calls, each field holds what the last call for it
    /// gave, and a field for which there was no call holds what it held
    /// before: nothing else of the calls or their order matters.
    pub proof fn lemma_with_all_last(self, options: Seq<ChatOption>)
        ensures
            self.with_all(options).holds_last(self, options),
        decreases options.len(),
    {
        if options.len() > 0 {
            self.lemma_with_all_last(options.drop_last());
        }
    }

    /// Two sequences of setter calls that end, for each field, in the same
    /// call leave the same request.
    pub proof fn lemma_same_last_settings(self, a: Seq<ChatOption>, b: Seq<ChatOption>)
        requires
            forall|field: nat| field < 10 ==> last_setting(a, field) == last_setting(b, field),
        ensures
            self.with_all(a) == self.with_all(b),
    {
        self.lemma_with_all_last(a);
        self.lemma_with_all_last(b);
    }

    /// One collection of setter calls, each for a different field, leaves
    /// the same request, and so the same body, in whatever order the calls
    /// are made.
    pub proof fn lemma_any_order(self, a: Seq<ChatOption>, b: Seq<ChatOption>)
        requires
            a.to_multiset() == b.to_multiset(),
            forall|i: int, j: int| 0 <= i < j < a.len() ==> !a[i].same_field(&a[j]),
        ensures
            self.with_all(a) == self.with_all(b),
            object_text(self.with_all(a).spec_members()) == object_text(
                self.with_all(b).spec_members(),
            ),
    {
        assert forall|field: nat| field < 10 implies last_setting(a, field) == last_setting(
            b,
            field,
        ) by {
            lemma_last_setting(a, field);
            lemma_last_setting(b, field);
            match last_setting(a, field) {
                Some(x) => {
                    vstd::seq_lib::to_multiset_contains(a, x);
                    vstd::seq_lib::to_multiset_contains(b, x);
                    let k = choose|k: int| 0 <= k < b.len() && b[k] == x;
                    match last_setting(b, field) {
                        Some(y) => {
                            vstd::seq_lib::to_multiset_contains(a, y);
                            vstd::seq_lib::to_multiset_contains(b, y);
                            let i = choose|i: int| 0 <= i < a.len() && a[i] == x;
                            let j = choose|j: int| 0 <= j < a.len() && a[j] == y;
                            if i < j {
                                assert(!a[i].same_field(&a[j]));
                            } else if j < i {
                                assert(!a[j].same_field(&a[i]));
                            }
                        },
                        None => {
                            assert(b[k].field() == field);
                        },
                    }
                },
                None => {
                    match last_setting(b, field) {
                        Some(y) => {
                            vstd::seq_lib::to_multiset_contains(a, y);
                            vstd::seq_lib::to_multiset_contains(b, y);
                            let j = choose|j: int| 0 <= j < a.len() && a[j] == y;
                            assert(a[j].field() == field);
                        },
                        None => {},
                    }
                },
            }
        }
        self.lemma_same_last_settings(a, b);
    }

    /// The names of the fields that `options` set.
    pub open spec fn option_names(options: Seq<ChatOption>) -> Set<Seq<char>> {
        options.map_values(|o: ChatOption| o.name()).to_set()
    }

    /// Whatever setters are called, and in whatever order, the names that
    /// are sent afterwards are the names sent before together with the names
    /// of the fields that were set.
    pub proof fn lemma_with_all_keys(self, options: Seq<ChatOption>)
        ensures
            member_names(self.with_all(options).spec_members()).to_set() == member_names(
                self.spec_members(),
            ).to_set().union(Self::option_names(options)),
        decreases options.len(),
    {
        let names = options.map_values(|o: ChatOption| o.name());
        let before = member_names(self.spec_members()).to_set();
        if options.len() == 0 {
            assert(names.to_set() =~= Set::<Seq<char>>::empty());
            assert(before.union(names.to_set()) =~= before);
        } else {
            let front = options.drop_last();
            let front_names = front.map_values(|o: ChatOption| o.name());
            self.lemma_with_all_keys(front);
            self.with_all(front).lemma_with_keys(options.last());
            assert(names =~= front_names.push(options.last().name()));
            front_names.lemma_push_to_set_commute(options.last().name());
            assert(before.union(front_names.to_set()).insert(options.last().name())
                =~= before.union(names.to_set()));
        }
    }
}

impl<'a> CompletionsApi<'a> {
    /// A submission of `request` to the chat completion endpoint.
    pub fn create(&self, request: ChatCompletionRequest) -> (r: Request)
        ensures
            r@ == self.0.spec_request(
                Method::Post,
                "/chat/completions"@,
                BodyView::Json(object_text(request.spec_members())),
            ),
    {
        self.0.post_json("/chat/completions", request.to_json())
    }
}

} // verus!
