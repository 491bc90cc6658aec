use vstd::prelude::*;

use crate::sampling::{
    bias_map, bias_table, bias_view, copy_opt_bias, copy_opt_text, copy_opt_texts, opt_texts_view, or_default, Real,
    ONE_BITS, ZERO_BITS,
};

verus! {

/// Who speaks a message of a conversation.
#[derive(Debug, Clone, Copy, PartialEq, Eq, Structural)]
pub enum ChatRole {
    System,
    User,
    Assistant,
}

impl ChatRole {
    /// The variant's name, as debug output writes it.
    pub open spec fn spec_name(self) -> Seq<char> {
        match self {
            ChatRole::System => "System"@,
            ChatRole::User => "User"@,
            ChatRole::Assistant => "Assistant"@,
        }
    }

    /// The variant's name: `"System"`, `"User"` or `"Assistant"`.
    pub fn name(&self) -> (r: &'static str)
        ensures
            r@ == self.spec_name(),
    {
        match self {
            ChatRole::System => "System",
            ChatRole::User => "User",
            ChatRole::Assistant => "Assistant",
        }
    }
}

/// One message of a conversation: who speaks, and what is said.
#[derive(Debug, Clone)]
pub struct ChatFormat {
    pub role: ChatRole,
    pub content: String,
}

impl View for ChatFormat {
    type V = (ChatRole, Seq<char>);

    open spec fn view(&self) -> (ChatRole, Seq<char>) {
        (self.role, self.content@)
    }
}

/// The text that describes a message.
pub open spec fn message_text(m: (ChatRole, Seq<char>)) -> Seq<char> {
    "role: "@ + m.0.spec_name() + ", content: "@ + m.1
}

impl ChatFormat {
    /// The message `content` spoken by `role`.
    pub fn new(role: ChatRole, content: String) -> (r: ChatFormat)
        ensures
            r.role == role,
            r.content == content,
    {
        ChatFormat { role, content }
    }

    /// A line with the message's role and content.
    pub fn to_text(&self) -> (r: String)
        ensures
            r@ == message_text(self@),
    {
        let mut r = String::from_str("role: ");
        r.append(self.role.name());
        r.append(", content: ");
        r.append(self.content.as_str());
        r
    }
}

impl PartialEq for ChatFormat {
    fn eq(&self, other: &ChatFormat) -> (r: bool) {
        self.role == other.role && self.content == other.content
    }
}

impl vstd::std_specs::cmp::PartialEqSpecImpl for ChatFormat {
    open spec fn obeys_eq_spec() -> bool {
        true
    }

    open spec fn eq_spec(&self, other: &ChatFormat) -> bool {
        self@ == other@
    }
}

/// The views of a list of messages.
pub open spec fn messages_view(v: Seq<ChatFormat>) -> Seq<(ChatRole, Seq<char>)> {
    v.map_values(|m: ChatFormat| m@)
}

/// The views of a list of (role, content) pairs.
pub open spec fn pairs_view(v: Seq<(ChatRole, String)>) -> Seq<(ChatRole, Seq<char>)> {
    v.map_values(|p: (ChatRole, String)| (p.0, p.1@))
}

/// A copy of a list of messages.
pub fn copy_messages(v: &Vec<ChatFormat>) -> (r: Vec<ChatFormat>)
    ensures
        messages_view(r@) == messages_view(v@),
{
    let mut r: Vec<ChatFormat> = Vec::new();
    let mut i: usize = 0;
    while i < v.len()
        invariant
            i <= v@.len(),
            messages_view(r@) =~= messages_view(v@).subrange(0, i as int),
        decreases v@.len() - i,
    {
        let ghost before = r@;
        let m = ChatFormat::new(v[i].role, v[i].content.clone());
        r.push(m);
        assert(messages_view(r@) =~= messages_view(before).push(v@[i as int]@));
        i = i + 1;
    }
    assert(messages_view(v@).subrange(0, v@.len() as int) =~= messages_view(v@));
    r
}

/// A copy of an optional list of messages.
pub fn copy_opt_messages(o: &Option<Vec<ChatFormat>>) -> (r: Option<Vec<ChatFormat>>)
    ensures
        r is Some <==> o is Some,
        r is Some ==> messages_view(r->Some_0@) == messages_view(o->Some_0@),
{
    match o {
        Some(v) => Some(copy_messages(v)),
        None => None,
    }
}

/// A chat completion response.
#[derive(Debug, Clone)]
pub struct ChatAnswer {
    /// Completion unique identifier
    pub id: String,
    /// Unix timestamp when the completion was generated
    pub created: u64,
    /// List of answers generated by the model
    pub choices: Vec<ChatChoice>,
}

impl ChatAnswer {
    /// The first choice's message, which is how an answer reads.
    pub fn to_text(&self) -> (r: String)
        requires
            self.choices@.len() > 0,
        ensures
            r@ == message_text(self.choices@[0].message@),
    {
        self.choices[0].to_text()
    }
}

/// A single chat answer
#[derive(Debug, Clone)]
pub struct ChatChoice {
    /// The message that the model answered with.
    pub message: ChatFormat,
    /// Position of this choice among the answer's choices.
    pub index: u64,
    /// Why the answer ended when it did
    pub finish_reason: String,
}

impl ChatChoice {
    /// A line with the message's role and content.
    pub fn to_text(&self) -> (r: String)
        ensures
            r@ == message_text(self.message@),
    {
        self.message.to_text()
    }
}

/// What a chat request asks for, with every field given a value.
pub struct ChatSettings {
    pub model: Seq<char>,
    pub messages: Seq<(ChatRole, Seq<char>)>,
    pub max_tokens: Option<u64>,
    pub temperature: Real,
    pub top_p: Real,
    pub n: u64,
    pub stop: Option<Seq<Seq<char>>>,
    pub presence_penalty: Real,
    pub frequency_penalty: Real,
    /// Each token with the bias the service is sent for it.
    pub logit_bias: Map<Seq<char>, Real>,
}

/// The settings of a chat request for which nothing was set.
pub open spec fn chat_defaults() -> ChatSettings {
    ChatSettings {
        model: "gpt-3.5-turbo"@,
        messages: Seq::empty(),
        max_tokens: None,
        temperature: Real { bits: ONE_BITS },
        top_p: Real { bits: ONE_BITS },
        n: 1,
        stop: None,
        presence_penalty: Real { bits: ZERO_BITS },
        frequency_penalty: Real { bits: ZERO_BITS },
        logit_bias: Map::empty(),
    }
}

/// The settings of a request made from a conversation alone: those messages,
/// in that order, and every other field at its default.
pub open spec fn conversation_settings(messages: Seq<(ChatRole, Seq<char>)>) -> ChatSettings {
    ChatSettings { messages: messages, ..chat_defaults() }
}

/// Converting a list of (role, content) pairs gives the same arguments, field
/// for field, as a builder on which only the same messages were set:
/// [`ChatArgs::from_pairs`] yields `conversation_settings` of the pairs, and
/// `builder().messages(..).build()` yields the defaults with the messages
/// replaced.
pub proof fn pairs_conversion_matches_builder(pairs: Seq<(ChatRole, String)>, messages: Seq<ChatFormat>)
    requires
        messages_view(messages) == pairs_view(pairs),
    ensures
        conversation_settings(pairs_view(pairs)) == (ChatSettings {
            messages: messages_view(messages),
            ..chat_defaults()
        }),
{
}

/// The arguments of a chat request. Built once, by a [`ChatArgsBuilder`] or
/// from a list of (role, content) pairs, and not changed after.
#[derive(Debug, Clone)]
pub struct ChatArgs {
    model: String,
    messages: Vec<ChatFormat>,
    max_tokens: Option<u64>,
    temperature: Real,
    top_p: Real,
    n: u64,
    stop: Option<Vec<String>>,
    presence_penalty: Real,
    frequency_penalty: Real,
    logit_bias: Vec<(String, Real)>,
}

impl View for ChatArgs {
    type V = ChatSettings;

    closed spec fn view(&self) -> ChatSettings {
        ChatSettings {
            model: self.model@,
            messages: messages_view(self.messages@),
            max_tokens: self.max_tokens,
            temperature: self.temperature,
            top_p: self.top_p,
            n: self.n,
            stop: opt_texts_view(self.stop),
            presence_penalty: self.presence_penalty,
            frequency_penalty: self.frequency_penalty,
            logit_bias: bias_map(self.logit_bias@),
        }
    }
}

/// Why a builder could not produce its arguments. Every field of a chat
/// request has a default, so building never fails.
#[derive(Debug, Clone)]
pub enum ChatArgsBuilderError {
    /// A field that must be set was not.
    UninitializedField(String),
    /// The fields set do not form valid arguments.
    ValidationError(String),
}

/// Gathers the fields of a [`ChatArgs`] one setter at a time. A field that is
/// never set takes its default; no range is checked here.
#[derive(Debug, Clone)]
pub struct ChatArgsBuilder {
    model: Option<String>,
    messages: Option<Vec<ChatFormat>>,
    max_tokens: Option<u64>,
    temperature: Option<Real>,
    top_p: Option<Real>,
    n: Option<u64>,
    stop: Option<Vec<String>>,
    presence_penalty: Option<Real>,
    frequency_penalty: Option<Real>,
    logit_bias: Option<Vec<(String, Real)>>,
}

impl View for ChatArgsBuilder {
    /// The settings that the builder would build now.
    type V = ChatSettings;

    closed spec fn view(&self) -> ChatSettings {
        let d = chat_defaults();
        ChatSettings {
            model: match self.model {
                Some(s) => s@,
                None => d.model,
            },
            messages: match self.messages {
                Some(v) => messages_view(v@),
                None => d.messages,
            },
            max_tokens: self.max_tokens,
            temperature: or_default(self.temperature, d.temperature),
            top_p: or_default(self.top_p, d.top_p),
            n: or_default(self.n, d.n),
            stop: opt_texts_view(self.stop),
            presence_penalty: or_default(self.presence_penalty, d.presence_penalty),
            frequency_penalty: or_default(self.frequency_penalty, d.frequency_penalty),
            logit_bias: match self.logit_bias {
                Some(v) => bias_map(v@),
                None => d.logit_bias,
            },
        }
    }
}

impl ChatArgs {
    /// A builder with nothing set.
    #[must_use]
    pub fn builder() -> (r: ChatArgsBuilder)
        ensures
            r@ == chat_defaults(),
    {
        ChatArgsBuilder::new()
    }

    /// The arguments of a request for the conversation `pairs`, one message
    /// per (role, content) pair in the same order, with every other field at
    /// its default.
    pub fn from_pairs(pairs: Vec<(ChatRole, String)>) -> (r: ChatArgs)
        ensures
            r@ == conversation_settings(pairs_view(pairs@)),
    {
        let mut messages: Vec<ChatFormat> = Vec::new();
        let mut i: usize = 0;
        while i < pairs.len()
            invariant
                i <= pairs@.len(),
                messages_view(messages@) =~= pairs_view(pairs@).subrange(0, i as int),
            decreases pairs@.len() - i,
        {
            let ghost old_messages = messages;
            let message = ChatFormat::new(pairs[i].0, pairs[i].1.clone());
            assert(message@ == pairs_view(pairs@)[i as int]);
            messages.push(message);
            assert(messages_view(messages@) =~= messages_view(old_messages@).push(message@));
            i = i + 1;
        }
        assert(pairs_view(pairs@).subrange(0, pairs@.len() as int) =~= pairs_view(pairs@));
        let r = ChatArgs {
            model: String::from_str("gpt-3.5-turbo"),
            messages,
            max_tokens: None,
            temperature: Real::one(),
            top_p: Real::one(),
            n: 1,
            stop: None,
            presence_penalty: Real::zero(),
            frequency_penalty: Real::zero(),
            logit_bias: Vec::new(),
        };
        assert(bias_view(r.logit_bias@) =~= Seq::empty());
        assert(bias_map(r.logit_bias@) == bias_table(Seq::empty()));
        r
    }
}

impl ChatArgs {
    /// The request's `model`.
    pub fn model(&self) -> (r: &String)
        ensures
            r@ == self@.model,
    {
        &self.model
    }

    /// The request's `messages`.
    pub fn messages(&self) -> (r: &Vec<ChatFormat>)
        ensures
            messages_view(r@) == self@.messages,
    {
        &self.messages
    }

    /// The request's `max_tokens`.
    pub fn max_tokens(&self) -> (r: Option<u64>)
        ensures
            r == self@.max_tokens,
    {
        self.max_tokens
    }

    /// The request's `temperature`.
    pub fn temperature(&self) -> (r: Real)
        ensures
            r == self@.temperature,
    {
        self.temperature
    }

    /// The request's `top_p`.
    pub fn top_p(&self) -> (r: Real)
        ensures
            r == self@.top_p,
    {
        self.top_p
    }

    /// The request's `n`.
    pub fn n(&self) -> (r: u64)
        ensures
            r == self@.n,
    {
        self.n
    }

    /// The request's `stop`.
    pub fn stop(&self) -> (r: &Option<Vec<String>>)
        ensures
            opt_texts_view(*r) == self@.stop,
    {
        &self.stop
    }

    /// The request's `presence_penalty`.
    pub fn presence_penalty(&self) -> (r: Real)
        ensures
            r == self@.presence_penalty,
    {
        self.presence_penalty
    }

    /// The request's `frequency_penalty`.
    pub fn frequency_penalty(&self) -> (r: Real)
        ensures
            r == self@.frequency_penalty,
    {
        self.frequency_penalty
    }

    /// The request's `logit_bias`.
    pub fn logit_bias(&self) -> (r: &Vec<(String, Real)>)
        ensures
            bias_map(r@) == self@.logit_bias,
    {
        &self.logit_bias
    }
}

impl ChatArgsBuilder {
    /// A builder with nothing set.
    pub fn new() -> (r: ChatArgsBuilder)
        ensures
            r@ == chat_defaults(),
    {
        ChatArgsBuilder {
            model: None,
            messages: None,
            max_tokens: None,
            temperature: None,
            top_p: None,
            n: None,
            stop: None,
            presence_penalty: None,
            frequency_penalty: None,
            logit_bias: None,
        }
    }

    /// The id of the model to use for this request.
    pub fn model(&self, value: &str) -> (r: ChatArgsBuilder)
        ensures
            r@ == (ChatSettings { model: value@, ..self@ }),
    {
        ChatArgsBuilder { model: Some(String::from_str(value)), ..self.duplicate() }
    }

    /// The conversation to answer, in order.
    pub fn messages(&self, value: Vec<ChatFormat>) -> (r: ChatArgsBuilder)
        ensures
            r@ == (ChatSettings { messages: messages_view(value@), ..self@ }),
    {
        ChatArgsBuilder { messages: Some(value), ..self.duplicate() }
    }

    /// Maximum number of tokens in the answer.
    pub fn max_tokens(&self, value: u64) -> (r: ChatArgsBuilder)
        ensures
            r@ == (ChatSettings { max_tokens: Some(value), ..self@ }),
    {
        ChatArgsBuilder { max_tokens: Some(value), ..self.duplicate() }
    }

    /// What sampling temperature to use: higher values take more risks.
    pub fn temperature(&self, value: Real) -> (r: ChatArgsBuilder)
        ensures
            r@ == (ChatSettings { temperature: value, ..self@ }),
    {
        ChatArgsBuilder { temperature: Some(value), ..self.duplicate() }
    }

    /// The probability mass of the tokens that sampling considers.
    pub fn top_p(&self, value: Real) -> (r: ChatArgsBuilder)
        ensures
            r@ == (ChatSettings { top_p: value, ..self@ }),
    {
        ChatArgsBuilder { top_p: Some(value), ..self.duplicate() }
    }

    /// How many answers to generate.
    pub fn n(&self, value: u64) -> (r: ChatArgsBuilder)
        ensures
            r@ == (ChatSettings { n: value, ..self@ }),
    {
        ChatArgsBuilder { n: Some(value), ..self.duplicate() }
    }

    /// Sequences at which the service stops generating.
    pub fn stop(&self, value: Vec<String>) -> (r: ChatArgsBuilder)
        ensures
            r@ == (ChatSettings { stop: opt_texts_view(Some(value)), ..self@ }),
    {
        ChatArgsBuilder { stop: Some(value), ..self.duplicate() }
    }

    /// Penalty on tokens that already appear in the text.
    pub fn presence_penalty(&self, value: Real) -> (r: ChatArgsBuilder)
        ensures
            r@ == (ChatSettings { presence_penalty: value, ..self@ }),
    {
        ChatArgsBuilder { presence_penalty: Some(value), ..self.duplicate() }
    }

    /// Penalty on tokens by how often they already appear in the text.
    pub fn frequency_penalty(&self, value: Real) -> (r: ChatArgsBuilder)
        ensures
            r@ == (ChatSettings { frequency_penalty: value, ..self@ }),
    {
        ChatArgsBuilder { frequency_penalty: Some(value), ..self.duplicate() }
    }

    /// Per-token adjustments to the sampling likelihood.
    pub fn logit_bias(self, value: Vec<(String, Real)>) -> (r: ChatArgsBuilder)
        ensures
            r@ == (ChatSettings { logit_bias: bias_map(value@), ..self@ }),
    {
        ChatArgsBuilder { logit_bias: Some(value), ..self.duplicate() }
    }

    /// The arguments gathered so far, each field not set at its default.
    /// The builder stays as it was.
    pub fn build(&self) -> (r: Result<ChatArgs, ChatArgsBuilderError>)
        ensures
            r matches Ok(a) && a@ == self@,
    {
        self.duplicate().finish()
    }

    /// The arguments gathered, taking the builder's fields.
    fn finish(self) -> (r: Result<ChatArgs, ChatArgsBuilderError>)
        ensures
            r matches Ok(a) && a@ == self@,
    {
        let model = match self.model {
            Some(s) => s,
            None => String::from_str("gpt-3.5-turbo"),
        };
        let messages = match self.messages {
            Some(v) => v,
            None => {
                let v = Vec::new();
                assert(messages_view(v@) =~= Seq::empty());
                v
            },
        };
        let logit_bias = match self.logit_bias {
            Some(v) => v,
            None => {
                let v = Vec::new();
                assert(bias_view(v@) =~= Seq::empty());
                assert(bias_map(v@) == bias_table(Seq::empty()));
                v
            },
        };
        Ok(
            ChatArgs {
                model,
                messages,
                max_tokens: self.max_tokens,
                temperature: match self.temperature {
                    Some(v) => v,
                    None => Real::one(),
                },
                top_p: match self.top_p {
                    Some(v) => v,
                    None => Real::one(),
                },
                n: match self.n {
                    Some(v) => v,
                    None => 1,
                },
                stop: self.stop,
                presence_penalty: match self.presence_penalty {
                    Some(v) => v,
                    None => Real::zero(),
                },
                frequency_penalty: match self.frequency_penalty {
                    Some(v) => v,
                    None => Real::zero(),
                },
                logit_bias,
            },
        )
    }

    /// A builder with the same settings.
    fn duplicate(&self) -> (r: ChatArgsBuilder)
        ensures
            r@ == self@,
    {
        ChatArgsBuilder {
            model: copy_opt_text(&self.model),
            messages: copy_opt_messages(&self.messages),
            max_tokens: self.max_tokens,
            temperature: self.temperature,
            top_p: self.top_p,
            n: self.n,
            stop: copy_opt_texts(&self.stop),
            presence_penalty: self.presence_penalty,
            frequency_penalty: self.frequency_penalty,
            logit_bias: copy_opt_bias(&self.logit_bias),
        }
    }

}

impl Default for ChatArgsBuilder {
    fn default() -> (r: ChatArgsBuilder)
        ensures
            r@ == chat_defaults(),
    {
        ChatArgsBuilder::new()
    }
}

impl From<Vec<(ChatRole, String)>> for ChatArgs {
    /// See [`ChatArgs::from_pairs`].
    fn from(pairs: Vec<(ChatRole, String)>) -> (r: ChatArgs)
        ensures
            r@ == conversation_settings(pairs_view(pairs@)),
    {
        ChatArgs::from_pairs(pairs)
    }
}

impl vstd::std_specs::convert::FromSpecImpl<Vec<(ChatRole, String)>> for ChatArgs {
    open spec fn obeys_from_spec() -> bool {
        false
    }

    open spec fn from_spec(v: Vec<(ChatRole, String)>) -> ChatArgs {
        arbitrary()
    }
}

impl TryFrom<ChatArgsBuilder> for ChatArgs {
    type Error = ChatArgsBuilderError;

    /// See [`ChatArgsBuilder::build`].
    fn try_from(builder: ChatArgsBuilder) -> (r: Result<ChatArgs, ChatArgsBuilderError>)
        ensures
            r matches Ok(a) && a@ == builder@,
    {
        builder.build()
    }
}

impl vstd::std_specs::convert::TryFromSpecImpl<ChatArgsBuilder> for ChatArgs {
    open spec fn obeys_try_from_spec() -> bool {
        false
    }

    open spec fn try_from_spec(v: ChatArgsBuilder) -> Result<ChatArgs, ChatArgsBuilderError> {
        arbitrary()
    }
}

} // verus!
