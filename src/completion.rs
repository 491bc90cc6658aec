use vstd::prelude::*;

use crate::sampling::{
    bias_map, bias_table, bias_view, copy_opt_bias, copy_opt_text, copy_opt_texts, opt_texts_view, or_default, Real,
    ONE_BITS, ZERO_BITS,
};

verus! {

/// What a completion request asks for, with every field given a value.
pub struct CompletionSettings {
    pub model: Seq<char>,
    pub prompt: Seq<char>,
    pub max_tokens: u64,
    pub temperature: Real,
    pub top_p: Real,
    pub n: u64,
    pub logprobs: Option<u64>,
    pub echo: bool,
    pub stop: Option<Seq<Seq<char>>>,
    pub presence_penalty: Real,
    pub frequency_penalty: Real,
    /// Each token with the bias the service is sent for it.
    pub logit_bias: Map<Seq<char>, Real>,
}

/// The prompt a completion starts from when none is given: the end-of-text
/// token seen during training.
pub open spec fn default_prompt() -> Seq<char> {
    "<|endoftext|>"@
}

/// The settings of a completion request for which nothing was set.
pub open spec fn completion_defaults() -> CompletionSettings {
    CompletionSettings {
        model: "text-davinci-003"@,
        prompt: default_prompt(),
        max_tokens: 16,
        temperature: Real { bits: ONE_BITS },
        top_p: Real { bits: ONE_BITS },
        n: 1,
        logprobs: None,
        echo: false,
        stop: None,
        presence_penalty: Real { bits: ZERO_BITS },
        frequency_penalty: Real { bits: ZERO_BITS },
        logit_bias: Map::empty(),
    }
}

/// The settings of a request made from a bare prompt: that prompt, and every
/// other field at its default.
pub open spec fn prompt_settings(prompt: Seq<char>) -> CompletionSettings {
    CompletionSettings { prompt: prompt, ..completion_defaults() }
}

/// Converting a bare prompt gives the same arguments, field for field, as a
/// builder on which only that prompt was set: [`CompletionArgs::from_prompt`]
/// yields `prompt_settings(prompt)`, and `builder().prompt(..).build()` yields
/// the defaults with the prompt replaced.
pub proof fn prompt_conversion_matches_builder(prompt: Seq<char>)
    ensures
        prompt_settings(prompt) == (CompletionSettings { prompt: prompt, ..completion_defaults() }),
{
}

/// The arguments of a completion request. Built once, by a
/// [`CompletionArgsBuilder`] or from a bare prompt, and not changed after.
#[derive(Debug, Clone)]
pub struct CompletionArgs {
    model: String,
    prompt: String,
    max_tokens: u64,
    temperature: Real,
    top_p: Real,
    n: u64,
    logprobs: Option<u64>,
    echo: bool,
    stop: Option<Vec<String>>,
    presence_penalty: Real,
    frequency_penalty: Real,
    logit_bias: Vec<(String, Real)>,
}

impl View for CompletionArgs {
    type V = CompletionSettings;

    closed spec fn view(&self) -> CompletionSettings {
        CompletionSettings {
            model: self.model@,
            prompt: self.prompt@,
            max_tokens: self.max_tokens,
            temperature: self.temperature,
            top_p: self.top_p,
            n: self.n,
            logprobs: self.logprobs,
            echo: self.echo,
            stop: opt_texts_view(self.stop),
            presence_penalty: self.presence_penalty,
            frequency_penalty: self.frequency_penalty,
            logit_bias: bias_map(self.logit_bias@),
        }
    }
}

/// Why a builder could not produce its arguments. Every field of a
/// completion request has a default, so building never fails.
#[derive(Debug, Clone)]
pub enum CompletionArgsBuilderError {
    /// A field that must be set was not.
    UninitializedField(String),
    /// The fields set do not form valid arguments.
    ValidationError(String),
}

/// Gathers the fields of a [`CompletionArgs`] one setter at a time. A field
/// that is never set takes its default; no range is checked here, so values
/// that the service refuses are refused by the service alone.
#[derive(Debug, Clone)]
pub struct CompletionArgsBuilder {
    model: Option<String>,
    prompt: Option<String>,
    max_tokens: Option<u64>,
    temperature: Option<Real>,
    top_p: Option<Real>,
    n: Option<u64>,
    logprobs: Option<u64>,
    echo: Option<bool>,
    stop: Option<Vec<String>>,
    presence_penalty: Option<Real>,
    frequency_penalty: Option<Real>,
    logit_bias: Option<Vec<(String, Real)>>,
}

impl View for CompletionArgsBuilder {
    /// The settings that the builder would build now.
    type V = CompletionSettings;

    closed spec fn view(&self) -> CompletionSettings {
        let d = completion_defaults();
        CompletionSettings {
            model: match self.model {
                Some(s) => s@,
                None => d.model,
            },
            prompt: match self.prompt {
                Some(s) => s@,
                None => d.prompt,
            },
            max_tokens: or_default(self.max_tokens, d.max_tokens),
            temperature: or_default(self.temperature, d.temperature),
            top_p: or_default(self.top_p, d.top_p),
            n: or_default(self.n, d.n),
            logprobs: self.logprobs,
            echo: or_default(self.echo, d.echo),
            stop: opt_texts_view(self.stop),
            presence_penalty: or_default(self.presence_penalty, d.presence_penalty),
            frequency_penalty: or_default(self.frequency_penalty, d.frequency_penalty),
            logit_bias: match self.logit_bias {
                Some(v) => bias_map(v@),
                None => d.logit_bias,
            },
        }
    }
}

impl CompletionArgs {
    /// A builder with nothing set.
    #[must_use]
    pub fn builder() -> (r: CompletionArgsBuilder)
        ensures
            r@ == completion_defaults(),
    {
        CompletionArgsBuilder::new()
    }

    /// The arguments of a request for `prompt` with every other field at its
    /// default.
    pub fn from_prompt(prompt: &str) -> (r: CompletionArgs)
        ensures
            r@ == prompt_settings(prompt@),
    {
        let r = CompletionArgs {
            model: String::from_str("text-davinci-003"),
            prompt: String::from_str(prompt),
            max_tokens: 16,
            temperature: Real::one(),
            top_p: Real::one(),
            n: 1,
            logprobs: None,
            echo: false,
            stop: None,
            presence_penalty: Real::zero(),
            frequency_penalty: Real::zero(),
            logit_bias: Vec::new(),
        };
        assert(bias_view(r.logit_bias@) =~= Seq::empty());
        assert(bias_map(r.logit_bias@) == bias_table(Seq::empty()));
        r
    }
}

impl CompletionArgs {
    /// The request's `model`.
    pub fn model(&self) -> (r: &String)
        ensures
            r@ == self@.model,
    {
        &self.model
    }

    /// The request's `prompt`.
    pub fn prompt(&self) -> (r: &String)
        ensures
            r@ == self@.prompt,
    {
        &self.prompt
    }

    /// The request's `max_tokens`.
    pub fn max_tokens(&self) -> (r: u64)
        ensures
            r == self@.max_tokens,
    {
        self.max_tokens
    }

    /// The request's `temperature`.
    pub fn temperature(&self) -> (r: Real)
        ensures
            r == self@.temperature,
    {
        self.temperature
    }

    /// The request's `top_p`.
    pub fn top_p(&self) -> (r: Real)
        ensures
            r == self@.top_p,
    {
        self.top_p
    }

    /// The request's `n`.
    pub fn n(&self) -> (r: u64)
        ensures
            r == self@.n,
    {
        self.n
    }

    /// The request's `logprobs`.
    pub fn logprobs(&self) -> (r: Option<u64>)
        ensures
            r == self@.logprobs,
    {
        self.logprobs
    }

    /// The request's `echo`.
    pub fn echo(&self) -> (r: bool)
        ensures
            r == self@.echo,
    {
        self.echo
    }

    /// The request's `stop`.
    pub fn stop(&self) -> (r: &Option<Vec<String>>)
        ensures
            opt_texts_view(*r) == self@.stop,
    {
        &self.stop
    }

    /// The request's `presence_penalty`.
    pub fn presence_penalty(&self) -> (r: Real)
        ensures
            r == self@.presence_penalty,
    {
        self.presence_penalty
    }

    /// The request's `frequency_penalty`.
    pub fn frequency_penalty(&self) -> (r: Real)
        ensures
            r == self@.frequency_penalty,
    {
        self.frequency_penalty
    }

    /// The request's `logit_bias`.
    pub fn logit_bias(&self) -> (r: &Vec<(String, Real)>)
        ensures
            bias_map(r@) == self@.logit_bias,
    {
        &self.logit_bias
    }
}

impl CompletionArgsBuilder {
    /// A builder with nothing set.
    pub fn new() -> (r: CompletionArgsBuilder)
        ensures
            r@ == completion_defaults(),
    {
        CompletionArgsBuilder {
            model: None,
            prompt: None,
            max_tokens: None,
            temperature: None,
            top_p: None,
            n: None,
            logprobs: None,
            echo: None,
            stop: None,
            presence_penalty: None,
            frequency_penalty: None,
            logit_bias: None,
        }
    }

    /// The id of the model to use for this request.
    pub fn model(&self, value: &str) -> (r: CompletionArgsBuilder)
        ensures
            r@ == (CompletionSettings { model: value@, ..self@ }),
    {
        CompletionArgsBuilder { model: Some(String::from_str(value)), ..self.duplicate() }
    }

    /// The prompt to complete from.
    pub fn prompt(&self, value: &str) -> (r: CompletionArgsBuilder)
        ensures
            r@ == (CompletionSettings { prompt: value@, ..self@ }),
    {
        CompletionArgsBuilder { prompt: Some(String::from_str(value)), ..self.duplicate() }
    }

    /// Maximum number of tokens to complete.
    pub fn max_tokens(&self, value: u64) -> (r: CompletionArgsBuilder)
        ensures
            r@ == (CompletionSettings { max_tokens: value, ..self@ }),
    {
        CompletionArgsBuilder { max_tokens: Some(value), ..self.duplicate() }
    }

    /// What sampling temperature to use: higher values take more risks.
    pub fn temperature(&self, value: Real) -> (r: CompletionArgsBuilder)
        ensures
            r@ == (CompletionSettings { temperature: value, ..self@ }),
    {
        CompletionArgsBuilder { temperature: Some(value), ..self.duplicate() }
    }

    /// The probability mass of the tokens that sampling considers.
    pub fn top_p(&self, value: Real) -> (r: CompletionArgsBuilder)
        ensures
            r@ == (CompletionSettings { top_p: value, ..self@ }),
    {
        CompletionArgsBuilder { top_p: Some(value), ..self.duplicate() }
    }

    /// How many completions to generate.
    pub fn n(&self, value: u64) -> (r: CompletionArgsBuilder)
        ensures
            r@ == (CompletionSettings { n: value, ..self@ }),
    {
        CompletionArgsBuilder { n: Some(value), ..self.duplicate() }
    }

    /// Ask for the log probabilities of this many most likely tokens.
    pub fn logprobs(&self, value: u64) -> (r: CompletionArgsBuilder)
        ensures
            r@ == (CompletionSettings { logprobs: Some(value), ..self@ }),
    {
        CompletionArgsBuilder { logprobs: Some(value), ..self.duplicate() }
    }

    /// Whether the prompt is echoed in front of the completion.
    pub fn echo(&self, value: bool) -> (r: CompletionArgsBuilder)
        ensures
            r@ == (CompletionSettings { echo: value, ..self@ }),
    {
        CompletionArgsBuilder { echo: Some(value), ..self.duplicate() }
    }

    /// Sequences at which the service stops generating.
    pub fn stop(&self, value: Vec<String>) -> (r: CompletionArgsBuilder)
        ensures
            r@ == (CompletionSettings { stop: opt_texts_view(Some(value)), ..self@ }),
    {
        CompletionArgsBuilder { stop: Some(value), ..self.duplicate() }
    }

    /// Penalty on tokens that already appear in the text.
    pub fn presence_penalty(&self, value: Real) -> (r: CompletionArgsBuilder)
        ensures
            r@ == (CompletionSettings { presence_penalty: value, ..self@ }),
    {
        CompletionArgsBuilder { presence_penalty: Some(value), ..self.duplicate() }
    }

    /// Penalty on tokens by how often they already appear in the text.
    pub fn frequency_penalty(&self, value: Real) -> (r: CompletionArgsBuilder)
        ensures
            r@ == (CompletionSettings { frequency_penalty: value, ..self@ }),
    {
        CompletionArgsBuilder { frequency_penalty: Some(value), ..self.duplicate() }
    }

    /// Per-token adjustments to the sampling likelihood.
    pub fn logit_bias(self, value: Vec<(String, Real)>) -> (r: CompletionArgsBuilder)
        ensures
            r@ == (CompletionSettings { logit_bias: bias_map(value@), ..self@ }),
    {
        CompletionArgsBuilder { logit_bias: Some(value), ..self.duplicate() }
    }

    /// The arguments gathered so far, each field not set at its default.
    /// The builder stays as it was.
    pub fn build(&self) -> (r: Result<CompletionArgs, CompletionArgsBuilderError>)
        ensures
            r matches Ok(a) && a@ == self@,
    {
        self.duplicate().finish()
    }

    /// The arguments gathered, taking the builder's fields.
    fn finish(self) -> (r: Result<CompletionArgs, CompletionArgsBuilderError>)
        ensures
            r matches Ok(a) && a@ == self@,
    {
        let model = match self.model {
            Some(s) => s,
            None => String::from_str("text-davinci-003"),
        };
        let prompt = match self.prompt {
            Some(s) => s,
            None => String::from_str("<|endoftext|>"),
        };
        let logit_bias = match self.logit_bias {
            Some(v) => v,
            None => {
                let v = Vec::new();
                assert(bias_view(v@) =~= Seq::empty());
                assert(bias_map(v@) == bias_table(Seq::empty()));
                v
            },
        };
        Ok(
            CompletionArgs {
                model,
                prompt,
                max_tokens: match self.max_tokens {
                    Some(v) => v,
                    None => 16,
                },
                temperature: match self.temperature {
                    Some(v) => v,
                    None => Real::one(),
                },
                top_p: match self.top_p {
                    Some(v) => v,
                    None => Real::one(),
                },
                n: match self.n {
                    Some(v) => v,
                    None => 1,
                },
                logprobs: self.logprobs,
                echo: match self.echo {
                    Some(v) => v,
                    None => false,
                },
                stop: self.stop,
                presence_penalty: match self.presence_penalty {
                    Some(v) => v,
                    None => Real::zero(),
                },
                frequency_penalty: match self.frequency_penalty {
                    Some(v) => v,
                    None => Real::zero(),
                },
                logit_bias,
            },
        )
    }

    /// A builder with the same settings.
    fn duplicate(&self) -> (r: CompletionArgsBuilder)
        ensures
            r@ == self@,
    {
        CompletionArgsBuilder {
            model: copy_opt_text(&self.model),
            prompt: copy_opt_text(&self.prompt),
            max_tokens: self.max_tokens,
            temperature: self.temperature,
            top_p: self.top_p,
            n: self.n,
            logprobs: self.logprobs,
            echo: self.echo,
            stop: copy_opt_texts(&self.stop),
            presence_penalty: self.presence_penalty,
            frequency_penalty: self.frequency_penalty,
            logit_bias: copy_opt_bias(&self.logit_bias),
        }
    }

}

impl Default for CompletionArgsBuilder {
    fn default() -> (r: CompletionArgsBuilder)
        ensures
            r@ == completion_defaults(),
    {
        CompletionArgsBuilder::new()
    }
}

impl<'a> From<&'a str> for CompletionArgs {
    /// See [`CompletionArgs::from_prompt`].
    fn from(prompt: &'a str) -> (r: CompletionArgs)
        ensures
            r@ == prompt_settings(prompt@),
    {
        CompletionArgs::from_prompt(prompt)
    }
}

impl<'a> vstd::std_specs::convert::FromSpecImpl<&'a str> for CompletionArgs {
    open spec fn obeys_from_spec() -> bool {
        false
    }

    open spec fn from_spec(v: &'a str) -> CompletionArgs {
        arbitrary()
    }
}

impl TryFrom<CompletionArgsBuilder> for CompletionArgs {
    type Error = CompletionArgsBuilderError;

    /// See [`CompletionArgsBuilder::build`].
    fn try_from(builder: CompletionArgsBuilder) -> (r: Result<CompletionArgs, CompletionArgsBuilderError>)
        ensures
            r matches Ok(a) && a@ == builder@,
    {
        builder.build()
    }
}

impl vstd::std_specs::convert::TryFromSpecImpl<CompletionArgsBuilder> for CompletionArgs {
    open spec fn obeys_try_from_spec() -> bool {
        false
    }

    open spec fn try_from_spec(v: CompletionArgsBuilder) -> Result<CompletionArgs, CompletionArgsBuilderError> {
        arbitrary()
    }
}

} // verus!
