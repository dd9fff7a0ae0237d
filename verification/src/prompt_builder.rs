use vstd::prelude::*;
use vstd::string::StrSliceExecFns;
use vstd::string::StringExecFns;

use crate::completion_parser::ParserKind;
use crate::log::Log;
use crate::log::LogType;

verus! {

/// The largest response size, in tokens, that one call may request.
/// The builder rejects any prompt asking for more.
pub const MAX_COMPLETION_TOKENS: u64 = 2048;

/// The engine every call of this library is addressed to.
pub open spec fn spec_engine() -> Seq<char> {
    "text-davinci-002"@
}

/// The error line the builder logs when a prompt asks for more than
/// `MAX_COMPLETION_TOKENS` tokens of output.
pub open spec fn build_error_text() -> Seq<char> {
    "Failed to build prompt: max_tokens must not exceed 2048"@
}

/// A plain text-completion request: the text is sent as the call's prompt.
/// Randomness is the sampling temperature in thousandths, so that a
/// temperature of 0.4 is carried as 400.
pub struct CompletionPrompt {
    pub text: String,
    pub max_tokens: u64,
    pub randomness_milli: u64,
    pub stop: Vec<String>,
}

impl CompletionPrompt {
    /// A new text-completion prompt with the given sampling parameters.
    pub fn new(text: String, max_tokens: u64, randomness_milli: u64, stop: Vec<String>) -> (
        prompt: CompletionPrompt)
        ensures
            prompt.text == text,
            prompt.max_tokens == max_tokens,
            prompt.randomness_milli == randomness_milli,
            prompt.stop == stop,
    {
        CompletionPrompt { text, max_tokens, randomness_milli, stop }
    }
}

/// How many output tokens a translation request asks for: half the number
/// of characters of the source text, and never more than the allowed bound.
pub open spec fn spec_translation_max_tokens(text: Seq<char>) -> u64 {
    if text.len() / 2 > 2048 {
        2048u64
    } else {
        (text.len() / 2) as u64
    }
}

/// A translation request: the call's text embeds the source text and the
/// target language, and the output bound is derived from the text's length.
pub struct TranslationPrompt {
    pub text: String,
    pub language: String,
    pub max_tokens: u64,
}

impl TranslationPrompt {
    /// A new translation prompt. The output bound is a rough estimate,
    /// half a token per character, capped at the allowed maximum.
    pub fn new(text: String, language: String) -> (prompt: TranslationPrompt)
        ensures
            prompt.text == text,
            prompt.language == language,
            prompt.max_tokens == spec_translation_max_tokens(text@),
    {
        let chars: usize = text.as_str().unicode_len();
        let half: usize = chars / 2;
        let max_tokens: u64 = if half > 2048 {
            2048
        } else {
            half as u64
        };
        TranslationPrompt { text, language, max_tokens }
    }
}

/// One request's content together with its response-decoding identity.
pub enum Prompt {
    Completion(CompletionPrompt),
    Translation(TranslationPrompt),
}

impl Prompt {
    /// The decoder kind that must be applied to this prompt's response.
    pub open spec fn parser_kind(&self) -> ParserKind {
        match self {
            Prompt::Completion(_) => ParserKind::Completion,
            Prompt::Translation(_) => ParserKind::Translation,
        }
    }

    /// The output bound this prompt asks for.
    pub open spec fn spec_max_tokens(&self) -> u64 {
        match self {
            Prompt::Completion(c) => c.max_tokens,
            Prompt::Translation(t) => t.max_tokens,
        }
    }

    /// The text the remote call is given. A completion prompt passes its
    /// text through; a translation prompt synthesizes an instruction that
    /// embeds the source text and the target language.
    pub open spec fn spec_call_text(&self) -> Seq<char> {
        match self {
            Prompt::Completion(c) => c.text@,
            Prompt::Translation(t) => "Please translate the following text into "@ + t.language@
                + ": "@ + t.text@ + " Translation:"@,
        }
    }

    /// The sampling temperature of the call, in thousandths. A translation
    /// always samples at 0.4.
    pub open spec fn spec_temperature_milli(&self) -> u64 {
        match self {
            Prompt::Completion(c) => c.randomness_milli,
            Prompt::Translation(_) => 400u64,
        }
    }

    /// The stop sequences of the call; a translation sets none.
    pub open spec fn spec_stop(&self) -> Seq<Seq<char>> {
        match self {
            Prompt::Completion(c) => c.stop@.map_values(|s: String| s@),
            Prompt::Translation(_) => Seq::<Seq<char>>::empty(),
        }
    }

    /// Whether call parameters can be assembled from this prompt: the
    /// requested output size must not exceed the allowed bound.
    pub open spec fn valid(&self) -> bool {
        self.spec_max_tokens() <= MAX_COMPLETION_TOKENS
    }
}

/// The mathematical content of validated call parameters.
#[verifier::ext_equal]
pub ghost struct CallParamsView {
    pub engine: Seq<char>,
    pub prompt: Seq<char>,
    pub max_tokens: u64,
    pub temperature_milli: u64,
    pub stop: Seq<Seq<char>>,
}

/// The validated, service-ready form of a prompt: only the builder
/// produces one. The temperature is carried in thousandths; the host
/// scales it to the fraction the service expects when it makes the call.
pub struct CallParams {
    pub engine: String,
    pub prompt: String,
    pub max_tokens: u64,
    pub temperature_milli: u64,
    pub stop: Vec<String>,
}

impl View for CallParams {
    type V = CallParamsView;

    open spec fn view(&self) -> CallParamsView {
        CallParamsView {
            engine: self.engine@,
            prompt: self.prompt@,
            max_tokens: self.max_tokens,
            temperature_milli: self.temperature_milli,
            stop: self.stop@.map_values(|s: String| s@),
        }
    }
}

/// The call parameters a valid prompt builds to.
pub open spec fn spec_build(prompt: Prompt) -> CallParamsView {
    CallParamsView {
        engine: spec_engine(),
        prompt: prompt.spec_call_text(),
        max_tokens: prompt.spec_max_tokens(),
        temperature_milli: prompt.spec_temperature_milli(),
        stop: prompt.spec_stop(),
    }
}

/// Converts prompts into call parameters, reporting any failure to the log.
pub struct PromptBuilder {}

impl PromptBuilder {
    /// A new prompt builder.
    pub fn new() -> (builder: PromptBuilder) {
        PromptBuilder {  }
    }

    /// Assembles call parameters from a prompt. A prompt asking for more
    /// output than the allowed bound yields no parameters and writes
    /// exactly one error line to the log; a valid prompt yields the
    /// parameters and leaves the log untouched.
    pub fn build_prompt(&self, log: &mut Log, prompt: &Prompt) -> (params: Option<CallParams>)
        requires
            old(log).spec_version() < u64::MAX,
        ensures
            prompt.valid() ==> (params matches Some(p) && p@ == spec_build(*prompt) && *final(log)
                == *old(log)),
            !prompt.valid() ==> params is None && final(log)@ == old(log)@.push(
                (LogType::Error, build_error_text()),
            ) && final(log).spec_version() == old(log).spec_version() + 1,
    {
        let max_tokens: u64 = match prompt {
            Prompt::Completion(c) => c.max_tokens,
            Prompt::Translation(t) => t.max_tokens,
        };
        if max_tokens > MAX_COMPLETION_TOKENS {
            log.write_error(
                String::from_str("Failed to build prompt: max_tokens must not exceed 2048"),
            );
            return None;
        }
        let call_text: String = match prompt {
            Prompt::Completion(c) => c.text.clone(),
            Prompt::Translation(t) => {
                let mut s = String::from_str("Please translate the following text into ");
                s.append(t.language.as_str());
                s.append(": ");
                s.append(t.text.as_str());
                s.append(" Translation:");
                s
            },
        };
        let temperature_milli: u64 = match prompt {
            Prompt::Completion(c) => c.randomness_milli,
            Prompt::Translation(_) => 400,
        };
        let stop: Vec<String> = match prompt {
            Prompt::Completion(c) => clone_strings(&c.stop),
            Prompt::Translation(_) => Vec::new(),
        };
        let params = CallParams {
            engine: String::from_str("text-davinci-002"),
            prompt: call_text,
            max_tokens,
            temperature_milli,
            stop,
        };
        proof {
            assert(params@ =~= spec_build(*prompt));
        }
        Some(params)
    }
}

/// A copy of a list of strings, text for text.
fn clone_strings(strings: &Vec<String>) -> (copies: Vec<String>)
    ensures
        copies@.map_values(|s: String| s@) == strings@.map_values(|s: String| s@),
{
    let mut out: Vec<String> = Vec::new();
    let mut idx: usize = 0;
    while idx < strings.len()
        invariant
            idx <= strings@.len(),
            out@.len() == idx,
            forall|i: int| 0 <= i < idx ==> (#[trigger] out@[i])@ == strings@[i]@,
        decreases strings@.len() - idx,
    {
        out.push(strings[idx].clone());
        idx = idx + 1;
    }
    proof {
        assert(out@.map_values(|s: String| s@) =~= strings@.map_values(|s: String| s@));
    }
    out
}

} // verus!
