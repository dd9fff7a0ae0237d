use vstd::prelude::*;

verus! {

/// One candidate answer inside a remote completion response.
pub struct Choice {
    pub text: String,
}

impl View for Choice {
    type V = Seq<char>;

    open spec fn view(&self) -> Seq<char> {
        self.text@
    }
}

/// The part of a remote completion response that decoding reads: the
/// ordered list of candidate answers. The host converts the service's
/// response into this value before handing it to the library.
pub struct Completion {
    pub choices: Vec<Choice>,
}

impl View for Completion {
    type V = Seq<Seq<char>>;

    open spec fn view(&self) -> Seq<Seq<char>> {
        self.choices@.map_values(|c: Choice| c@)
    }
}

/// Which prompt kind a decoder belongs to. The kind is fixed when a prompt
/// is submitted and travels with the spawned call, so the response is
/// always decoded by the strategy of the prompt that produced it.
#[derive(Clone, Copy, Debug, PartialEq, Eq, Structural)]
pub enum ParserKind {
    Completion,
    Translation,
}

/// The decoder bound to an in-flight task at submission time.
#[derive(Clone, Copy, Debug, PartialEq, Eq, Structural)]
pub struct CompletionParser {
    pub kind: ParserKind,
}

/// What decoding a response yields: the first candidate's text verbatim,
/// or nothing when the service sent no candidate at all.
pub open spec fn decode_spec(choices: Seq<Seq<char>>) -> Option<Seq<char>> {
    if choices.len() > 0 {
        Some(choices[0])
    } else {
        None
    }
}

impl CompletionParser {
    /// A decoder for the given prompt kind.
    pub fn new(kind: ParserKind) -> (parser: CompletionParser)
        ensures
            parser.kind == kind,
    {
        CompletionParser { kind }
    }

    /// Extracts the final text from a response. Every known prompt kind
    /// reads the first candidate verbatim; a response without candidates
    /// is reported as `None` rather than read out of range.
    pub fn parse(&self, completion: &Completion) -> (text: Option<String>)
        ensures
            match text {
                Some(t) => decode_spec(completion@) == Some(t@),
                None => decode_spec(completion@) is None,
            },
    {
        if completion.choices.len() == 0 {
            None
        } else {
            let choice = &completion.choices[0];
            Some(choice.text.clone())
        }
    }
}

} // verus!
