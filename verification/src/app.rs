use vstd::prelude::*;
use vstd::string::StringExecFns;

use crate::brain::Brain;
use crate::brain::BrainReceiver;
use crate::brain::ServiceError;
use crate::brain::SlotOp;
use crate::completion_parser::Completion;
use crate::completion_parser::CompletionParser;
use crate::completion_parser::ParserKind;
use crate::completion_parser::decode_spec;
use crate::log::Log;
use crate::log::LogType;
use crate::prompt_builder::Prompt;
use crate::prompt_builder::TranslationPrompt;
use crate::prompt_builder::spec_build;
use crate::prompt_builder::spec_translation_max_tokens;

verus! {

/// The error line a drained response without any candidate produces.
pub open spec fn empty_completion_text() -> Seq<char> {
    "Completion contained no choices"@
}

/// The line one drained outcome adds to the log: the decoded text as a
/// story line; a service failure, or a response without any candidate,
/// as an error line.
pub open spec fn drained_line(receiver: BrainReceiver) -> (LogType, Seq<char>)
    recommends
        receiver.is_finished(),
{
    match receiver.task_outcome() {
        Ok(completion) => match decode_spec(completion@) {
            Some(text) => (LogType::Story, text),
            None => (LogType::Error, empty_completion_text()),
        },
        Err(failure) => (LogType::Error, failure.message@),
    }
}

/// The host-facing state: the coordinator, the log the host displays, and
/// the two text fields the host binds to its input widgets.
pub struct App {
    pub brain: Brain,
    pub log: Log,
    pub input: String,
    pub language: String,
}

impl App {
    /// The state of the coordinator's completion receiver.
    pub open spec fn spec_receiver(&self) -> BrainReceiver {
        self.brain.spec_receiver()
    }

    /// The translation prompt one `submit_input` call wraps the current
    /// input text and target language into.
    pub open spec fn submitted_prompt(self) -> Prompt {
        Prompt::Translation(
            TranslationPrompt {
                text: self.input,
                language: self.language,
                max_tokens: spec_translation_max_tokens(self.input@),
            },
        )
    }

    /// A fresh application: idle coordinator, empty log, empty fields.
    pub fn new() -> (app: App)
        ensures
            app.spec_receiver().is_empty(),
            app.log@ == Seq::<(LogType, Seq<char>)>::empty(),
            app.log.spec_version() == 0,
            app.input@ == Seq::<char>::empty(),
            app.language@ == Seq::<char>::empty(),
    {
        App { brain: Brain::new(), log: Log::new(), input: String::new(), language: String::new() }
    }

    /// Read access to the completion receiver, for the polling host.
    pub fn brain_receiver(&self) -> (receiver: &BrainReceiver)
        ensures
            *receiver == self.spec_receiver(),
    {
        self.brain.brain_receiver()
    }

    /// The submission entry point the host calls: echoes the input text to
    /// the log, wraps it with the target language into a translation
    /// prompt, and submits it. On acceptance the input field is cleared,
    /// so the host's widget empties; a busy rejection leaves it intact.
    pub fn submit_input(&mut self) -> (accepted: bool)
        requires
            old(self).log.spec_version() + 1 < u64::MAX,
        ensures
            accepted <==> !old(self).spec_receiver().is_in_flight(),
            final(self).language == old(self).language,
            final(self).log@ == old(self).log@.push((LogType::Input, old(self).input@)),
            final(self).log.spec_version() == old(self).log.spec_version() + 1,
            !accepted ==> (final(self).spec_receiver() == old(self).spec_receiver()
                && final(self).input == old(self).input),
            accepted ==> (final(self).input@ == Seq::<char>::empty()
                && final(self).spec_receiver().is_in_flight()
                && final(self).spec_receiver().task_parser() == (CompletionParser {
                kind: ParserKind::Translation,
            }) && final(self).spec_receiver().task_params() == spec_build(
                old(self).submitted_prompt(),
            )),
    {
        let input = self.input.clone();
        self.log.write_input(input.clone());
        let prompt = Prompt::Translation(TranslationPrompt::new(input, self.language.clone()));
        proof {
            assert(spec_build(prompt) =~= spec_build(old(self).submitted_prompt()));
        }
        if self.brain.submit_prompt(&mut self.log, &prompt) {
            self.input = String::new();
            true
        } else {
            false
        }
    }

    /// Hands the coordinator the outcome its spawned call finished with.
    /// The host calls this exactly once per remote call, when it completes.
    pub fn resolve_completion(&mut self, outcome: Result<Completion, ServiceError>)
        requires
            old(self).spec_receiver().is_in_flight(),
        ensures
            final(self).spec_receiver() == old(self).spec_receiver().step(
                SlotOp::Resolve(outcome),
            ),
            final(self).spec_receiver().is_finished(),
            final(self).spec_receiver().task_parser() == old(self).spec_receiver().task_parser(),
            final(self).spec_receiver().task_outcome() == outcome,
            final(self).log == old(self).log,
            final(self).input == old(self).input,
            final(self).language == old(self).language,
    {
        self.brain.resolve(outcome);
    }

    /// One poll of the host's timer. A finished call is drained: its
    /// response is decoded by the decoder bound at submission and logged
    /// as a story line; a service failure, or a response without any
    /// candidate, is logged as an error line instead. While a call is
    /// still running, or none exists, nothing changes.
    pub fn tick(&mut self) -> (drained: bool)
        requires
            old(self).log.spec_version() < u64::MAX,
        ensures
            drained <==> old(self).spec_receiver().is_finished(),
            !drained ==> *final(self) == *old(self),
            drained ==> (final(self).spec_receiver().is_empty()
                && final(self).input == old(self).input
                && final(self).language == old(self).language
                && final(self).log@ == old(self).log@.push(drained_line(old(self).spec_receiver()))
                && final(self).log.spec_version() == old(self).log.spec_version() + 1),
    {
        match self.brain.get_completion() {
            None => false,
            Some((parser, outcome)) => {
                match outcome {
                    Ok(completion) => {
                        match parser.parse(&completion) {
                            Some(text) => self.log.write_story(text),
                            None => self.log.write_error(
                                String::from_str("Completion contained no choices"),
                            ),
                        }
                    },
                    Err(failure) => self.log.write_error(failure.message),
                }
                true
            },
        }
    }
}

} // verus!
