use vstd::prelude::*;

use crate::completion_parser::Completion;
use crate::completion_parser::CompletionParser;
use crate::completion_parser::ParserKind;
use crate::log::Log;
use crate::log::LogType;
use crate::prompt_builder::CallParams;
use crate::prompt_builder::CallParamsView;
use crate::prompt_builder::Prompt;
use crate::prompt_builder::PromptBuilder;
use crate::prompt_builder::build_error_text;
use crate::prompt_builder::spec_build;

verus! {

/// The failure a finished remote call reports, carried as plain text for
/// the caller to log or act on. It is never turned into a panic.
#[derive(Debug)]
pub struct ServiceError {
    pub message: String,
}

/// One spawned remote call: the parameters it was issued with, the decoder
/// bound to it when it was submitted, and its outcome once it has finished.
pub struct InFlightTask {
    pub params: CallParams,
    pub parser: CompletionParser,
    pub outcome: Option<Result<Completion, ServiceError>>,
}

/// The state of the receiver's task slot.
#[derive(Clone, Copy, Debug, PartialEq, Eq, Structural)]
pub enum SlotState {
    Empty,
    InFlight,
    Finished,
}

/// One operation on the receiver's task slot, for stating how the slot
/// may evolve over any sequence of calls.
pub enum SlotOp {
    Install(CompletionParser, CallParams),
    Resolve(Result<Completion, ServiceError>),
    Drain,
}

/// Tracks at most one in-flight remote call, reports whether one is still
/// running, and hands a finished result out exactly once.
pub struct BrainReceiver {
    completion: Option<InFlightTask>,
}

impl BrainReceiver {
    /// The state of the task slot: empty, still running, or finished.
    pub closed spec fn state(&self) -> SlotState {
        match self.completion {
            Option::None => SlotState::Empty,
            Option::Some(task) => if task.outcome is None {
                SlotState::InFlight
            } else {
                SlotState::Finished
            },
        }
    }

    /// The slot holds no task at all.
    pub open spec fn is_empty(&self) -> bool {
        self.state() == SlotState::Empty
    }

    /// A task was installed and has not finished yet.
    pub open spec fn is_in_flight(&self) -> bool {
        self.state() == SlotState::InFlight
    }

    /// A task finished and its result has not been drained yet.
    pub open spec fn is_finished(&self) -> bool {
        self.state() == SlotState::Finished
    }

    /// The parameters the current task was issued with.
    pub closed spec fn task_params(&self) -> CallParamsView
        recommends
            !self.is_empty(),
    {
        (self.completion->Some_0).params@
    }

    /// The decoder bound to the current task when it was submitted.
    pub closed spec fn task_parser(&self) -> CompletionParser
        recommends
            !self.is_empty(),
    {
        (self.completion->Some_0).parser
    }

    /// The outcome the current task finished with.
    pub closed spec fn task_outcome(&self) -> Result<Completion, ServiceError>
        recommends
            self.is_finished(),
    {
        ((self.completion->Some_0).outcome)->Some_0
    }

    /// How one operation changes the slot. Installing is effective only
    /// into a slot that is not busy; resolving only marks a running task
    /// finished; draining takes a finished task and never disturbs a
    /// running one.
    pub closed spec fn step(self, op: SlotOp) -> BrainReceiver {
        match op {
            SlotOp::Install(parser, params) => if self.is_in_flight() {
                self
            } else {
                BrainReceiver {
                    completion: Some(InFlightTask { params, parser, outcome: None }),
                }
            },
            SlotOp::Resolve(outcome) => if self.is_in_flight() {
                BrainReceiver {
                    completion: Some(
                        InFlightTask {
                            params: (self.completion->Some_0).params,
                            parser: (self.completion->Some_0).parser,
                            outcome: Some(outcome),
                        },
                    ),
                }
            } else {
                self
            },
            SlotOp::Drain => if self.is_in_flight() {
                self
            } else {
                BrainReceiver { completion: None }
            },
        }
    }

    /// The slot after a whole sequence of operations.
    pub open spec fn steps(self, ops: Seq<SlotOp>) -> BrainReceiver
        decreases ops.len(),
    {
        if ops.len() == 0 {
            self
        } else {
            self.step(ops[0]).steps(ops.skip(1))
        }
    }

    /// What draining the slot hands out: the finished task's decoder and
    /// outcome, or nothing while no finished task is present.
    pub closed spec fn drain_result(&self) -> Option<
        (CompletionParser, Result<Completion, ServiceError>),
    > {
        if self.is_finished() {
            Some((self.task_parser(), self.task_outcome()))
        } else {
            None
        }
    }

    /// A receiver with an empty task slot.
    pub fn new() -> (receiver: BrainReceiver)
        ensures
            receiver.is_empty(),
    {
        BrainReceiver { completion: None }
    }

    /// Whether a submitted call is still running. Side-effect-free, for
    /// the host to poll at any frequency.
    pub fn waiting(&self) -> (busy: bool)
        ensures
            busy == self.is_in_flight(),
    {
        match &self.completion {
            Some(task) => task.outcome.is_none(),
            None => false,
        }
    }

    /// Puts a new task into the slot. Callers must have checked that no
    /// call is still running; the coordinator's busy check does so.
    pub(crate) fn install(&mut self, parser: CompletionParser, params: CallParams)
        requires
            !old(self).is_in_flight(),
        ensures
            *final(self) == old(self).step(SlotOp::Install(parser, params)),
            final(self).is_in_flight(),
            final(self).task_parser() == parser,
            final(self).task_params() == params@,
    {
        self.completion = Some(InFlightTask { params, parser, outcome: None });
    }

    /// Records the outcome the running task finished with. The host calls
    /// this once when the spawned call completes.
    pub fn resolve(&mut self, outcome: Result<Completion, ServiceError>)
        requires
            old(self).is_in_flight(),
        ensures
            *final(self) == old(self).step(SlotOp::Resolve(outcome)),
            final(self).is_finished(),
            final(self).task_parser() == old(self).task_parser(),
            final(self).task_params() == old(self).task_params(),
            final(self).task_outcome() == outcome,
    {
        match &mut self.completion {
            Some(task) => {
                task.outcome = Some(outcome);
            },
            None => {
                proof {
                    assert(false);
                }
            },
        }
    }

    /// The parameters of the task currently occupying the slot, for the
    /// host to issue the remote call with.
    pub fn call_params(&self) -> (params: Option<&CallParams>)
        ensures
            match params {
                Some(p) => !self.is_empty() && p@ == self.task_params(),
                None => self.is_empty(),
            },
    {
        match &self.completion {
            Some(task) => Some(&task.params),
            None => None,
        }
    }

    /// Drains a finished task: removes it from the slot and returns the
    /// decoder bound at submission together with the raw outcome. Returns
    /// nothing, and changes nothing, while a call is still running; returns
    /// nothing when no task exists.
    pub fn get_completion(&mut self) -> (result: Option<
        (CompletionParser, Result<Completion, ServiceError>),
    >)
        ensures
            result == old(self).drain_result(),
            *final(self) == old(self).step(SlotOp::Drain),
            old(self).is_in_flight() ==> *final(self) == *old(self),
            !old(self).is_in_flight() ==> final(self).is_empty(),
    {
        if self.waiting() {
            return None;
        }
        match self.completion.take() {
            None => None,
            Some(task) => {
                match task.outcome {
                    Some(outcome) => Some((task.parser, outcome)),
                    None => {
                        proof {
                            assert(false);
                        }
                        None
                    },
                }
            },
        }
    }
}

/// Single-flight: a submission hitting a busy slot installs nothing;
/// the running task is undisturbed. Together with the slot holding at
/// most one task by construction, at most one call is ever in flight.
pub proof fn lemma_single_flight(
    receiver: BrainReceiver,
    parser: CompletionParser,
    params: CallParams,
)
    requires
        receiver.is_in_flight(),
    ensures
        receiver.step(SlotOp::Install(parser, params)) == receiver,
{
}

/// Drain-once: a finished task is handed out by exactly one drain; the
/// slot is empty afterwards, and every further drain (absent a new
/// submission) hands out nothing and leaves the slot empty.
pub proof fn lemma_drain_once(receiver: BrainReceiver)
    requires
        receiver.is_finished(),
    ensures
        receiver.drain_result() == Some((receiver.task_parser(), receiver.task_outcome())),
        receiver.step(SlotOp::Drain).is_empty(),
        receiver.step(SlotOp::Drain).drain_result() is None,
        receiver.step(SlotOp::Drain).step(SlotOp::Drain) == receiver.step(SlotOp::Drain),
{
}

/// Busy monotonicity, one step: the busy flag turns on only by installing
/// into a non-busy slot, and turns off only by resolving the running task.
/// Draining never makes the slot busy and never interrupts a running task.
pub proof fn lemma_busy_transitions(receiver: BrainReceiver, op: SlotOp)
    ensures
        receiver.step(op).is_in_flight() && !receiver.is_in_flight() ==> op is Install,
        receiver.is_in_flight() && !receiver.step(op).is_in_flight() ==> op is Resolve,
{
}

/// Busy monotonicity, over a whole run: starting from a non-busy slot, no
/// sequence of resolves and drains ever reports busy again; only a new
/// submission can.
pub proof fn lemma_idle_until_submit(receiver: BrainReceiver, ops: Seq<SlotOp>)
    requires
        !receiver.is_in_flight(),
        forall|i: int| 0 <= i < ops.len() ==> !((#[trigger] ops[i]) is Install),
    ensures
        !receiver.steps(ops).is_in_flight(),
    decreases ops.len(),
{
    if ops.len() > 0 {
        assert(!(ops[0] is Install));
        lemma_idle_until_submit(receiver.step(ops[0]), ops.skip(1));
    }
}

/// Decoder binding: whatever outcome the running task finishes with, the
/// drained pair carries exactly the decoder that was installed with it at
/// submission time.
pub proof fn lemma_decoder_binding(receiver: BrainReceiver, outcome: Result<
    Completion,
    ServiceError,
>)
    requires
        receiver.is_in_flight(),
    ensures
        receiver.step(SlotOp::Resolve(outcome)).drain_result() == Some(
            (receiver.task_parser(), outcome),
        ),
{
}

/// The request coordinator: owns the prompt builder and the completion
/// receiver, enforces single-flight, and binds each submitted prompt to
/// the decoder its response must be read with.
pub struct Brain {
    receiver: BrainReceiver,
    prompt_builder: PromptBuilder,
}

impl Brain {
    /// The current state of the owned completion receiver.
    pub closed spec fn spec_receiver(&self) -> BrainReceiver {
        self.receiver
    }

    /// A coordinator with an idle receiver.
    pub fn new() -> (brain: Brain)
        ensures
            brain.spec_receiver().is_empty(),
    {
        Brain { receiver: BrainReceiver::new(), prompt_builder: PromptBuilder::new() }
    }

    /// Read access to the completion receiver, for the polling host.
    pub fn brain_receiver(&self) -> (receiver: &BrainReceiver)
        ensures
            *receiver == self.spec_receiver(),
    {
        &self.receiver
    }

    /// Submits a prompt. Refused, with nothing changed, while a call is in
    /// flight. Refused, with exactly one error line logged, when the prompt
    /// cannot be built. Otherwise the built parameters are installed as the
    /// new in-flight task, bound to the prompt's decoder, and the host
    /// issues exactly one remote call for them.
    pub fn submit_prompt(&mut self, log: &mut Log, prompt: &Prompt) -> (accepted: bool)
        requires
            old(log).spec_version() < u64::MAX,
        ensures
            accepted <==> (!old(self).spec_receiver().is_in_flight() && prompt.valid()),
            old(self).spec_receiver().is_in_flight() ==> (*final(self) == *old(self) && *final(log)
                == *old(log)),
            (!old(self).spec_receiver().is_in_flight() && !prompt.valid()) ==> (*final(self)
                == *old(self) && final(log)@ == old(log)@.push(
                (LogType::Error, build_error_text()),
            ) && final(log).spec_version() == old(log).spec_version() + 1),
            accepted ==> (*final(log) == *old(log) && final(self).spec_receiver().is_in_flight()
                && final(self).spec_receiver().task_parser() == (CompletionParser {
                kind: prompt.parser_kind(),
            }) && final(self).spec_receiver().task_params() == spec_build(*prompt)),
    {
        if self.receiver.waiting() {
            return false;
        }
        let args = match self.prompt_builder.build_prompt(log, prompt) {
            Some(args) => args,
            None => {
                return false;
            },
        };
        let kind = match prompt {
            Prompt::Completion(_) => ParserKind::Completion,
            Prompt::Translation(_) => ParserKind::Translation,
        };
        let parser = CompletionParser::new(kind);
        self.receiver.install(parser, args);
        true
    }

    /// Records the outcome the spawned call finished with, forwarded to
    /// the owned receiver. The host calls this once per remote call.
    pub fn resolve(&mut self, outcome: Result<Completion, ServiceError>)
        requires
            old(self).spec_receiver().is_in_flight(),
        ensures
            final(self).spec_receiver() == old(self).spec_receiver().step(
                SlotOp::Resolve(outcome),
            ),
            final(self).spec_receiver().is_finished(),
            final(self).spec_receiver().task_parser() == old(self).spec_receiver().task_parser(),
            final(self).spec_receiver().task_params() == old(self).spec_receiver().task_params(),
            final(self).spec_receiver().task_outcome() == outcome,
    {
        self.receiver.resolve(outcome);
    }

    /// Drains the owned receiver: the decoder and outcome of a finished
    /// call, exactly once, and nothing while one is still running.
    pub fn get_completion(&mut self) -> (result: Option<
        (CompletionParser, Result<Completion, ServiceError>),
    >)
        ensures
            result == old(self).spec_receiver().drain_result(),
            final(self).spec_receiver() == old(self).spec_receiver().step(SlotOp::Drain),
            !old(self).spec_receiver().is_finished() ==> (result is None && *final(self) == *old(
                self,
            )),
            old(self).spec_receiver().is_finished() ==> (result == Some(
                (
                    old(self).spec_receiver().task_parser(),
                    old(self).spec_receiver().task_outcome(),
                ),
            ) && final(self).spec_receiver().is_empty()),
    {
        self.receiver.get_completion()
    }
}

} // verus!
