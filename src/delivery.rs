//! Injection of one queued command into the shell, with the bounded,
//! fixed-delay retry of transient write and flush failures.

use vstd::prelude::*;
use crate::text::{injection_text, queue_command, trim_ws};

verus! {

/// Most attempts made for a write, and again for the flush that follows it.
pub const MAX_ATTEMPTS: u32 = 50;

/// How a failed write or flush is classified.
#[derive(Clone, Copy, Debug, PartialEq, Eq, Structural)]
pub enum ErrorClass {
    /// The writer would have blocked.
    WouldBlock,
    /// The call was interrupted.
    Interrupted,
    /// Any other failure.
    Other,
}

impl ErrorClass {
    /// Transient failures are retried; the others end the injection.
    pub open spec fn transient(self) -> bool {
        self is WouldBlock || self is Interrupted
    }

    /// Whether a failure of this class is retried.
    pub fn is_transient(&self) -> (r: bool)
        ensures
            r == self.transient(),
    {
        match self {
            ErrorClass::WouldBlock => true,
            ErrorClass::Interrupted => true,
            ErrorClass::Other => false,
        }
    }
}

/// The outcome of one write or flush of the shell's writer.
#[derive(Debug)]
pub enum Attempt {
    Done,
    /// `kind` names the error kind, `detail` describes the error.
    Failed { class: ErrorClass, kind: String, detail: String },
}

/// The part of an attempt's outcome that decides the next step.
pub enum AttemptKind {
    Done,
    Transient,
    Fatal,
}

impl Attempt {
    pub open spec fn kind(self) -> AttemptKind {
        match self {
            Attempt::Done => AttemptKind::Done,
            Attempt::Failed { class, .. } => if class.transient() {
                AttemptKind::Transient
            } else {
                AttemptKind::Fatal
            },
        }
    }
}

/// Where an injection stands.
#[derive(Clone, Copy, Debug, PartialEq, Eq, Structural)]
pub enum Phase {
    Writing,
    Flushing,
    Finished,
}

/// What the caller does after an attempt.
#[derive(Debug)]
pub enum Step {
    /// Wait one second, then write the bytes again.
    RetryWrite,
    /// Flush the writer now.
    Flush,
    /// Wait one second, then flush again.
    RetryFlush,
    /// The command reached the shell: delete the file.
    Delivered,
    /// Retries ran out: log `message`, then delete the file.
    GaveUp { message: String },
    /// A failure that is not retried: log `message`, then delete the file.
    Failed { message: String },
}

/// The shape of a step, without its message.
pub enum StepKind {
    RetryWrite,
    Flush,
    RetryFlush,
    Delivered,
    GaveUp,
    Failed,
}

impl Step {
    pub open spec fn kind(self) -> StepKind {
        match self {
            Step::RetryWrite => StepKind::RetryWrite,
            Step::Flush => StepKind::Flush,
            Step::RetryFlush => StepKind::RetryFlush,
            Step::Delivered => StepKind::Delivered,
            Step::GaveUp { .. } => StepKind::GaveUp,
            Step::Failed { .. } => StepKind::Failed,
        }
    }
}

/// One step of the retry discipline: from the phase and the failures counted
/// in it, and the outcome of the attempt just made, the next phase, failure
/// count and step.
pub open spec fn next_step(phase: Phase, failures: nat, kind: AttemptKind) -> (Phase, nat, StepKind) {
    match kind {
        AttemptKind::Done => if phase is Writing {
            (Phase::Flushing, 0, StepKind::Flush)
        } else {
            (Phase::Finished, failures, StepKind::Delivered)
        },
        AttemptKind::Transient => if failures + 1 >= MAX_ATTEMPTS {
            (Phase::Finished, failures + 1, StepKind::GaveUp)
        } else if phase is Writing {
            (Phase::Writing, failures + 1, StepKind::RetryWrite)
        } else {
            (Phase::Flushing, failures + 1, StepKind::RetryFlush)
        },
        AttemptKind::Fatal => (Phase::Finished, failures, StepKind::Failed),
    }
}

/// The steps that a run of attempt outcomes produces, up to the first step
/// that ends the injection.
pub open spec fn run_steps(phase: Phase, failures: nat, kinds: Seq<AttemptKind>) -> Seq<StepKind>
    decreases kinds.len(),
{
    if kinds.len() == 0 || phase is Finished {
        Seq::empty()
    } else {
        let (p, f, s) = next_step(phase, failures, kinds[0]);
        seq![s].add(run_steps(p, f, kinds.drop_first()))
    }
}

/// A step that ends the injection, after which the file is deleted.
pub open spec fn is_terminal(s: StepKind) -> bool {
    s is Delivered || s is GaveUp || s is Failed
}

/// Only the last step of a run can end the injection, so the file of an
/// injection is deleted at most once, and nothing follows its deletion.
pub proof fn lemma_terminal_step_is_last(phase: Phase, failures: nat, kinds: Seq<AttemptKind>)
    ensures
        forall|i: int|
            0 <= i < run_steps(phase, failures, kinds).len() - 1 ==> !is_terminal(
                #[trigger] run_steps(phase, failures, kinds)[i],
            ),
    decreases kinds.len(),
{
    if kinds.len() > 0 && !(phase is Finished) {
        let (p, f, s) = next_step(phase, failures, kinds[0]);
        lemma_terminal_step_is_last(p, f, kinds.drop_first());
        let rest = run_steps(p, f, kinds.drop_first());
        if is_terminal(s) {
            assert(p is Finished);
            assert(rest.len() == 0);
        }
        assert forall|i: int| 0 <= i < run_steps(phase, failures, kinds).len() - 1 implies !is_terminal(
            #[trigger] run_steps(phase, failures, kinds)[i],
        ) by {
            if i > 0 {
                assert(run_steps(phase, failures, kinds)[i] == rest[i - 1]);
            }
        }
    }
}

proof fn lemma_transient_writes_from(failures: nat, kinds: Seq<AttemptKind>, more: Seq<AttemptKind>)
    requires
        failures < MAX_ATTEMPTS,
        kinds.len() == MAX_ATTEMPTS - failures,
        forall|i: int| 0 <= i < kinds.len() ==> #[trigger] kinds[i] is Transient,
    ensures
        run_steps(Phase::Writing, failures, kinds + more).len() == kinds.len(),
        forall|i: int|
            0 <= i < kinds.len() - 1 ==> #[trigger] run_steps(Phase::Writing, failures, kinds + more)[i]
                is RetryWrite,
        run_steps(Phase::Writing, failures, kinds + more)[kinds.len() - 1] is GaveUp,
    decreases kinds.len(),
{
    let all = kinds + more;
    assert(all[0] == kinds[0]);
    assert(all.drop_first() == kinds.drop_first() + more);
    if failures + 1 >= MAX_ATTEMPTS {
        assert(run_steps(Phase::Finished, failures + 1, all.drop_first()).len() == 0);
    } else {
        lemma_transient_writes_from(failures + 1, kinds.drop_first(), more);
        let rest = run_steps(Phase::Writing, failures + 1, kinds.drop_first() + more);
        assert forall|i: int| 0 <= i < kinds.len() - 1 implies #[trigger] run_steps(
            Phase::Writing,
            failures,
            all,
        )[i] is RetryWrite by {
            if i > 0 {
                assert(run_steps(Phase::Writing, failures, all)[i] == rest[i - 1]);
            }
        }
    }
}

/// Fifty transient write failures in a row: the first forty-nine are each
/// retried after a delay, the fiftieth gives up (one audit entry, then the
/// file is deleted), and whatever outcomes would follow produce no step, so
/// the file is never processed again.
pub proof fn lemma_fifty_transient_failures_give_up(kinds: Seq<AttemptKind>, more: Seq<AttemptKind>)
    requires
        kinds.len() == MAX_ATTEMPTS,
        forall|i: int| 0 <= i < kinds.len() ==> #[trigger] kinds[i] is Transient,
    ensures
        run_steps(Phase::Writing, 0, kinds + more).len() == MAX_ATTEMPTS,
        forall|i: int|
            0 <= i < MAX_ATTEMPTS - 1 ==> #[trigger] run_steps(Phase::Writing, 0, kinds + more)[i] is RetryWrite,
        run_steps(Phase::Writing, 0, kinds + more)[MAX_ATTEMPTS - 1] is GaveUp,
        forall|i: int|
            0 <= i < run_steps(Phase::Writing, 0, kinds + more).len() && #[trigger] run_steps(
                Phase::Writing,
                0,
                kinds + more,
            )[i] is GaveUp ==> i == MAX_ATTEMPTS - 1,
{
    lemma_transient_writes_from(0, kinds, more);
}

/// Audit text logged before a command is injected.
pub open spec fn processing_message(name: Seq<char>, command: Seq<char>) -> Seq<char> {
    "🔄 Processing: "@ + name + "\n"@ + command
}

/// Audit text logged when the retries of a write run out.
pub open spec fn gave_up_write_message(name: Seq<char>, kind: Seq<char>, command: Seq<char>) -> Seq<char> {
    "❌ Gave up after 50 retries for: "@ + name + " ("@ + kind + ")\nCommand was:\n"@ + command
}

/// Audit text logged when the retries of a flush run out.
pub open spec fn gave_up_flush_message(name: Seq<char>, kind: Seq<char>, command: Seq<char>) -> Seq<char> {
    "❌ Gave up after 50 flush retries for: "@ + name + " ("@ + kind + ")\nCommand was:\n"@ + command
}

/// Audit text logged when a write fails for good.
pub open spec fn failed_write_message(name: Seq<char>, detail: Seq<char>, command: Seq<char>) -> Seq<char> {
    "❌ Failed to inject command from: "@ + name + "\nError: "@ + detail + "\nCommand was:\n"@ + command
}

/// Audit text logged when a flush fails for good.
pub open spec fn failed_flush_message(name: Seq<char>, detail: Seq<char>, command: Seq<char>) -> Seq<char> {
    "❌ Failed to flush PTY writer for: "@ + name + "\nError: "@ + detail + "\nCommand was:\n"@ + command
}

fn concat3(a: &str, b: &str, c: &str) -> (r: String)
    ensures
        r@ == a@ + b@ + c@,
{
    let mut r = String::from_str(a);
    r.append(b);
    r.append(c);
    r
}

/// The injection of the command held by one queue file.
pub struct Injection {
    pub name: String,
    pub command: String,
    pub bytes: String,
    pub phase: Phase,
    pub failures: u32,
}

impl Injection {
    /// An injection is consistent while its failure count stays within the bound.
    pub open spec fn wf(self) -> bool {
        &&& self.failures <= MAX_ATTEMPTS
        &&& !(self.phase is Finished) ==> self.failures < MAX_ATTEMPTS
        &&& self.bytes@ == self.command@.push('\r')
    }

    /// Starts the injection of the file `name` with content `content`: the
    /// command is the trimmed content, written with a carriage return.
    pub fn start(name: &str, content: &str) -> (r: Injection)
        ensures
            r.wf(),
            r.name@ == name@,
            r.command@ == trim_ws(content@),
            r.bytes@ == trim_ws(content@).push('\r'),
            r.phase == Phase::Writing,
            r.failures == 0,
    {
        let command = queue_command(content);
        let bytes = injection_text(command.as_str());
        Injection { name: String::from_str(name), command, bytes, phase: Phase::Writing, failures: 0 }
    }

    /// The audit text logged before the bytes are written.
    pub fn processing_log(&self) -> (r: String)
        ensures
            r@ == processing_message(self.name@, self.command@),
    {
        let mut r = concat3("🔄 Processing: ", self.name.as_str(), "\n");
        r.append(self.command.as_str());
        r
    }

    /// Takes the outcome of the attempt just made and says what comes next.
    pub fn on_result(&mut self, attempt: Attempt) -> (r: Step)
        requires
            old(self).wf(),
            !(old(self).phase is Finished),
        ensures
            final(self).wf(),
            final(self).name == old(self).name,
            final(self).command == old(self).command,
            final(self).bytes == old(self).bytes,
            (final(self).phase, final(self).failures as nat, r.kind()) == next_step(
                old(self).phase,
                old(self).failures as nat,
                attempt.kind(),
            ),
            r matches Step::GaveUp { message } ==> (attempt matches Attempt::Failed { kind, .. } && (
            if old(self).phase is Writing {
                message@ == gave_up_write_message(old(self).name@, kind@, old(self).command@)
            } else {
                message@ == gave_up_flush_message(old(self).name@, kind@, old(self).command@)
            })),
            r matches Step::Failed { message } ==> (attempt matches Attempt::Failed { detail, .. } && (
            if old(self).phase is Writing {
                message@ == failed_write_message(old(self).name@, detail@, old(self).command@)
            } else {
                message@ == failed_flush_message(old(self).name@, detail@, old(self).command@)
            })),
    {
        let writing = match self.phase {
            Phase::Writing => true,
            _ => false,
        };
        match attempt {
            Attempt::Done => {
                if writing {
                    self.phase = Phase::Flushing;
                    self.failures = 0;
                    Step::Flush
                } else {
                    self.phase = Phase::Finished;
                    Step::Delivered
                }
            },
            Attempt::Failed { class, kind, detail } => {
                if class.is_transient() {
                    self.failures = self.failures + 1;
                    if self.failures >= MAX_ATTEMPTS {
                        self.phase = Phase::Finished;
                        let head = if writing {
                            "❌ Gave up after 50 retries for: "
                        } else {
                            "❌ Gave up after 50 flush retries for: "
                        };
                        let mut message = concat3(head, self.name.as_str(), " (");
                        message.append(kind.as_str());
                        message.append(")\nCommand was:\n");
                        message.append(self.command.as_str());
                        Step::GaveUp { message }
                    } else if writing {
                        Step::RetryWrite
                    } else {
                        Step::RetryFlush
                    }
                } else {
                    self.phase = Phase::Finished;
                    let head = if writing {
                        "❌ Failed to inject command from: "
                    } else {
                        "❌ Failed to flush PTY writer for: "
                    };
                    let mut message = concat3(head, self.name.as_str(), "\nError: ");
                    message.append(detail.as_str());
                    message.append("\nCommand was:\n");
                    message.append(self.command.as_str());
                    Step::Failed { message }
                }
            },
        }
    }
}

} // verus!
