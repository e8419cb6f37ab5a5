//! One logical luminance transaction as a step-by-step state machine.
//!
//! A [`Sequencer`] never touches the bus itself.  It tells its caller which
//! action comes next — wait the inter-command delay, write a frame, read a
//! response — and the caller feeds back what the transport reported.  A get
//! runs delay, write, delay, read, then decodes the response; a set runs
//! delay, write, delay, write, sending the same frame twice, a compatibility
//! workaround for displays that drop the first write after an idle bus.  Any
//! nonzero transport status fails the transaction at once; nothing is
//! retried.
//!
//! The well-formedness predicate [`Sequencer::wf`] ties the recorded step
//! history to the outcome, so a finished transaction provably performed
//! exactly the steps above: one write and one read for a get, two writes and
//! no read for a set, each preceded by a delay.

use vstd::prelude::*;

use crate::codec;
use crate::codec::{LuminanceValue, ProtocolError};

verus! {

/// The command a transaction carries: read the luminance, or set it.
#[derive(Clone, Copy)]
pub enum VcpCommand {
    GetLevel,
    SetLevel(LuminanceValue),
}

/// What the caller must do next against the transport.
pub enum Action {
    /// Wait `codec::DDC_DELAY_MICROS` microseconds.
    Delay,
    /// Write these bytes to the bus and report the status.
    Write(Vec<u8>),
    /// Read this many bytes from the bus and report status and buffer.
    Read(usize),
    /// The transaction is over; consult the outcome.
    Stop,
}

/// One performed step, recorded in the transaction's ghost history.
pub enum StepKind {
    Delay,
    Write,
    Read,
}

/// Where a transaction stands once it stops.
#[derive(Clone, Copy, PartialEq, Eq, Structural, Debug)]
pub enum Outcome {
    /// Still running.
    Pending,
    /// A get finished; the display reported this level.
    Value(u8),
    /// A set finished; both writes went through.
    Accepted,
    /// The transaction failed.
    Failure(ProtocolError),
}

/// The request frame a command puts on the bus.
pub open spec fn frame_of(cmd: VcpCommand) -> Seq<u8> {
    match cmd {
        VcpCommand::GetLevel => codec::get_frame_spec(),
        VcpCommand::SetLevel(v) => codec::set_frame_spec(v.spec_level()),
    }
}

/// The steps behind a transaction that has reached position `pc` without
/// stopping: both commands open with delay, write, delay.
pub open spec fn steps_before(pc: int) -> Seq<StepKind> {
    if pc <= 0 {
        seq![]
    } else if pc == 1 {
        seq![StepKind::Delay]
    } else if pc == 2 {
        seq![StepKind::Delay, StepKind::Write]
    } else {
        seq![StepKind::Delay, StepKind::Write, StepKind::Delay]
    }
}

/// Every step of a completed get: one write and one read, each after a delay.
pub open spec fn get_steps() -> Seq<StepKind> {
    seq![StepKind::Delay, StepKind::Write, StepKind::Delay, StepKind::Read]
}

/// Every step of a completed set: two writes, each after a delay, no read.
pub open spec fn set_steps() -> Seq<StepKind> {
    seq![StepKind::Delay, StepKind::Write, StepKind::Delay, StepKind::Write]
}

/// The histories a failed transaction can leave: a failed write stops after
/// the first or (for a set) the second write, a failed read or a rejected
/// response stops after the read, and the sequencer itself never reports the
/// transport as unavailable.
pub open spec fn failure_steps(e: ProtocolError, cmd: VcpCommand, h: Seq<StepKind>) -> bool {
    match e {
        ProtocolError::WriteFailed(_) => h == steps_before(2) || (cmd is SetLevel && h == set_steps()),
        ProtocolError::ReadFailed(_) => cmd is GetLevel && h == get_steps(),
        ProtocolError::InvalidResponse => cmd is GetLevel && h == get_steps(),
        ProtocolError::ConnectionUnavailable => false,
    }
}

/// Drives one get or set transaction.  Positions 0 and 2 owe the transport a
/// delay, position 1 the first write, position 3 the read (get) or the second
/// write (set), and position 4 is terminal.
pub struct Sequencer {
    pub command: VcpCommand,
    pub pc: u8,
    pub outcome: Outcome,
    pub history: Ghost<Seq<StepKind>>,
}

impl Sequencer {
    /// A sequencer is well formed while its position stays on the protocol
    /// rail and its recorded history matches its position and outcome.
    pub open spec fn wf(self) -> bool {
        &&& self.pc <= 4
        &&& (self.outcome is Pending <==> self.pc < 4)
        &&& (self.outcome is Value ==> self.command is GetLevel)
        &&& (self.outcome is Accepted ==> self.command is SetLevel)
        &&& (self.pc < 4 ==> self.history@ == steps_before(self.pc as int))
        &&& (self.outcome is Value ==> self.history@ == get_steps())
        &&& (self.outcome is Accepted ==> self.history@ == set_steps())
        &&& (self.outcome matches Outcome::Failure(e) ==> failure_steps(
            e,
            self.command,
            self.history@,
        ))
    }

    /// Start a transaction for the given command.
    pub fn new(command: VcpCommand) -> (s: Sequencer)
        ensures
            s.wf(),
            s.command == command,
            s.pc == 0,
            s.outcome is Pending,
            s.history@ == Seq::<StepKind>::empty(),
    {
        let s = Sequencer { command, pc: 0, outcome: Outcome::Pending, history: Ghost(
            Seq::empty(),
        ) };
        proof {
            assert(s.history@ =~= steps_before(0));
        }
        s
    }

    /// The action the caller owes the transport next.
    pub fn next_action(&self) -> (a: Action)
        requires
            self.wf(),
        ensures
            self.pc == 0 || self.pc == 2 ==> a is Delay,
            self.pc == 1 ==> (a matches Action::Write(f) && f@ == frame_of(self.command)),
            self.pc == 3 && self.command is GetLevel ==> (a matches Action::Read(n) && n
                == codec::RESPONSE_LEN),
            self.pc == 3 && self.command is SetLevel ==> (a matches Action::Write(f) && f@ == frame_of(
                self.command,
            )),
            self.pc == 4 ==> a is Stop,
    {
        if self.pc == 0 || self.pc == 2 {
            Action::Delay
        } else if self.pc == 1 || self.pc == 3 {
            match &self.command {
                VcpCommand::GetLevel => {
                    if self.pc == 1 {
                        Action::Write(codec::build_get_request())
                    } else {
                        Action::Read(codec::RESPONSE_LEN)
                    }
                },
                VcpCommand::SetLevel(v) => Action::Write(codec::build_set_request(*v)),
            }
        } else {
            Action::Stop
        }
    }

    /// Record that the caller waited the inter-command delay.
    pub fn on_delay(&mut self)
        requires
            old(self).wf(),
            old(self).pc == 0 || old(self).pc == 2,
        ensures
            final(self).wf(),
            final(self).command == old(self).command,
            final(self).pc == old(self).pc + 1,
            final(self).outcome is Pending,
            final(self).history@ == old(self).history@.push(StepKind::Delay),
    {
        proof {
            assert(self.history@.push(StepKind::Delay) =~= steps_before(self.pc + 1));
        }
        self.pc = self.pc + 1;
        self.history = Ghost(self.history@.push(StepKind::Delay));
    }

    /// Record the transport's status for a write the caller performed.  A
    /// zero status moves the transaction on — to the second delay after the
    /// first write, or to acceptance after a set's second write — and any
    /// other status fails it with `WriteFailed` at once.
    pub fn on_write(&mut self, status: i32)
        requires
            old(self).wf(),
            old(self).pc == 1 || (old(self).pc == 3 && old(self).command is SetLevel),
        ensures
            final(self).wf(),
            final(self).command == old(self).command,
            final(self).history@ == old(self).history@.push(StepKind::Write),
            status != 0 ==> final(self).pc == 4 && final(self).outcome == Outcome::Failure(
                ProtocolError::WriteFailed(status),
            ),
            status == 0 && old(self).pc == 1 ==> final(self).pc == 2
                && final(self).outcome is Pending,
            status == 0 && old(self).pc == 3 ==> final(self).pc == 4 && final(self).outcome
                == Outcome::Accepted,
    {
        proof {
            if self.pc == 1 {
                assert(self.history@.push(StepKind::Write) =~= steps_before(2));
            } else {
                assert(self.history@.push(StepKind::Write) =~= set_steps());
            }
        }
        self.history = Ghost(self.history@.push(StepKind::Write));
        if status != 0 {
            self.pc = 4;
            self.outcome = Outcome::Failure(ProtocolError::WriteFailed(status));
        } else if self.pc == 1 {
            self.pc = 2;
        } else {
            self.pc = 4;
            self.outcome = Outcome::Accepted;
        }
    }

    /// Record the transport's status and buffer for the read the caller
    /// performed.  The transaction always stops here: a nonzero status fails
    /// it with `ReadFailed`, a buffer the codec rejects fails it with
    /// `InvalidResponse`, and otherwise the decoded level is the outcome.
    pub fn on_read(&mut self, status: i32, buf: &[u8])
        requires
            old(self).wf(),
            old(self).pc == 3,
            old(self).command is GetLevel,
        ensures
            final(self).wf(),
            final(self).command == old(self).command,
            final(self).pc == 4,
            final(self).history@ == old(self).history@.push(StepKind::Read),
            status != 0 ==> final(self).outcome == Outcome::Failure(
                ProtocolError::ReadFailed(status),
            ),
            status == 0 ==> final(self).outcome == (match codec::decode_spec(buf@) {
                Ok(v) => Outcome::Value(v),
                Err(e) => Outcome::Failure(e),
            }),
    {
        proof {
            assert(self.history@.push(StepKind::Read) =~= get_steps());
        }
        self.history = Ghost(self.history@.push(StepKind::Read));
        self.pc = 4;
        if status != 0 {
            self.outcome = Outcome::Failure(ProtocolError::ReadFailed(status));
        } else {
            match codec::decode_response(buf) {
                Ok(v) => {
                    self.outcome = Outcome::Value(v);
                },
                Err(e) => {
                    self.outcome = Outcome::Failure(e);
                },
            }
        }
    }

    /// Whether the transaction has stopped.
    pub fn finished(&self) -> (r: bool)
        ensures
            r == (self.pc == 4),
    {
        self.pc == 4
    }

    /// Where the transaction stands.
    pub fn outcome(&self) -> (r: Outcome)
        ensures
            r == self.outcome,
    {
        self.outcome
    }
}

/// A get that reports a value performed exactly one write and one read
/// against the transport, each preceded by a delay, in that order.
pub proof fn lemma_get_transaction_steps(s: Sequencer)
    requires
        s.wf(),
        s.outcome is Value,
    ensures
        s.history@ == seq![StepKind::Delay, StepKind::Write, StepKind::Delay, StepKind::Read],
{
}

/// A set that is accepted performed exactly two writes against the transport,
/// each preceded by a delay, and no read.
pub proof fn lemma_set_transaction_steps(s: Sequencer)
    requires
        s.wf(),
        s.outcome is Accepted,
    ensures
        s.history@ == seq![StepKind::Delay, StepKind::Write, StepKind::Delay, StepKind::Write],
{
}

} // verus!
