//! One command/status exchange: command header out, status poll, optional
//! data phase and status poll, then the acknowledgment in the direction
//! opposite to the data phase. The exchange is a state machine: each step
//! takes the outcome of the last transfer and names the next one.
use vstd::prelude::*;
use crate::wire::{PicobootCmd, PicobootStatusCmd, header_bytes, is_cmd_code, le32_value};

verus! {

/// The token counter of a session. Tokens start at 1 and each one is handed
/// out once; `issued` records them in the order they were handed out.
pub struct CommandTokens {
    pub next: u32,
    pub issued: Ghost<Seq<u32>>,
}

impl CommandTokens {
    pub open spec fn wf(&self) -> bool {
        &&& self.next >= 1
        &&& forall|i: int, j: int|
            0 <= i < j < self.issued@.len() ==> self.issued@[i] < self.issued@[j]
        &&& forall|i: int| 0 <= i < self.issued@.len() ==> self.issued@[i] < self.next
    }

    pub fn new() -> (r: CommandTokens)
        ensures
            r.wf(),
            r.next == 1,
            r.issued@ == Seq::<u32>::empty(),
    {
        CommandTokens { next: 1, issued: Ghost(Seq::empty()) }
    }

    /// Hands out the next token; `None` once the 32-bit counter is used up.
    pub fn issue(&mut self) -> (r: Option<u32>)
        requires
            old(self).wf(),
        ensures
            final(self).wf(),
            old(self).next < u32::MAX ==> r == Some(old(self).next) && final(self).next == old(
                self,
            ).next + 1 && final(self).issued@ == old(self).issued@.push(old(self).next),
            old(self).next == u32::MAX ==> r is None && *final(self) == *old(self),
    {
        if self.next == u32::MAX {
            None
        } else {
            let t = self.next;
            self.next = self.next + 1;
            self.issued = Ghost(self.issued@.push(t));
            Some(t)
        }
    }
}

/// The tokens of a session strictly increase in the order they are issued,
/// so no token is issued twice.
pub proof fn lemma_tokens_strictly_increase(t: CommandTokens, i: int, j: int)
    requires
        t.wf(),
        0 <= i < j < t.issued@.len(),
    ensures
        t.issued@[i] < t.issued@[j],
        t.issued@[i] != t.issued@[j],
{
}

/// Where an exchange stands.
#[derive(Debug, Clone, Copy, PartialEq, Eq, Structural)]
pub enum ExchangePhase {
    SendCommand,
    CommandStatus,
    Data,
    DataStatus,
    Ack,
    Done,
    Failed,
}

/// Why an exchange stopped. Every one of them is fatal to the exchange.
#[derive(Debug, Clone, Copy, PartialEq, Eq, Structural)]
pub enum ExchangeError {
    /// The session has no tokens left.
    TokensExhausted,
    /// A host-to-device data phase was asked for with a buffer whose length
    /// differs from the header's transfer length.
    DataLengthMismatch,
    /// A bulk write moved another number of bytes than it was given.
    WriteMismatch { expected: usize, actual: usize },
    /// A bulk read returned another number of bytes than it asked for.
    ReadMismatch { expected: usize, actual: usize },
    /// A status reply carried an undefined status code.
    UnknownStatus(u32),
    /// A status reply named an undefined command.
    UnknownCommand(u8),
    /// The event does not answer the transfer that was asked for.
    UnexpectedEvent,
}

/// The next transfer the host performs, or the end of the exchange with the
/// bytes read in the data phase.
#[derive(Debug)]
pub enum Action {
    BulkWrite(Vec<u8>),
    BulkRead(usize),
    PollStatus,
    Finished(Vec<u8>),
}

/// The outcome of the transfer an action asked for.
#[derive(Debug)]
pub enum Event {
    /// A bulk write moved this many bytes.
    Wrote(usize),
    /// A bulk read returned these bytes.
    ReadBytes(Vec<u8>),
    /// A status poll returned these bytes.
    Status([u8; 16]),
}

pub enum ActionView {
    BulkWrite(Seq<u8>),
    BulkRead(nat),
    PollStatus,
    Finished(Seq<u8>),
}

pub enum EventView {
    Wrote(nat),
    ReadBytes(Seq<u8>),
    Status(Seq<u8>),
}

impl View for Action {
    type V = ActionView;

    open spec fn view(&self) -> ActionView {
        match self {
            Action::BulkWrite(v) => ActionView::BulkWrite(v@),
            Action::BulkRead(n) => ActionView::BulkRead(*n as nat),
            Action::PollStatus => ActionView::PollStatus,
            Action::Finished(v) => ActionView::Finished(v@),
        }
    }
}

impl View for Event {
    type V = EventView;

    open spec fn view(&self) -> EventView {
        match self {
            Event::Wrote(n) => EventView::Wrote(*n as nat),
            Event::ReadBytes(v) => EventView::ReadBytes(v@),
            Event::Status(b) => EventView::Status(b@),
        }
    }
}

/// Whether a transfer moves bytes from the device to the host.
pub open spec fn is_inbound(a: ActionView) -> bool {
    a is BulkRead
}

/// The data phase of a command: a read of the transfer length when the
/// command's high bit is set, else a write of the caller's buffer.
pub open spec fn data_phase(cmd: PicobootCmd, data: Seq<u8>) -> ActionView {
    if cmd.spec_reads() {
        ActionView::BulkRead(cmd.transfer_len as nat)
    } else {
        ActionView::BulkWrite(data)
    }
}

/// The acknowledgment: one zero byte out after a reading command, a one-byte
/// read after any other.
pub open spec fn ack_phase(cmd: PicobootCmd) -> ActionView {
    if cmd.spec_reads() {
        ActionView::BulkWrite(seq![0u8])
    } else {
        ActionView::BulkRead(1)
    }
}

/// The acknowledgment of a command runs opposite to its data phase, and,
/// without a data phase, opposite to the direction its high bit names.
pub proof fn lemma_ack_opposes_data_phase(cmd: PicobootCmd, data: Seq<u8>)
    ensures
        is_inbound(ack_phase(cmd)) != is_inbound(data_phase(cmd, data)),
        is_inbound(ack_phase(cmd)) == !cmd.spec_reads(),
        ack_phase(cmd) is BulkRead || ack_phase(cmd) is BulkWrite,
{
}

/// The check of a status reply: its status code and its command code must be
/// defined ones.
pub open spec fn status_check(b: Seq<u8>) -> Result<(), ExchangeError> {
    let code = le32_value(b[4], b[5], b[6], b[7]);
    if code > 17 {
        Err(ExchangeError::UnknownStatus(code as u32))
    } else if !is_cmd_code(b[8]) {
        Err(ExchangeError::UnknownCommand(b[8]))
    } else {
        Ok(())
    }
}

/// The state an exchange is in: its phase and the bytes read so far.
pub struct ExchangeState {
    pub phase: ExchangePhase,
    pub result: Seq<u8>,
}

/// One step of an exchange of `cmd` with the host's buffer `data`.
pub open spec fn transition(cmd: PicobootCmd, data: Seq<u8>, s: ExchangeState, ev: EventView) -> (
    ExchangeState,
    Result<ActionView, ExchangeError>,
) {
    let failed = ExchangeState { phase: ExchangePhase::Failed, result: s.result };
    let unexpected = (failed, Err(ExchangeError::UnexpectedEvent));
    let to_ack = (ExchangeState { phase: ExchangePhase::Ack, result: s.result }, Ok(ack_phase(cmd)));
    match s.phase {
        ExchangePhase::SendCommand => match ev {
            EventView::Wrote(n) => if n == 32 {
                (
                    ExchangeState { phase: ExchangePhase::CommandStatus, result: s.result },
                    Ok(ActionView::PollStatus),
                )
            } else {
                (failed, Err(ExchangeError::WriteMismatch { expected: 32, actual: n as usize }))
            },
            _ => unexpected,
        },
        ExchangePhase::CommandStatus => match ev {
            EventView::Status(b) => match status_check(b) {
                Err(e) => (failed, Err(e)),
                Ok(_) => if cmd.transfer_len == 0 {
                    to_ack
                } else {
                    (
                        ExchangeState { phase: ExchangePhase::Data, result: s.result },
                        Ok(data_phase(cmd, data)),
                    )
                },
            },
            _ => unexpected,
        },
        ExchangePhase::Data => match ev {
            EventView::ReadBytes(v) => if !cmd.spec_reads() {
                unexpected
            } else if v.len() == cmd.transfer_len {
                (
                    ExchangeState { phase: ExchangePhase::DataStatus, result: v },
                    Ok(ActionView::PollStatus),
                )
            } else {
                (
                    failed,
                    Err(
                        ExchangeError::ReadMismatch {
                            expected: cmd.transfer_len as usize,
                            actual: v.len() as usize,
                        },
                    ),
                )
            },
            EventView::Wrote(n) => if cmd.spec_reads() {
                unexpected
            } else if n == data.len() {
                (
                    ExchangeState { phase: ExchangePhase::DataStatus, result: s.result },
                    Ok(ActionView::PollStatus),
                )
            } else {
                (
                    failed,
                    Err(
                        ExchangeError::WriteMismatch {
                            expected: data.len() as usize,
                            actual: n as usize,
                        },
                    ),
                )
            },
            _ => unexpected,
        },
        ExchangePhase::DataStatus => match ev {
            EventView::Status(b) => match status_check(b) {
                Err(e) => (failed, Err(e)),
                Ok(_) => to_ack,
            },
            _ => unexpected,
        },
        ExchangePhase::Ack => {
            let acked = if cmd.spec_reads() {
                ev is Wrote
            } else {
                ev is ReadBytes
            };
            if acked {
                (
                    ExchangeState { phase: ExchangePhase::Done, result: s.result },
                    Ok(ActionView::Finished(s.result)),
                )
            } else {
                unexpected
            }
        },
        ExchangePhase::Done => (s, Err(ExchangeError::UnexpectedEvent)),
        ExchangePhase::Failed => unexpected,
    }
}


/// An exchange in progress: the command as sent (with its token), the
/// host's buffer for a data phase toward the device, and its state.
pub struct Exchange {
    pub cmd: PicobootCmd,
    pub data: Vec<u8>,
    pub phase: ExchangePhase,
    pub result: Vec<u8>,
}

impl Exchange {
    pub open spec fn state(&self) -> ExchangeState {
        ExchangeState { phase: self.phase, result: self.result@ }
    }

    /// Whether the host's buffer can serve as the data phase of `cmd`: only a
    /// command that writes with a non-zero transfer length needs one, of
    /// exactly that length.
    pub open spec fn data_fits(cmd: PicobootCmd, data: Seq<u8>) -> bool {
        cmd.spec_reads() || cmd.transfer_len == 0 || data.len() == cmd.transfer_len
    }

    /// Assigns the session's next token to `cmd` and asks for the header to
    /// be sent.
    pub fn start(tokens: &mut CommandTokens, cmd: PicobootCmd, data: Vec<u8>) -> (r: Result<
        (Exchange, Action),
        ExchangeError,
    >)
        requires
            old(tokens).wf(),
        ensures
            final(tokens).wf(),
            !Self::data_fits(cmd, data@) ==> r == Err::<(Exchange, Action), _>(
                ExchangeError::DataLengthMismatch,
            ) && *final(tokens) == *old(tokens),
            Self::data_fits(cmd, data@) && old(tokens).next == u32::MAX ==> r == Err::<
                (Exchange, Action),
                _,
            >(ExchangeError::TokensExhausted) && *final(tokens) == *old(tokens),
            Self::data_fits(cmd, data@) && old(tokens).next < u32::MAX ==> {
                &&& final(tokens).issued@ == old(tokens).issued@.push(old(tokens).next)
                &&& final(tokens).next == old(tokens).next + 1
                &&& r matches Ok((x, a)) && x.cmd == (PicobootCmd { token: old(tokens).next, ..cmd })
                    && x.data@ == data@ && x.phase == ExchangePhase::SendCommand
                    && x.result@.len() == 0 && a@ == ActionView::BulkWrite(header_bytes(x.cmd))
            },
    {
        if !cmd.reads() && cmd.transfer_len != 0 && data.len() != cmd.transfer_len as usize {
            return Err(ExchangeError::DataLengthMismatch);
        }
        match tokens.issue() {
            None => Err(ExchangeError::TokensExhausted),
            Some(t) => {
                let mut cmd = cmd;
                cmd.token = t;
                let header = cmd.to_bytes();
                let x = Exchange {
                    cmd: cmd,
                    data: data,
                    phase: ExchangePhase::SendCommand,
                    result: Vec::new(),
                };
                Ok((x, Action::BulkWrite(header)))
            },
        }
    }

    fn ack(&self) -> (r: Action)
        ensures
            r@ == ack_phase(self.cmd),
    {
        if self.cmd.reads() {
            let v: Vec<u8> = vec![0u8];
            assert(v@ =~= seq![0u8]);
            Action::BulkWrite(v)
        } else {
            Action::BulkRead(1)
        }
    }

    fn check_status(b: &[u8; 16]) -> (r: Result<(), ExchangeError>)
        ensures
            r == status_check(b@),
    {
        let reply = PicobootStatusCmd::decode(b);
        if reply.status_code > 17 {
            Err(ExchangeError::UnknownStatus(reply.status_code))
        } else {
            match crate::wire::PicobootCmdId::try_from(reply.cmd_id) {
                Err(_) => Err(ExchangeError::UnknownCommand(reply.cmd_id)),
                Ok(_) => Ok(()),
            }
        }
    }

    /// Takes the outcome of the last transfer and names the next one, as
    /// `transition` says.
    pub fn step(&mut self, event: Event) -> (r: Result<Action, ExchangeError>)
        ensures
            final(self).cmd == old(self).cmd,
            final(self).data@ == old(self).data@,
            final(self).state() == transition(old(self).cmd, old(self).data@, old(self).state(), event@).0,
            (match r {
                Ok(a) => Ok(a@),
                Err(e) => Err(e),
            }) == transition(old(self).cmd, old(self).data@, old(self).state(), event@).1,
    {
        let reads = self.cmd.reads();
        match self.phase {
            ExchangePhase::SendCommand => match event {
                Event::Wrote(n) => {
                    if n == 32 {
                        self.phase = ExchangePhase::CommandStatus;
                        Ok(Action::PollStatus)
                    } else {
                        self.phase = ExchangePhase::Failed;
                        Err(ExchangeError::WriteMismatch { expected: 32, actual: n })
                    }
                },
                _ => {
                    self.phase = ExchangePhase::Failed;
                    Err(ExchangeError::UnexpectedEvent)
                },
            },
            ExchangePhase::CommandStatus => match event {
                Event::Status(b) => match Self::check_status(&b) {
                    Err(e) => {
                        self.phase = ExchangePhase::Failed;
                        Err(e)
                    },
                    Ok(_) => {
                        if self.cmd.transfer_len == 0 {
                            self.phase = ExchangePhase::Ack;
                            Ok(self.ack())
                        } else {
                            self.phase = ExchangePhase::Data;
                            if reads {
                                Ok(Action::BulkRead(self.cmd.transfer_len as usize))
                            } else {
                                Ok(Action::BulkWrite(self.data.clone()))
                            }
                        }
                    },
                },
                _ => {
                    self.phase = ExchangePhase::Failed;
                    Err(ExchangeError::UnexpectedEvent)
                },
            },
            ExchangePhase::Data => match event {
                Event::ReadBytes(v) => {
                    if !reads {
                        self.phase = ExchangePhase::Failed;
                        Err(ExchangeError::UnexpectedEvent)
                    } else if v.len() == self.cmd.transfer_len as usize {
                        self.phase = ExchangePhase::DataStatus;
                        self.result = v;
                        Ok(Action::PollStatus)
                    } else {
                        self.phase = ExchangePhase::Failed;
                        Err(
                            ExchangeError::ReadMismatch {
                                expected: self.cmd.transfer_len as usize,
                                actual: v.len(),
                            },
                        )
                    }
                },
                Event::Wrote(n) => {
                    if reads {
                        self.phase = ExchangePhase::Failed;
                        Err(ExchangeError::UnexpectedEvent)
                    } else if n == self.data.len() {
                        self.phase = ExchangePhase::DataStatus;
                        Ok(Action::PollStatus)
                    } else {
                        self.phase = ExchangePhase::Failed;
                        Err(ExchangeError::WriteMismatch { expected: self.data.len(), actual: n })
                    }
                },
                _ => {
                    self.phase = ExchangePhase::Failed;
                    Err(ExchangeError::UnexpectedEvent)
                },
            },
            ExchangePhase::DataStatus => match event {
                Event::Status(b) => match Self::check_status(&b) {
                    Err(e) => {
                        self.phase = ExchangePhase::Failed;
                        Err(e)
                    },
                    Ok(_) => {
                        self.phase = ExchangePhase::Ack;
                        Ok(self.ack())
                    },
                },
                _ => {
                    self.phase = ExchangePhase::Failed;
                    Err(ExchangeError::UnexpectedEvent)
                },
            },
            ExchangePhase::Ack => {
                let acked = match event {
                    Event::Wrote(_) => reads,
                    Event::ReadBytes(_) => !reads,
                    Event::Status(_) => false,
                };
                if acked {
                    self.phase = ExchangePhase::Done;
                    Ok(Action::Finished(self.result.clone()))
                } else {
                    self.phase = ExchangePhase::Failed;
                    Err(ExchangeError::UnexpectedEvent)
                }
            },
            ExchangePhase::Done => Err(ExchangeError::UnexpectedEvent),
            ExchangePhase::Failed => Err(ExchangeError::UnexpectedEvent),
        }
    }
}

} // verus!
