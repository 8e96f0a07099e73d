use vstd::prelude::*;
use crate::failure::{IoFailure, EXIT_FAILURE, EXIT_OK};

verus! {

/// Why a client session ended.
#[derive(Clone, Copy, Debug, PartialEq, Eq, Structural)]
pub enum ExitReason {
    /// The operator's input reached its end.
    EndOfInput,
    /// The server reset the connection.
    ConnectionLost,
    /// Writing to the connection failed in another way.
    WriteFailed,
}

impl ExitReason {
    /// The status the client process exits with for this reason.
    pub fn exit_code(&self) -> (r: i32)
        ensures
            *self == ExitReason::EndOfInput ==> r == EXIT_OK,
            *self != ExitReason::EndOfInput ==> r == EXIT_FAILURE,
    {
        match self {
            ExitReason::EndOfInput => EXIT_OK,
            _ => EXIT_FAILURE,
        }
    }
}

/// What the client does next.
#[derive(Debug)]
pub enum ClientAction {
    /// Write these bytes to the connection and flush it.
    Send(Vec<u8>),
    /// Wait for the next line of operator input.
    ReadLine,
    /// End the process for this reason.
    Exit(ExitReason),
}

/// A client action as a mathematical value.
pub enum ClientStep {
    Send(Seq<u8>),
    ReadLine,
    Exit(ExitReason),
}

impl View for ClientAction {
    type V = ClientStep;

    open spec fn view(&self) -> ClientStep {
        match self {
            ClientAction::Send(bytes) => ClientStep::Send(bytes@),
            ClientAction::ReadLine => ClientStep::ReadLine,
            ClientAction::Exit(reason) => ClientStep::Exit(*reason),
        }
    }
}

/// The session's state after a line of input: `None` while it runs, the reason
/// once it has ended. An empty line is the end of the operator's input.
pub open spec fn input_next(s: Option<ExitReason>, line: Seq<u8>) -> Option<ExitReason> {
    if s.is_some() {
        s
    } else if line.len() == 0 {
        Some(ExitReason::EndOfInput)
    } else {
        None
    }
}

/// What the session does with a line of input: it sends the line as it stands,
/// terminator included.
pub open spec fn input_step(s: Option<ExitReason>, line: Seq<u8>) -> ClientStep {
    match s {
        Some(reason) => ClientStep::Exit(reason),
        None => if line.len() == 0 {
            ClientStep::Exit(ExitReason::EndOfInput)
        } else {
            ClientStep::Send(line)
        },
    }
}

/// The session's state after a write to the connection.
pub open spec fn write_next(s: Option<ExitReason>, r: Result<(), IoFailure>) -> Option<ExitReason> {
    if s.is_some() {
        s
    } else {
        match r {
            Ok(_) => None,
            Err(IoFailure::ConnectionReset) => Some(ExitReason::ConnectionLost),
            Err(_) => Some(ExitReason::WriteFailed),
        }
    }
}

/// What the session does after a write to the connection.
pub open spec fn write_step(s: Option<ExitReason>, r: Result<(), IoFailure>) -> ClientStep {
    match write_next(s, r) {
        Some(reason) => ClientStep::Exit(reason),
        None => ClientStep::ReadLine,
    }
}

/// The session's state after each line of a run is read and written successfully.
pub open spec fn state_after_lines(s: Option<ExitReason>, lines: Seq<Seq<u8>>) -> Option<
    ExitReason,
>
    decreases lines.len(),
{
    if lines.len() == 0 {
        s
    } else {
        write_next(input_next(state_after_lines(s, lines.drop_last()), lines.last()), Ok(()))
    }
}

/// The bytes the session writes over a run of lines, one entry per write.
pub open spec fn sent_over(s: Option<ExitReason>, lines: Seq<Seq<u8>>) -> Seq<Seq<u8>>
    decreases lines.len(),
{
    if lines.len() == 0 {
        Seq::empty()
    } else {
        let earlier = sent_over(s, lines.drop_last());
        match input_step(state_after_lines(s, lines.drop_last()), lines.last()) {
            ClientStep::Send(bytes) => earlier.push(bytes),
            _ => earlier,
        }
    }
}

/// Relays lines of operator input to one connection.
pub struct ClientSession {
    ended: Option<ExitReason>,
}

impl View for ClientSession {
    type V = Option<ExitReason>;

    /// `None` while the session runs; why it ended, once it has.
    closed spec fn view(&self) -> Option<ExitReason> {
        self.ended
    }
}

impl ClientSession {
    /// A session on a freshly made connection.
    pub fn new() -> (r: ClientSession)
        ensures
            r@ is None,
    {
        ClientSession { ended: None }
    }

    /// Why the session ended, if it has.
    pub fn ended(&self) -> (r: Option<ExitReason>)
        ensures
            r == self@,
    {
        self.ended
    }

    /// Decides what to do with one line of operator input, as read with its
    /// terminator; an empty line means the input has ended.
    pub fn on_input(&mut self, line: Vec<u8>) -> (a: ClientAction)
        ensures
            final(self)@ == input_next(old(self)@, line@),
            a@ == input_step(old(self)@, line@),
    {
        if let Some(reason) = self.ended {
            return ClientAction::Exit(reason);
        }
        if line.len() == 0 {
            self.ended = Some(ExitReason::EndOfInput);
            ClientAction::Exit(ExitReason::EndOfInput)
        } else {
            ClientAction::Send(line)
        }
    }

    /// Decides what to do once a write and flush to the connection returned.
    pub fn on_write(&mut self, r: Result<(), IoFailure>) -> (a: ClientAction)
        ensures
            final(self)@ == write_next(old(self)@, r),
            a@ == write_step(old(self)@, r),
    {
        if self.ended.is_none() {
            match r {
                Ok(_) => {},
                Err(IoFailure::ConnectionReset) => {
                    self.ended = Some(ExitReason::ConnectionLost);
                },
                Err(_) => {
                    self.ended = Some(ExitReason::WriteFailed);
                },
            }
        }
        match self.ended {
            Some(reason) => ClientAction::Exit(reason),
            None => ClientAction::ReadLine,
        }
    }
}

/// A running session handed N non-empty lines, each written successfully,
/// makes exactly N writes: the i-th carries the i-th line byte for byte, and
/// the session is still running afterwards.
pub proof fn lemma_lines_delivered_in_order(lines: Seq<Seq<u8>>)
    requires
        forall|i: int| 0 <= i < lines.len() ==> #[trigger] lines[i].len() > 0,
    ensures
        state_after_lines(None, lines) is None,
        sent_over(None, lines) == lines,
    decreases lines.len(),
{
    if lines.len() > 0 {
        let prefix = lines.drop_last();
        assert forall|i: int| 0 <= i < prefix.len() implies #[trigger] prefix[i].len() > 0 by {
            assert(prefix[i] == lines[i]);
        }
        lemma_lines_delivered_in_order(prefix);
        assert(lines[lines.len() - 1].len() > 0);
        assert(sent_over(None, lines) =~= lines);
    }
}

} // verus!
