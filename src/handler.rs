use vstd::prelude::*;
use crate::failure::IoFailure;

verus! {

/// What a handler does after one read from its connection.
#[derive(Debug)]
pub enum HandlerAction {
    /// Report these bytes as received from the connection with this identity,
    /// then read again.
    Report { id: u64, data: Vec<u8> },
    /// Report that the connection with this identity was lost, then stop.
    Lost { id: u64 },
    /// Report the transport error of the connection with this identity, then stop.
    Fail { id: u64 },
    /// Stop without a report.
    Finish,
}

/// A handler action as a mathematical value.
pub enum HandlerReport {
    Report(u64, Seq<u8>),
    Lost(u64),
    Fail(u64),
    Finish,
}

impl View for HandlerAction {
    type V = HandlerReport;

    open spec fn view(&self) -> HandlerReport {
        match self {
            HandlerAction::Report { id, data } => HandlerReport::Report(*id, data@),
            HandlerAction::Lost { id } => HandlerReport::Lost(*id),
            HandlerAction::Fail { id } => HandlerReport::Fail(*id),
            HandlerAction::Finish => HandlerReport::Finish,
        }
    }
}

/// The state of a handler: the identity of its connection, and whether it
/// still reads from it.
#[derive(Clone, Copy, Debug, PartialEq, Eq, Structural)]
pub struct HandlerState {
    pub id: u64,
    pub open: bool,
}

/// What one read returned, as a mathematical value.
pub open spec fn read_view(r: Result<Vec<u8>, IoFailure>) -> Result<Seq<u8>, IoFailure> {
    match r {
        Ok(data) => Ok(data@),
        Err(kind) => Err(kind),
    }
}

/// The handler's state after a read.
pub open spec fn read_next(s: HandlerState, r: Result<Seq<u8>, IoFailure>) -> HandlerState {
    if !s.open {
        s
    } else {
        match r {
            Ok(data) => if data.len() == 0 {
                HandlerState { id: s.id, open: false }
            } else {
                s
            },
            Err(_) => HandlerState { id: s.id, open: false },
        }
    }
}

/// What the handler does after a read: an empty read is the peer's clean close,
/// a reset is a lost connection, any other error ends the handler with a report.
pub open spec fn read_report(s: HandlerState, r: Result<Seq<u8>, IoFailure>) -> HandlerReport {
    if !s.open {
        HandlerReport::Finish
    } else {
        match r {
            Ok(data) => if data.len() == 0 {
                HandlerReport::Finish
            } else {
                HandlerReport::Report(s.id, data)
            },
            Err(IoFailure::ConnectionReset) => HandlerReport::Lost(s.id),
            Err(_) => HandlerReport::Fail(s.id),
        }
    }
}

/// The handler's state after a run of reads.
pub open spec fn state_after(s: HandlerState, reads: Seq<Result<Seq<u8>, IoFailure>>) -> HandlerState
    decreases reads.len(),
{
    if reads.len() == 0 {
        s
    } else {
        read_next(state_after(s, reads.drop_last()), reads.last())
    }
}

/// The reports made over a run of reads, one per read.
pub open spec fn reports_over(s: HandlerState, reads: Seq<Result<Seq<u8>, IoFailure>>) -> Seq<
    HandlerReport,
>
    decreases reads.len(),
{
    if reads.len() == 0 {
        Seq::empty()
    } else {
        reports_over(s, reads.drop_last()).push(
            read_report(state_after(s, reads.drop_last()), reads.last()),
        )
    }
}

/// Consumes one connection: reports what each read returned under the
/// connection's identity, until the connection closes or fails.
pub struct ConnectionHandler {
    id: u64,
    open: bool,
}

impl View for ConnectionHandler {
    type V = HandlerState;

    closed spec fn view(&self) -> HandlerState {
        HandlerState { id: self.id, open: self.open }
    }
}

impl ConnectionHandler {
    /// A handler for a newly accepted connection with this identity.
    pub fn new(id: u64) -> (r: ConnectionHandler)
        ensures
            r@ == (HandlerState { id, open: true }),
    {
        ConnectionHandler { id, open: true }
    }

    /// The identity of the handler's connection.
    pub fn id(&self) -> (r: u64)
        ensures
            r == self@.id,
    {
        self.id
    }

    /// Whether the handler still reads from its connection.
    pub fn is_open(&self) -> (r: bool)
        ensures
            r == self@.open,
    {
        self.open
    }

    /// Decides what to do with the result of one read. Once the handler has
    /// stopped it stays stopped and reports nothing more.
    pub fn on_read(&mut self, r: Result<Vec<u8>, IoFailure>) -> (a: HandlerAction)
        ensures
            final(self)@ == read_next(old(self)@, read_view(r)),
            a@ == read_report(old(self)@, read_view(r)),
    {
        if !self.open {
            return HandlerAction::Finish;
        }
        match r {
            Ok(data) => {
                if data.len() == 0 {
                    self.open = false;
                    HandlerAction::Finish
                } else {
                    HandlerAction::Report { id: self.id, data }
                }
            },
            Err(IoFailure::ConnectionReset) => {
                self.open = false;
                HandlerAction::Lost { id: self.id }
            },
            Err(_) => {
                self.open = false;
                HandlerAction::Fail { id: self.id }
            },
        }
    }
}

/// An open handler that reads a run of non-empty chunks reports each chunk,
/// byte for byte and in order, under its own identity, and stays open: what
/// is reported is exactly what arrived, cut where the reads cut it.
pub proof fn lemma_reports_each_chunk(id: u64, chunks: Seq<Seq<u8>>)
    requires
        forall|i: int| 0 <= i < chunks.len() ==> #[trigger] chunks[i].len() > 0,
    ensures
        ({
            let reads = chunks.map_values(|c: Seq<u8>| Ok::<Seq<u8>, IoFailure>(c));
            let start = HandlerState { id, open: true };
            &&& state_after(start, reads) == start
            &&& reports_over(start, reads) == chunks.map_values(
                |c: Seq<u8>| HandlerReport::Report(id, c),
            )
        }),
    decreases chunks.len(),
{
    let reads = chunks.map_values(|c: Seq<u8>| Ok::<Seq<u8>, IoFailure>(c));
    let start = HandlerState { id, open: true };
    if chunks.len() > 0 {
        let prefix = chunks.drop_last();
        assert forall|i: int| 0 <= i < prefix.len() implies #[trigger] prefix[i].len() > 0 by {
            assert(prefix[i] == chunks[i]);
        }
        lemma_reports_each_chunk(id, prefix);
        assert(reads.drop_last() =~= prefix.map_values(|c: Seq<u8>| Ok::<Seq<u8>, IoFailure>(c)));
        assert(chunks[chunks.len() - 1].len() > 0);
        assert(reports_over(start, reads) =~= chunks.map_values(
            |c: Seq<u8>| HandlerReport::Report(id, c),
        ));
    }
}

/// Once a handler has stopped, whatever it is handed leaves it stopped with
/// the same identity, and it reports nothing more.
pub proof fn lemma_stopped_handler_stays_stopped(
    s: HandlerState,
    reads: Seq<Result<Seq<u8>, IoFailure>>,
)
    requires
        !s.open,
    ensures
        state_after(s, reads) == s,
        reports_over(s, reads).len() == reads.len(),
        forall|i: int| 0 <= i < reads.len() ==> #[trigger] reports_over(s, reads)[i]
            == HandlerReport::Finish,
    decreases reads.len(),
{
    if reads.len() > 0 {
        lemma_stopped_handler_stays_stopped(s, reads.drop_last());
        let prior = reports_over(s, reads.drop_last());
        assert forall|i: int| 0 <= i < reads.len() implies #[trigger] reports_over(s, reads)[i]
            == HandlerReport::Finish by {
            if i < reads.len() - 1 {
                assert(reports_over(s, reads)[i] == prior[i]);
            }
        }
    }
}

} // verus!
