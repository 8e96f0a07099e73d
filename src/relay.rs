use vstd::prelude::*;
use crate::client::{lemma_lines_delivered_in_order, sent_over};
use crate::failure::IoFailure;
use crate::handler::{lemma_reports_each_chunk, reports_over, HandlerReport, HandlerState};

verus! {

/// The bytes carried by the data reports of a run, concatenated in order.
pub open spec fn reported_bytes(reports: Seq<HandlerReport>) -> Seq<u8>
    decreases reports.len(),
{
    if reports.len() == 0 {
        Seq::empty()
    } else {
        let rest = reported_bytes(reports.drop_first());
        match reports.first() {
            HandlerReport::Report(_, data) => data + rest,
            _ => rest,
        }
    }
}

/// Whether every report of a run is a data report under this identity.
pub open spec fn all_reports_from(id: u64, reports: Seq<HandlerReport>) -> bool {
    forall|i: int|
        0 <= i < reports.len() ==> (#[trigger] reports[i] matches HandlerReport::Report(rid, _)
            && rid == id)
}

proof fn lemma_reported_bytes_of_chunks(id: u64, chunks: Seq<Seq<u8>>)
    ensures
        reported_bytes(chunks.map_values(|c: Seq<u8>| HandlerReport::Report(id, c)))
            == chunks.flatten(),
    decreases chunks.len(),
{
    if chunks.len() > 0 {
        let reports = chunks.map_values(|c: Seq<u8>| HandlerReport::Report(id, c));
        assert(reports.drop_first() =~= chunks.drop_first().map_values(
            |c: Seq<u8>| HandlerReport::Report(id, c),
        ));
        lemma_reported_bytes_of_chunks(id, chunks.drop_first());
    }
}

/// End to end: when a client session is handed N non-empty lines, each written
/// successfully, and the server's handler for that connection reads the same
/// bytes back in non-empty chunks, cut anywhere, then the handler reports every
/// byte the client sent, in order and nothing else, all under the connection's
/// identity, and is still reading.
pub proof fn lemma_lines_reach_server_intact(
    id: u64,
    lines: Seq<Seq<u8>>,
    chunks: Seq<Seq<u8>>,
)
    requires
        forall|i: int| 0 <= i < lines.len() ==> #[trigger] lines[i].len() > 0,
        forall|i: int| 0 <= i < chunks.len() ==> #[trigger] chunks[i].len() > 0,
        chunks.flatten() == sent_over(None, lines).flatten(),
    ensures
        ({
            let reads = chunks.map_values(|c: Seq<u8>| Ok::<Seq<u8>, IoFailure>(c));
            let reports = reports_over(HandlerState { id, open: true }, reads);
            &&& reported_bytes(reports) == lines.flatten()
            &&& all_reports_from(id, reports)
        }),
{
    lemma_lines_delivered_in_order(lines);
    lemma_reports_each_chunk(id, chunks);
    lemma_reported_bytes_of_chunks(id, chunks);
}

} // verus!
