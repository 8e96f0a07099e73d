//! Decision logic of a two-process text relay over a byte stream.
//!
//! The server accepts connections, numbers them in acceptance order and hands
//! each to a handler of its own that reports the bytes that arrive. The client
//! forwards lines of operator input to one connection. Everything that touches
//! sockets, threads, signals or the terminal lives with the caller: this crate
//! holds the rules that decide what happens next, each stated as a contract.
mod client;
mod failure;
mod handler;
mod listener;
mod port;
mod relay;

pub use client::{
    input_next, input_step, lemma_lines_delivered_in_order, sent_over, state_after_lines,
    write_next, write_step, ClientAction, ClientSession, ClientStep, ExitReason,
};
pub use failure::{
    classify_bind_failure, classify_connect_failure, IoFailure, StartupError, EXIT_FAILURE, EXIT_OK,
};
pub use handler::{
    lemma_reports_each_chunk, lemma_stopped_handler_stays_stopped, read_next, read_report,
    read_view, reports_over, state_after, ConnectionHandler, HandlerAction, HandlerReport,
    HandlerState,
};
pub use listener::{
    accept_action, accept_next, accepted_count, actions_of, dispatched, issued_after,
    lemma_identities_in_acceptance_order, AcceptOutcome, Listener, ListenerAction,
};
pub use port::{
    all_digits, decimal_value, is_digit, is_port_text, parse_port, port_argument, PortError,
    DIGIT_NINE, DIGIT_ZERO, MAX_PORT,
};
pub use relay::{all_reports_from, lemma_lines_reach_server_intact, reported_bytes};
