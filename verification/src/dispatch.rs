//! Exactly-once delivery of a received ticket to its configured destination.
//!
//! A ticket goes either to a remote verification endpoint — a single POST
//! carrying `email` and `authTicket` (the lowercase hex of the bytes) as
//! query parameters, success if and only if the status is 200 — or to a
//! local file holding the hex string and a terminating newline. The POST and
//! the file write themselves are the binary's I/O; what is sent, how the
//! answer is judged, and what the process does next are decided here.

use vstd::prelude::*;
use crate::hex;

verus! {

/// Where the ticket is to be delivered. Exactly one variant is active,
/// chosen from the flags before the acquisition loop begins.
#[derive(Debug)]
pub enum DispatchTarget {
    /// POST the hex-encoded ticket to `url` with `email` alongside.
    RemotePost { url: String, email: String },
    /// Write the hex-encoded ticket to the file at `path`.
    LocalFile { path: String },
}

/// How a dispatch attempt left the process.
#[derive(PartialEq, Eq, Structural, Debug)]
pub enum DispatchOutcome {
    /// The ticket reached its destination and the process ends at once,
    /// successfully.
    DeliveredTerminate,
    /// The ticket was written; the provider session stays open.
    DeliveredContinue,
    /// Nothing was delivered; the provider session stays open.
    SkippedContinue,
}

/// A failed remote delivery. Delivering a one-time ticket must not be
/// silently retried, so this is fatal to the process.
#[derive(PartialEq, Eq, Structural, Debug)]
pub enum DispatchError {
    /// The endpoint answered with a status other than 200.
    RemoteStatus(u16),
}

/// The single POST that delivers a ticket remotely: the target URL and the
/// two query parameters it carries. The request has no body.
pub struct PostRequest {
    pub url: String,
    pub email: String,
    /// Lowercase hex of the ticket bytes, ASCII.
    pub auth_ticket_hex: Vec<u8>,
}

/// Assemble the remote delivery request for a ticket.
pub fn build_post_request(url: String, email: String, ticket: &Vec<u8>) -> (r: PostRequest)
    ensures
        r.url@ == url@,
        r.email@ == email@,
        r.auth_ticket_hex@ == hex::hex_of(ticket@),
{
    let auth_ticket_hex = hex::hex_encode(ticket);
    PostRequest { url, email, auth_ticket_hex }
}

/// Judge the endpoint's answer: only status 200 counts as a delivered
/// ticket, and success ends the process at once; any other status is a
/// hard error.
pub fn remote_outcome(status: u16) -> (r: Result<DispatchOutcome, DispatchError>)
    ensures
        status == 200 ==> r == Ok::<DispatchOutcome, DispatchError>(
            DispatchOutcome::DeliveredTerminate,
        ),
        status != 200 ==> r == Err::<DispatchOutcome, DispatchError>(
            DispatchError::RemoteStatus(status),
        ),
{
    if status == 200 {
        Ok(DispatchOutcome::DeliveredTerminate)
    } else {
        Err(DispatchError::RemoteStatus(status))
    }
}

/// The exact bytes of the persisted artifact: the lowercase hex of the
/// ticket, terminated by a newline.
pub fn file_line(ticket: &Vec<u8>) -> (r: Vec<u8>)
    ensures
        r@ == hex::hex_of(ticket@) + seq![0x0au8],
{
    let mut line = hex::hex_encode(ticket);
    line.push(0x0a);
    assert(line@ =~= hex::hex_of(ticket@) + seq![0x0au8]);
    line
}

/// After a file-write attempt: a successful write with the immediate-exit
/// flag ends the process; otherwise — success or reported failure — the
/// session tail follows.
pub fn file_outcome(write_ok: bool, exit_after_write: bool) -> (r: DispatchOutcome)
    ensures
        write_ok && exit_after_write ==> r is DeliveredTerminate,
        write_ok && !exit_after_write ==> r is DeliveredContinue,
        !write_ok ==> r is SkippedContinue,
{
    if write_ok {
        if exit_after_write {
            DispatchOutcome::DeliveredTerminate
        } else {
            DispatchOutcome::DeliveredContinue
        }
    } else {
        DispatchOutcome::SkippedContinue
    }
}

/// The one place that consumes the dispatch outcome: every outcome but an
/// immediate termination falls through to the keep-alive session tail.
pub fn should_enter_session_tail(outcome: &DispatchOutcome) -> (r: bool)
    ensures
        r == !(outcome is DeliveredTerminate),
{
    match outcome {
        DispatchOutcome::DeliveredTerminate => false,
        DispatchOutcome::DeliveredContinue => true,
        DispatchOutcome::SkippedContinue => true,
    }
}

} // verus!
