//! What counts as a successful send.
//!
//! A probe goes out either through the node's own client or as a JSON-RPC
//! request to an endpoint of the caller's choice. The second way answers
//! with a document, and whether that answer means success is decided here.

use vstd::prelude::*;

verus! {

/// How the node is asked to treat a probe.
#[derive(Clone, Copy, Debug, PartialEq, Eq)]
pub struct SendConfig {
    /// Whether the node skips its own simulation of the transaction.
    pub skip_preflight: bool,
    /// How often the node itself sends the transaction again.
    pub max_retries: Option<usize>,
}

/// The configuration of every probe: no simulation, and no retry by the
/// node, because the cycle sends again on its own.
pub fn probe_send_config() -> (config: SendConfig)
    ensures
        config.skip_preflight,
        config.max_retries == Some(0usize),
{
    SendConfig { skip_preflight: true, max_retries: Some(0) }
}

/// The document in an answer, as far as it matters.
#[derive(Clone, Debug, PartialEq, Eq)]
pub struct RpcReply {
    /// Whether the document has an `error` member.
    pub has_error: bool,
    /// The `result` member, where it is a string.
    pub result: Option<String>,
}

/// The answer to a send request.
#[derive(Clone, Debug, PartialEq, Eq)]
pub struct SendReply {
    /// The HTTP status.
    pub status: u16,
    /// The document, where the body was one.
    pub body: Option<RpcReply>,
}

/// Why an answer does not mean success.
#[derive(Clone, Copy, Debug, PartialEq, Eq, Structural)]
pub enum SendFailure {
    /// The status is outside 200 to 299.
    HttpStatus(u16),
    /// The body is no JSON document.
    MalformedBody,
    /// The document reports an error.
    RpcError,
    /// The document does not return the id of the probe.
    IdMismatch,
}

/// Whether an HTTP status means success.
pub open spec fn status_ok(status: u16) -> bool {
    200 <= status < 300
}

/// Whether the document returns the id `expected`.
pub open spec fn echoes(reply: RpcReply, expected: Seq<char>) -> bool {
    reply.result matches Some(id) && id@ == expected
}

/// The verdict on an answer: the first of the four failures that applies, in
/// the order in which they are listed, or success.
pub open spec fn send_verdict(reply: SendReply, expected: Seq<char>) -> Result<(), SendFailure> {
    if !status_ok(reply.status) {
        Err(SendFailure::HttpStatus(reply.status))
    } else {
        match reply.body {
            None => Err(SendFailure::MalformedBody),
            Some(document) => {
                if document.has_error {
                    Err(SendFailure::RpcError)
                } else if !echoes(document, expected) {
                    Err(SendFailure::IdMismatch)
                } else {
                    Ok(())
                }
            },
        }
    }
}

/// Decides whether the answer `reply` means that the probe `expected_id`
/// was accepted. It was exactly when the status is a success, the body is a
/// document without an error, and the document returns that id.
pub fn check_send_reply(reply: &SendReply, expected_id: &String) -> (verdict: Result<
    (),
    SendFailure,
>)
    ensures
        verdict == send_verdict(*reply, expected_id@),
        verdict is Ok <==> {
            &&& status_ok(reply.status)
            &&& reply.body matches Some(document)
            &&& !document.has_error
            &&& echoes(document, expected_id@)
        },
{
    if reply.status < 200 || reply.status >= 300 {
        return Err(SendFailure::HttpStatus(reply.status));
    }
    match &reply.body {
        None => Err(SendFailure::MalformedBody),
        Some(document) => {
            if document.has_error {
                Err(SendFailure::RpcError)
            } else {
                match &document.result {
                    Some(id) => {
                        if *id == *expected_id {
                            Ok(())
                        } else {
                            Err(SendFailure::IdMismatch)
                        }
                    },
                    None => Err(SendFailure::IdMismatch),
                }
            }
        },
    }
}

} // verus!
