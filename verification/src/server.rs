//! The socket server's per-event decisions. The transport reads one command
//! after another from a connection's byte stream and classifies each decode
//! outcome; this module decides, for every outcome, whether the connection
//! closes, a failure is answered on the spot, or a gateway call is made. The
//! loop around it writes exactly one response per decided reply.

use vstd::prelude::*;
use crate::args::Args;
use crate::dispatch::{field_ok, prepare, prepare_post};
use crate::codec::b64_decode;
use crate::error::{ErrorCode, NsmResponse};
use crate::gateway::GatewayRequest;

verus! {

/// One decode outcome on a connection: the stream ended (or failed as I/O),
/// the bytes were not a well-formed command, or a command was decoded.
pub enum DecodeEvent {
    EndOfStream,
    Malformed(String),
    Command(Args),
}

/// The decision for one decode outcome: close the connection, answer the
/// response at once, or send the request to the gateway and answer with the
/// interpreted reply.
pub enum ServerStep {
    Close,
    Respond(NsmResponse),
    Call(GatewayRequest, Args),
}

/// A command's arguments pass validation, and the command is meaningful over
/// the socket transport.
pub open spec fn command_valid(args: Args) -> bool {
    match args {
        Args::Attestation { nonce, public_key, user_data } => field_ok(nonce) && field_ok(
            public_key,
        ) && field_ok(user_data),
        Args::ExtendPCR { data, .. } => b64_decode(data@) is Some,
        Args::Server { .. } => false,
        _ => true,
    }
}

/// The decision taken for each decode outcome: end of stream closes the
/// connection; malformed bytes are answered as `InvalidArgument` under the
/// decoder's message, and the connection stays open; a decoded command is
/// sent onward exactly when it is valid here, else its validation failure is
/// answered, and the connection stays open either way.
pub open spec fn server_post(ev: DecodeEvent, step: ServerStep) -> bool {
    match ev {
        DecodeEvent::EndOfStream => step is Close,
        DecodeEvent::Malformed(m) => {
            &&& step matches ServerStep::Respond(resp)
            &&& resp.wf()
            &&& !resp.ok
            &&& resp.error matches Some(e)
            &&& e.code == ErrorCode::InvalidArgument
            &&& e.msg == m
        },
        DecodeEvent::Command(args) => {
            &&& step !is Close
            &&& (step is Call <==> command_valid(args))
            &&& (step matches ServerStep::Call(req, a) ==> a == args && prepare_post(
                args,
                Ok(req),
            ))
            &&& (step matches ServerStep::Respond(resp) ==> {
                &&& resp.wf()
                &&& !resp.ok
                &&& resp.error matches Some(e)
                &&& prepare_post(args, Err(e))
            })
        },
    }
}

/// Decides what one decode outcome leads to.
pub fn handle_event(ev: DecodeEvent) -> (step: ServerStep)
    ensures
        server_post(ev, step),
{
    match ev {
        DecodeEvent::EndOfStream => ServerStep::Close,
        DecodeEvent::Malformed(m) => ServerStep::Respond(
            NsmResponse {
                ok: false,
                error: Some(crate::error::Error { msg: m, code: ErrorCode::InvalidArgument }),
                value: None,
            },
        ),
        DecodeEvent::Command(args) => match prepare(&args) {
            Ok(req) => ServerStep::Call(req, args),
            Err(e) => ServerStep::Respond(NsmResponse::from(e)),
        },
    }
}

/// Law: a malformed message is answered, never dropped — the connection
/// stays open and exactly one `InvalidArgument` response comes back.
pub proof fn lemma_malformed_keeps_connection(ev: DecodeEvent, step: ServerStep)
    requires
        ev is Malformed,
        server_post(ev, step),
    ensures
        step !is Close,
        step matches ServerStep::Respond(resp) ==> !resp.ok && (resp.error matches Some(e)
            && e.code == ErrorCode::InvalidArgument),
        step is Respond,
{
}


/// Law: every decoded command is answered and never closes the connection —
/// the decision for a command is one reply, answered at once or after the
/// gateway call. Commands read back to back are thus answered one response
/// each, in reading order, by the loop that writes one response per step.
pub proof fn lemma_each_command_answered(ev: DecodeEvent, step: ServerStep)
    requires
        ev is Command,
        server_post(ev, step),
    ensures
        step !is Close,
        step is Respond || step is Call,
{
}

} // verus!
