//! Argument validation and the dispatcher: each command maps to exactly one
//! gateway request, and every gateway reply is classified one of three ways —
//! the expected success shape, a reported error code carried through under a
//! command-specific static message, or an unexpected shape answered as
//! `InvalidResponse` under the same static message.

use vstd::prelude::*;
use crate::args::Args;
use crate::codec::{b64_decode, b64_encode, decode_b64url, encode_b64url};
use crate::description::{NsmDescription, describe_json, description_json, pad_locked_pcrs, pad_module_id};
use crate::error::{Error, ErrorCode, NsmResponse, NsmResult, ok};
use crate::gateway::{GatewayReply, GatewayRequest};

verus! {

/// The message rejecting one base64url field.
pub open spec fn invalid_field_msg(name: Seq<char>) -> Seq<char> {
    "Invalid "@ + name + " string"@
}

/// The result is a success envelope carrying exactly the text `v`.
pub open spec fn is_ok_value(r: NsmResult<NsmResponse>, v: Seq<char>) -> bool {
    &&& r matches Ok(resp)
    &&& resp.wf()
    &&& resp.ok
    &&& resp.value matches Some(s) && s@ == v
}

/// The result is the failure carrying `code` under the message `msg`.
pub open spec fn is_failure(r: NsmResult<NsmResponse>, code: ErrorCode, msg: Seq<char>) -> bool {
    r matches Err(e) && e.code == code && e.msg@ == msg
}

/// The request builder failed with `code` under the message `msg`.
pub open spec fn is_req_failure(r: Result<GatewayRequest, Error>, code: ErrorCode, msg: Seq<char>) -> bool {
    r matches Err(e) && e.code == code && e.msg@ == msg
}

/// The message rejecting one base64url field.
fn invalid_field_message(name: &str) -> (r: String)
    ensures
        r@ == invalid_field_msg(name@),
{
    let mut m = String::from_str("Invalid ");
    m.append(name);
    m.append(" string");
    m
}

/// What checking one optional base64url field leaves behind: an absent field
/// is left alone; text decoding to nothing is normalized to absent; text
/// decoding to bytes stores them; text outside base64url is rejected as
/// `InvalidArgument` under a message naming the field.
pub open spec fn checked_field(
    prior: Option<Vec<u8>>,
    a: Option<String>,
    stored: Option<Vec<u8>>,
    r: NsmResult<()>,
    name: Seq<char>,
) -> bool {
    match a {
        Option::None => r is Ok && stored == prior,
        Option::Some(s) => match b64_decode(s@) {
            Option::Some(b) => r is Ok && if b.len() > 0 {
                stored matches Some(w) && w@ == b
            } else {
                stored == prior
            },
            Option::None => {
                &&& r matches Err(e)
                &&& e.code == ErrorCode::InvalidArgument
                &&& e.msg@ == invalid_field_msg(name)
                &&& stored == prior
            },
        },
    }
}

/// Validates one optional base64url argument into `v`.
pub fn check_b64_arg(v: &mut Option<Vec<u8>>, a: &Option<String>, name: &str) -> (r: NsmResult<()>)
    ensures
        checked_field(*old(v), *a, *final(v), r, name@),
{
    match a {
        Option::None => Ok(()),
        Option::Some(s) => match decode_b64url(s.as_str()) {
            Option::Some(buf) => {
                if buf.len() > 0 {
                    *v = Some(buf);
                }
                Ok(())
            },
            Option::None => Err(
                Error { msg: invalid_field_message(name), code: ErrorCode::InvalidArgument },
            ),
        },
    }
}

/// The field's text, if present, is valid base64url.
pub open spec fn field_ok(a: Option<String>) -> bool {
    a matches Some(s) ==> b64_decode(s@) is Some
}

/// What an attestation field contributes to the outbound request: absent or
/// decoding to nothing means omitted; otherwise the decoded bytes.
pub open spec fn field_sent(a: Option<String>, f: Option<Vec<u8>>) -> bool {
    match a {
        Option::None => f is None,
        Option::Some(s) => match b64_decode(s@) {
            Option::Some(b) => if b.len() > 0 {
                f matches Some(w) && w@ == b
            } else {
                f is None
            },
            Option::None => false,
        },
    }
}

/// The outcome of validating an attestation command: the request is built
/// exactly when every present field is valid base64url; the first invalid
/// field, in the order nonce, public key, user data, fails the whole command
/// as `InvalidArgument` under a message naming that field.
pub open spec fn attestation_post(
    n: Option<String>,
    pk: Option<String>,
    ud: Option<String>,
    r: Result<GatewayRequest, Error>,
) -> bool {
    &&& (r is Ok <==> field_ok(n) && field_ok(pk) && field_ok(ud))
    &&& (r matches Ok(req) ==> {
        &&& req matches GatewayRequest::Attestation { user_data, nonce, public_key }
        &&& field_sent(n, nonce)
        &&& field_sent(pk, public_key)
        &&& field_sent(ud, user_data)
    })
    &&& (!field_ok(n) ==> is_req_failure(
        r,
        ErrorCode::InvalidArgument,
        invalid_field_msg("nonce"@),
    ))
    &&& (field_ok(n) && !field_ok(pk) ==> is_req_failure(
        r,
        ErrorCode::InvalidArgument,
        invalid_field_msg("public key"@),
    ))
    &&& (field_ok(n) && field_ok(pk) && !field_ok(ud) ==> is_req_failure(
        r,
        ErrorCode::InvalidArgument,
        invalid_field_msg("user data"@),
    ))
}

/// Validates the three optional attestation fields and builds the outbound
/// request, omitting absent or empty fields.
pub fn attestation_request(
    n: &Option<String>,
    pk: &Option<String>,
    ud: &Option<String>,
) -> (r: Result<GatewayRequest, Error>)
    ensures
        attestation_post(*n, *pk, *ud, r),
{
    let mut nonce: Option<Vec<u8>> = None;
    match check_b64_arg(&mut nonce, n, "nonce") {
        Err(e) => {
            return Err(e);
        },
        Ok(()) => {},
    }
    let mut public_key: Option<Vec<u8>> = None;
    match check_b64_arg(&mut public_key, pk, "public key") {
        Err(e) => {
            return Err(e);
        },
        Ok(()) => {},
    }
    let mut user_data: Option<Vec<u8>> = None;
    match check_b64_arg(&mut user_data, ud, "user data") {
        Err(e) => {
            return Err(e);
        },
        Ok(()) => {},
    }
    Ok(GatewayRequest::Attestation { user_data, nonce, public_key })
}

/// The outcome of validating a register-extension command: the request is
/// built exactly when the data is valid base64url, and carries its decoded
/// bytes unchanged, empty or not.
pub open spec fn extend_post(index: u16, d: Seq<char>, r: Result<GatewayRequest, Error>) -> bool {
    match b64_decode(d) {
        Option::Some(b) => {
            &&& r matches Ok(req)
            &&& req matches GatewayRequest::ExtendPCR { index: i, data }
            &&& i == index
            &&& data@ == b
        },
        Option::None => is_req_failure(r, ErrorCode::InvalidArgument, "Invalid data supplied"@),
    }
}

/// Validates the data of a register-extension command and builds the
/// outbound request.
pub fn extend_pcr_request(index: u16, data: &str) -> (r: Result<GatewayRequest, Error>)
    ensures
        extend_post(index, data@, r),
{
    match decode_b64url(data) {
        Option::Some(buf) => Ok(GatewayRequest::ExtendPCR { index, data: buf }),
        Option::None => Err(
            Error {
                msg: String::from_str("Invalid data supplied"),
                code: ErrorCode::InvalidArgument,
            },
        ),
    }
}

/// The request each command maps to, once its arguments pass validation; the
/// lifecycle-only command maps to no request and is rejected as
/// `InvalidOperation`.
pub open spec fn prepare_post(args: Args, r: Result<GatewayRequest, Error>) -> bool {
    match args {
        Args::Rand { .. } => r matches Ok(req) && req is GetRandom,
        Args::Attestation { nonce, public_key, user_data } => attestation_post(
            nonce,
            public_key,
            user_data,
            r,
        ),
        Args::ExtendPCR { index, data } => extend_post(index, data@, r),
        Args::DescribePCR { index } => r matches Ok(req) && req matches GatewayRequest::DescribePCR
            { index: i } && i == index,
        Args::LockPCR { index } => r matches Ok(req) && req matches GatewayRequest::LockPCR {
            index: i } && i == index,
        Args::LockPCRS { range } => r matches Ok(req) && req matches GatewayRequest::LockPCRs {
            range: g } && g == range,
        Args::DescribeNSM => r matches Ok(req) && req is DescribeNSM,
        Args::Server { .. } => is_req_failure(r, ErrorCode::InvalidOperation, "Invalid request"@),
    }
}

/// Maps a command to the single gateway request it stands for, validating
/// its arguments first.
pub fn prepare(args: &Args) -> (r: Result<GatewayRequest, Error>)
    ensures
        prepare_post(*args, r),
{
    match args {
        Args::Rand { .. } => Ok(GatewayRequest::GetRandom),
        Args::Attestation { nonce, public_key, user_data } => attestation_request(
            nonce,
            public_key,
            user_data,
        ),
        Args::ExtendPCR { index, data } => extend_pcr_request(*index, data.as_str()),
        Args::DescribePCR { index } => Ok(GatewayRequest::DescribePCR { index: *index }),
        Args::LockPCR { index } => Ok(GatewayRequest::LockPCR { index: *index }),
        Args::LockPCRS { range } => Ok(GatewayRequest::LockPCRs { range: *range }),
        Args::DescribeNSM => Ok(GatewayRequest::DescribeNSM),
        Args::Server { .. } => Err(
            Error { msg: String::from_str("Invalid request"), code: ErrorCode::InvalidOperation },
        ),
    }
}


/// The static message each command fails under: gateway-reported errors and
/// unexpected reply shapes both surface it, never the gateway's own text.
pub open spec fn command_msg(args: Args) -> Seq<char> {
    match args {
        Args::Rand { .. } => "Unable to read random bytes"@,
        Args::Attestation { .. } => "Unable to generate attestation document"@,
        Args::ExtendPCR { .. } => "Unable to extend pcr"@,
        Args::LockPCR { .. } => "Unable to lock pcr"@,
        Args::LockPCRS { .. } => "Unable to lock pcrs"@,
        Args::DescribePCR { .. } => "Unable to describe pcr"@,
        Args::DescribeNSM => "Unable to describe nsm"@,
        Args::Server { .. } => "Invalid request"@,
    }
}

/// Interprets the gateway's reply to an attestation request: the document is
/// answered base64url-encoded; anything else fails under the command's
/// static message.
pub fn nsm_get_attestation_doc(reply: GatewayReply) -> (r: NsmResult<NsmResponse>)
    ensures
        reply matches GatewayReply::Attestation { document } ==> is_ok_value(
            r,
            b64_encode(document@),
        ),
        reply matches GatewayReply::Error(code) ==> is_failure(
            r,
            code,
            "Unable to generate attestation document"@,
        ),
        reply !is Attestation && reply !is Error ==> is_failure(
            r,
            ErrorCode::InvalidResponse,
            "Unable to generate attestation document"@,
        ),
{
    match reply {
        GatewayReply::Attestation { document } => Ok(ok(encode_b64url(document.as_slice()))),
        GatewayReply::Error(err) => Err(
            Error {
                msg: String::from_str("Unable to generate attestation document"),
                code: err,
            },
        ),
        _ => Err(
            Error {
                msg: String::from_str("Unable to generate attestation document"),
                code: ErrorCode::InvalidResponse,
            },
        ),
    }
}

/// Interprets the gateway's reply to a random-bytes request: the first
/// `number` bytes of the gateway's buffer are answered base64url-encoded.
/// Keeping `number` within the buffer is the caller's charge.
pub fn nsm_get_random(number: u8, reply: GatewayReply) -> (r: NsmResult<NsmResponse>)
    requires
        reply matches GatewayReply::GetRandom { random } ==> number as int <= random@.len(),
    ensures
        reply matches GatewayReply::GetRandom { random } ==> is_ok_value(
            r,
            b64_encode(random@.take(number as int)),
        ),
        reply matches GatewayReply::Error(code) ==> is_failure(
            r,
            code,
            "Unable to read random bytes"@,
        ),
        reply !is GetRandom && reply !is Error ==> is_failure(
            r,
            ErrorCode::InvalidResponse,
            "Unable to read random bytes"@,
        ),
{
    match reply {
        GatewayReply::GetRandom { random } => {
            let taken = vstd::slice::slice_subrange(random.as_slice(), 0, number as usize);
            proof {
                assert(taken@ =~= random@.take(number as int));
            }
            Ok(ok(encode_b64url(taken)))
        },
        GatewayReply::Error(err) => Err(
            Error { msg: String::from_str("Unable to read random bytes"), code: err },
        ),
        _ => Err(
            Error {
                msg: String::from_str("Unable to read random bytes"),
                code: ErrorCode::InvalidResponse,
            },
        ),
    }
}

/// Interprets the gateway's reply to a register extension: the register's
/// new value is answered base64url-encoded.
pub fn nsm_extend_pcr(reply: GatewayReply) -> (r: NsmResult<NsmResponse>)
    ensures
        reply matches GatewayReply::ExtendPCR { data } ==> is_ok_value(r, b64_encode(data@)),
        reply matches GatewayReply::Error(code) ==> is_failure(r, code, "Unable to extend pcr"@),
        reply !is ExtendPCR && reply !is Error ==> is_failure(
            r,
            ErrorCode::InvalidResponse,
            "Unable to extend pcr"@,
        ),
{
    match reply {
        GatewayReply::ExtendPCR { data } => Ok(ok(encode_b64url(data.as_slice()))),
        GatewayReply::Error(err) => Err(
            Error { msg: String::from_str("Unable to extend pcr"), code: err },
        ),
        _ => Err(
            Error {
                msg: String::from_str("Unable to extend pcr"),
                code: ErrorCode::InvalidResponse,
            },
        ),
    }
}

/// Interprets the gateway's reply to a register lock: success carries an
/// empty value.
pub fn nsm_lock_pcr(reply: GatewayReply) -> (r: NsmResult<NsmResponse>)
    ensures
        reply is LockPCR ==> is_ok_value(r, Seq::empty()),
        reply matches GatewayReply::Error(code) ==> is_failure(r, code, "Unable to lock pcr"@),
        reply !is LockPCR && reply !is Error ==> is_failure(
            r,
            ErrorCode::InvalidResponse,
            "Unable to lock pcr"@,
        ),
{
    match reply {
        GatewayReply::LockPCR => Ok(ok(String::new())),
        GatewayReply::Error(err) => Err(
            Error { msg: String::from_str("Unable to lock pcr"), code: err },
        ),
        _ => Err(
            Error {
                msg: String::from_str("Unable to lock pcr"),
                code: ErrorCode::InvalidResponse,
            },
        ),
    }
}

/// Interprets the gateway's reply to a range lock: success carries an empty
/// value.
pub fn nsm_lock_pcrs(reply: GatewayReply) -> (r: NsmResult<NsmResponse>)
    ensures
        reply is LockPCRs ==> is_ok_value(r, Seq::empty()),
        reply matches GatewayReply::Error(code) ==> is_failure(r, code, "Unable to lock pcrs"@),
        reply !is LockPCRs && reply !is Error ==> is_failure(
            r,
            ErrorCode::InvalidResponse,
            "Unable to lock pcrs"@,
        ),
{
    match reply {
        GatewayReply::LockPCRs => Ok(ok(String::new())),
        GatewayReply::Error(err) => Err(
            Error { msg: String::from_str("Unable to lock pcrs"), code: err },
        ),
        _ => Err(
            Error {
                msg: String::from_str("Unable to lock pcrs"),
                code: ErrorCode::InvalidResponse,
            },
        ),
    }
}

/// The register summary as text: a small JSON object holding the lock flag
/// and the register's bytes base64url-encoded.
pub open spec fn pcr_json(lock: bool, data: Seq<u8>) -> Seq<char> {
    "{\"lock\":"@ + (if lock {
        "true"@
    } else {
        "false"@
    }) + ",\"data\":\""@ + b64_encode(data) + "\"}"@
}

/// The register summary's bytes, as the outer encoding sees them.
pub open spec fn pcr_payload(lock: bool, data: Seq<u8>) -> Seq<u8> {
    vstd::utf8::encode_utf8(pcr_json(lock, data))
}

/// The register summary as text.
fn pcr_message(lock: bool, data: &Vec<u8>) -> (m: String)
    ensures
        m@ == pcr_json(lock, data@),
{
    let mut m = String::from_str("{\"lock\":");
    if lock {
        m.append("true");
    } else {
        m.append("false");
    }
    m.append(",\"data\":\"");
    m.append(encode_b64url(data.as_slice()).as_str());
    m.append("\"}");
    m
}

/// Interprets the gateway's reply to a register read. The answered value is
/// the register summary base64url-encoded a second time: the double encoding
/// is a frozen wire quirk, kept bit for bit.
pub fn nsm_describe_pcr(reply: GatewayReply) -> (r: NsmResult<NsmResponse>)
    ensures
        reply matches GatewayReply::DescribePCR { lock, data } ==> is_ok_value(
            r,
            b64_encode(pcr_payload(lock, data@)),
        ),
        reply matches GatewayReply::Error(code) ==> is_failure(r, code, "Unable to describe pcr"@),
        reply !is DescribePCR && reply !is Error ==> is_failure(
            r,
            ErrorCode::InvalidResponse,
            "Unable to describe pcr"@,
        ),
{
    match reply {
        GatewayReply::DescribePCR { lock, data } => {
            let msg = pcr_message(lock, &data);
            Ok(ok(encode_b64url(msg.as_str().as_bytes())))
        },
        GatewayReply::Error(err) => Err(
            Error { msg: String::from_str("Unable to describe pcr"), code: err },
        ),
        _ => Err(
            Error {
                msg: String::from_str("Unable to describe pcr"),
                code: ErrorCode::InvalidResponse,
            },
        ),
    }
}

/// The identifier length recorded for a module identifier: its byte length,
/// capped at the 99 usable bytes of the 100-slot array.
pub open spec fn module_id_trunc(id: Seq<u8>) -> u32 {
    if id.len() < 99 {
        id.len() as u32
    } else {
        99u32
    }
}

/// Interprets the gateway's reply to a module description: the reply's
/// fields are laid into the fixed-capacity record and answered as its JSON
/// wire shape. A gateway answering more than 64 locked registers is outside
/// the record's capacity and is the caller's charge to refuse.
pub fn nsm_describe(reply: GatewayReply) -> (r: NsmResult<NsmResponse>)
    requires
        reply matches GatewayReply::DescribeNSM { locked_pcrs, .. } ==> locked_pcrs@.len() <= 64,
    ensures
        reply matches GatewayReply::DescribeNSM {
            version_major,
            version_minor,
            version_patch,
            module_id,
            max_pcrs,
            locked_pcrs,
            digest,
        } ==> is_ok_value(
            r,
            description_json(
                version_major,
                version_minor,
                version_patch,
                pad_module_id(module_id@),
                module_id_trunc(module_id@),
                max_pcrs,
                pad_locked_pcrs(locked_pcrs@),
                locked_pcrs@.len() as u32,
                digest,
            ),
        ),
        reply matches GatewayReply::Error(code) ==> is_failure(r, code, "Unable to describe nsm"@),
        reply !is DescribeNSM && reply !is Error ==> is_failure(
            r,
            ErrorCode::InvalidResponse,
            "Unable to describe nsm"@,
        ),
{
    match reply {
        GatewayReply::DescribeNSM {
            version_major,
            version_minor,
            version_patch,
            module_id,
            max_pcrs,
            locked_pcrs,
            digest,
        } => {
            let d = NsmDescription::from_reply(
                version_major,
                version_minor,
                version_patch,
                &module_id,
                max_pcrs,
                &locked_pcrs,
                digest,
            );
            Ok(ok(describe_json(&d)))
        },
        GatewayReply::Error(err) => Err(
            Error { msg: String::from_str("Unable to describe nsm"), code: err },
        ),
        _ => Err(
            Error {
                msg: String::from_str("Unable to describe nsm"),
                code: ErrorCode::InvalidResponse,
            },
        ),
    }
}

/// The reply a dispatched command is answered with, when the reply is not a
/// reported error: the command's expected success shape is encoded, any
/// other shape fails as `InvalidResponse` under the command's static
/// message.
pub open spec fn dispatch_success_post(
    args: Args,
    reply: GatewayReply,
    r: NsmResult<NsmResponse>,
) -> bool {
    let mismatch = is_failure(r, ErrorCode::InvalidResponse, command_msg(args));
    match args {
        Args::Rand { number } => match reply {
            GatewayReply::GetRandom { random } => is_ok_value(
                r,
                b64_encode(random@.take(number as int)),
            ),
            _ => mismatch,
        },
        Args::Attestation { .. } => match reply {
            GatewayReply::Attestation { document } => is_ok_value(r, b64_encode(document@)),
            _ => mismatch,
        },
        Args::ExtendPCR { .. } => match reply {
            GatewayReply::ExtendPCR { data } => is_ok_value(r, b64_encode(data@)),
            _ => mismatch,
        },
        Args::LockPCR { .. } => match reply {
            GatewayReply::LockPCR => is_ok_value(r, Seq::empty()),
            _ => mismatch,
        },
        Args::LockPCRS { .. } => match reply {
            GatewayReply::LockPCRs => is_ok_value(r, Seq::empty()),
            _ => mismatch,
        },
        Args::DescribePCR { .. } => match reply {
            GatewayReply::DescribePCR { lock, data } => is_ok_value(
                r,
                b64_encode(pcr_payload(lock, data@)),
            ),
            _ => mismatch,
        },
        Args::DescribeNSM => match reply {
            GatewayReply::DescribeNSM {
                version_major,
                version_minor,
                version_patch,
                module_id,
                max_pcrs,
                locked_pcrs,
                digest,
            } => is_ok_value(
                r,
                description_json(
                    version_major,
                    version_minor,
                    version_patch,
                    pad_module_id(module_id@),
                    module_id_trunc(module_id@),
                    max_pcrs,
                    pad_locked_pcrs(locked_pcrs@),
                    locked_pcrs@.len() as u32,
                    digest,
                ),
            ),
            _ => mismatch,
        },
        Args::Server { .. } => true,
    }
}

/// The three-way classification every dispatched command is answered under:
/// the lifecycle-only command is refused outright; otherwise a reported
/// error code is carried through under the command's static message, and any
/// other reply is classified by shape.
pub open spec fn dispatch_post(args: Args, reply: GatewayReply, r: NsmResult<NsmResponse>) -> bool {
    match args {
        Args::Server { .. } => is_failure(r, ErrorCode::InvalidOperation, "Invalid request"@),
        _ => {
            &&& (reply matches GatewayReply::Error(code) ==> is_failure(
                r,
                code,
                command_msg(args),
            ))
            &&& (reply !is Error ==> dispatch_success_post(args, reply, r))
        },
    }
}

/// Translates the gateway's reply to a dispatched command into the response
/// envelope, by the command's own three-way classification.
pub fn interpret(args: &Args, reply: GatewayReply) -> (r: NsmResult<NsmResponse>)
    requires
        args matches Args::Rand { number } ==> reply matches GatewayReply::GetRandom { random }
            ==> number as int <= random@.len(),
        reply matches GatewayReply::DescribeNSM { locked_pcrs, .. } ==> locked_pcrs@.len() <= 64,
    ensures
        dispatch_post(*args, reply, r),
{
    match args {
        Args::Rand { number } => nsm_get_random(*number, reply),
        Args::Attestation { .. } => nsm_get_attestation_doc(reply),
        Args::ExtendPCR { .. } => nsm_extend_pcr(reply),
        Args::LockPCR { .. } => nsm_lock_pcr(reply),
        Args::LockPCRS { .. } => nsm_lock_pcrs(reply),
        Args::DescribePCR { .. } => nsm_describe_pcr(reply),
        Args::DescribeNSM => nsm_describe(reply),
        Args::Server { .. } => Err(
            Error { msg: String::from_str("Invalid request"), code: ErrorCode::InvalidOperation },
        ),
    }
}

/// Law: a gateway-reported error code is carried through dispatch unchanged,
/// under the command's own static message — never under the gateway's text.
pub proof fn lemma_gateway_error_passthrough(
    args: Args,
    code: ErrorCode,
    r: NsmResult<NsmResponse>,
)
    requires
        args !is Server,
        dispatch_post(args, GatewayReply::Error(code), r),
    ensures
        r matches Err(e) && e.code == code && e.msg@ == command_msg(args),
{
}


/// Law: the value answered for a request for `number` random bytes decodes
/// to exactly `number` bytes.
pub proof fn lemma_rand_value_decodes(number: u8, random: Seq<u8>, r: NsmResult<NsmResponse>)
    requires
        number as int <= random.len(),
        is_ok_value(r, b64_encode(random.take(number as int))),
    ensures
        r matches Ok(resp) ==> resp.value matches Some(v) && (b64_decode(v@) matches Some(b)
            && b.len() == number),
        r is Ok,
{
    crate::codec::lemma_b64_round_trip(random.take(number as int));
}

/// Law: an attestation command with every optional field absent succeeds,
/// and every field is omitted from the outbound request.
pub proof fn lemma_attestation_all_absent(r: Result<GatewayRequest, Error>)
    requires
        attestation_post(None, None, None, r),
    ensures
        r matches Ok(req) ==> req matches GatewayRequest::Attestation {
            user_data, nonce, public_key } && nonce is None && public_key is None
            && user_data is None,
        r is Ok,
{
}

/// Law: an attestation command whose nonce is not base64url fails as
/// `InvalidArgument` under a message naming the nonce, whatever the other
/// two fields hold.
pub proof fn lemma_attestation_bad_nonce(
    n: String,
    pk: Option<String>,
    ud: Option<String>,
    r: Result<GatewayRequest, Error>,
)
    requires
        b64_decode(n@) is None,
        attestation_post(Some(n), pk, ud, r),
    ensures
        r matches Err(e) ==> e.code == ErrorCode::InvalidArgument && e.msg@ == invalid_field_msg(
            "nonce"@,
        ) && e.msg@.subrange(8, 13) == "nonce"@,
        r is Err,
{
    reveal_strlit("Invalid ");
    reveal_strlit("nonce");
    reveal_strlit(" string");
    assert(invalid_field_msg("nonce"@).subrange(8, 13) =~= "nonce"@);
}


/// Law: text that is not canonical base64url never reaches the gateway — the
/// command is answered `InvalidArgument`, whatever the text holds.
pub proof fn lemma_malformed_data_rejected(
    index: u16,
    d: Seq<char>,
    r: Result<GatewayRequest, Error>,
)
    requires
        b64_decode(d) is None,
        extend_post(index, d, r),
    ensures
        r matches Err(e) && e.code == ErrorCode::InvalidArgument,
{
}

} // verus!
