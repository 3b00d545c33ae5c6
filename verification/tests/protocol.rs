use nsm_cli::args::Args;
use nsm_cli::description::NsmDescription;
use nsm_cli::dispatch::{
    attestation_request, check_b64_arg, extend_pcr_request, interpret, nsm_describe,
    nsm_describe_pcr, nsm_extend_pcr, nsm_get_attestation_doc, nsm_get_random, nsm_lock_pcr,
    nsm_lock_pcrs, prepare,
};
use nsm_cli::error::{ok, write_error_code, Error, ErrorCode, NsmResponse, NsmResult};
use nsm_cli::gateway::{Digest, GatewayReply, GatewayRequest};
use nsm_cli::server::{handle_event, DecodeEvent, ServerStep};

fn expect_ok(r: NsmResult<NsmResponse>) -> String {
    match r {
        Ok(resp) => {
            assert!(resp.ok);
            assert!(resp.error.is_none());
            resp.value.expect("success must carry a value")
        }
        Err(e) => panic!("unexpected failure: {}", e.msg),
    }
}

fn expect_err(r: NsmResult<NsmResponse>) -> Error {
    match r {
        Err(e) => e,
        Ok(_) => panic!("expected a failure"),
    }
}

#[test]
fn error_code_table_is_fixed() {
    assert_eq!(write_error_code(&ErrorCode::Success), 0);
    assert_eq!(write_error_code(&ErrorCode::InvalidArgument), 1);
    assert_eq!(write_error_code(&ErrorCode::InvalidIndex), 2);
    assert_eq!(write_error_code(&ErrorCode::InvalidResponse), 3);
    assert_eq!(write_error_code(&ErrorCode::ReadOnlyIndex), 4);
    assert_eq!(write_error_code(&ErrorCode::InvalidOperation), 5);
    assert_eq!(write_error_code(&ErrorCode::BufferTooSmall), 6);
    assert_eq!(write_error_code(&ErrorCode::InputTooLarge), 7);
    assert_eq!(write_error_code(&ErrorCode::InternalError), 8);
}

#[test]
fn ok_envelope_shape() {
    let r = ok(String::from("hello"));
    assert!(r.ok);
    assert!(r.error.is_none());
    assert_eq!(r.value.as_deref(), Some("hello"));
}

#[test]
fn error_envelope_shape() {
    let r = NsmResponse::from(Error {
        msg: String::from("boom"),
        code: ErrorCode::InternalError,
    });
    assert!(!r.ok);
    assert!(r.value.is_none());
    let e = r.error.unwrap();
    assert_eq!(e.msg, "boom");
    assert!(matches!(e.code, ErrorCode::InternalError));
}

#[test]
fn rand_value_is_exact_base64url() {
    let reply = GatewayReply::GetRandom {
        random: vec![1, 2, 3],
    };
    let v = expect_ok(nsm_get_random(3, reply));
    assert_eq!(v, "AQID");
}

#[test]
fn rand_takes_prefix_of_buffer() {
    let reply = GatewayReply::GetRandom {
        random: vec![9, 8, 7, 6],
    };
    let v = expect_ok(nsm_get_random(2, reply));
    assert_eq!(v, base64_url::encode(&[9u8, 8]));
    assert_eq!(base64_url::decode(&v).unwrap(), vec![9, 8]);
}

#[test]
fn rand_decoded_length_matches_request() {
    // the decoded length of the answered value equals the requested count
    let random: Vec<u8> = (0..=255u8).collect();
    for n in [0usize, 1, 2, 3, 63, 255] {
        let reply = GatewayReply::GetRandom {
            random: random.clone(),
        };
        let v = expect_ok(nsm_get_random(n as u8, reply));
        let decoded = base64_url::decode(&v).unwrap();
        assert_eq!(decoded.len(), n);
        assert_eq!(&decoded[..], &random[..n]);
    }
}

#[test]
fn round_trip_through_public_functions() {
    // decode(encode(b)) == b, driven through the dispatcher's two sides
    let cases: Vec<Vec<u8>> = vec![
        vec![],
        vec![0],
        vec![251],
        vec![1, 2],
        vec![1, 2, 3],
        vec![255, 254, 253, 252],
        (0..255u8).collect(),
    ];
    for b in cases {
        let reply = GatewayReply::GetRandom { random: b.clone() };
        let v = expect_ok(nsm_get_random(b.len() as u8, reply));
        match extend_pcr_request(0, &v).unwrap() {
            GatewayRequest::ExtendPCR { data, .. } => assert_eq!(data, b),
            _ => panic!("wrong request shape"),
        }
    }
}

#[test]
fn single_byte_encoding_uses_url_alphabet() {
    let reply = GatewayReply::GetRandom { random: vec![251] };
    let v = expect_ok(nsm_get_random(1, reply));
    assert_eq!(v, "-w");
}

#[test]
fn decode_rejects_malformed_text() {
    // text outside base64url always comes back InvalidArgument
    for bad in ["!!!", "A", "ab=", "====", "AQIDA", "AR", "a b", "é"] {
        let e = match extend_pcr_request(5, bad) {
            Err(e) => e,
            Ok(_) => panic!("{:?} must be rejected", bad),
        };
        assert!(matches!(e.code, ErrorCode::InvalidArgument));
        assert_eq!(e.msg, "Invalid data supplied");
    }
}

#[test]
fn extend_request_carries_decoded_bytes() {
    match extend_pcr_request(7, "AQID").unwrap() {
        GatewayRequest::ExtendPCR { index, data } => {
            assert_eq!(index, 7);
            assert_eq!(data, vec![1, 2, 3]);
        }
        _ => panic!("wrong request shape"),
    }
}

#[test]
fn attestation_all_absent_omits_every_field() {
    match attestation_request(&None, &None, &None).unwrap() {
        GatewayRequest::Attestation {
            user_data,
            nonce,
            public_key,
        } => {
            assert!(nonce.is_none());
            assert!(public_key.is_none());
            assert!(user_data.is_none());
        }
        _ => panic!("wrong request shape"),
    }
}

#[test]
fn attestation_empty_decode_is_normalized_to_absent() {
    match attestation_request(&Some(String::new()), &None, &Some(String::from("AQID"))).unwrap() {
        GatewayRequest::Attestation {
            user_data,
            nonce,
            public_key,
        } => {
            assert!(nonce.is_none());
            assert!(public_key.is_none());
            assert_eq!(user_data, Some(vec![1, 2, 3]));
        }
        _ => panic!("wrong request shape"),
    }
}

#[test]
fn attestation_bad_nonce_names_nonce_whatever_the_rest() {
    for (pk, ud) in [
        (None, None),
        (Some(String::from("AQID")), None),
        (Some(String::from("!!!")), Some(String::from("!!!"))),
    ] {
        let e = attestation_request(&Some(String::from("not base64!")), &pk, &ud)
            .err()
            .unwrap();
        assert!(matches!(e.code, ErrorCode::InvalidArgument));
        assert_eq!(e.msg, "Invalid nonce string");
        assert!(e.msg.contains("nonce"));
    }
}

#[test]
fn attestation_bad_public_key_after_valid_nonce() {
    let e = attestation_request(
        &Some(String::from("AQID")),
        &Some(String::from("***")),
        &None,
    )
    .err()
    .unwrap();
    assert!(matches!(e.code, ErrorCode::InvalidArgument));
    assert_eq!(e.msg, "Invalid public key string");
}

#[test]
fn attestation_bad_user_data_last() {
    let e = attestation_request(&None, &None, &Some(String::from("***")))
        .err()
        .unwrap();
    assert!(matches!(e.code, ErrorCode::InvalidArgument));
    assert_eq!(e.msg, "Invalid user data string");
}

#[test]
fn check_b64_arg_stores_decoded_bytes() {
    let mut v: Option<Vec<u8>> = None;
    assert!(check_b64_arg(&mut v, &Some(String::from("AQID")), "nonce").is_ok());
    assert_eq!(v, Some(vec![1, 2, 3]));

    let mut v: Option<Vec<u8>> = None;
    assert!(check_b64_arg(&mut v, &None, "nonce").is_ok());
    assert!(v.is_none());

    let mut v: Option<Vec<u8>> = None;
    let e = check_b64_arg(&mut v, &Some(String::from("%%")), "nonce").err().unwrap();
    assert!(matches!(e.code, ErrorCode::InvalidArgument));
    assert_eq!(e.msg, "Invalid nonce string");
    assert!(v.is_none());
}

#[test]
fn attestation_document_is_encoded() {
    let reply = GatewayReply::Attestation {
        document: vec![1, 2, 3],
    };
    let v = expect_ok(nsm_get_attestation_doc(reply));
    assert_eq!(v, "AQID");
}

#[test]
fn lock_pcr_success_carries_empty_value() {
    let v = expect_ok(nsm_lock_pcr(GatewayReply::LockPCR));
    assert_eq!(v, "");
    let v = expect_ok(nsm_lock_pcrs(GatewayReply::LockPCRs));
    assert_eq!(v, "");
}

#[test]
fn describe_pcr_is_double_encoded() {
    let reply = GatewayReply::DescribePCR {
        lock: true,
        data: vec![1, 2, 3],
    };
    let v = expect_ok(nsm_describe_pcr(reply));
    let inner = r#"{"lock":true,"data":"AQID"}"#;
    assert_eq!(v, base64_url::encode(inner));
    assert_eq!(base64_url::decode(&v).unwrap(), inner.as_bytes());
}

#[test]
fn describe_pcr_unlocked() {
    let reply = GatewayReply::DescribePCR {
        lock: false,
        data: vec![],
    };
    let v = expect_ok(nsm_describe_pcr(reply));
    assert_eq!(v, base64_url::encode(r#"{"lock":false,"data":""}"#));
}

fn expected_description_json(
    vmaj: u16,
    vmin: u16,
    vpat: u16,
    id: &[u8],
    id_len: u32,
    max_pcrs: u16,
    locked: &[u16],
    locked_len: u32,
    digest: &str,
) -> String {
    let mut full_id = vec![0u8; 100];
    let used = id.len().min(99);
    full_id[..used].copy_from_slice(&id[..used]);
    let mut full_locked = vec![0u16; 64];
    full_locked[..locked.len()].copy_from_slice(locked);
    let id_list: Vec<String> = full_id.iter().map(|b| b.to_string()).collect();
    let locked_list: Vec<String> = full_locked.iter().map(|b| b.to_string()).collect();
    format!(
        "{{\"version_major\":{},\"version_minor\":{},\"version_patch\":{},\"module_id\":[{}],\"module_id_len\":{},\"max_pcrs\":{},\"locked_pcrs\":[{}],\"locked_pcrs_len\":{},\"digest\":\"{}\"}}",
        vmaj, vmin, vpat, id_list.join(","), id_len, max_pcrs, locked_list.join(","), locked_len, digest
    )
}

#[test]
fn describe_module_renders_full_arrays() {
    let reply = GatewayReply::DescribeNSM {
        version_major: 1,
        version_minor: 2,
        version_patch: 3,
        module_id: b"dev-id".to_vec(),
        max_pcrs: 32,
        locked_pcrs: vec![0, 1, 2],
        digest: Digest::SHA384,
    };
    let v = expect_ok(nsm_describe(reply));
    let expected =
        expected_description_json(1, 2, 3, b"dev-id", 6, 32, &[0, 1, 2], 3, "SHA384");
    assert_eq!(v, expected);
    // the two arrays are rendered at full capacity
    assert!(v.matches(',').count() >= 99 + 63);
}

#[test]
fn describe_module_truncates_long_identifier() {
    let long_id = vec![b'x'; 150];
    let reply = GatewayReply::DescribeNSM {
        version_major: 0,
        version_minor: 0,
        version_patch: 0,
        module_id: long_id.clone(),
        max_pcrs: 16,
        locked_pcrs: vec![],
        digest: Digest::SHA256,
    };
    let v = expect_ok(nsm_describe(reply));
    let expected = expected_description_json(0, 0, 0, &long_id, 99, 16, &[], 0, "SHA256");
    assert_eq!(v, expected);
}

#[test]
fn description_record_is_truncated_and_padded() {
    let id = vec![7u8; 150];
    let locked: Vec<u16> = (0..64).collect();
    let d = NsmDescription::from_reply(1, 0, 0, &id, 64, &locked, Digest::SHA512);
    assert_eq!(d.module_id.len(), 100);
    assert_eq!(d.module_id_len, 99);
    assert_eq!(d.module_id[98], 7);
    assert_eq!(d.module_id[99], 0);
    assert_eq!(d.locked_pcrs.len(), 64);
    assert_eq!(d.locked_pcrs_len, 64);
}

#[test]
fn description_default_is_all_zero() {
    let d = NsmDescription::default();
    assert_eq!(d.version_major, 0);
    assert_eq!(d.module_id, vec![0u8; 100]);
    assert_eq!(d.module_id_len, 0);
    assert_eq!(d.locked_pcrs, vec![0u16; 64]);
    assert_eq!(d.locked_pcrs_len, 0);
    assert!(matches!(d.digest, Digest::SHA256));
}

#[test]
fn gateway_error_passes_through_with_static_message() {
    // a reported InvalidIndex surfaces unchanged, under each command's own text
    let cases: Vec<(Args, &str)> = vec![
        (Args::Rand { number: 1 }, "Unable to read random bytes"),
        (
            Args::Attestation {
                nonce: None,
                public_key: None,
                user_data: None,
            },
            "Unable to generate attestation document",
        ),
        (
            Args::ExtendPCR {
                index: 0,
                data: String::from("AQID"),
            },
            "Unable to extend pcr",
        ),
        (Args::LockPCR { index: 0 }, "Unable to lock pcr"),
        (Args::LockPCRS { range: 4 }, "Unable to lock pcrs"),
        (Args::DescribePCR { index: 0 }, "Unable to describe pcr"),
        (Args::DescribeNSM, "Unable to describe nsm"),
    ];
    for (args, msg) in cases {
        let e = expect_err(interpret(
            &args,
            GatewayReply::Error(ErrorCode::InvalidIndex),
        ));
        assert!(matches!(e.code, ErrorCode::InvalidIndex));
        assert_eq!(e.msg, msg);
    }
}

#[test]
fn unexpected_reply_shape_is_invalid_response() {
    let e = expect_err(nsm_get_random(1, GatewayReply::LockPCR));
    assert!(matches!(e.code, ErrorCode::InvalidResponse));
    assert_eq!(e.msg, "Unable to read random bytes");

    let e = expect_err(nsm_lock_pcr(GatewayReply::LockPCRs));
    assert!(matches!(e.code, ErrorCode::InvalidResponse));
    assert_eq!(e.msg, "Unable to lock pcr");

    let e = expect_err(nsm_extend_pcr(GatewayReply::GetRandom { random: vec![] }));
    assert!(matches!(e.code, ErrorCode::InvalidResponse));
    assert_eq!(e.msg, "Unable to extend pcr");
}

#[test]
fn prepare_maps_each_command_to_its_request() {
    assert!(matches!(
        prepare(&Args::Rand { number: 3 }),
        Ok(GatewayRequest::GetRandom)
    ));
    assert!(matches!(
        prepare(&Args::DescribePCR { index: 4 }),
        Ok(GatewayRequest::DescribePCR { index: 4 })
    ));
    assert!(matches!(
        prepare(&Args::LockPCR { index: 9 }),
        Ok(GatewayRequest::LockPCR { index: 9 })
    ));
    assert!(matches!(
        prepare(&Args::LockPCRS { range: 11 }),
        Ok(GatewayRequest::LockPCRs { range: 11 })
    ));
    assert!(matches!(
        prepare(&Args::DescribeNSM),
        Ok(GatewayRequest::DescribeNSM)
    ));
}

#[test]
fn server_command_is_rejected_by_dispatch() {
    let e = prepare(&Args::Server {
        socket: String::from("/tmp/sock"),
    })
    .err()
    .unwrap();
    assert!(matches!(e.code, ErrorCode::InvalidOperation));
    assert_eq!(e.msg, "Invalid request");
}

#[test]
fn end_of_stream_closes_connection() {
    assert!(matches!(
        handle_event(DecodeEvent::EndOfStream),
        ServerStep::Close
    ));
}

#[test]
fn malformed_message_keeps_connection_open() {
    // one InvalidArgument response, and the next valid command still works
    let step = handle_event(DecodeEvent::Malformed(String::from("expected value")));
    match step {
        ServerStep::Respond(resp) => {
            assert!(!resp.ok);
            let e = resp.error.unwrap();
            assert!(matches!(e.code, ErrorCode::InvalidArgument));
            assert_eq!(e.msg, "expected value");
        }
        _ => panic!("malformed input must be answered, not dropped"),
    }
    let step = handle_event(DecodeEvent::Command(Args::Rand { number: 1 }));
    match step {
        ServerStep::Call(GatewayRequest::GetRandom, Args::Rand { number: 1 }) => {}
        _ => panic!("a valid command after a malformed one must still dispatch"),
    }
}

#[test]
fn lifecycle_command_over_socket_is_invalid_operation() {
    let step = handle_event(DecodeEvent::Command(Args::Server {
        socket: String::from("/tmp/sock"),
    }));
    match step {
        ServerStep::Respond(resp) => {
            assert!(!resp.ok);
            let e = resp.error.unwrap();
            assert!(matches!(e.code, ErrorCode::InvalidOperation));
            assert_eq!(e.msg, "Invalid request");
        }
        _ => panic!("the lifecycle command must be refused over the socket"),
    }
}

#[test]
fn invalid_command_over_socket_is_answered_not_closed() {
    let step = handle_event(DecodeEvent::Command(Args::ExtendPCR {
        index: 0,
        data: String::from("!!!"),
    }));
    match step {
        ServerStep::Respond(resp) => {
            assert!(!resp.ok);
            let e = resp.error.unwrap();
            assert!(matches!(e.code, ErrorCode::InvalidArgument));
        }
        _ => panic!("a failing command must be answered on the spot"),
    }
}
