use wasmbus_rpc::bootstrap::{DEFAULT_NATS_ADDR, TEST_HARNESS};
use wasmbus_rpc::{
    address_error_to_rpc, classify_reply, connect_error_to_rpc, deserialize_text,
    effective_deadline, encode_rpc_error_to_rpc, io_error_to_rpc, precheck_deadline,
    serialize_text, Context, HostData, Message, MethodRouter, RpcError, SendOpts,
};

fn host(host_id: &str, url: &str) -> HostData {
    HostData {
        host_id: host_id.to_string(),
        lattice_rpc_url: url.to_string(),
        provider_key: "VPROV".to_string(),
        link_name: "default".to_string(),
    }
}

fn ctx(deadline_ms: Option<u64>) -> Context {
    Context {
        actor: None,
        span: None,
        deadline_ms,
    }
}

fn msg(method: &str) -> Message {
    Message {
        method: method.to_string(),
        arg: Vec::new(),
    }
}

#[test]
fn empty_url_resolves_to_default_address() {
    let h = host("H1", "");
    assert_eq!(h.resolved_rpc_url(), DEFAULT_NATS_ADDR);
    let plan = h.connect_plan();
    assert_eq!(plan.url, "nats://127.0.0.1:4222");
    assert_eq!(plan.max_reconnects, None);
}

#[test]
fn configured_url_wins_over_default() {
    let h = host("H1", "nats://10.0.0.7:4222");
    assert_eq!(h.resolved_rpc_url(), "nats://10.0.0.7:4222");
    assert_eq!(h.connect_plan().url, "nats://10.0.0.7:4222");
}

#[test]
fn unparsable_address_is_invalid_parameter() {
    let io = std::io::Error::new(std::io::ErrorKind::InvalidInput, "bad scheme");
    let e = address_error_to_rpc("proto://??", io);
    match e {
        RpcError::InvalidParameter(m) => {
            assert_eq!(m, "Invalid nats server url 'proto://??': bad scheme")
        }
        other => panic!("wrong kind: {:?}", other),
    }
}

#[test]
fn connect_failure_is_provider_init() {
    let io = std::io::Error::new(std::io::ErrorKind::ConnectionRefused, "refused");
    let e = connect_error_to_rpc("nats://127.0.0.1:4222", io);
    match e {
        RpcError::ProviderInit(m) => {
            assert_eq!(m, "nats connection to nats://127.0.0.1:4222 failed: refused")
        }
        other => panic!("wrong kind: {:?}", other),
    }
}

#[test]
fn test_harness_sentinel_sets_is_test() {
    assert!(host(TEST_HARNESS, "nats://anywhere:1").is_test());
    assert!(host(TEST_HARNESS, "").is_test());
    assert!(!host("NREALHOST", "").is_test());
}

#[test]
fn elapsed_deadline_fails_before_send() {
    let c = ctx(Some(99));
    let r = precheck_deadline(&c, &None, 100);
    assert!(matches!(r, Err(RpcError::DeadlineExceeded(_))));
}

#[test]
fn future_deadline_passes_precheck() {
    let c = ctx(Some(200));
    assert!(precheck_deadline(&c, &None, 100).is_ok());
    assert!(precheck_deadline(&ctx(None), &None, 100).is_ok());
}

#[test]
fn timeout_override_restricts_deadline() {
    let c = ctx(Some(500));
    let opts = Some(SendOpts {
        timeout_ms: Some(50),
    });
    assert_eq!(effective_deadline(&c, &opts, 100), Some(150));
    assert_eq!(effective_deadline(&c, &None, 100), Some(500));
    assert_eq!(effective_deadline(&ctx(None), &opts, 100), Some(150));
    assert_eq!(effective_deadline(&ctx(None), &None, 100), None);
    let late = Some(SendOpts {
        timeout_ms: Some(1000),
    });
    assert_eq!(effective_deadline(&c, &late, 100), Some(500));
}

#[test]
fn missing_reply_is_timeout() {
    assert!(matches!(
        classify_reply(None),
        Err(RpcError::Timeout(_))
    ));
    assert_eq!(classify_reply(Some(vec![1, 2, 3])).unwrap(), vec![1, 2, 3]);
}

#[test]
fn dispatch_before_initialization_fails() {
    let mut router = MethodRouter::new();
    router.register("Echo".to_string());
    let r = router.route(&msg("Echo"));
    assert!(matches!(r, Err(RpcError::NotInitialized(_))));
}

#[test]
fn unregistered_method_is_not_handled() {
    let mut router = MethodRouter::new();
    router.register("Echo".to_string());
    router.set_initialized();
    let r = router.route(&msg("Missing"));
    assert!(matches!(r, Err(RpcError::MethodNotHandled(_))));
}

#[test]
fn registered_method_routes_to_first_match() {
    let mut router = MethodRouter::new();
    router.register("Echo".to_string());
    router.register("Ping".to_string());
    router.register("Ping".to_string());
    router.set_initialized();
    assert_eq!(router.route(&msg("Echo")).unwrap(), 0);
    assert_eq!(router.route(&msg("Ping")).unwrap(), 1);
}

#[test]
fn text_payload_round_trips_through_codec() {
    let bytes = serialize_text("hello world").unwrap();
    assert!(!bytes.is_empty());
    assert_eq!(deserialize_text(&bytes).unwrap(), "hello world");
}

#[test]
fn codec_decode_of_text_item_bytes() {
    // A three-byte CBOR text item holding "abc".
    let bytes = vec![0x63, b'a', b'b', b'c'];
    assert_eq!(deserialize_text(&bytes).unwrap(), "abc");
}

#[test]
fn foreign_decode_failure_surfaces_as_deser() {
    // 0xff is a CBOR "break" outside any indefinite item: not a text item.
    let r = deserialize_text(&[0xff]);
    match r {
        Err(RpcError::Deser(m)) => assert!(m.starts_with("cbor-decode: ")),
        other => panic!("wrong outcome: {:?}", other),
    }
    // An unsigned integer item is not a text item either.
    let r = deserialize_text(&[0x01]);
    assert!(matches!(r, Err(RpcError::Deser(_))));
}

#[test]
fn foreign_io_failure_wraps_as_other() {
    let io = std::io::Error::new(std::io::ErrorKind::UnexpectedEof, "eof");
    match io_error_to_rpc(io) {
        RpcError::Other(m) => assert_eq!(m, "io: eof"),
        other => panic!("wrong kind: {:?}", other),
    }
    let e: RpcError = RpcError::from("free-form".to_string());
    assert!(matches!(e, RpcError::Other(_)));
    let e = RpcError::from_text("free-form");
    match e {
        RpcError::Other(m) => assert_eq!(m, "free-form"),
        other => panic!("wrong kind: {:?}", other),
    }
}

#[test]
fn encode_failure_over_taxonomy_writer_wraps_as_ser() {
    let cause = RpcError::HostError("sink closed".to_string());
    let e = minicbor::encode::Error::<RpcError>::write(cause);
    match encode_rpc_error_to_rpc(e) {
        RpcError::Ser(m) => assert_eq!(m, "cbor-encode: sink closed"),
        other => panic!("wrong kind: {:?}", other),
    }
    let e = minicbor::encode::Error::<RpcError>::message("boom");
    assert!(matches!(encode_rpc_error_to_rpc(e), RpcError::Ser(_)));
}

#[test]
fn error_message_accessor_returns_payload() {
    assert_eq!(RpcError::Timeout("late".to_string()).message(), "late");
    assert_eq!(RpcError::NotImplemented.message(), "");
}

#[test]
fn default_send_opts_have_no_override() {
    let opts = SendOpts::default();
    assert_eq!(opts.timeout_ms, None);
}
