use state_store::client::{
    check_arguments, del_response, get_response, observe_reply, set_response, unobserve_reply,
    vdel_response, Client, ClientOptionsBuilder, Lifecycle,
};
use state_store::model::{
    Error, ErrorKind, InvokeReply, KeyNotifyOptions, LogicalClock, PendingRequest, Request,
    ServiceResponse, SetCondition, SetOptions, Timeout, TransportError, TransportErrorKind,
};

fn new_client() -> Client<()> {
    Client::new(ClientOptionsBuilder::default().build().unwrap())
}

fn clock(counter: u64) -> LogicalClock {
    LogicalClock { timestamp_ms: 1_700_000_000_000, counter, node_id: String::from("node") }
}

fn reply(payload: ServiceResponse) -> Result<InvokeReply, TransportError> {
    Ok(InvokeReply { payload, timestamp: Some(clock(7)) })
}

fn timed_out() -> Result<InvokeReply, TransportError> {
    Err(TransportError { kind: TransportErrorKind::Timeout, message: String::from("no answer") })
}

#[test]
fn test_set_empty_key() {
    let state_store_client = new_client();
    let response = state_store_client.set(
        vec![],
        b"testValue".to_vec(),
        Timeout::from_secs(1),
        None,
        SetOptions::default(),
    );
    assert!(matches!(response.unwrap_err(), Error(ErrorKind::InvalidArgument(_))));
}

#[test]
fn test_get_empty_key() {
    let state_store_client = new_client();
    let response = state_store_client.get(vec![], Timeout::from_secs(1));
    assert!(matches!(response.unwrap_err(), Error(ErrorKind::InvalidArgument(_))));
}

#[test]
fn test_del_empty_key() {
    let state_store_client = new_client();
    let response = state_store_client.del(vec![], None, Timeout::from_secs(1));
    assert!(matches!(response.unwrap_err(), Error(ErrorKind::InvalidArgument(_))));
}

#[test]
fn test_vdel_empty_key() {
    let state_store_client = new_client();
    let response =
        state_store_client.vdel(vec![], b"testValue".to_vec(), None, Timeout::from_secs(1));
    assert!(matches!(response.unwrap_err(), Error(ErrorKind::InvalidArgument(_))));
}

#[test]
fn test_observe_empty_key() {
    let mut state_store_client = new_client();
    let response = state_store_client.observe(vec![], Timeout::from_secs(1));
    assert!(matches!(response.unwrap_err(), Error(ErrorKind::InvalidArgument(_))));
    assert!(state_store_client.observes_nothing());
}

#[test]
fn test_unobserve_empty_key() {
    let state_store_client = new_client();
    let response = state_store_client.unobserve(vec![], Timeout::from_secs(1));
    assert!(matches!(response.unwrap_err(), Error(ErrorKind::InvalidArgument(_))));
}

#[test]
fn test_set_invalid_timeout() {
    let state_store_client = new_client();
    let response = state_store_client.set(
        b"testKey".to_vec(),
        b"testValue".to_vec(),
        Timeout::from_secs(0),
        None,
        SetOptions::default(),
    );
    assert!(matches!(response.unwrap_err(), Error(ErrorKind::InvalidArgument(_))));
}

#[test]
fn test_get_invalid_timeout() {
    let state_store_client = new_client();
    let response = state_store_client.get(b"testKey".to_vec(), Timeout::from_secs(0));
    assert!(matches!(response.unwrap_err(), Error(ErrorKind::InvalidArgument(_))));
}

#[test]
fn test_del_invalid_timeout() {
    let state_store_client = new_client();
    let response = state_store_client.del(b"testKey".to_vec(), None, Timeout::from_secs(0));
    assert!(matches!(response.unwrap_err(), Error(ErrorKind::InvalidArgument(_))));
}

#[test]
fn test_vdel_invalid_timeout() {
    let state_store_client = new_client();
    let response = state_store_client.vdel(
        b"testKey".to_vec(),
        b"testValue".to_vec(),
        None,
        Timeout::from_secs(0),
    );
    assert!(matches!(response.unwrap_err(), Error(ErrorKind::InvalidArgument(_))));
}

#[test]
fn test_observe_invalid_timeout() {
    let mut state_store_client = new_client();
    let response = state_store_client.observe(b"testKey".to_vec(), Timeout::from_secs(0));
    assert!(matches!(response.unwrap_err(), Error(ErrorKind::InvalidArgument(_))));
    assert!(!state_store_client.is_observed(b"testKey"));
}

#[test]
fn test_unobserve_invalid_timeout() {
    let state_store_client = new_client();
    let response = state_store_client.unobserve(b"testKey".to_vec(), Timeout::from_secs(0));
    assert!(matches!(response.unwrap_err(), Error(ErrorKind::InvalidArgument(_))));
}

#[test]
fn argument_messages_name_the_fault() {
    let empty = check_arguments(&vec![], Timeout::from_secs(0)).unwrap_err();
    assert!(matches!(empty, Error(ErrorKind::InvalidArgument(m)) if m == "key is empty"));
    let zero = check_arguments(&vec![1], Timeout::from_secs(0)).unwrap_err();
    assert!(matches!(zero, Error(ErrorKind::InvalidArgument(m)) if m == "timeout must not be zero"));
    let long = check_arguments(&vec![1], Timeout::from_secs(4_294_967_296)).unwrap_err();
    assert!(matches!(
        long,
        Error(ErrorKind::InvalidArgument(m)) if m == "timeout in seconds must fit in 32 bits"
    ));
}

#[test]
fn timeout_is_rounded_up_to_whole_seconds() {
    assert_eq!(Timeout::from_secs(0).encode(), None);
    assert_eq!(Timeout::from_secs(1).encode(), Some(Timeout { secs: 1, subsec_nanos: 0 }));
    assert_eq!(
        Timeout { secs: 0, subsec_nanos: 1 }.encode(),
        Some(Timeout { secs: 1, subsec_nanos: 0 })
    );
    assert_eq!(
        Timeout { secs: 2, subsec_nanos: 500_000_000 }.encode(),
        Some(Timeout { secs: 3, subsec_nanos: 0 })
    );
    assert_eq!(
        Timeout { secs: 2, subsec_nanos: 1_000_000_001 }.encode(),
        Some(Timeout { secs: 4, subsec_nanos: 0 })
    );
    assert_eq!(
        Timeout::from_secs(4_294_967_295).encode(),
        Some(Timeout { secs: 4_294_967_295, subsec_nanos: 0 })
    );
    assert_eq!(Timeout { secs: 4_294_967_295, subsec_nanos: 1 }.encode(), None);
    assert_eq!(Timeout::from_secs(4_294_967_296).encode(), None);
    assert_eq!(Timeout { secs: u64::MAX, subsec_nanos: u32::MAX }.encode(), None);
}

#[test]
fn timeout_above_the_maximum_is_refused_by_every_operation() {
    let mut client = new_client();
    let long = Timeout::from_secs(4_294_967_296);
    let key = b"testKey".to_vec();
    assert!(matches!(
        client.set(key.clone(), vec![1], long, None, SetOptions::default()).unwrap_err(),
        Error(ErrorKind::InvalidArgument(_))
    ));
    assert!(matches!(
        client.get(key.clone(), long).unwrap_err(),
        Error(ErrorKind::InvalidArgument(_))
    ));
    assert!(matches!(
        client.del(key.clone(), None, long).unwrap_err(),
        Error(ErrorKind::InvalidArgument(_))
    ));
    assert!(matches!(
        client.vdel(key.clone(), vec![1], None, long).unwrap_err(),
        Error(ErrorKind::InvalidArgument(_))
    ));
    assert!(matches!(
        client.observe(key.clone(), long).unwrap_err(),
        Error(ErrorKind::InvalidArgument(_))
    ));
    assert!(matches!(
        client.unobserve(key, long).unwrap_err(),
        Error(ErrorKind::InvalidArgument(_))
    ));
    assert!(client.observes_nothing());
}

#[test]
fn set_shapes_its_request() {
    let client = new_client();
    let options =
        SetOptions { set_condition: SetCondition::OnlyIfDoesNotExist, expires: None };
    let request = client
        .set(
            b"testKey".to_vec(),
            b"testValue".to_vec(),
            Timeout { secs: 1, subsec_nanos: 5 },
            Some(clock(3)),
            options,
        )
        .unwrap();
    assert_eq!(
        request,
        PendingRequest {
            payload: Request::SetValue {
                key: b"testKey".to_vec(),
                value: b"testValue".to_vec(),
                options,
            },
            fencing_token: Some(clock(3)),
            timeout: Timeout { secs: 2, subsec_nanos: 0 },
        }
    );
}

#[test]
fn get_del_vdel_unobserve_shape_their_requests() {
    let client = new_client();
    let t = Timeout::from_secs(10);
    assert_eq!(
        client.get(b"k".to_vec(), t).unwrap(),
        PendingRequest { payload: Request::Get { key: b"k".to_vec() }, fencing_token: None, timeout: t }
    );
    assert_eq!(
        client.del(b"k".to_vec(), Some(clock(1)), t).unwrap(),
        PendingRequest {
            payload: Request::Del { key: b"k".to_vec() },
            fencing_token: Some(clock(1)),
            timeout: t
        }
    );
    assert_eq!(
        client.vdel(b"k".to_vec(), b"v".to_vec(), None, t).unwrap(),
        PendingRequest {
            payload: Request::VDel { key: b"k".to_vec(), value: b"v".to_vec() },
            fencing_token: None,
            timeout: t
        }
    );
    assert_eq!(
        client.unobserve(b"k".to_vec(), t).unwrap(),
        PendingRequest {
            payload: Request::KeyNotify {
                key: b"k".to_vec(),
                options: KeyNotifyOptions { stop: true }
            },
            fencing_token: None,
            timeout: t
        }
    );
}

#[test]
fn default_set_options_are_unconditional() {
    assert_eq!(
        SetOptions::default(),
        SetOptions { set_condition: SetCondition::Unconditional, expires: None }
    );
}

#[test]
fn set_response_follows_the_table() {
    let applied = set_response(reply(ServiceResponse::Done)).unwrap();
    assert!(applied.response);
    assert_eq!(applied.version, Some(clock(7)));
    assert!(!set_response(reply(ServiceResponse::NotApplied)).unwrap().response);
    assert!(matches!(
        set_response(reply(ServiceResponse::NotFound)).unwrap_err(),
        Error(ErrorKind::UnexpectedPayload(ServiceResponse::NotFound))
    ));
    assert!(matches!(
        set_response(reply(ServiceResponse::Value(vec![1]))).unwrap_err(),
        Error(ErrorKind::UnexpectedPayload(ServiceResponse::Value(v))) if v == vec![1]
    ));
    assert!(matches!(
        set_response(reply(ServiceResponse::ValuesDeleted(1))).unwrap_err(),
        Error(ErrorKind::UnexpectedPayload(ServiceResponse::ValuesDeleted(1)))
    ));
}

#[test]
fn get_response_follows_the_table() {
    assert_eq!(
        get_response(reply(ServiceResponse::Value(b"v".to_vec()))).unwrap().response,
        Some(b"v".to_vec())
    );
    let missing = get_response(Ok(InvokeReply {
        payload: ServiceResponse::NotFound,
        timestamp: None,
    }))
    .unwrap();
    assert_eq!(missing.response, None);
    assert_eq!(missing.version, None);
    assert!(matches!(
        get_response(reply(ServiceResponse::Done)).unwrap_err(),
        Error(ErrorKind::UnexpectedPayload(ServiceResponse::Done))
    ));
    assert!(matches!(
        get_response(reply(ServiceResponse::NotApplied)).unwrap_err(),
        Error(ErrorKind::UnexpectedPayload(ServiceResponse::NotApplied))
    ));
}

#[test]
fn del_response_follows_the_table() {
    assert_eq!(del_response(reply(ServiceResponse::NotFound)).unwrap().response, 0);
    assert_eq!(del_response(reply(ServiceResponse::ValuesDeleted(5))).unwrap().response, 5);
    assert!(matches!(
        del_response(reply(ServiceResponse::NotApplied)).unwrap_err(),
        Error(ErrorKind::UnexpectedPayload(ServiceResponse::NotApplied))
    ));
    assert!(matches!(
        del_response(reply(ServiceResponse::Done)).unwrap_err(),
        Error(ErrorKind::UnexpectedPayload(ServiceResponse::Done))
    ));
}

#[test]
fn vdel_response_follows_the_table() {
    assert_eq!(vdel_response(reply(ServiceResponse::NotFound)).unwrap().response, 0);
    assert_eq!(vdel_response(reply(ServiceResponse::NotApplied)).unwrap().response, -1);
    assert_eq!(vdel_response(reply(ServiceResponse::ValuesDeleted(1))).unwrap().response, 1);
    assert!(matches!(
        vdel_response(reply(ServiceResponse::Value(vec![]))).unwrap_err(),
        Error(ErrorKind::UnexpectedPayload(ServiceResponse::Value(_)))
    ));
}

#[test]
fn observe_and_unobserve_replies_follow_the_table() {
    assert!(observe_reply(reply(ServiceResponse::Done)).is_ok());
    assert!(matches!(
        observe_reply(reply(ServiceResponse::NotFound)).unwrap_err(),
        Error(ErrorKind::UnexpectedPayload(ServiceResponse::NotFound))
    ));
    assert!(unobserve_reply(reply(ServiceResponse::Done)).unwrap().response);
    assert!(!unobserve_reply(reply(ServiceResponse::NotFound)).unwrap().response);
    assert!(matches!(
        unobserve_reply(reply(ServiceResponse::NotApplied)).unwrap_err(),
        Error(ErrorKind::UnexpectedPayload(ServiceResponse::NotApplied))
    ));
}

#[test]
fn service_and_transport_failures_are_kept_apart() {
    assert!(matches!(
        set_response(reply(ServiceResponse::Error(b"boom".to_vec()))).unwrap_err(),
        Error(ErrorKind::ServiceError(bytes)) if bytes == b"boom".to_vec()
    ));
    assert!(matches!(
        get_response(timed_out()).unwrap_err(),
        Error(ErrorKind::TransportError(TransportError { kind: TransportErrorKind::Timeout, message }))
            if message == "no answer"
    ));
    assert!(matches!(
        del_response(reply(ServiceResponse::Error(vec![]))).unwrap_err(),
        Error(ErrorKind::ServiceError(_))
    ));
    assert!(matches!(
        vdel_response(timed_out()).unwrap_err().kind(),
        ErrorKind::TransportError(_)
    ));
}

#[test]
fn observe_registers_before_the_request_goes_out() {
    let mut client = new_client();
    let (request, observation) =
        client.observe(b"testKey".to_vec(), Timeout::from_secs(1)).unwrap();
    assert_eq!(
        request,
        PendingRequest {
            payload: Request::KeyNotify {
                key: b"testKey".to_vec(),
                options: KeyNotifyOptions { stop: false }
            },
            fencing_token: None,
            timeout: Timeout::from_secs(1),
        }
    );
    assert_eq!(observation.key, b"testKey".to_vec());
    assert_eq!(observation.key(), &b"testKey".to_vec());
    assert!(client.is_observed(b"testKey"));
    assert!(!client.is_observed(b"testKez"));
}

#[test]
fn observe_twice_is_a_duplicate() {
    let mut client = new_client();
    let (_, first) = client.observe(b"testKey".to_vec(), Timeout::from_secs(1)).unwrap();
    let second = client.observe(b"testKey".to_vec(), Timeout::from_secs(1));
    assert!(matches!(second.unwrap_err(), Error(ErrorKind::DuplicateObserve)));
    assert!(client.is_observed(b"testKey"));
    let confirmed = client.observe_response(first, reply(ServiceResponse::Done)).unwrap();
    assert_eq!(confirmed.response.key, b"testKey".to_vec());
    assert_eq!(confirmed.version, Some(clock(7)));
    assert!(client.is_observed(b"testKey"));
}

#[test]
fn bad_timeout_wins_over_duplicate() {
    let mut client = new_client();
    let _first = client.observe(b"testKey".to_vec(), Timeout::from_secs(1)).unwrap();
    let second = client.observe(b"testKey".to_vec(), Timeout::from_secs(0));
    assert!(matches!(second.unwrap_err(), Error(ErrorKind::InvalidArgument(_))));
}

#[test]
fn failed_observe_leaves_no_registration() {
    let mut client = new_client();
    let (_, observation) = client.observe(b"testKey".to_vec(), Timeout::from_secs(1)).unwrap();
    let failed = client.observe_response(observation, timed_out());
    assert!(matches!(failed.unwrap_err(), Error(ErrorKind::TransportError(_))));
    assert!(!client.is_observed(b"testKey"));
    assert!(client.observe(b"testKey".to_vec(), Timeout::from_secs(1)).is_ok());

    let mut client = new_client();
    let (_, observation) = client.observe(b"a".to_vec(), Timeout::from_secs(1)).unwrap();
    let failed = client.observe_response(observation, reply(ServiceResponse::NotFound));
    assert!(matches!(failed.unwrap_err(), Error(ErrorKind::UnexpectedPayload(_))));
    assert!(client.observes_nothing());

    let (_, observation) = client.observe(b"a".to_vec(), Timeout::from_secs(1)).unwrap();
    let failed = client.observe_response(observation, reply(ServiceResponse::Error(vec![1])));
    assert!(matches!(failed.unwrap_err(), Error(ErrorKind::ServiceError(_))));
    assert!(client.observes_nothing());
}

#[test]
fn unobserve_removes_the_registration_on_an_expected_answer() {
    let mut client = new_client();
    let _a = client.observe(b"a".to_vec(), Timeout::from_secs(1)).unwrap();
    let _b = client.observe(b"b".to_vec(), Timeout::from_secs(1)).unwrap();
    assert!(client.unobserve_response(b"a", reply(ServiceResponse::Done)).unwrap().response);
    assert!(!client.is_observed(b"a"));
    assert!(client.is_observed(b"b"));
    assert!(!client.unobserve_response(b"b", reply(ServiceResponse::NotFound)).unwrap().response);
    assert!(client.observes_nothing());
    assert!(!client.unobserve_response(b"b", reply(ServiceResponse::NotFound)).unwrap().response);
}

#[test]
fn failed_unobserve_keeps_the_registration() {
    let mut client = new_client();
    let _a = client.observe(b"a".to_vec(), Timeout::from_secs(1)).unwrap();
    assert!(matches!(
        client.unobserve_response(b"a", timed_out()).unwrap_err(),
        Error(ErrorKind::TransportError(_))
    ));
    assert!(client.is_observed(b"a"));
    assert!(matches!(
        client.unobserve_response(b"a", reply(ServiceResponse::NotApplied)).unwrap_err(),
        Error(ErrorKind::UnexpectedPayload(_))
    ));
    assert!(client.is_observed(b"a"));
}

#[test]
fn options_default_to_automatic_acknowledgment() {
    let options = ClientOptionsBuilder::default().build().unwrap();
    assert!(options.key_notification_auto_ack());
    let mut builder = ClientOptionsBuilder::default();
    builder.key_notification_auto_ack(false);
    let manual = builder.build().unwrap();
    assert!(!manual.key_notification_auto_ack());
    assert_eq!(
        ClientOptionsBuilder::default().key_notification_auto_ack(false).build().unwrap(),
        manual
    );
    assert_eq!(
        ClientOptionsBuilder::default().key_notification_auto_ack(true).build().unwrap(),
        options
    );
    let client: Client<u32> = Client::new(manual);
    assert!(!client.auto_ack());
    assert!(new_client().auto_ack());
}

#[test]
fn shutdown_goes_forward_only() {
    let mut client = new_client();
    assert_eq!(client.state(), Lifecycle::Running);
    client.shutdown();
    assert_eq!(client.state(), Lifecycle::ShuttingDown);
    let failed = client.shutdown_response(Err(TransportError {
        kind: TransportErrorKind::Protocol,
        message: String::from("unsubscribe refused"),
    }));
    assert!(matches!(
        failed.unwrap_err(),
        Error(ErrorKind::TransportError(TransportError { kind: TransportErrorKind::Protocol, .. }))
    ));
    assert_eq!(client.state(), Lifecycle::ShuttingDown);
    client.shutdown();
    assert_eq!(client.state(), Lifecycle::ShuttingDown);
    assert!(client.shutdown_response(Ok(())).is_ok());
    assert_eq!(client.state(), Lifecycle::Shutdown);
    client.shutdown();
    assert_eq!(client.state(), Lifecycle::Shutdown);
    assert!(client.shutdown_response(Ok(())).is_ok());
    assert_eq!(client.state(), Lifecycle::Shutdown);
}
