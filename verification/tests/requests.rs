use rails_client::framing::{frame_header, frame_length};
use rails_client::requests::{
    create_plan_request, delete_plan_request, disconnect_request, get_plans_by_name_request,
    get_plans_request, register_request, start_plan_request, stop_plan_request, train_message,
};
use rails_client::value::WireValue;
use rails_client::wire::{Payload, Status};
use rails_client::Client;

#[test]
fn plan_requests_carry_the_identifier() {
    assert!(matches!(start_plan_request(5).payload, Payload::StartPlanRequest(Some(5))));
    assert!(matches!(stop_plan_request(6).payload, Payload::StopPlanRequest(Some(6))));
    assert!(matches!(delete_plan_request(7).payload, Payload::DeletePlanRequest(Some(7))));
    assert!(matches!(start_plan_request(5).status, Status::OkStatus));
}

#[test]
fn create_plan_request_carries_name_and_schema() {
    match create_plan_request("Test Plan", "0--1--2").payload {
        Payload::CreatePlanRequest(Some(d)) => {
            assert_eq!(d.name.as_deref(), Some("Test Plan"));
            assert_eq!(d.plan.as_deref(), Some("0--1--2"));
        }
        other => panic!("unexpected {:?}", other),
    }
}

#[test]
fn all_plans_are_those_matching_star() {
    match get_plans_request().payload {
        Payload::GetPlansRequest(Some(q)) => assert_eq!(q.by_name.as_deref(), Some("*")),
        other => panic!("unexpected {:?}", other),
    }
    match get_plans_by_name_request("Word Count").payload {
        Payload::GetPlansRequest(Some(q)) => assert_eq!(q.by_name.as_deref(), Some("Word Count")),
        other => panic!("unexpected {:?}", other),
    }
}

#[test]
fn registration_and_disconnection() {
    assert!(matches!(register_request().payload, Payload::RegisterRequest(Some(ref b)) if b.id.is_none()));
    assert!(matches!(disconnect_request(Some(12)).payload, Payload::Disconnect(Some(12))));
    assert!(matches!(disconnect_request(None).payload, Payload::Disconnect(Some(0))));
}

#[test]
fn train_message_carries_one_text() {
    let m = train_message("Hello world", 1_700_000_000_123);
    match m.payload {
        Payload::Train(Some(body)) => {
            let values = body.values.unwrap();
            assert_eq!(values.len(), 1);
            assert!(matches!(&values[0], WireValue::Text(Some(t)) if t == "Hello world"));
            assert_eq!(body.topic.as_deref(), Some(""));
            assert_eq!(body.event_time, Some(1_700_000_000_123));
        }
        other => panic!("unexpected {:?}", other),
    }
    let wrapped = train_message("x", (1u128 << 64) + 5);
    assert!(matches!(wrapped.payload, Payload::Train(Some(ref b)) if b.event_time == Some(5)));
    let negative = train_message("x", u64::MAX as u128);
    assert!(matches!(negative.payload, Payload::Train(Some(ref b)) if b.event_time == Some(-1)));
}

#[test]
fn frame_header_is_big_endian_length() {
    assert_eq!(frame_header(258), [0, 0, 1, 2]);
    assert_eq!(frame_header(0), [0, 0, 0, 0]);
    assert_eq!(frame_header(0xdead_beef), [0xde, 0xad, 0xbe, 0xef]);
    assert_eq!(frame_length([0, 0, 1, 2]), 258);
    assert_eq!(frame_length([0xff, 0xff, 0xff, 0xff]), 0xffff_ffff);
}

#[test]
fn frame_length_reads_back_the_header() {
    for n in [0usize, 1, 255, 256, 65_535, 65_536, 16_777_216, 0xffff_ffff] {
        assert_eq!(frame_length(frame_header(n)), n);
    }
}

#[test]
fn client_address_is_host_colon_port() {
    let c = Client::new("localhost", 5959);
    assert_eq!(c.host(), "localhost");
    assert_eq!(c.port(), 5959);
    assert_eq!(c.address(), "localhost:5959");
    assert_eq!(Client::new("127.0.0.1", 0).address(), "127.0.0.1:0");
    assert_eq!(Client::new("h", 65535).address(), "h:65535");
}
