use rails_client::codec::{decode, encode};
use rails_client::connection::ConnectionState;
use rails_client::requests::{
    create_plan_request, delete_plan_request, get_plans_request, register_request, start_plan_request,
    stop_plan_request, train_message,
};
use rails_client::wire::{Envelope, Payload, Status, StopBinding};

#[test]
fn written_requests_read_back() {
    let env = decode(&encode(&start_plan_request(5)).unwrap()).unwrap();
    assert!(matches!(env.payload, Payload::StartPlanRequest(Some(5))));
    assert!(matches!(env.status, Status::OkStatus));
    let env = decode(&encode(&stop_plan_request(6)).unwrap()).unwrap();
    assert!(matches!(env.payload, Payload::StopPlanRequest(Some(6))));
    let env = decode(&encode(&delete_plan_request(7)).unwrap()).unwrap();
    assert!(matches!(env.payload, Payload::DeletePlanRequest(Some(7))));
}

#[test]
fn written_plan_creation_reads_back() {
    let env = decode(&encode(&create_plan_request("Test Plan", "0--1--2")).unwrap()).unwrap();
    match env.payload {
        Payload::CreatePlanRequest(Some(d)) => {
            assert_eq!(d.name.as_deref(), Some("Test Plan"));
            assert_eq!(d.plan.as_deref(), Some("0--1--2"));
        }
        other => panic!("unexpected {:?}", other),
    }
}

#[test]
fn written_plan_query_reads_back() {
    let env = decode(&encode(&get_plans_request()).unwrap()).unwrap();
    match env.payload {
        Payload::GetPlansRequest(Some(q)) => assert_eq!(q.by_name.as_deref(), Some("*")),
        other => panic!("unexpected {:?}", other),
    }
}

#[test]
fn written_registration_and_disconnection_read_back() {
    let env = decode(&encode(&register_request()).unwrap()).unwrap();
    assert!(matches!(env.payload, Payload::RegisterRequest(Some(ref r)) if r.id.is_none()));
    let state = ConnectionState::new();
    let env = decode(&encode(&state.disconnect_message()).unwrap()).unwrap();
    assert!(matches!(env.payload, Payload::Disconnect(Some(0))));
    assert!(matches!(env.status, Status::OkStatus));
}

#[test]
fn written_bindings_read_back() {
    let binding = StopBinding { plan_id: 3, stop_id: 9 };
    let env = decode(&encode(&Envelope::ok(Payload::UnbindRequest(Some(binding)))).unwrap()).unwrap();
    assert!(matches!(env.payload, Payload::UnbindRequest(Some(b)) if b.plan_id == 3 && b.stop_id == 9));
    let env = decode(&encode(&Envelope::ok(Payload::StartPlanResponse(Some(true)))).unwrap()).unwrap();
    assert!(matches!(env.payload, Payload::StartPlanResponse(Some(true))));
}

#[test]
fn messages_the_library_does_not_write_are_refused() {
    let refused = "cannot write this message".to_string();
    assert_eq!(encode(&train_message("x", 1)).err(), Some(refused.clone()));
    assert_eq!(encode(&Envelope::ok(Payload::StartPlanRequest(None))).err(), Some(refused.clone()));
    assert_eq!(encode(&Envelope::ok(Payload::NoPayload)).err(), Some(refused.clone()));
    let no_status = Envelope { payload: Payload::StartPlanRequest(Some(1)), status: Status::NoStatus };
    assert_eq!(encode(&no_status).err(), Some(refused));
}
