use flatbuffers::{FlatBufferBuilder, UnionWIPOffset, WIPOffset};
use rails_client::codec::decode;
use rails_client::value::{FloatBits, WireValue};
use rails_client::wire::{Payload, Status};
use rails_client::{CreatePlan, Message, Permission, Plans, Train, Value};
use track_rails::message_generated::protocol as p;

fn frame(
    b: &mut FlatBufferBuilder,
    data_type: p::Payload,
    data: WIPOffset<UnionWIPOffset>,
) -> Vec<u8> {
    let status = p::OkStatus::create(b, &p::OkStatusArgs {}).as_union_value();
    let msg = p::Message::create(
        b,
        &p::MessageArgs { data_type, data: Some(data), status_type: p::Status::OkStatus, status: Some(status) },
    );
    b.finish(msg, None);
    b.finished_data().to_vec()
}

#[test]
fn decodes_a_plan_creation_answer() {
    let mut b = FlatBufferBuilder::new();
    let data = p::CreatePlanResponse::create(&mut b, &p::CreatePlanResponseArgs { id: 12 }).as_union_value();
    let bytes = frame(&mut b, p::Payload::CreatePlanResponse, data);
    let env = decode(&bytes).unwrap();
    assert!(matches!(env.payload, Payload::CreatePlanResponse(Some(12))));
    assert!(matches!(env.status, Status::OkStatus));
    assert_eq!(CreatePlan::try_from(env).unwrap().id, 12);
}

#[test]
fn decodes_a_registration_response() {
    let mut b = FlatBufferBuilder::new();
    let names: Vec<_> = ["Admin", "reader"].iter().map(|n| b.create_string(n)).collect();
    let permissions = b.create_vector(&names);
    let data = p::RegisterResponse::create(
        &mut b,
        &p::RegisterResponseArgs { id: Some(3), permissions: Some(permissions), catalog: None },
    )
    .as_union_value();
    let bytes = frame(&mut b, p::Payload::RegisterResponse, data);
    let m = Message::try_from(decode(&bytes).unwrap()).unwrap();
    assert_eq!(m.permissions, vec![Permission::AdminPermission]);
    assert_eq!(m.id, Some(3));
}

#[test]
fn decodes_a_catalog_in_order() {
    let mut b = FlatBufferBuilder::new();
    let plans: Vec<_> =
        [8u64, 2, 5].iter().map(|id| p::Plan::create(&mut b, &p::PlanArgs { id: *id, ..Default::default() })).collect();
    let vector = b.create_vector(&plans);
    let list = p::Plans::create(&mut b, &p::PlansArgs { plans: Some(vector) });
    let data = p::Catalog::create(&mut b, &p::CatalogArgs { plans: Some(list) }).as_union_value();
    let bytes = frame(&mut b, p::Payload::Catalog, data);
    let plans = Plans::try_from(decode(&bytes).unwrap()).unwrap();
    let ids: Vec<usize> = plans.plans().iter().map(|plan| plan.id).collect();
    assert_eq!(ids, vec![8, 2, 5]);
}

#[test]
fn decodes_a_train_of_values() {
    let mut b = FlatBufferBuilder::new();
    let text = b.create_string("word");
    let text = p::Text::create(&mut b, &p::TextArgs { data: Some(text) }).as_union_value();
    let w1 = p::ValueWrapper::create(&mut b, &p::ValueWrapperArgs { data_type: p::Value::Text, data: Some(text) });
    let float = p::Float::create(&mut b, &p::FloatArgs { data: 1.5 }).as_union_value();
    let w2 = p::ValueWrapper::create(&mut b, &p::ValueWrapperArgs { data_type: p::Value::Float, data: Some(float) });
    let int = p::Integer::create(&mut b, &p::IntegerArgs { data: -4 }).as_union_value();
    let w3 = p::ValueWrapper::create(&mut b, &p::ValueWrapperArgs { data_type: p::Value::Integer, data: Some(int) });
    let vector = b.create_vector(&[w1, w2, w3]);
    let values = p::Values::create(&mut b, &p::ValuesArgs { values: Some(vector) });
    let content = p::TrainContent::create(
        &mut b,
        &p::TrainContentArgs { data_type: p::ValuesOrEvents::Values, data: Some(values.as_union_value()) },
    );
    let topic = b.create_string("t");
    let time = p::Time::create(&mut b, &p::TimeArgs { data: 77 });
    let data = p::Train::create(&mut b, &p::TrainArgs { content: Some(content), topic: Some(topic), event_time: Some(time) })
        .as_union_value();
    let bytes = frame(&mut b, p::Payload::Train, data);
    let env = decode(&bytes).unwrap();
    match &env.payload {
        Payload::Train(Some(body)) => {
            assert_eq!(body.topic.as_deref(), Some("t"));
            assert_eq!(body.event_time, Some(77));
            let vs = body.values.as_ref().unwrap();
            assert!(matches!(&vs[1], WireValue::Float(Some(FloatBits::Single(bits))) if *bits == 1.5f32.to_bits()));
        }
        other => panic!("unexpected {:?}", other),
    }
    let t = Train::try_from(env).unwrap();
    assert_eq!(t.values().len(), 3);
    assert!(matches!(&t.values()[0], Value::Text(s) if s == "word"));
    assert!(matches!(t.values()[2], Value::Number(-4)));
}

#[test]
fn refuses_bytes_that_are_no_message() {
    assert!(decode(&[1, 2, 3]).is_err());
    assert!(decode(&[]).is_err());
}

#[test]
fn payload_tags_follow_the_protocol() {
    let kinds = [
        (Payload::NoPayload, p::Payload::NONE),
        (Payload::CreatePlanRequest(None), p::Payload::CreatePlanRequest),
        (Payload::CreatePlanResponse(None), p::Payload::CreatePlanResponse),
        (Payload::DeletePlanRequest(None), p::Payload::DeletePlanRequest),
        (Payload::DeletePlanResponse, p::Payload::DeletePlanResponse),
        (Payload::StartPlanRequest(None), p::Payload::StartPlanRequest),
        (Payload::StartPlanResponse(None), p::Payload::StartPlanResponse),
        (Payload::StopPlanRequest(None), p::Payload::StopPlanRequest),
        (Payload::StopPlanResponse(None), p::Payload::StopPlanResponse),
        (Payload::GetPlanRequest(None), p::Payload::GetPlanRequest),
        (Payload::GetPlansRequest(None), p::Payload::GetPlansRequest),
        (Payload::Train(None), p::Payload::Train),
        (Payload::Catalog(None), p::Payload::Catalog),
        (Payload::RegisterRequest(None), p::Payload::RegisterRequest),
        (Payload::RegisterResponse(None), p::Payload::RegisterResponse),
        (Payload::BindRequest(None), p::Payload::BindRequest),
        (Payload::BindResponse(None), p::Payload::BindResponse),
        (Payload::UnbindRequest(None), p::Payload::UnbindRequest),
        (Payload::UnbindResponse(None), p::Payload::UnbindResponse),
        (Payload::Disconnect(None), p::Payload::Disconnect),
    ];
    for (ours, theirs) in kinds {
        assert_eq!(ours.tag(), theirs.0);
        assert_eq!(rails_client::wire::name_after("", &ours), format!("{:?}", theirs));
    }
}
