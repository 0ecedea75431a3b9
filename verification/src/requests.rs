//! The messages a client sends to the engine. Every one carries an `OkStatus`.

use vstd::prelude::*;
use crate::value::{WireValue, WireValueModel};
use crate::wire::{
    Envelope, Payload, PlanDraft, PlansQuery, RegisterRequestBody, Status, TrainBody,
};

verus! {

/// The registration a client sends when it connects: a registration request
/// without an identifier.
pub fn register_request() -> (r: Envelope)
    ensures
        r.payload matches Payload::RegisterRequest(Some(body)) && body.id is None,
        r.status == Status::OkStatus,
{
    Envelope::ok(Payload::RegisterRequest(Some(RegisterRequestBody { id: None })))
}

/// A train carrying one text value: the text, on the empty topic, stamped with
/// the given time in milliseconds since the Unix epoch (cut to 64 bits and read
/// as a signed number).
pub fn train_message(text: &str, millis: u128) -> (r: Envelope)
    ensures
        r.payload matches Payload::Train(Some(body)) && {
            &&& body.values matches Some(vs) && vs@.len() == 1 && vs@[0]@ == WireValueModel::Text(
                Some(text@),
            )
            &&& body.topic matches Some(topic) && topic@ == Seq::<char>::empty()
            &&& body.event_time == Some((millis as u64) as i64)
        },
        r.status == Status::OkStatus,
{
    let time = (millis as u64) as i64;
    let topic = String::from_str("");
    proof {
        reveal_strlit("");
    }
    let value = WireValue::Text(Some(String::from_str(text)));
    let values = vec![value];
    Envelope::ok(
        Payload::Train(Some(TrainBody { values: Some(values), topic: Some(topic), event_time: Some(time) })),
    )
}

/// The message a connection sends when it closes: a disconnection with the
/// connection's identifier, or 0 where it has none.
pub fn disconnect_request(id: Option<usize>) -> (r: Envelope)
    ensures
        r.payload == Payload::Disconnect(
            Some(
                match id {
                    Some(i) => i as u64,
                    None => 0u64,
                },
            ),
        ),
        r.status == Status::OkStatus,
{
    let id: u64 = match id {
        Some(i) => i as u64,
        None => 0,
    };
    Envelope::ok(Payload::Disconnect(Some(id)))
}

/// A request to start the plan with the given identifier.
pub fn start_plan_request(id: usize) -> (r: Envelope)
    ensures
        r.payload == Payload::StartPlanRequest(Some(id as u64)),
        r.status == Status::OkStatus,
{
    Envelope::ok(Payload::StartPlanRequest(Some(id as u64)))
}

/// A request to stop the plan with the given identifier.
pub fn stop_plan_request(id: usize) -> (r: Envelope)
    ensures
        r.payload == Payload::StopPlanRequest(Some(id as u64)),
        r.status == Status::OkStatus,
{
    Envelope::ok(Payload::StopPlanRequest(Some(id as u64)))
}

/// A request to delete the plan with the given identifier.
pub fn delete_plan_request(id: usize) -> (r: Envelope)
    ensures
        r.payload == Payload::DeletePlanRequest(Some(id as u64)),
        r.status == Status::OkStatus,
{
    Envelope::ok(Payload::DeletePlanRequest(Some(id as u64)))
}

/// A request to create a plan with the given name from the given schema.
pub fn create_plan_request(name: &str, plan: &str) -> (r: Envelope)
    ensures
        r.payload matches Payload::CreatePlanRequest(Some(draft)) && (draft.name matches Some(n)
            && n@ == name@) && (draft.plan matches Some(p) && p@ == plan@),
        r.status == Status::OkStatus,
{
    let draft = PlanDraft { name: Some(String::from_str(name)), plan: Some(String::from_str(plan)) };
    Envelope::ok(Payload::CreatePlanRequest(Some(draft)))
}

/// A request for the registered plans whose name matches `filter`.
pub fn get_plans_by_name_request(filter: &str) -> (r: Envelope)
    ensures
        r.payload matches Payload::GetPlansRequest(Some(query)) && (query.by_name matches Some(n)
            && n@ == filter@),
        r.status == Status::OkStatus,
{
    let query = PlansQuery { by_name: Some(String::from_str(filter)) };
    Envelope::ok(Payload::GetPlansRequest(Some(query)))
}

/// A request for all registered plans, running as well as stopped: the
/// request for the plans whose name matches `*`.
pub fn get_plans_request() -> (r: Envelope)
    ensures
        r.payload matches Payload::GetPlansRequest(Some(query)) && (query.by_name matches Some(n)
            && n@ == "*"@),
        r.status == Status::OkStatus,
{
    get_plans_by_name_request("*")
}

} // verus!
