use rails_client::messages::plan::Plans;
use rails_client::wire::{name_after, CatalogBody, Envelope, Payload};
use rails_client::{CreatePlan, DeletePlan, Plan, StartPlan, StopPlan};

#[test]
fn create_plan_answer() {
    let r = CreatePlan::try_from(Envelope::ok(Payload::CreatePlanResponse(Some(12)))).unwrap();
    assert_eq!(r.id, 12);
    let r = CreatePlan::try_from(Envelope::ok(Payload::CreatePlanResponse(None)));
    assert_eq!(r.err(), Some("Did not contain id.".to_string()));
    let r = CreatePlan::try_from(Envelope::ok(Payload::Train(None)));
    assert_eq!(r.err(), Some("Wrong datatype Train".to_string()));
}

#[test]
fn delete_plan_answer() {
    assert!(DeletePlan::try_from(Envelope::ok(Payload::DeletePlanResponse)).is_ok());
    let r = DeletePlan::try_from(Envelope::ok(Payload::NoPayload));
    assert_eq!(r.err(), Some("Wrong datatype NONE".to_string()));
}

#[test]
fn start_and_stop_answers() {
    let r = StartPlan::try_from(Envelope::ok(Payload::StartPlanResponse(Some(true)))).unwrap();
    assert!(r.already_running());
    let r = StartPlan::try_from(Envelope::ok(Payload::StartPlanResponse(None)));
    assert_eq!(r.err(), Some("Did not contain start.".to_string()));
    let r = StartPlan::try_from(Envelope::ok(Payload::StopPlanResponse(Some(true))));
    assert_eq!(r.err(), Some("Wrong datatype StopPlanResponse".to_string()));
    let r = StopPlan::try_from(Envelope::ok(Payload::StopPlanResponse(Some(false)))).unwrap();
    assert!(!r.already_stopped());
    let r = StopPlan::try_from(Envelope::ok(Payload::StopPlanResponse(None)));
    assert_eq!(r.err(), Some("Did not contain start.".to_string()));
    let r = StopPlan::try_from(Envelope::ok(Payload::Unknown(200)));
    assert_eq!(r.err(), Some("Wrong datatype <UNKNOWN 200>".to_string()));
}

#[test]
fn catalog_gives_plans_in_order() {
    let body = CatalogBody { plans: Some(vec![3, 1, 2]) };
    let plans = Plans::try_from(Envelope::ok(Payload::Catalog(Some(body)))).unwrap();
    let ids: Vec<usize> = plans.plans().iter().map(|p| p.id).collect();
    assert_eq!(ids, vec![3, 1, 2]);
    assert_eq!(plans.into_vec().len(), 3);
}

#[test]
fn catalog_errors() {
    let r = Plans::try_from(Envelope::ok(Payload::Catalog(Some(CatalogBody { plans: None }))));
    assert_eq!(r.err().map(|e| e), Some("Contains no plans.".to_string()));
    let r = Plans::try_from(Envelope::ok(Payload::Catalog(None)));
    assert_eq!(r.err(), Some("Plans is empty".to_string()));
    let r = Plans::try_from(Envelope::ok(Payload::GetPlansRequest(None)));
    assert_eq!(r.err(), Some("Wrong datatype GetPlansRequest".to_string()));
    let empty = Plans::try_from(Envelope::ok(Payload::Catalog(Some(CatalogBody { plans: Some(vec![]) }))));
    assert!(empty.unwrap().plans().is_empty());
}

#[test]
fn plan_from_identifier() {
    assert_eq!(Plan::try_from(42).unwrap().id, 42);
    let ps = Plans::from_ids(&vec![5, 6]).unwrap();
    assert_eq!(ps.plans().len(), 2);
    assert_eq!(ps.plans()[1].id, 6);
}

#[test]
fn payload_names() {
    assert_eq!(name_after("", &Payload::RegisterRequest(None)), "RegisterRequest");
    assert_eq!(name_after("kind ", &Payload::BindResponse(None)), "kind BindResponse");
    assert_eq!(name_after("", &Payload::Unknown(20)), "<UNKNOWN 20>");
    assert_eq!(name_after("", &Payload::Unknown(255)), "<UNKNOWN 255>");
    assert_eq!(name_after("", &Payload::NoPayload), "NONE");
}
