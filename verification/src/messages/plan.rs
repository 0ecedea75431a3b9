//! The engine's answers to plan management requests.

use vstd::prelude::*;
use crate::wire::{name_after, payload_name, Envelope, Payload};

verus! {

/// The error text for a response of the wrong kind.
pub open spec fn wrong_datatype(p: Payload) -> Seq<char> {
    "Wrong datatype "@ + payload_name(p)
}

/// The answer to a plan creation: the identifier of the new plan.
pub struct CreatePlan {
    pub id: usize,
}

/// The answer to a plan deletion.
pub struct DeletePlan {}

/// A registered plan.
pub struct Plan {
    pub id: usize,
}

/// The plans of a catalog, in the catalog's order.
pub struct Plans(pub(crate) Vec<Plan>);

/// The answer to a request to start a plan.
pub struct StartPlan {
    already_running: bool,
}

/// The answer to a request to stop a plan.
pub struct StopPlan {
    already_stopped: bool,
}

/// Whether `plans` are the plans with the identifiers `ids`, in that order.
pub open spec fn plans_with_ids(plans: Seq<Plan>, ids: Seq<u64>) -> bool {
    &&& plans.len() == ids.len()
    &&& forall|i: int| 0 <= i < ids.len() ==> #[trigger] plans[i].id == ids[i] as usize
}

impl CreatePlan {
    /// Decodes the answer to a plan creation. A message of another kind is
    /// refused with `Wrong datatype <kind>`; an answer without its table with
    /// `Did not contain id.`.
    pub fn try_from(msg: Envelope) -> (r: Result<CreatePlan, String>)
        ensures
            match msg.payload {
                Payload::CreatePlanResponse(Some(id)) => r matches Ok(c) && c.id == id as usize,
                Payload::CreatePlanResponse(None) => r matches Err(e) && e@ == "Did not contain id."@,
                _ => r matches Err(e) && e@ == wrong_datatype(msg.payload),
            },
    {
        match msg.payload {
            Payload::CreatePlanResponse(Some(id)) => Ok(CreatePlan { id: id as usize }),
            Payload::CreatePlanResponse(None) => Err(String::from_str("Did not contain id.")),
            other => Err(name_after("Wrong datatype ", &other)),
        }
    }
}

impl DeletePlan {
    /// Decodes the answer to a plan deletion; a message of another kind is
    /// refused with `Wrong datatype <kind>`.
    pub fn try_from(msg: Envelope) -> (r: Result<DeletePlan, String>)
        ensures
            match msg.payload {
                Payload::DeletePlanResponse => r is Ok,
                _ => r matches Err(e) && e@ == wrong_datatype(msg.payload),
            },
    {
        match msg.payload {
            Payload::DeletePlanResponse => Ok(DeletePlan {  }),
            other => Err(name_after("Wrong datatype ", &other)),
        }
    }
}

impl Plan {
    /// The plan with the identifier of a catalog entry; this never fails.
    pub fn try_from(initial: u64) -> (r: Result<Plan, String>)
        ensures
            r matches Ok(p) && p.id == initial as usize,
    {
        Ok(Plan { id: initial as usize })
    }
}

impl Plans {
    /// The plans with the given identifiers, in order; this never fails.
    pub fn from_ids(ids: &Vec<u64>) -> (r: Result<Plans, String>)
        ensures
            r matches Ok(ps) && plans_with_ids(ps.spec_plans(), ids@),
    {
        let mut plans: Vec<Plan> = Vec::new();
        let mut i: usize = 0;
        while i < ids.len()
            invariant
                i <= ids.len(),
                plans_with_ids(plans@, ids@.take(i as int)),
            decreases ids.len() - i,
        {
            let plan = Plan::try_from(ids[i])?;
            plans.push(plan);
            i = i + 1;
        }
        proof {
            assert(ids@.take(ids@.len() as int) =~= ids@);
        }
        Ok(Plans(plans))
    }

    /// Decodes a catalog into its plans. A message of another kind is refused
    /// with `Wrong datatype <kind>`; a catalog message without its table with
    /// `Plans is empty`; a catalog without a list of plans with
    /// `Contains no plans.`.
    pub fn try_from(msg: Envelope) -> (r: Result<Plans, String>)
        ensures
            match msg.payload {
                Payload::Catalog(Some(c)) => match c.plans {
                    Some(ids) => r matches Ok(ps) && plans_with_ids(ps.spec_plans(), ids@),
                    None => r matches Err(e) && e@ == "Contains no plans."@,
                },
                Payload::Catalog(None) => r matches Err(e) && e@ == "Plans is empty"@,
                _ => r matches Err(e) && e@ == wrong_datatype(msg.payload),
            },
    {
        match msg.payload {
            Payload::Catalog(Some(c)) => match c.plans {
                Some(ids) => Plans::from_ids(&ids),
                None => Err(String::from_str("Contains no plans.")),
            },
            Payload::Catalog(None) => Err(String::from_str("Plans is empty")),
            other => Err(name_after("Wrong datatype ", &other)),
        }
    }

    /// The plans, in order, as a specification value.
    pub closed spec fn spec_plans(&self) -> Seq<Plan> {
        self.0@
    }

    /// The plans, in order.
    pub fn plans(&self) -> (r: &Vec<Plan>)
        ensures
            r@ == self.spec_plans(),
    {
        &self.0
    }

    /// The plans, in order, taken out of the catalog.
    pub fn into_vec(self) -> (r: Vec<Plan>)
        ensures
            r@ == self.spec_plans(),
    {
        self.0
    }
}

impl StartPlan {
    /// Decodes the answer to a start request. A message of another kind is
    /// refused with `Wrong datatype <kind>`; an answer without its table with
    /// `Did not contain start.`.
    pub fn try_from(msg: Envelope) -> (r: Result<StartPlan, String>)
        ensures
            match msg.payload {
                Payload::StartPlanResponse(Some(b)) => r matches Ok(s) && s.spec_already_running() == b,
                Payload::StartPlanResponse(None) => r matches Err(e) && e@ == "Did not contain start."@,
                _ => r matches Err(e) && e@ == wrong_datatype(msg.payload),
            },
    {
        match msg.payload {
            Payload::StartPlanResponse(Some(b)) => Ok(StartPlan { already_running: b }),
            Payload::StartPlanResponse(None) => Err(String::from_str("Did not contain start.")),
            other => Err(name_after("Wrong datatype ", &other)),
        }
    }

    /// Whether the plan was running already, as a specification value.
    pub closed spec fn spec_already_running(&self) -> bool {
        self.already_running
    }

    /// Whether the plan was running already.
    pub fn already_running(&self) -> (r: bool)
        ensures
            r == self.spec_already_running(),
    {
        self.already_running
    }
}

impl StopPlan {
    /// Decodes the answer to a stop request. A message of another kind is
    /// refused with `Wrong datatype <kind>`; an answer without its table with
    /// `Did not contain start.`.
    pub fn try_from(msg: Envelope) -> (r: Result<StopPlan, String>)
        ensures
            match msg.payload {
                Payload::StopPlanResponse(Some(b)) => r matches Ok(s) && s.spec_already_stopped() == b,
                Payload::StopPlanResponse(None) => r matches Err(e) && e@ == "Did not contain start."@,
                _ => r matches Err(e) && e@ == wrong_datatype(msg.payload),
            },
    {
        match msg.payload {
            Payload::StopPlanResponse(Some(b)) => Ok(StopPlan { already_stopped: b }),
            Payload::StopPlanResponse(None) => Err(String::from_str("Did not contain start.")),
            other => Err(name_after("Wrong datatype ", &other)),
        }
    }

    /// Whether the plan was stopped already, as a specification value.
    pub closed spec fn spec_already_stopped(&self) -> bool {
        self.already_stopped
    }

    /// Whether the plan was stopped already.
    pub fn already_stopped(&self) -> (r: bool)
        ensures
            r == self.spec_already_stopped(),
    {
        self.already_stopped
    }
}

} // verus!
