//! The protocol model: the content of a message exchanged with the engine, as
//! plain values. A message carries a payload (a union over the message kinds)
//! and a status (a union over status kinds). Where a payload kind has a table,
//! `None` stands for a message whose union holds no table of that kind.

use vstd::prelude::*;
use crate::codec::{kind_name, payload_kind_name};
use crate::messages::register::names_of;
use crate::value::{WireValue, WireValueModel};

verus! {

/// The table of a plan creation request.
#[derive(Debug, Clone)]
pub struct PlanDraft {
    pub name: Option<String>,
    pub plan: Option<String>,
}

/// The table of a request for the registered plans: `by_name` is the name of
/// the `ByName` filter when the request holds one.
#[derive(Debug, Clone)]
pub struct PlansQuery {
    pub by_name: Option<String>,
}

/// The table of a train: `values` is the list of values when the train's
/// content is a list of values (and `None` when it carries events).
#[derive(Debug, Clone)]
pub struct TrainBody {
    pub values: Option<Vec<WireValue>>,
    pub topic: Option<String>,
    pub event_time: Option<i64>,
}

/// The table of a catalog: the identifiers of its plans, in order, when it
/// holds a list of plans.
#[derive(Debug, Clone)]
pub struct CatalogBody {
    pub plans: Option<Vec<u64>>,
}

/// The table of a registration request.
#[derive(Debug, Clone)]
pub struct RegisterRequestBody {
    pub id: Option<u64>,
}

/// The table of a registration response: the identifier the engine gave the
/// connection and the names of the permissions it granted.
#[derive(Debug, Clone)]
pub struct RegisterBody {
    pub id: Option<u64>,
    pub permissions: Option<Vec<String>>,
}

/// The table of a binding (or unbinding) of a stop of a plan.
#[derive(Debug, Clone, Copy)]
pub struct StopBinding {
    pub plan_id: u64,
    pub stop_id: u64,
}

/// The table of an error status.
#[derive(Debug, Clone)]
pub struct ErrorBody {
    pub code: u32,
    pub msg: String,
}

/// The payload union of a message. `Unknown` holds the tag of a kind that the
/// protocol does not define.
#[derive(Debug, Clone)]
pub enum Payload {
    NoPayload,
    CreatePlanRequest(Option<PlanDraft>),
    CreatePlanResponse(Option<u64>),
    DeletePlanRequest(Option<u64>),
    DeletePlanResponse,
    StartPlanRequest(Option<u64>),
    StartPlanResponse(Option<bool>),
    StopPlanRequest(Option<u64>),
    StopPlanResponse(Option<bool>),
    GetPlanRequest(Option<u64>),
    GetPlansRequest(Option<PlansQuery>),
    Train(Option<TrainBody>),
    Catalog(Option<CatalogBody>),
    RegisterRequest(Option<RegisterRequestBody>),
    RegisterResponse(Option<RegisterBody>),
    BindRequest(Option<StopBinding>),
    BindResponse(Option<StopBinding>),
    UnbindRequest(Option<StopBinding>),
    UnbindResponse(Option<StopBinding>),
    Disconnect(Option<u64>),
    Unknown(u8),
}

/// The status union of a message.
#[derive(Debug, Clone)]
pub enum Status {
    NoStatus,
    OkStatus,
    ErrorStatus(Option<ErrorBody>),
    Unknown(u8),
}

/// A message: its payload and its status.
#[derive(Debug, Clone)]
pub struct Envelope {
    pub payload: Payload,
    pub status: Status,
}

impl Envelope {
    /// A message with the given payload and an `OkStatus`, the status every
    /// message of a client carries.
    pub fn ok(payload: Payload) -> (r: Envelope)
        ensures
            r.payload == payload,
            r.status == Status::OkStatus,
    {
        Envelope { payload, status: Status::OkStatus }
    }
}

/// The characters of an optional text.
pub open spec fn opt_chars(s: Option<String>) -> Option<Seq<char>> {
    match s {
        Some(t) => Some(t@),
        None => None,
    }
}

/// The models of a list of values.
pub open spec fn wire_values_view(vs: Seq<WireValue>) -> Seq<WireValueModel> {
    vs.map_values(|w: WireValue| w@)
}

/// Mathematical model of a [`TrainBody`].
pub struct TrainModel {
    pub values: Option<Seq<WireValueModel>>,
    pub topic: Option<Seq<char>>,
    pub event_time: Option<i64>,
}

/// Mathematical model of a [`Payload`]: each table by the plain values it holds.
pub enum PayloadModel {
    NoPayload,
    CreatePlanRequest(Option<(Option<Seq<char>>, Option<Seq<char>>)>),
    CreatePlanResponse(Option<u64>),
    DeletePlanRequest(Option<u64>),
    DeletePlanResponse,
    StartPlanRequest(Option<u64>),
    StartPlanResponse(Option<bool>),
    StopPlanRequest(Option<u64>),
    StopPlanResponse(Option<bool>),
    GetPlanRequest(Option<u64>),
    GetPlansRequest(Option<Option<Seq<char>>>),
    Train(Option<TrainModel>),
    Catalog(Option<Option<Seq<u64>>>),
    RegisterRequest(Option<Option<u64>>),
    RegisterResponse(Option<(Option<u64>, Option<Seq<Seq<char>>>)>),
    BindRequest(Option<(u64, u64)>),
    BindResponse(Option<(u64, u64)>),
    UnbindRequest(Option<(u64, u64)>),
    UnbindResponse(Option<(u64, u64)>),
    Disconnect(Option<u64>),
    Unknown(u8),
}

/// Mathematical model of a [`Status`].
pub enum StatusModel {
    NoStatus,
    OkStatus,
    ErrorStatus(Option<(u32, Seq<char>)>),
    Unknown(u8),
}

/// Mathematical model of an [`Envelope`].
pub struct EnvelopeModel {
    pub payload: PayloadModel,
    pub status: StatusModel,
}

/// The model of a binding table.
pub open spec fn binding_view(b: Option<StopBinding>) -> Option<(u64, u64)> {
    match b {
        Some(x) => Some((x.plan_id, x.stop_id)),
        None => None,
    }
}

impl View for Payload {
    type V = PayloadModel;

    open spec fn view(&self) -> PayloadModel {
        match self {
            Payload::NoPayload => PayloadModel::NoPayload,
            Payload::CreatePlanRequest(d) => PayloadModel::CreatePlanRequest(
                match d {
                    Some(x) => Some((opt_chars(x.name), opt_chars(x.plan))),
                    None => None,
                },
            ),
            Payload::CreatePlanResponse(x) => PayloadModel::CreatePlanResponse(*x),
            Payload::DeletePlanRequest(x) => PayloadModel::DeletePlanRequest(*x),
            Payload::DeletePlanResponse => PayloadModel::DeletePlanResponse,
            Payload::StartPlanRequest(x) => PayloadModel::StartPlanRequest(*x),
            Payload::StartPlanResponse(x) => PayloadModel::StartPlanResponse(*x),
            Payload::StopPlanRequest(x) => PayloadModel::StopPlanRequest(*x),
            Payload::StopPlanResponse(x) => PayloadModel::StopPlanResponse(*x),
            Payload::GetPlanRequest(x) => PayloadModel::GetPlanRequest(*x),
            Payload::GetPlansRequest(q) => PayloadModel::GetPlansRequest(
                match q {
                    Some(x) => Some(opt_chars(x.by_name)),
                    None => None,
                },
            ),
            Payload::Train(t) => PayloadModel::Train(
                match t {
                    Some(x) => Some(
                        TrainModel {
                            values: match x.values {
                                Some(vs) => Some(wire_values_view(vs@)),
                                None => None,
                            },
                            topic: opt_chars(x.topic),
                            event_time: x.event_time,
                        },
                    ),
                    None => None,
                },
            ),
            Payload::Catalog(c) => PayloadModel::Catalog(
                match c {
                    Some(x) => Some(
                        match x.plans {
                            Some(ids) => Some(ids@),
                            None => None,
                        },
                    ),
                    None => None,
                },
            ),
            Payload::RegisterRequest(r) => PayloadModel::RegisterRequest(
                match r {
                    Some(x) => Some(x.id),
                    None => None,
                },
            ),
            Payload::RegisterResponse(r) => PayloadModel::RegisterResponse(
                match r {
                    Some(x) => Some(
                        (
                            x.id,
                            match x.permissions {
                                Some(names) => Some(names_of(names@)),
                                None => None,
                            },
                        ),
                    ),
                    None => None,
                },
            ),
            Payload::BindRequest(b) => PayloadModel::BindRequest(binding_view(*b)),
            Payload::BindResponse(b) => PayloadModel::BindResponse(binding_view(*b)),
            Payload::UnbindRequest(b) => PayloadModel::UnbindRequest(binding_view(*b)),
            Payload::UnbindResponse(b) => PayloadModel::UnbindResponse(binding_view(*b)),
            Payload::Disconnect(x) => PayloadModel::Disconnect(*x),
            Payload::Unknown(tag) => PayloadModel::Unknown(*tag),
        }
    }
}

impl View for Status {
    type V = StatusModel;

    open spec fn view(&self) -> StatusModel {
        match self {
            Status::NoStatus => StatusModel::NoStatus,
            Status::OkStatus => StatusModel::OkStatus,
            Status::ErrorStatus(e) => StatusModel::ErrorStatus(
                match e {
                    Some(x) => Some((x.code, x.msg@)),
                    None => None,
                },
            ),
            Status::Unknown(tag) => StatusModel::Unknown(*tag),
        }
    }
}

impl View for Envelope {
    type V = EnvelopeModel;

    open spec fn view(&self) -> EnvelopeModel {
        EnvelopeModel { payload: self.payload@, status: self.status@ }
    }
}

/// The tag of the kind of a payload model in the TrackRails payload union.
pub open spec fn model_tag(p: PayloadModel) -> u8 {
    match p {
        PayloadModel::NoPayload => 0,
        PayloadModel::CreatePlanRequest(_) => 1,
        PayloadModel::CreatePlanResponse(_) => 2,
        PayloadModel::DeletePlanRequest(_) => 3,
        PayloadModel::DeletePlanResponse => 4,
        PayloadModel::StartPlanRequest(_) => 5,
        PayloadModel::StartPlanResponse(_) => 6,
        PayloadModel::StopPlanRequest(_) => 7,
        PayloadModel::StopPlanResponse(_) => 8,
        PayloadModel::GetPlanRequest(_) => 9,
        PayloadModel::GetPlansRequest(_) => 10,
        PayloadModel::Train(_) => 11,
        PayloadModel::Catalog(_) => 12,
        PayloadModel::RegisterRequest(_) => 13,
        PayloadModel::RegisterResponse(_) => 14,
        PayloadModel::BindRequest(_) => 15,
        PayloadModel::BindResponse(_) => 16,
        PayloadModel::UnbindRequest(_) => 17,
        PayloadModel::UnbindResponse(_) => 18,
        PayloadModel::Disconnect(_) => 19,
        PayloadModel::Unknown(tag) => tag,
    }
}

/// The tag of the kind of a status model in the TrackRails status union.
pub open spec fn status_tag(s: StatusModel) -> u8 {
    match s {
        StatusModel::NoStatus => 0,
        StatusModel::OkStatus => 1,
        StatusModel::ErrorStatus(_) => 2,
        StatusModel::Unknown(tag) => tag,
    }
}

/// The tag of a payload kind in the TrackRails payload union; `Unknown`
/// keeps the tag it was read with.
pub open spec fn payload_tag(p: Payload) -> u8 {
    match p {
        Payload::NoPayload => 0,
        Payload::CreatePlanRequest(_) => 1,
        Payload::CreatePlanResponse(_) => 2,
        Payload::DeletePlanRequest(_) => 3,
        Payload::DeletePlanResponse => 4,
        Payload::StartPlanRequest(_) => 5,
        Payload::StartPlanResponse(_) => 6,
        Payload::StopPlanRequest(_) => 7,
        Payload::StopPlanResponse(_) => 8,
        Payload::GetPlanRequest(_) => 9,
        Payload::GetPlansRequest(_) => 10,
        Payload::Train(_) => 11,
        Payload::Catalog(_) => 12,
        Payload::RegisterRequest(_) => 13,
        Payload::RegisterResponse(_) => 14,
        Payload::BindRequest(_) => 15,
        Payload::BindResponse(_) => 16,
        Payload::UnbindRequest(_) => 17,
        Payload::UnbindResponse(_) => 18,
        Payload::Disconnect(_) => 19,
        Payload::Unknown(tag) => tag,
    }
}

impl Payload {
    /// The tag of the payload's kind.
    pub fn tag(&self) -> (r: u8)
        ensures
            r == payload_tag(*self),
    {
        match self {
            Payload::NoPayload => 0,
            Payload::CreatePlanRequest(_) => 1,
            Payload::CreatePlanResponse(_) => 2,
            Payload::DeletePlanRequest(_) => 3,
            Payload::DeletePlanResponse => 4,
            Payload::StartPlanRequest(_) => 5,
            Payload::StartPlanResponse(_) => 6,
            Payload::StopPlanRequest(_) => 7,
            Payload::StopPlanResponse(_) => 8,
            Payload::GetPlanRequest(_) => 9,
            Payload::GetPlansRequest(_) => 10,
            Payload::Train(_) => 11,
            Payload::Catalog(_) => 12,
            Payload::RegisterRequest(_) => 13,
            Payload::RegisterResponse(_) => 14,
            Payload::BindRequest(_) => 15,
            Payload::BindResponse(_) => 16,
            Payload::UnbindRequest(_) => 17,
            Payload::UnbindResponse(_) => 18,
            Payload::Disconnect(_) => 19,
            Payload::Unknown(tag) => *tag,
        }
    }
}

/// The name of a payload kind, as the protocol's debug output writes it.
pub open spec fn payload_name(p: Payload) -> Seq<char> {
    kind_name(payload_tag(p))
}

/// The text `prefix` followed by the name of the payload kind.
pub fn name_after(prefix: &str, p: &Payload) -> (r: String)
    ensures
        r@ == prefix@ + payload_name(*p),
{
    let mut out = String::from_str(prefix);
    let name = payload_kind_name(p.tag());
    out.append(name.as_str());
    out
}

} // verus!
