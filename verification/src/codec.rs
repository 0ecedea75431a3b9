//! The FlatBuffers form of TrackRails messages.
//!
//! Reading: the parse of a frame received from the engine (through
//! `flatbuffers::root` and the accessors that track-rails generates), and its
//! conversion into the protocol model. Each reading function parses the frame
//! again and returns one part of the message as plain values; what it returns
//! is named by a specification function of the frame's bytes. [`decode`] puts
//! the parts together.
//!
//! Writing: one builder per message kind that the library writes, each named
//! by a specification function of the table's plain values; [`encode`] picks
//! the builder for a message of the model.

use vstd::prelude::*;
use track_rails::message_generated::protocol as p;
use track_rails::message_generated::protocol::Value as Kind;
use track_rails::message_generated::protocol::{
    BindRequest, BindRequestArgs, BindResponse, BindResponseArgs, ByName, ByNameArgs,
    CreatePlanRequest, CreatePlanRequestArgs, CreatePlanResponse, CreatePlanResponseArgs,
    DeletePlanRequest, DeletePlanRequestArgs, Disconnect, DisconnectArgs, Filter, FilterArgs,
    FilterType, GetPlanRequest, GetPlanRequestArgs, GetPlansRequest, GetPlansRequestArgs,
    Message as Msg, MessageArgs, OkStatus, OkStatusArgs, Payload as PayloadKind, RegisterRequest,
    RegisterRequestArgs, StartPlanRequest, StartPlanRequestArgs, StartPlanResponse,
    StartPlanResponseArgs, Status as StatusKind, StopPlanRequest, StopPlanRequestArgs,
    StopPlanResponse, StopPlanResponseArgs, UnbindRequest, UnbindRequestArgs, UnbindResponse,
    UnbindResponseArgs,
};
use flatbuffers::FlatBufferBuilder;
use crate::value::{FloatBits, WireValue, WireValueModel};
use crate::wire::{
    binding_view, opt_chars, wire_values_view, CatalogBody, Envelope, EnvelopeModel, ErrorBody,
    Payload, PayloadModel, PlanDraft, PlansQuery, RegisterBody, RegisterRequestBody, Status,
    StatusModel, StopBinding, TrainBody, TrainModel,
};
use crate::messages::register::names_of;
use crate::text::decimal;
use crate::wire::{model_tag, status_tag};

verus! {

/// The debug name that track-rails gives the payload kind with a tag: the
/// kind's name in the schema, or `<UNKNOWN n>` for a tag outside the union.
pub open spec fn kind_name(tag: u8) -> Seq<char> {
    if tag == 0 {
        "NONE"@
    } else if tag == 1 {
        "CreatePlanRequest"@
    } else if tag == 2 {
        "CreatePlanResponse"@
    } else if tag == 3 {
        "DeletePlanRequest"@
    } else if tag == 4 {
        "DeletePlanResponse"@
    } else if tag == 5 {
        "StartPlanRequest"@
    } else if tag == 6 {
        "StartPlanResponse"@
    } else if tag == 7 {
        "StopPlanRequest"@
    } else if tag == 8 {
        "StopPlanResponse"@
    } else if tag == 9 {
        "GetPlanRequest"@
    } else if tag == 10 {
        "GetPlansRequest"@
    } else if tag == 11 {
        "Train"@
    } else if tag == 12 {
        "Catalog"@
    } else if tag == 13 {
        "RegisterRequest"@
    } else if tag == 14 {
        "RegisterResponse"@
    } else if tag == 15 {
        "BindRequest"@
    } else if tag == 16 {
        "BindResponse"@
    } else if tag == 17 {
        "UnbindRequest"@
    } else if tag == 18 {
        "UnbindResponse"@
    } else if tag == 19 {
        "Disconnect"@
    } else {
        "<UNKNOWN "@ + decimal(tag as nat) + ">"@
    }
}

/// Calls the `Debug` formatting of track-rails' `Payload` for a tag, which
/// writes the kind's `variant_name`, or `<UNKNOWN n>` with the tag in decimal
/// for a tag outside the union. The result is claimed to be `kind_name`.
#[verifier::external_body]
pub(crate) fn payload_kind_name(tag: u8) -> (r: String)
    ensures
        r@ == kind_name(tag),
{
    format!("{:?}", p::Payload(tag))
}

/// What `flatbuffers::root` makes of a frame: the tags of the message's
/// payload and status unions, or the text of the verifier's error.
pub uninterp spec fn frame_tags(frame: Seq<u8>) -> Result<(u8, u8), Seq<char>>;

/// Parses the frame with `flatbuffers::root` and returns the tags of the
/// payload and status unions, or the error's text. The result is claimed to
/// be `frame_tags` of the frame; and that the bytes built by the writers below
/// parse, with the tag of the kind they build and the tag of `OkStatus`.
#[verifier::external_body]
fn read_tags(frame: &[u8]) -> (r: Result<(u8, u8), String>)
    ensures
        match r {
            Ok(t) => frame_tags(frame@) == Ok::<(u8, u8), Seq<char>>(t),
            Err(e) => frame_tags(frame@) == Err::<(u8, u8), Seq<char>>(e@),
        },
        forall|n: Option<Seq<char>>, pl: Option<Seq<char>>| #[trigger] create_plan_request_frame(n, pl) == frame@ ==> (r is Ok && r.unwrap() == (1u8, 1u8)),
        forall|id: u64| #[trigger] create_plan_response_frame(id) == frame@ ==> (r is Ok && r.unwrap() == (2u8, 1u8)),
        forall|id: u64| #[trigger] delete_plan_request_frame(id) == frame@ ==> (r is Ok && r.unwrap() == (3u8, 1u8)),
        forall|id: u64| #[trigger] start_plan_request_frame(id) == frame@ ==> (r is Ok && r.unwrap() == (5u8, 1u8)),
        forall|b: bool| #[trigger] start_plan_response_frame(b) == frame@ ==> (r is Ok && r.unwrap() == (6u8, 1u8)),
        forall|id: u64| #[trigger] stop_plan_request_frame(id) == frame@ ==> (r is Ok && r.unwrap() == (7u8, 1u8)),
        forall|b: bool| #[trigger] stop_plan_response_frame(b) == frame@ ==> (r is Ok && r.unwrap() == (8u8, 1u8)),
        forall|id: u64| #[trigger] get_plan_request_frame(id) == frame@ ==> (r is Ok && r.unwrap() == (9u8, 1u8)),
        forall|q: Option<Seq<char>>| #[trigger] get_plans_request_frame(q) == frame@ ==> (r is Ok && r.unwrap() == (10u8, 1u8)),
        forall|id: Option<u64>| #[trigger] register_request_frame(id) == frame@ ==> (r is Ok && r.unwrap() == (13u8, 1u8)),
        forall|pl: u64, st: u64| #[trigger] bind_request_frame(pl, st) == frame@ ==> (r is Ok && r.unwrap() == (15u8, 1u8)),
        forall|pl: u64, st: u64| #[trigger] bind_response_frame(pl, st) == frame@ ==> (r is Ok && r.unwrap() == (16u8, 1u8)),
        forall|pl: u64, st: u64| #[trigger] unbind_request_frame(pl, st) == frame@ ==> (r is Ok && r.unwrap() == (17u8, 1u8)),
        forall|pl: u64, st: u64| #[trigger] unbind_response_frame(pl, st) == frame@ ==> (r is Ok && r.unwrap() == (18u8, 1u8)),
        forall|id: u64| #[trigger] disconnect_frame(id) == frame@ ==> (r is Ok && r.unwrap() == (19u8, 1u8)),
{
    match flatbuffers::root::<p::Message>(frame) {
        Ok(m) => Ok((m.data_type().0, m.status_type().0)),
        Err(e) => Err(e.to_string()),
    }
}

/// The identifier of the payload table of a frame whose payload kind carries
/// one as its only field.
pub uninterp spec fn frame_id(frame: Seq<u8>) -> Option<u64>;

/// Parses the frame and reads the `id` of its payload table for the kinds
/// whose table is an identifier; `None` otherwise. Claimed to be `frame_id`,
/// and, on the bytes a writer below built from an identifier, that identifier.
#[verifier::external_body]
fn read_id(frame: &[u8]) -> (r: Option<u64>)
    ensures
        r == frame_id(frame@),
        forall|id: u64| #[trigger] create_plan_response_frame(id) == frame@ ==> r == Some(id),
        forall|id: u64| #[trigger] delete_plan_request_frame(id) == frame@ ==> r == Some(id),
        forall|id: u64| #[trigger] start_plan_request_frame(id) == frame@ ==> r == Some(id),
        forall|id: u64| #[trigger] stop_plan_request_frame(id) == frame@ ==> r == Some(id),
        forall|id: u64| #[trigger] get_plan_request_frame(id) == frame@ ==> r == Some(id),
        forall|id: u64| #[trigger] disconnect_frame(id) == frame@ ==> r == Some(id),
{
    let m = flatbuffers::root::<p::Message>(frame).ok()?;
    match m.data_type() {
        p::Payload::CreatePlanResponse => Some(m.data_as_create_plan_response()?.id()),
        p::Payload::DeletePlanRequest => Some(m.data_as_delete_plan_request()?.id()),
        p::Payload::StartPlanRequest => Some(m.data_as_start_plan_request()?.id()),
        p::Payload::StopPlanRequest => Some(m.data_as_stop_plan_request()?.id()),
        p::Payload::GetPlanRequest => Some(m.data_as_get_plan_request()?.id()),
        p::Payload::Disconnect => Some(m.data_as_disconnect()?.id()),
        _ => None,
    }
}

/// The flag of the payload table of a frame that answers a start or a stop.
pub uninterp spec fn frame_flag(frame: Seq<u8>) -> Option<bool>;

/// Parses the frame and reads `already_running` of a start answer or
/// `already_stopped` of a stop answer; `None` otherwise. Claimed to be
/// `frame_flag`, and, on the bytes a writer below built from a flag, that flag.
#[verifier::external_body]
fn read_flag(frame: &[u8]) -> (r: Option<bool>)
    ensures
        r == frame_flag(frame@),
        forall|b: bool| #[trigger] start_plan_response_frame(b) == frame@ ==> r == Some(b),
        forall|b: bool| #[trigger] stop_plan_response_frame(b) == frame@ ==> r == Some(b),
{
    let m = flatbuffers::root::<p::Message>(frame).ok()?;
    match m.data_type() {
        p::Payload::StartPlanResponse => Some(m.data_as_start_plan_response()?.already_running()),
        p::Payload::StopPlanResponse => Some(m.data_as_stop_plan_response()?.already_stopped()),
        _ => None,
    }
}

/// The plan and stop of the payload table of a frame that binds or unbinds.
pub uninterp spec fn frame_binding(frame: Seq<u8>) -> Option<(u64, u64)>;

/// Parses the frame and reads `plan_id` and `stop_id` of a bind or unbind
/// request or response; `None` otherwise. Claimed to be `frame_binding`, and,
/// on the bytes a writer below built from a plan and a stop, those two.
#[verifier::external_body]
fn read_binding(frame: &[u8]) -> (r: Option<StopBinding>)
    ensures
        binding_view(r) == frame_binding(frame@),
        forall|pl: u64, st: u64| #[trigger] bind_request_frame(pl, st) == frame@ ==> binding_view(r) == Some((pl, st)),
        forall|pl: u64, st: u64| #[trigger] bind_response_frame(pl, st) == frame@ ==> binding_view(r) == Some((pl, st)),
        forall|pl: u64, st: u64| #[trigger] unbind_request_frame(pl, st) == frame@ ==> binding_view(r) == Some((pl, st)),
        forall|pl: u64, st: u64| #[trigger] unbind_response_frame(pl, st) == frame@ ==> binding_view(r) == Some((pl, st)),
{
    let m = flatbuffers::root::<p::Message>(frame).ok()?;
    let (plan_id, stop_id) = match m.data_type() {
        p::Payload::BindRequest => { let b = m.data_as_bind_request()?; (b.plan_id(), b.stop_id()) },
        p::Payload::BindResponse => { let b = m.data_as_bind_response()?; (b.plan_id(), b.stop_id()) },
        p::Payload::UnbindRequest => { let b = m.data_as_unbind_request()?; (b.plan_id(), b.stop_id()) },
        p::Payload::UnbindResponse => { let b = m.data_as_unbind_response()?; (b.plan_id(), b.stop_id()) },
        _ => return None,
    };
    Some(StopBinding { plan_id, stop_id })
}

/// The name and schema of a frame's plan creation request.
pub uninterp spec fn frame_draft(frame: Seq<u8>) -> Option<(Option<Seq<char>>, Option<Seq<char>>)>;

/// Parses the frame and reads `name` and `plan` of a plan creation request;
/// `None` for another kind. Claimed to be `frame_draft`, and, on the bytes
/// built by `write_create_plan_request`, the name and schema it was given.
#[verifier::external_body]
fn read_draft(frame: &[u8]) -> (r: Option<PlanDraft>)
    ensures
        match r {
            Some(d) => frame_draft(frame@) == Some((opt_chars(d.name), opt_chars(d.plan))),
            None => frame_draft(frame@) is None,
        },
        forall|n: Option<Seq<char>>, pl: Option<Seq<char>>| #[trigger] create_plan_request_frame(n, pl) == frame@ ==> (r is Some && opt_chars(r.unwrap().name) == n && opt_chars(r.unwrap().plan) == pl),
{
    let r = flatbuffers::root::<p::Message>(frame).ok()?.data_as_create_plan_request()?;
    Some(PlanDraft { name: r.name().map(String::from), plan: r.plan().map(String::from) })
}

/// The name filter of a frame's request for plans.
pub uninterp spec fn frame_query(frame: Seq<u8>) -> Option<Option<Seq<char>>>;

/// Parses the frame and reads the `ByName` filter's name of a request for
/// plans; `None` for another kind. Claimed to be `frame_query`, and, on the
/// bytes built by `write_get_plans_request`, the name it was given.
#[verifier::external_body]
fn read_query(frame: &[u8]) -> (r: Option<PlansQuery>)
    ensures
        match r {
            Some(q) => frame_query(frame@) == Some(opt_chars(q.by_name)),
            None => frame_query(frame@) is None,
        },
        forall|q: Option<Seq<char>>| #[trigger] get_plans_request_frame(q) == frame@ ==> (r is Some && opt_chars(r.unwrap().by_name) == q),
{
    let q = flatbuffers::root::<p::Message>(frame).ok()?.data_as_get_plans_request()?;
    let by_name = q.name().and_then(|f| f.filter_type_as_by_name()).and_then(|n| n.name());
    Some(PlansQuery { by_name: by_name.map(String::from) })
}

/// The identifier of a frame's registration request.
pub uninterp spec fn frame_register_request(frame: Seq<u8>) -> Option<Option<u64>>;

/// Parses the frame and reads `id` of a registration request; `None` for
/// another kind. Claimed to be `frame_register_request`, and, on the bytes
/// built by `write_register_request`, the identifier it was given.
#[verifier::external_body]
fn read_register_request(frame: &[u8]) -> (r: Option<RegisterRequestBody>)
    ensures
        match r {
            Some(b) => frame_register_request(frame@) == Some(b.id),
            None => frame_register_request(frame@) is None,
        },
        forall|id: Option<u64>| #[trigger] register_request_frame(id) == frame@ ==> (r is Some && r.unwrap().id == id),
{
    let r = flatbuffers::root::<p::Message>(frame).ok()?.data_as_register_request()?;
    Some(RegisterRequestBody { id: r.id() })
}

/// The identifier and permission names of a frame's registration response.
pub uninterp spec fn frame_register_response(frame: Seq<u8>) -> Option<(Option<u64>, Option<Seq<Seq<char>>>)>;

/// Parses the frame and reads `id` and `permissions` of a registration
/// response; `None` for another kind. Claimed to be `frame_register_response`.
#[verifier::external_body]
fn read_register_response(frame: &[u8]) -> (r: Option<RegisterBody>)
    ensures
        match r {
            Some(b) => frame_register_response(frame@) == Some(
                (
                    b.id,
                    match b.permissions {
                        Some(names) => Some(names_of(names@)),
                        None => None,
                    },
                ),
            ),
            None => frame_register_response(frame@) is None,
        },
{
    let r = flatbuffers::root::<p::Message>(frame).ok()?.data_as_register_response()?;
    let permissions = match r.permissions() {
        Some(names) => Some(names.iter().map(String::from).collect()),
        None => None,
    };
    Some(RegisterBody { id: r.id(), permissions })
}

/// The plan identifiers of a frame's catalog.
pub uninterp spec fn frame_catalog(frame: Seq<u8>) -> Option<Option<Seq<u64>>>;

/// Parses the frame and reads the `id` of each plan of a catalog, in order;
/// `None` for another kind. Claimed to be `frame_catalog`.
#[verifier::external_body]
fn read_catalog(frame: &[u8]) -> (r: Option<CatalogBody>)
    ensures
        match r {
            Some(c) => frame_catalog(frame@) == Some(
                match c.plans {
                    Some(ids) => Some(ids@),
                    None => None,
                },
            ),
            None => frame_catalog(frame@) is None,
        },
{
    let c = flatbuffers::root::<p::Message>(frame).ok()?.data_as_catalog()?;
    let plans = match c.plans() {
        Some(ps) => Some(ps.plans().iter().map(|plan| plan.id()).collect()),
        None => None,
    };
    Some(CatalogBody { plans })
}

/// The number of values (when its content is a list of values), the topic
/// and the event time of a frame's train.
pub uninterp spec fn frame_train(frame: Seq<u8>) -> Option<(Option<usize>, Option<Seq<char>>, Option<i64>)>;

/// Parses the frame and reads the length of a train's list of values (`None`
/// where its content is events), its `topic` and the `data` of its
/// `event_time`; `None` for another kind. Claimed to be `frame_train`.
#[verifier::external_body]
fn read_train(frame: &[u8]) -> (r: Option<(Option<usize>, Option<String>, Option<i64>)>)
    ensures
        match r {
            Some((n, topic, time)) => frame_train(frame@) == Some((n, opt_chars(topic), time)),
            None => frame_train(frame@) is None,
        },
{
    let t = flatbuffers::root::<p::Message>(frame).ok()?.data_as_train()?;
    let count = t.content().data_as_values().map(|v| v.values().len());
    Some((count, t.topic().map(String::from), t.event_time().map(|time| time.data())))
}

/// The value at an index of a frame's train.
pub uninterp spec fn frame_train_value(frame: Seq<u8>, index: usize) -> WireValueModel;

/// Parses the frame and reads the value at `index` of a train's list of
/// values: its kind and the kind's table (a float by its single-precision
/// bits). Claimed to be `frame_train_value`. The index must lie in the list,
/// where the accessor of the list would panic otherwise.
#[verifier::external_body]
fn read_train_value(frame: &[u8], index: usize) -> (r: WireValue)
    requires
        frame_train(frame@) matches Some((Some(n), _, _)) && index < n,
    ensures
        r@ == frame_train_value(frame@, index),
{
    let w = flatbuffers::root::<p::Message>(frame).unwrap().data_as_train().unwrap()
        .content().data_as_values().unwrap().values().get(index);
    match w.data_type() {
        Kind::Null => WireValue::Null,
        Kind::Text => WireValue::Text(w.data_as_text().map(|t| t.data().to_string())),
        Kind::Bool => WireValue::Bool(w.data_as_bool().map(|x| x.data())),
        Kind::Integer => WireValue::Integer(w.data_as_integer().map(|x| x.data())),
        Kind::Float => WireValue::Float(w.data_as_float().map(|x| FloatBits::Single(x.data().to_bits()))),
        other => WireValue::Other(other.0),
    }
}

/// The code and text of a frame's error status.
pub uninterp spec fn frame_error(frame: Seq<u8>) -> Option<(u32, Seq<char>)>;

/// Parses the frame and reads `code` and `msg` of an error status; `None`
/// for another status. Claimed to be `frame_error`.
#[verifier::external_body]
fn read_error(frame: &[u8]) -> (r: Option<ErrorBody>)
    ensures
        match r {
            Some(e) => frame_error(frame@) == Some((e.code, e.msg@)),
            None => frame_error(frame@) is None,
        },
{
    let e = flatbuffers::root::<p::Message>(frame).ok()?.status_as_error_status()?;
    Some(ErrorBody { code: e.code(), msg: e.msg().to_string() })
}

/// The values of a frame's train, when its content is a list of `n` values.
pub open spec fn frame_values(frame: Seq<u8>, n: usize) -> Seq<WireValueModel> {
    Seq::new(n as nat, |i: int| frame_train_value(frame, i as usize))
}

/// The payload of a frame with the given payload tag, read from its parts.
pub open spec fn decoded_payload(frame: Seq<u8>, tag: u8) -> PayloadModel {
    if tag == 0 {
        PayloadModel::NoPayload
    } else if tag == 1 {
        PayloadModel::CreatePlanRequest(frame_draft(frame))
    } else if tag == 2 {
        PayloadModel::CreatePlanResponse(frame_id(frame))
    } else if tag == 3 {
        PayloadModel::DeletePlanRequest(frame_id(frame))
    } else if tag == 4 {
        PayloadModel::DeletePlanResponse
    } else if tag == 5 {
        PayloadModel::StartPlanRequest(frame_id(frame))
    } else if tag == 6 {
        PayloadModel::StartPlanResponse(frame_flag(frame))
    } else if tag == 7 {
        PayloadModel::StopPlanRequest(frame_id(frame))
    } else if tag == 8 {
        PayloadModel::StopPlanResponse(frame_flag(frame))
    } else if tag == 9 {
        PayloadModel::GetPlanRequest(frame_id(frame))
    } else if tag == 10 {
        PayloadModel::GetPlansRequest(frame_query(frame))
    } else if tag == 11 {
        PayloadModel::Train(
            match frame_train(frame) {
                Some((count, topic, time)) => Some(
                    TrainModel {
                        values: match count {
                            Some(n) => Some(frame_values(frame, n)),
                            None => None,
                        },
                        topic,
                        event_time: time,
                    },
                ),
                None => None,
            },
        )
    } else if tag == 12 {
        PayloadModel::Catalog(frame_catalog(frame))
    } else if tag == 13 {
        PayloadModel::RegisterRequest(frame_register_request(frame))
    } else if tag == 14 {
        PayloadModel::RegisterResponse(frame_register_response(frame))
    } else if tag == 15 {
        PayloadModel::BindRequest(frame_binding(frame))
    } else if tag == 16 {
        PayloadModel::BindResponse(frame_binding(frame))
    } else if tag == 17 {
        PayloadModel::UnbindRequest(frame_binding(frame))
    } else if tag == 18 {
        PayloadModel::UnbindResponse(frame_binding(frame))
    } else if tag == 19 {
        PayloadModel::Disconnect(frame_id(frame))
    } else {
        PayloadModel::Unknown(tag)
    }
}

/// The status of a frame with the given status tag, read from its parts.
pub open spec fn decoded_status(frame: Seq<u8>, tag: u8) -> StatusModel {
    if tag == 0 {
        StatusModel::NoStatus
    } else if tag == 1 {
        StatusModel::OkStatus
    } else if tag == 2 {
        StatusModel::ErrorStatus(frame_error(frame))
    } else {
        StatusModel::Unknown(tag)
    }
}

/// The message a frame holds, or the parse error's text.
pub open spec fn decoded(frame: Seq<u8>) -> Result<EnvelopeModel, Seq<char>> {
    match frame_tags(frame) {
        Ok((payload, status)) => Ok(
            EnvelopeModel {
                payload: decoded_payload(frame, payload),
                status: decoded_status(frame, status),
            },
        ),
        Err(e) => Err(e),
    }
}

/// Reads the values of a frame's train.
fn decode_values(frame: &[u8], n: usize) -> (r: Vec<WireValue>)
    requires
        frame_train(frame@) matches Some((Some(m), _, _)) && m == n,
    ensures
        wire_values_view(r@) == frame_values(frame@, n),
{
    let mut values: Vec<WireValue> = Vec::new();
    let mut i: usize = 0;
    while i < n
        invariant
            i <= n,
            values@.len() == i,
            frame_train(frame@) matches Some((Some(m), _, _)) && m == n,
            wire_values_view(values@) == frame_values(frame@, n).take(i as int),
        decreases n - i,
    {
        let v = read_train_value(frame, i);
        let ghost prev = values@;
        values.push(v);
        proof {
            assert(values@ == prev.push(v));
            assert forall|k: int| 0 <= k < i + 1 implies #[trigger] wire_values_view(values@)[k]
                == frame_values(frame@, n).take(i + 1)[k] by {
                if k < i {
                    assert(values@[k] == prev[k]);
                    assert(wire_values_view(prev)[k] == frame_values(frame@, n).take(i as int)[k]);
                } else {
                    assert(k == i);
                    assert(values@[k] == v);
                    assert(wire_values_view(values@)[k] == v@);
                    assert(frame_values(frame@, n)[k] == frame_train_value(frame@, (k as usize)));
                    assert((k as usize) == i);
                }
            }
            assert(wire_values_view(values@) =~= frame_values(frame@, n).take(i + 1));
        }
        i = i + 1;
    }
    proof {
        assert(frame_values(frame@, n).take(n as int) =~= frame_values(frame@, n));
    }
    values
}

/// Reads the train of a frame.
fn decode_train(frame: &[u8]) -> (r: Option<TrainBody>)
    ensures
        PayloadModel::Train(
            match r {
                Some(t) => Some(
                    TrainModel {
                        values: match t.values {
                            Some(vs) => Some(wire_values_view(vs@)),
                            None => None,
                        },
                        topic: opt_chars(t.topic),
                        event_time: t.event_time,
                    },
                ),
                None => None,
            },
        ) == decoded_payload(frame@, 11),
{
    match read_train(frame) {
        Some((count, topic, event_time)) => {
            let values = match count {
                Some(n) => Some(decode_values(frame, n)),
                None => None,
            };
            Some(TrainBody { values, topic, event_time })
        },
        None => None,
    }
}

/// Reads the payload of a frame with the given payload tag.
fn decode_payload(frame: &[u8], tag: u8) -> (r: Payload)
    ensures
        r@ == decoded_payload(frame@, tag),
        forall|env: EnvelopeModel| #[trigger] encoded(env) == Some(frame@) && model_tag(env.payload) == tag
            ==> r@ == env.payload,
{
    if tag == 0 {
        Payload::NoPayload
    } else if tag == 1 {
        Payload::CreatePlanRequest(read_draft(frame))
    } else if tag == 2 {
        Payload::CreatePlanResponse(read_id(frame))
    } else if tag == 3 {
        Payload::DeletePlanRequest(read_id(frame))
    } else if tag == 4 {
        Payload::DeletePlanResponse
    } else if tag == 5 {
        Payload::StartPlanRequest(read_id(frame))
    } else if tag == 6 {
        Payload::StartPlanResponse(read_flag(frame))
    } else if tag == 7 {
        Payload::StopPlanRequest(read_id(frame))
    } else if tag == 8 {
        Payload::StopPlanResponse(read_flag(frame))
    } else if tag == 9 {
        Payload::GetPlanRequest(read_id(frame))
    } else if tag == 10 {
        Payload::GetPlansRequest(read_query(frame))
    } else if tag == 11 {
        Payload::Train(decode_train(frame))
    } else if tag == 12 {
        Payload::Catalog(read_catalog(frame))
    } else if tag == 13 {
        Payload::RegisterRequest(read_register_request(frame))
    } else if tag == 14 {
        Payload::RegisterResponse(read_register_response(frame))
    } else if tag == 15 {
        Payload::BindRequest(read_binding(frame))
    } else if tag == 16 {
        Payload::BindResponse(read_binding(frame))
    } else if tag == 17 {
        Payload::UnbindRequest(read_binding(frame))
    } else if tag == 18 {
        Payload::UnbindResponse(read_binding(frame))
    } else if tag == 19 {
        Payload::Disconnect(read_id(frame))
    } else {
        Payload::Unknown(tag)
    }
}

/// Reads the status of a frame with the given status tag.
fn decode_status(frame: &[u8], tag: u8) -> (r: Status)
    ensures
        r@ == decoded_status(frame@, tag),
{
    if tag == 0 {
        Status::NoStatus
    } else if tag == 1 {
        Status::OkStatus
    } else if tag == 2 {
        Status::ErrorStatus(read_error(frame))
    } else {
        Status::Unknown(tag)
    }
}

/// Reads the message a frame received from the engine holds. A frame that
/// is not a valid TrackRails message is refused with the FlatBuffers
/// verifier's error text.
pub fn decode(frame: &[u8]) -> (r: Result<Envelope, String>)
    ensures
        r is Ok <==> decoded(frame@) is Ok,
        r matches Ok(env) ==> decoded(frame@) == Ok::<EnvelopeModel, Seq<char>>(env@),
        r matches Err(e) ==> decoded(frame@) == Err::<EnvelopeModel, Seq<char>>(e@),
        r matches Ok(env) ==> (frame_tags(frame@) matches Ok((payload_tag, status_tag_read)) && model_tag(
            env@.payload,
        ) == payload_tag && status_tag(env@.status) == status_tag_read),
        forall|env: EnvelopeModel| #[trigger] encoded(env) == Some(frame@) ==> (r matches Ok(e) && e@ == env),
{
    match read_tags(frame) {
        Ok((payload_tag, status_tag)) => {
            let payload = decode_payload(frame, payload_tag);
            let status = decode_status(frame, status_tag);
            Ok(Envelope { payload, status })
        },
        Err(e) => Err(e),
    }
}

/// The bytes of a plan creation answer message with an `OkStatus`, as track-rails builds it.
pub uninterp spec fn create_plan_response_frame(id: u64) -> Seq<u8>;

/// Builds a `CreatePlanResponse` table with `id` and an `OkStatus` into a `Message` in a new
/// `FlatBufferBuilder`, and returns the finished bytes; claimed to be `create_plan_response_frame`
/// of the arguments.
#[verifier::external_body]
fn write_create_plan_response(id: u64) -> (r: Vec<u8>)
    ensures
        r@ == create_plan_response_frame(id),
{
    let mut b = FlatBufferBuilder::new();
    let d = CreatePlanResponse::create(&mut b, &CreatePlanResponseArgs { id }).as_union_value();
    let s = OkStatus::create(&mut b, &OkStatusArgs {}).as_union_value();
    let m = Msg::create(&mut b, &MessageArgs { data_type: PayloadKind::CreatePlanResponse, data: Some(d), status_type: StatusKind::OkStatus, status: Some(s) });
    b.finish(m, None);
    b.finished_data().to_vec()
}

/// The bytes of a plan deletion request message with an `OkStatus`, as track-rails builds it.
pub uninterp spec fn delete_plan_request_frame(id: u64) -> Seq<u8>;

/// Builds a `DeletePlanRequest` table with `id` and an `OkStatus` into a `Message` in a new
/// `FlatBufferBuilder`, and returns the finished bytes; claimed to be `delete_plan_request_frame`
/// of the arguments.
#[verifier::external_body]
fn write_delete_plan_request(id: u64) -> (r: Vec<u8>)
    ensures
        r@ == delete_plan_request_frame(id),
{
    let mut b = FlatBufferBuilder::new();
    let d = DeletePlanRequest::create(&mut b, &DeletePlanRequestArgs { id }).as_union_value();
    let s = OkStatus::create(&mut b, &OkStatusArgs {}).as_union_value();
    let m = Msg::create(&mut b, &MessageArgs { data_type: PayloadKind::DeletePlanRequest, data: Some(d), status_type: StatusKind::OkStatus, status: Some(s) });
    b.finish(m, None);
    b.finished_data().to_vec()
}

/// The bytes of a plan start request message with an `OkStatus`, as track-rails builds it.
pub uninterp spec fn start_plan_request_frame(id: u64) -> Seq<u8>;

/// Builds a `StartPlanRequest` table with `id` and an `OkStatus` into a `Message` in a new
/// `FlatBufferBuilder`, and returns the finished bytes; claimed to be `start_plan_request_frame`
/// of the arguments.
#[verifier::external_body]
fn write_start_plan_request(id: u64) -> (r: Vec<u8>)
    ensures
        r@ == start_plan_request_frame(id),
{
    let mut b = FlatBufferBuilder::new();
    let d = StartPlanRequest::create(&mut b, &StartPlanRequestArgs { id }).as_union_value();
    let s = OkStatus::create(&mut b, &OkStatusArgs {}).as_union_value();
    let m = Msg::create(&mut b, &MessageArgs { data_type: PayloadKind::StartPlanRequest, data: Some(d), status_type: StatusKind::OkStatus, status: Some(s) });
    b.finish(m, None);
    b.finished_data().to_vec()
}

/// The bytes of a plan stop request message with an `OkStatus`, as track-rails builds it.
pub uninterp spec fn stop_plan_request_frame(id: u64) -> Seq<u8>;

/// Builds a `StopPlanRequest` table with `id` and an `OkStatus` into a `Message` in a new
/// `FlatBufferBuilder`, and returns the finished bytes; claimed to be `stop_plan_request_frame`
/// of the arguments.
#[verifier::external_body]
fn write_stop_plan_request(id: u64) -> (r: Vec<u8>)
    ensures
        r@ == stop_plan_request_frame(id),
{
    let mut b = FlatBufferBuilder::new();
    let d = StopPlanRequest::create(&mut b, &StopPlanRequestArgs { id }).as_union_value();
    let s = OkStatus::create(&mut b, &OkStatusArgs {}).as_union_value();
    let m = Msg::create(&mut b, &MessageArgs { data_type: PayloadKind::StopPlanRequest, data: Some(d), status_type: StatusKind::OkStatus, status: Some(s) });
    b.finish(m, None);
    b.finished_data().to_vec()
}

/// The bytes of a plan request message with an `OkStatus`, as track-rails builds it.
pub uninterp spec fn get_plan_request_frame(id: u64) -> Seq<u8>;

/// Builds a `GetPlanRequest` table with `id` and an `OkStatus` into a `Message` in a new
/// `FlatBufferBuilder`, and returns the finished bytes; claimed to be `get_plan_request_frame`
/// of the arguments.
#[verifier::external_body]
fn write_get_plan_request(id: u64) -> (r: Vec<u8>)
    ensures
        r@ == get_plan_request_frame(id),
{
    let mut b = FlatBufferBuilder::new();
    let d = GetPlanRequest::create(&mut b, &GetPlanRequestArgs { id }).as_union_value();
    let s = OkStatus::create(&mut b, &OkStatusArgs {}).as_union_value();
    let m = Msg::create(&mut b, &MessageArgs { data_type: PayloadKind::GetPlanRequest, data: Some(d), status_type: StatusKind::OkStatus, status: Some(s) });
    b.finish(m, None);
    b.finished_data().to_vec()
}

/// The bytes of a disconnection message with an `OkStatus`, as track-rails builds it.
pub uninterp spec fn disconnect_frame(id: u64) -> Seq<u8>;

/// Builds a `Disconnect` table with `id` and an `OkStatus` into a `Message` in a new
/// `FlatBufferBuilder`, and returns the finished bytes; claimed to be `disconnect_frame`
/// of the arguments.
#[verifier::external_body]
fn write_disconnect(id: u64) -> (r: Vec<u8>)
    ensures
        r@ == disconnect_frame(id),
{
    let mut b = FlatBufferBuilder::new();
    let d = Disconnect::create(&mut b, &DisconnectArgs { id }).as_union_value();
    let s = OkStatus::create(&mut b, &OkStatusArgs {}).as_union_value();
    let m = Msg::create(&mut b, &MessageArgs { data_type: PayloadKind::Disconnect, data: Some(d), status_type: StatusKind::OkStatus, status: Some(s) });
    b.finish(m, None);
    b.finished_data().to_vec()
}

/// The bytes of a plan start answer message with an `OkStatus`, as track-rails builds it.
pub uninterp spec fn start_plan_response_frame(flag: bool) -> Seq<u8>;

/// Builds a `StartPlanResponse` table with `already_running` set to `flag` and an `OkStatus` into a `Message` in a new
/// `FlatBufferBuilder`, and returns the finished bytes; claimed to be `start_plan_response_frame`
/// of the arguments.
#[verifier::external_body]
fn write_start_plan_response(flag: bool) -> (r: Vec<u8>)
    ensures
        r@ == start_plan_response_frame(flag),
{
    let mut b = FlatBufferBuilder::new();
    let d = StartPlanResponse::create(&mut b, &StartPlanResponseArgs { already_running: flag }).as_union_value();
    let s = OkStatus::create(&mut b, &OkStatusArgs {}).as_union_value();
    let m = Msg::create(&mut b, &MessageArgs { data_type: PayloadKind::StartPlanResponse, data: Some(d), status_type: StatusKind::OkStatus, status: Some(s) });
    b.finish(m, None);
    b.finished_data().to_vec()
}

/// The bytes of a plan stop answer message with an `OkStatus`, as track-rails builds it.
pub uninterp spec fn stop_plan_response_frame(flag: bool) -> Seq<u8>;

/// Builds a `StopPlanResponse` table with `already_stopped` set to `flag` and an `OkStatus` into a `Message` in a new
/// `FlatBufferBuilder`, and returns the finished bytes; claimed to be `stop_plan_response_frame`
/// of the arguments.
#[verifier::external_body]
fn write_stop_plan_response(flag: bool) -> (r: Vec<u8>)
    ensures
        r@ == stop_plan_response_frame(flag),
{
    let mut b = FlatBufferBuilder::new();
    let d = StopPlanResponse::create(&mut b, &StopPlanResponseArgs { already_stopped: flag }).as_union_value();
    let s = OkStatus::create(&mut b, &OkStatusArgs {}).as_union_value();
    let m = Msg::create(&mut b, &MessageArgs { data_type: PayloadKind::StopPlanResponse, data: Some(d), status_type: StatusKind::OkStatus, status: Some(s) });
    b.finish(m, None);
    b.finished_data().to_vec()
}

/// The bytes of a stop binding request message with an `OkStatus`, as track-rails builds it.
pub uninterp spec fn bind_request_frame(plan_id: u64, stop_id: u64) -> Seq<u8>;

/// Builds a `BindRequest` table with `plan_id` and `stop_id` and an `OkStatus` into a `Message` in a new
/// `FlatBufferBuilder`, and returns the finished bytes; claimed to be `bind_request_frame`
/// of the arguments.
#[verifier::external_body]
fn write_bind_request(plan_id: u64, stop_id: u64) -> (r: Vec<u8>)
    ensures
        r@ == bind_request_frame(plan_id, stop_id),
{
    let mut b = FlatBufferBuilder::new();
    let d = BindRequest::create(&mut b, &BindRequestArgs { plan_id, stop_id }).as_union_value();
    let s = OkStatus::create(&mut b, &OkStatusArgs {}).as_union_value();
    let m = Msg::create(&mut b, &MessageArgs { data_type: PayloadKind::BindRequest, data: Some(d), status_type: StatusKind::OkStatus, status: Some(s) });
    b.finish(m, None);
    b.finished_data().to_vec()
}

/// The bytes of a stop binding answer message with an `OkStatus`, as track-rails builds it.
pub uninterp spec fn bind_response_frame(plan_id: u64, stop_id: u64) -> Seq<u8>;

/// Builds a `BindResponse` table with `plan_id` and `stop_id` and an `OkStatus` into a `Message` in a new
/// `FlatBufferBuilder`, and returns the finished bytes; claimed to be `bind_response_frame`
/// of the arguments.
#[verifier::external_body]
fn write_bind_response(plan_id: u64, stop_id: u64) -> (r: Vec<u8>)
    ensures
        r@ == bind_response_frame(plan_id, stop_id),
{
    let mut b = FlatBufferBuilder::new();
    let d = BindResponse::create(&mut b, &BindResponseArgs { plan_id, stop_id }).as_union_value();
    let s = OkStatus::create(&mut b, &OkStatusArgs {}).as_union_value();
    let m = Msg::create(&mut b, &MessageArgs { data_type: PayloadKind::BindResponse, data: Some(d), status_type: StatusKind::OkStatus, status: Some(s) });
    b.finish(m, None);
    b.finished_data().to_vec()
}

/// The bytes of a stop unbinding request message with an `OkStatus`, as track-rails builds it.
pub uninterp spec fn unbind_request_frame(plan_id: u64, stop_id: u64) -> Seq<u8>;

/// Builds a `UnbindRequest` table with `plan_id` and `stop_id` and an `OkStatus` into a `Message` in a new
/// `FlatBufferBuilder`, and returns the finished bytes; claimed to be `unbind_request_frame`
/// of the arguments.
#[verifier::external_body]
fn write_unbind_request(plan_id: u64, stop_id: u64) -> (r: Vec<u8>)
    ensures
        r@ == unbind_request_frame(plan_id, stop_id),
{
    let mut b = FlatBufferBuilder::new();
    let d = UnbindRequest::create(&mut b, &UnbindRequestArgs { plan_id, stop_id }).as_union_value();
    let s = OkStatus::create(&mut b, &OkStatusArgs {}).as_union_value();
    let m = Msg::create(&mut b, &MessageArgs { data_type: PayloadKind::UnbindRequest, data: Some(d), status_type: StatusKind::OkStatus, status: Some(s) });
    b.finish(m, None);
    b.finished_data().to_vec()
}

/// The bytes of a stop unbinding answer message with an `OkStatus`, as track-rails builds it.
pub uninterp spec fn unbind_response_frame(plan_id: u64, stop_id: u64) -> Seq<u8>;

/// Builds a `UnbindResponse` table with `plan_id` and `stop_id` and an `OkStatus` into a `Message` in a new
/// `FlatBufferBuilder`, and returns the finished bytes; claimed to be `unbind_response_frame`
/// of the arguments.
#[verifier::external_body]
fn write_unbind_response(plan_id: u64, stop_id: u64) -> (r: Vec<u8>)
    ensures
        r@ == unbind_response_frame(plan_id, stop_id),
{
    let mut b = FlatBufferBuilder::new();
    let d = UnbindResponse::create(&mut b, &UnbindResponseArgs { plan_id, stop_id }).as_union_value();
    let s = OkStatus::create(&mut b, &OkStatusArgs {}).as_union_value();
    let m = Msg::create(&mut b, &MessageArgs { data_type: PayloadKind::UnbindResponse, data: Some(d), status_type: StatusKind::OkStatus, status: Some(s) });
    b.finish(m, None);
    b.finished_data().to_vec()
}

/// The bytes of a registration request message with an `OkStatus`, as track-rails builds it.
pub uninterp spec fn register_request_frame(id: Option<u64>) -> Seq<u8>;

/// Builds a `RegisterRequest` table with `id` and no catalog and an `OkStatus` into a `Message` in a new
/// `FlatBufferBuilder`, and returns the finished bytes; claimed to be `register_request_frame`
/// of the arguments.
#[verifier::external_body]
fn write_register_request(id: Option<u64>) -> (r: Vec<u8>)
    ensures
        r@ == register_request_frame(id),
{
    let mut b = FlatBufferBuilder::new();
    let d = RegisterRequest::create(&mut b, &RegisterRequestArgs { id, catalog: None }).as_union_value();
    let s = OkStatus::create(&mut b, &OkStatusArgs {}).as_union_value();
    let m = Msg::create(&mut b, &MessageArgs { data_type: PayloadKind::RegisterRequest, data: Some(d), status_type: StatusKind::OkStatus, status: Some(s) });
    b.finish(m, None);
    b.finished_data().to_vec()
}

/// The bytes of a plan creation request message with an `OkStatus`, as track-rails builds it.
pub uninterp spec fn create_plan_request_frame(name: Option<Seq<char>>, plan: Option<Seq<char>>) -> Seq<u8>;

/// Builds a `CreatePlanRequest` table with `name` and `plan` and an `OkStatus` into a `Message` in a new
/// `FlatBufferBuilder`, and returns the finished bytes; claimed to be `create_plan_request_frame`
/// of the arguments.
#[verifier::external_body]
fn write_create_plan_request(name: &Option<String>, plan: &Option<String>) -> (r: Vec<u8>)
    ensures
        r@ == create_plan_request_frame(opt_chars(*name), opt_chars(*plan)),
{
    let mut b = FlatBufferBuilder::new();
    let name = match name { Some(n) => Some(b.create_string(n)), None => None };
    let plan = match plan { Some(t) => Some(b.create_string(t)), None => None };
    let d = CreatePlanRequest::create(&mut b, &CreatePlanRequestArgs { name, plan }).as_union_value();
    let s = OkStatus::create(&mut b, &OkStatusArgs {}).as_union_value();
    let m = Msg::create(&mut b, &MessageArgs { data_type: PayloadKind::CreatePlanRequest, data: Some(d), status_type: StatusKind::OkStatus, status: Some(s) });
    b.finish(m, None);
    b.finished_data().to_vec()
}

/// The bytes of a request for plans message with an `OkStatus`, as track-rails builds it.
pub uninterp spec fn get_plans_request_frame(by_name: Option<Seq<char>>) -> Seq<u8>;

/// Builds a `GetPlansRequest` table whose filter, where a name is given, is a `ByName` with it and an `OkStatus` into a `Message` in a new
/// `FlatBufferBuilder`, and returns the finished bytes; claimed to be `get_plans_request_frame`
/// of the arguments.
#[verifier::external_body]
fn write_get_plans_request(by_name: &Option<String>) -> (r: Vec<u8>)
    ensures
        r@ == get_plans_request_frame(opt_chars(*by_name)),
{
    let mut b = FlatBufferBuilder::new();
    let name = match by_name {
        Some(n) => {
            let s = b.create_string(n);
            let f = ByName::create(&mut b, &ByNameArgs { name: Some(s) }).as_union_value();
            Some(Filter::create(&mut b, &FilterArgs { filter_type_type: FilterType::ByName, filter_type: Some(f) }))
        },
        None => None,
    };
    let d = GetPlansRequest::create(&mut b, &GetPlansRequestArgs { name }).as_union_value();
    let s = OkStatus::create(&mut b, &OkStatusArgs {}).as_union_value();
    let m = Msg::create(&mut b, &MessageArgs { data_type: PayloadKind::GetPlansRequest, data: Some(d), status_type: StatusKind::OkStatus, status: Some(s) });
    b.finish(m, None);
    b.finished_data().to_vec()
}

/// The bytes of a message, for the messages the library writes: those with an
/// `OkStatus` whose payload is a plan request or answer with its table, a
/// registration request, a binding or unbinding, or a disconnection. `None` for
/// every other message (trains, catalogs, registration answers, payloads
/// without a table or of no known kind, and other statuses).
pub open spec fn encoded(env: EnvelopeModel) -> Option<Seq<u8>> {
    if !(env.status is OkStatus) {
        None
    } else {
        match env.payload {
            PayloadModel::CreatePlanRequest(Some((name, plan))) => Some(create_plan_request_frame(name, plan)),
            PayloadModel::CreatePlanResponse(Some(id)) => Some(create_plan_response_frame(id)),
            PayloadModel::DeletePlanRequest(Some(id)) => Some(delete_plan_request_frame(id)),
            PayloadModel::StartPlanRequest(Some(id)) => Some(start_plan_request_frame(id)),
            PayloadModel::StartPlanResponse(Some(flag)) => Some(start_plan_response_frame(flag)),
            PayloadModel::StopPlanRequest(Some(id)) => Some(stop_plan_request_frame(id)),
            PayloadModel::StopPlanResponse(Some(flag)) => Some(stop_plan_response_frame(flag)),
            PayloadModel::GetPlanRequest(Some(id)) => Some(get_plan_request_frame(id)),
            PayloadModel::GetPlansRequest(Some(by_name)) => Some(get_plans_request_frame(by_name)),
            PayloadModel::RegisterRequest(Some(id)) => Some(register_request_frame(id)),
            PayloadModel::BindRequest(Some((plan, stop))) => Some(bind_request_frame(plan, stop)),
            PayloadModel::BindResponse(Some((plan, stop))) => Some(bind_response_frame(plan, stop)),
            PayloadModel::UnbindRequest(Some((plan, stop))) => Some(unbind_request_frame(plan, stop)),
            PayloadModel::UnbindResponse(Some((plan, stop))) => Some(unbind_response_frame(plan, stop)),
            PayloadModel::Disconnect(Some(id)) => Some(disconnect_frame(id)),
            _ => None,
        }
    }
}

/// The error text for a message the library does not write.
pub open spec fn not_written_text() -> Seq<char> {
    "cannot write this message"@
}

/// Writes a message as FlatBuffers bytes, for the messages described by
/// [`encoded`]; any other message is refused with `cannot write this message`.
pub fn encode(env: &Envelope) -> (r: Result<Vec<u8>, String>)
    ensures
        match encoded(env@) {
            Some(bytes) => r matches Ok(b) && b@ == bytes,
            None => r matches Err(e) && e@ == not_written_text(),
        },
{
    match env.status {
        Status::OkStatus => {},
        _ => return Err(String::from_str("cannot write this message")),
    }
    match &env.payload {
        Payload::CreatePlanRequest(Some(d)) => Ok(write_create_plan_request(&d.name, &d.plan)),
        Payload::CreatePlanResponse(Some(id)) => Ok(write_create_plan_response(*id)),
        Payload::DeletePlanRequest(Some(id)) => Ok(write_delete_plan_request(*id)),
        Payload::StartPlanRequest(Some(id)) => Ok(write_start_plan_request(*id)),
        Payload::StartPlanResponse(Some(flag)) => Ok(write_start_plan_response(*flag)),
        Payload::StopPlanRequest(Some(id)) => Ok(write_stop_plan_request(*id)),
        Payload::StopPlanResponse(Some(flag)) => Ok(write_stop_plan_response(*flag)),
        Payload::GetPlanRequest(Some(id)) => Ok(write_get_plan_request(*id)),
        Payload::GetPlansRequest(Some(q)) => Ok(write_get_plans_request(&q.by_name)),
        Payload::RegisterRequest(Some(r)) => Ok(write_register_request(r.id)),
        Payload::BindRequest(Some(s)) => Ok(write_bind_request(s.plan_id, s.stop_id)),
        Payload::BindResponse(Some(s)) => Ok(write_bind_response(s.plan_id, s.stop_id)),
        Payload::UnbindRequest(Some(s)) => Ok(write_unbind_request(s.plan_id, s.stop_id)),
        Payload::UnbindResponse(Some(s)) => Ok(write_unbind_response(s.plan_id, s.stop_id)),
        Payload::Disconnect(Some(id)) => Ok(write_disconnect(*id)),
        _ => Err(String::from_str("cannot write this message")),
    }
}


/// Every frame is read as the kind its payload union names, each table by the
/// reader of that kind, and its status likewise: a frame that names a kind
/// with a table is never read as another kind, nor as that kind without the
/// table the reader finds. A frame that does not parse is refused with the
/// parser's error.
pub proof fn lemma_decoded_reads_each_kind(frame: Seq<u8>)
    ensures
        frame_tags(frame) matches Err(m) ==> decoded(frame) == Err::<EnvelopeModel, Seq<char>>(m),
        frame_tags(frame) matches Ok((t, s)) ==> decoded(frame) matches Ok(e) && {
            &&& model_tag(e.payload) == t
            &&& status_tag(e.status) == s
            &&& t == 1 ==> e.payload == PayloadModel::CreatePlanRequest(frame_draft(frame))
            &&& t == 2 ==> e.payload == PayloadModel::CreatePlanResponse(frame_id(frame))
            &&& t == 3 ==> e.payload == PayloadModel::DeletePlanRequest(frame_id(frame))
            &&& t == 5 ==> e.payload == PayloadModel::StartPlanRequest(frame_id(frame))
            &&& t == 6 ==> e.payload == PayloadModel::StartPlanResponse(frame_flag(frame))
            &&& t == 7 ==> e.payload == PayloadModel::StopPlanRequest(frame_id(frame))
            &&& t == 8 ==> e.payload == PayloadModel::StopPlanResponse(frame_flag(frame))
            &&& t == 9 ==> e.payload == PayloadModel::GetPlanRequest(frame_id(frame))
            &&& t == 10 ==> e.payload == PayloadModel::GetPlansRequest(frame_query(frame))
            &&& t == 11 ==> (e.payload matches PayloadModel::Train(train) && match frame_train(frame) {
                None => train is None,
                Some((count, topic, time)) => train matches Some(m) && m.topic == topic
                    && m.event_time == time && match count {
                    None => m.values is None,
                    Some(n) => m.values matches Some(vs) && vs.len() == n && forall|i: int|
                        0 <= i < n ==> #[trigger] vs[i] == frame_train_value(frame, i as usize),
                },
            })
            &&& t == 12 ==> e.payload == PayloadModel::Catalog(frame_catalog(frame))
            &&& t == 13 ==> e.payload == PayloadModel::RegisterRequest(frame_register_request(frame))
            &&& t == 14 ==> e.payload == PayloadModel::RegisterResponse(frame_register_response(frame))
            &&& t == 15 ==> e.payload == PayloadModel::BindRequest(frame_binding(frame))
            &&& t == 16 ==> e.payload == PayloadModel::BindResponse(frame_binding(frame))
            &&& t == 17 ==> e.payload == PayloadModel::UnbindRequest(frame_binding(frame))
            &&& t == 18 ==> e.payload == PayloadModel::UnbindResponse(frame_binding(frame))
            &&& t == 19 ==> e.payload == PayloadModel::Disconnect(frame_id(frame))
            &&& s == 2 ==> e.status == StatusModel::ErrorStatus(frame_error(frame))
        },
{
}

/// Every message with an `OkStatus` whose payload is a plan request or answer,
/// a registration request, a binding or unbinding, or a disconnection, with its
/// table, is written as the bytes that track-rails builds for that kind from
/// the message's own table; a message with any other status is not written.
pub proof fn lemma_encoded_writes_the_message_table(env: EnvelopeModel)
    ensures
        !(env.status is OkStatus) ==> encoded(env) is None,
        env.status is OkStatus ==> {
            &&& env.payload matches PayloadModel::CreatePlanRequest(Some((n, pl))) ==> encoded(env)
                == Some(create_plan_request_frame(n, pl))
            &&& env.payload matches PayloadModel::CreatePlanResponse(Some(id)) ==> encoded(env) == Some(
                create_plan_response_frame(id),
            )
            &&& env.payload matches PayloadModel::DeletePlanRequest(Some(id)) ==> encoded(env) == Some(
                delete_plan_request_frame(id),
            )
            &&& env.payload matches PayloadModel::StartPlanRequest(Some(id)) ==> encoded(env) == Some(
                start_plan_request_frame(id),
            )
            &&& env.payload matches PayloadModel::StartPlanResponse(Some(b)) ==> encoded(env) == Some(
                start_plan_response_frame(b),
            )
            &&& env.payload matches PayloadModel::StopPlanRequest(Some(id)) ==> encoded(env) == Some(
                stop_plan_request_frame(id),
            )
            &&& env.payload matches PayloadModel::StopPlanResponse(Some(b)) ==> encoded(env) == Some(
                stop_plan_response_frame(b),
            )
            &&& env.payload matches PayloadModel::GetPlanRequest(Some(id)) ==> encoded(env) == Some(
                get_plan_request_frame(id),
            )
            &&& env.payload matches PayloadModel::GetPlansRequest(Some(q)) ==> encoded(env) == Some(
                get_plans_request_frame(q),
            )
            &&& env.payload matches PayloadModel::RegisterRequest(Some(id)) ==> encoded(env) == Some(
                register_request_frame(id),
            )
            &&& env.payload matches PayloadModel::BindRequest(Some((pl, st))) ==> encoded(env) == Some(
                bind_request_frame(pl, st),
            )
            &&& env.payload matches PayloadModel::BindResponse(Some((pl, st))) ==> encoded(env) == Some(
                bind_response_frame(pl, st),
            )
            &&& env.payload matches PayloadModel::UnbindRequest(Some((pl, st))) ==> encoded(env) == Some(
                unbind_request_frame(pl, st),
            )
            &&& env.payload matches PayloadModel::UnbindResponse(Some((pl, st))) ==> encoded(env) == Some(
                unbind_response_frame(pl, st),
            )
            &&& env.payload matches PayloadModel::Disconnect(Some(id)) ==> encoded(env) == Some(
                disconnect_frame(id),
            )
        },
{
}

} // verus!
