//! A train: a batch of values sent along a topic.

use vstd::prelude::*;
use crate::value::{readable, value_of_wire, Value, WireValue};
use crate::wire::{name_after, payload_name, Envelope, Payload};

verus! {

/// The values of a train.
#[derive(Debug)]
pub struct Train {
    values: Vec<Value>,
}

/// Whether every value of a message can be read.
pub open spec fn all_readable(values: Seq<WireValue>) -> bool {
    forall|i: int| 0 <= i < values.len() ==> readable(#[trigger] values[i]@)
}

/// Whether `values` are the values that the message values `wire` stand for.
pub open spec fn values_of_wire(values: Seq<Value>, wire: Seq<WireValue>) -> bool {
    &&& values.len() == wire.len()
    &&& forall|i: int| 0 <= i < wire.len() ==> #[trigger] values[i]@ == value_of_wire(wire[i]@)
}

/// Whether a train message can be decoded without failing: every value it
/// carries is of a kind the library reads.
pub open spec fn train_decodable(p: Payload) -> bool {
    p matches Payload::Train(Some(body)) ==> (body.values matches Some(vs) ==> all_readable(vs@))
}

/// Reads each message value, in order.
fn read_values(wire: Vec<WireValue>) -> (r: Vec<Value>)
    requires
        all_readable(wire@),
    ensures
        values_of_wire(r@, wire@),
{
    let ghost orig = wire@;
    let mut rest = wire;
    let mut values: Vec<Value> = Vec::new();
    while rest.len() > 0
        invariant
            values.len() + rest.len() == orig.len(),
            rest@ == orig.skip(values.len() as int),
            all_readable(orig),
            values_of_wire(values@, orig.take(values.len() as int)),
        decreases rest.len(),
    {
        let w = rest.remove(0);
        proof {
            assert(orig[values.len() as int] == w);
        }
        values.push(Value::from_wire(w));
        proof {
            assert(rest@ =~= orig.skip(values.len() as int));
        }
    }
    proof {
        assert(orig.take(values.len() as int) =~= orig);
    }
    values
}

impl Train {
    /// The values, in order, as a specification value.
    pub closed spec fn spec_values(&self) -> Seq<Value> {
        self.values@
    }

    /// The values, in order.
    pub fn values(&self) -> (r: &Vec<Value>)
        ensures
            r@ == self.spec_values(),
    {
        &self.values
    }

    /// Decodes a train message into its values. A message of another kind is
    /// refused with `Unexpected message type: <kind>`; a train message without
    /// its table, or whose content is not a list of values, with
    /// `Train data type is not correct`.
    pub fn try_from(msg: Envelope) -> (r: Result<Train, String>)
        requires
            train_decodable(msg.payload),
        ensures
            match msg.payload {
                Payload::Train(Some(body)) => match body.values {
                    Some(vs) => r matches Ok(t) && values_of_wire(t.spec_values(), vs@),
                    None => r matches Err(e) && e@ == "Train data type is not correct"@,
                },
                Payload::Train(None) => r matches Err(e) && e@ == "Train data type is not correct"@,
                _ => r matches Err(e) && e@ == "Unexpected message type: "@ + payload_name(msg.payload),
            },
    {
        match msg.payload {
            Payload::Train(Some(body)) => match body.values {
                Some(vs) => Ok(Train { values: read_values(vs) }),
                None => Err(String::from_str("Train data type is not correct")),
            },
            Payload::Train(None) => Err(String::from_str("Train data type is not correct")),
            other => Err(name_after("Unexpected message type: ", &other)),
        }
    }
}

} // verus!
