//! A general view of any message from the engine.

use vstd::prelude::*;
use crate::messages::register::{granted, granted_permissions};
use crate::connection::permission::Permission;
use crate::wire::{Envelope, Payload};

verus! {

/// What a client learns from any message: the permissions it grants and the
/// identifier it gives, which only a registration response carries.
#[derive(Debug)]
pub struct Message {
    pub permissions: Vec<Permission>,
    pub id: Option<usize>,
}

/// The identifier of a registration response, as a `usize`.
pub open spec fn id_as_usize(id: Option<u64>) -> Option<usize> {
    match id {
        Some(i) => Some(i as usize),
        None => None,
    }
}

impl Message {
    /// A message with the given permissions and identifier.
    pub fn new(permissions: Vec<Permission>, id: Option<usize>) -> (r: Message)
        ensures
            r.permissions == permissions,
            r.id == id,
    {
        Message { permissions, id }
    }

    /// Reads any message; this never fails. A registration response gives the
    /// permissions it grants (names the library does not know are skipped) and
    /// its identifier; any other message gives no permission and no identifier.
    pub fn try_from(msg: Envelope) -> (r: Result<Message, String>)
        requires
            !(msg.payload matches Payload::RegisterResponse(None)),
        ensures
            r matches Ok(m) && match msg.payload {
                Payload::RegisterResponse(Some(body)) => m.permissions@ == granted(body.permissions)
                    && m.id == id_as_usize(body.id),
                _ => m.permissions@ == Seq::<Permission>::empty() && m.id == None::<usize>,
            },
    {
        let (permissions, id) = match msg.payload {
            Payload::RegisterResponse(Some(body)) => {
                let permissions = granted_permissions(&body.permissions);
                let id = match body.id {
                    Some(i) => Some(i as usize),
                    None => None,
                };
                (permissions, id)
            },
            _ => (Vec::new(), None),
        };
        Ok(Message::new(permissions, id))
    }
}

} // verus!
