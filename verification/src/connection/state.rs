//! What a connection knows about itself: the identifier the engine gave it and
//! the permissions it was granted.

use vstd::prelude::*;
use crate::connection::permission::{names_admin, Permission};
use crate::messages::register::{recognized, RegisterResponse};
use crate::requests::disconnect_request;
use crate::wire::{Envelope, Payload, Status};

verus! {

/// The state of a connection.
pub struct ConnectionState {
    id: Option<usize>,
    permissions: Vec<Permission>,
}

/// Whether a list of permissions grants administration.
pub open spec fn grants_admin(permissions: Seq<Permission>) -> bool {
    permissions.contains(Permission::AdminPermission)
}

/// The error text for an administration request without the permission.
pub open spec fn no_admin_text() -> Seq<char> {
    "No admin permission"@
}

impl ConnectionState {
    /// The identifier, as a specification value.
    pub closed spec fn spec_id(&self) -> Option<usize> {
        self.id
    }

    /// The permissions, as a specification value.
    pub closed spec fn spec_permissions(&self) -> Seq<Permission> {
        self.permissions@
    }

    /// The state of a connection that has not registered yet: no identifier
    /// and no permission.
    pub fn new() -> (r: ConnectionState)
        ensures
            r.spec_id() is None,
            r.spec_permissions() == Seq::<Permission>::empty(),
    {
        ConnectionState { id: None, permissions: Vec::new() }
    }

    /// Takes on the permissions that the engine granted in its answer to the
    /// registration. The identifier is left as it was.
    pub fn register(&mut self, response: RegisterResponse)
        ensures
            final(self).spec_permissions() == response.spec_permissions(),
            final(self).spec_id() == old(self).spec_id(),
    {
        self.permissions = response.into_permissions();
    }

    /// The identifier the engine gave the connection, if it has one.
    pub fn id(&self) -> (r: Option<usize>)
        ensures
            r == self.spec_id(),
    {
        self.id
    }

    /// The permissions granted to the connection.
    pub fn permissions(&self) -> (r: &Vec<Permission>)
        ensures
            r@ == self.spec_permissions(),
    {
        &self.permissions
    }

    /// Whether the connection may administer the engine: it was granted the
    /// administrator permission.
    pub fn has_admin(&self) -> (r: bool)
        ensures
            r == grants_admin(self.spec_permissions()),
    {
        let mut i: usize = 0;
        while i < self.permissions.len()
            invariant
                i <= self.permissions.len(),
                forall|j: int| 0 <= j < i ==> self.permissions@[j] != Permission::AdminPermission,
            decreases self.permissions.len() - i,
        {
            if self.permissions[i] == Permission::AdminPermission {
                assert(self.permissions@[i as int] == Permission::AdminPermission);
                return true;
            }
            i = i + 1;
        }
        false
    }

    /// Checks that the connection may administer the engine; if not, the
    /// request is refused with `No admin permission`.
    pub fn admin(&self) -> (r: Result<(), String>)
        ensures
            grants_admin(self.spec_permissions()) ==> r is Ok,
            !grants_admin(self.spec_permissions()) ==> (r matches Err(e) && e@ == no_admin_text()),
    {
        if !self.has_admin() {
            return Err(String::from_str("No admin permission"));
        }
        Ok(())
    }

    /// The message the connection sends when it closes: a disconnection with
    /// its identifier, or 0 where it has none.
    pub fn disconnect_message(&self) -> (r: Envelope)
        ensures
            r.payload == Payload::Disconnect(
                Some(
                    match self.spec_id() {
                        Some(i) => i as u64,
                        None => 0u64,
                    },
                ),
            ),
        r.status == Status::OkStatus,
    {
        disconnect_request(self.id)
    }
}

/// A list of permission names grants administration exactly when one of the
/// names is `admin`, in any case.
pub proof fn lemma_admin_granted_iff_named(names: Seq<Seq<char>>)
    ensures
        grants_admin(recognized(names)) <==> exists|i: int| 0 <= i < names.len() && names_admin(
            #[trigger] names[i],
        ),
    decreases names.len(),
{
    if names.len() > 0 {
        let rest = names.drop_last();
        lemma_admin_granted_iff_named(rest);
        if names_admin(names.last()) {
            assert(recognized(names)[recognized(rest).len() as int] == Permission::AdminPermission);
            assert(names_admin(names[names.len() - 1]));
        } else {
            if exists|i: int| 0 <= i < names.len() && names_admin(#[trigger] names[i]) {
                let i = choose|i: int| 0 <= i < names.len() && names_admin(#[trigger] names[i]);
                assert(i < names.len() - 1);
                assert(rest[i] == names[i]);
            }
            if grants_admin(recognized(names)) {
                let i = choose|i: int| 0 <= i < rest.len() && names_admin(#[trigger] rest[i]);
                assert(names[i] == rest[i]);
            }
        }
    }
}

/// A connection that has registered may administer the engine exactly when
/// the registration response granted a permission named `admin`, in any case.
pub proof fn lemma_registration_grants_admin(state: ConnectionState, response: RegisterResponse, names: Seq<Seq<char>>)
    requires
        state.spec_permissions() == response.spec_permissions(),
        response.spec_permissions() == recognized(names),
    ensures
        grants_admin(state.spec_permissions()) <==> exists|i: int| 0 <= i < names.len() && names_admin(
            #[trigger] names[i],
        ),
{
    lemma_admin_granted_iff_named(names);
}

} // verus!
