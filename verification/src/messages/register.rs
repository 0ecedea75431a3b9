//! The engine's answer to a registration, and the permissions it grants.

use vstd::prelude::*;
use crate::connection::permission::{names_admin, Permission};
use crate::wire::{Envelope, Payload};

verus! {

/// The characters of each of the given names.
pub open spec fn names_of(names: Seq<String>) -> Seq<Seq<char>> {
    names.map_values(|s: String| s@)
}

/// The permissions that a list of permission names grants: one
/// [`Permission::AdminPermission`] for each name that denotes it, in order;
/// names the library does not know grant nothing.
pub open spec fn recognized(names: Seq<Seq<char>>) -> Seq<Permission>
    decreases names.len(),
{
    if names.len() == 0 {
        Seq::empty()
    } else if names_admin(names.last()) {
        recognized(names.drop_last()).push(Permission::AdminPermission)
    } else {
        recognized(names.drop_last())
    }
}

/// The permissions granted by the optional list of names of a registration
/// response (none where the response holds no list).
pub open spec fn granted(names: Option<Vec<String>>) -> Seq<Permission> {
    match names {
        Some(v) => recognized(names_of(v@)),
        None => Seq::empty(),
    }
}

/// Each name that denotes the administrator permission grants it once, and no
/// other name grants anything: the permissions recognized in a list of names
/// are as many administrator permissions as the list has such names.
pub proof fn lemma_recognized_counts_admin_names(names: Seq<Seq<char>>)
    ensures
        recognized(names).len() == names.filter(|n: Seq<char>| names_admin(n)).len(),
        forall|i: int| 0 <= i < recognized(names).len() ==> #[trigger] recognized(names)[i]
            == Permission::AdminPermission,
    decreases names.len(),
{
    reveal_with_fuel(Seq::<Seq<char>>::filter, 1);
    if names.len() > 0 {
        lemma_recognized_counts_admin_names(names.drop_last());
        assert(names.filter(|n: Seq<char>| names_admin(n)) == {
            let rest = names.drop_last().filter(|n: Seq<char>| names_admin(n));
            if names_admin(names.last()) {
                rest.push(names.last())
            } else {
                rest
            }
        });
    }
}

/// A registration response's names grant the administrator permission
/// exactly when one of them denotes it; a response without names grants
/// nothing.
pub proof fn lemma_granted_admin_iff_named(names: Option<Vec<String>>)
    ensures
        names is None ==> granted(names).len() == 0,
        names matches Some(v) ==> (granted(names).contains(Permission::AdminPermission) <==> exists|i: int|
            0 <= i < v@.len() && names_admin(#[trigger] v@[i]@)),
{
    if let Some(v) = names {
        let ns = names_of(v@);
        lemma_recognized_counts_admin_names(ns);
        crate::connection::state::lemma_admin_granted_iff_named(ns);
        if exists|i: int| 0 <= i < v@.len() && names_admin(#[trigger] v@[i]@) {
            let i = choose|i: int| 0 <= i < v@.len() && names_admin(#[trigger] v@[i]@);
            assert(ns[i] == v@[i]@);
        }
        if granted(names).contains(Permission::AdminPermission) {
            let i = choose|i: int| 0 <= i < ns.len() && names_admin(#[trigger] ns[i]);
            assert(ns[i] == v@[i]@);
        }
    }
}

/// Parses each permission name and keeps the permissions that parse, in order.
pub fn recognize_permissions(names: &Vec<String>) -> (r: Vec<Permission>)
    ensures
        r@ == recognized(names_of(names@)),
{
    let mut r: Vec<Permission> = Vec::new();
    let mut i: usize = 0;
    while i < names.len()
        invariant
            i <= names.len(),
            r@ == recognized(names_of(names@).take(i as int)),
        decreases names.len() - i,
    {
        let parsed = Permission::try_from(names[i].as_str());
        proof {
            assert(names_of(names@).take(i + 1).drop_last() =~= names_of(names@).take(i as int));
            assert(names_of(names@).take(i + 1).last() == names@[i as int]@);
        }
        match parsed {
            Ok(p) => {
                r.push(p);
            },
            Err(_) => {},
        }
        i = i + 1;
    }
    proof {
        assert(names_of(names@).take(names@.len() as int) =~= names_of(names@));
    }
    r
}

/// The permissions granted by an optional list of names.
pub fn granted_permissions(names: &Option<Vec<String>>) -> (r: Vec<Permission>)
    ensures
        r@ == granted(*names),
{
    match names {
        Some(v) => recognize_permissions(v),
        None => Vec::new(),
    }
}

/// The engine's answer to a registration: the permissions granted and the
/// identifier given to the connection.
#[derive(Debug)]
pub struct RegisterResponse {
    pub(crate) permissions: Vec<Permission>,
    id: usize,
}

impl RegisterResponse {
    /// The permissions granted.
    pub fn permissions(&self) -> (r: &Vec<Permission>)
        ensures
            r@ == self.spec_permissions(),
    {
        &self.permissions
    }

    /// The permissions granted, taken out of the response.
    pub fn into_permissions(self) -> (r: Vec<Permission>)
        ensures
            r@ == self.spec_permissions(),
    {
        self.permissions
    }

    /// The identifier given to the connection.
    pub fn id(&self) -> (r: usize)
        ensures
            r == self.spec_id(),
    {
        self.id
    }

    /// The permissions granted, as a specification value.
    pub closed spec fn spec_permissions(&self) -> Seq<Permission> {
        self.permissions@
    }

    /// The identifier, as a specification value.
    pub closed spec fn spec_id(&self) -> usize {
        self.id
    }

    /// Decodes a registration response. A message of another kind is refused
    /// with `Could not transform`; a response without an identifier with
    /// `Could not get id`. Names of permissions the library does not know are
    /// skipped.
    pub fn try_from(msg: Envelope) -> (r: Result<RegisterResponse, String>)
        requires
            !(msg.payload matches Payload::RegisterResponse(None)),
        ensures
            match msg.payload {
                Payload::RegisterResponse(Some(body)) => match body.id {
                    Some(id) => r matches Ok(resp) && resp.spec_permissions() == granted(body.permissions)
                        && resp.spec_id() == id as usize,
                    None => r matches Err(e) && e@ == "Could not get id"@,
                },
                _ => r matches Err(e) && e@ == "Could not transform"@,
            },
    {
        match msg.payload {
            Payload::RegisterResponse(Some(body)) => {
                let permissions = granted_permissions(&body.permissions);
                match body.id {
                    Some(id) => Ok(RegisterResponse { permissions, id: id as usize }),
                    None => Err(String::from_str("Could not get id")),
                }
            },
            _ => Err(String::from_str("Could not transform")),
        }
    }
}

} // verus!
