//! Permissions granted to a connection by the engine.

use vstd::prelude::*;

verus! {

/// A permission that the engine can grant to a client.
#[derive(Debug, Clone, Copy, PartialEq, Eq, Structural)]
pub enum Permission {
    AdminPermission,
}

/// The characters of the only permission name the engine grants, in lower case.
pub open spec fn admin_name() -> Seq<char> {
    seq!['a', 'd', 'm', 'i', 'n']
}

/// The characters that `str::to_lowercase` returns for a string made of `s`.
pub uninterp spec fn lowercase_of(s: Seq<char>) -> Seq<char>;

/// Whether a permission name denotes the administrator permission: its lower-case
/// form is `admin`.
pub open spec fn names_admin(name: Seq<char>) -> bool {
    lowercase_of(name) == admin_name()
}

/// The error text for a permission name that the library does not know.
pub open spec fn unknown_permission_text(name: Seq<char>) -> Seq<char> {
    "unknown permission: "@ + name
}

/// The lower-case form of an ASCII character: `A` to `Z` become `a` to `z`,
/// every other character stays.
pub open spec fn ascii_lower(c: char) -> char {
    if 'A' <= c && c <= 'Z' {
        ((c as u32) + 32) as char
    } else {
        c
    }
}

/// Calls `str::to_lowercase`, which maps every character of the string to its
/// Unicode lower-case form. The result is claimed to be `lowercase_of` of the
/// argument's characters, and, for a string of ASCII characters, the string
/// with `A` to `Z` lowered one by one. Nothing more of the Unicode mapping is
/// stated.
#[verifier::external_body]
fn lowercase(s: &str) -> (r: String)
    ensures
        r@ == lowercase_of(s@),
        vstd::utf8::is_ascii_chars(s@) ==> r@ == s@.map_values(|c: char| ascii_lower(c)),
{
    s.to_lowercase()
}

impl Permission {
    /// Parses a permission name, ignoring case: `admin` in any case gives
    /// [`Permission::AdminPermission`]; any other name is refused with
    /// `unknown permission: <name>`.
    pub fn try_from(value: &str) -> (r: Result<Permission, String>)
        ensures
            names_admin(value@) ==> r == Ok::<Permission, String>(Permission::AdminPermission),
            !names_admin(value@) ==> (r matches Err(e) && e@ == unknown_permission_text(value@)),
            vstd::utf8::is_ascii_chars(value@) ==> (names_admin(value@) <==> value@.map_values(
                |c: char| ascii_lower(c),
            ) == admin_name()),
    {
        let lower = lowercase(value);
        let admin = String::from_str("admin");
        proof {
            reveal_strlit("admin");
            assert(admin@ =~= admin_name());
        }
        if lower == admin {
            Ok(Permission::AdminPermission)
        } else {
            let mut text = String::from_str("unknown permission: ");
            text.append(value);
            Err(text)
        }
    }
}

} // verus!
