use vstd::prelude::*;
use vstd::string::StrSliceExecFns;

verus! {

/// The administrator bit of a role's permissions.
pub const ADMINISTRATOR: u64 = 8;

/// A role as cached from the platform.
#[derive(Clone, Debug)]
pub struct CachedRoleProto {
    pub role_id: u64,
    pub name: String,
    pub permissions: u64,
}

/// The lower-case form of a string, as `str::to_lowercase` computes it.
pub uninterp spec fn lowercase_of(s: Seq<char>) -> Seq<char>;

/// Relies on str::to_lowercase: the result depends on the characters alone.
#[verifier::external_body]
fn to_lowercase(s: &str) -> (r: String)
    ensures
        r@ == lowercase_of(s@),
{
    s.to_lowercase()
}

/// Whether a lower-case role name marks a moderator role.
pub open spec fn is_moderator_name(lower: Seq<char>) -> bool {
    "mod"@.is_prefix_of(lower) || "admin"@.is_prefix_of(lower)
}

/// Whether `prefix` is a prefix of `s`.
pub fn starts_with(s: &str, prefix: &str) -> (r: bool)
    ensures
        r == prefix@.is_prefix_of(s@),
{
    let n = prefix.unicode_len();
    if n > s.unicode_len() {
        return false;
    }
    let mut i: usize = 0;
    while i < n
        invariant
            n == prefix@.len(),
            n <= s@.len(),
            i <= n,
            forall|j: int| 0 <= j < i ==> prefix@[j] == s@[j],
        decreases n - i,
    {
        if prefix.get_char(i) != s.get_char(i) {
            return false;
        }
        i += 1;
    }
    true
}

/// Whether a role with the lower-case name `lower_name` and the permission
/// bits `permissions` is a moderator role: it grants administrator, or its
/// name starts with "mod" or "admin".
pub fn is_moderator_folded(lower_name: &str, permissions: u64) -> (r: bool)
    ensures
        r == (permissions & ADMINISTRATOR != 0 || is_moderator_name(lower_name@)),
{
    permissions & ADMINISTRATOR != 0 || starts_with(lower_name, "mod") || starts_with(
        lower_name,
        "admin",
    )
}

/// Whether `role` is a moderator role: it grants administrator, or its name,
/// in lower case, starts with "mod" or "admin".
pub fn is_moderator_role(role: &CachedRoleProto) -> (r: bool)
    ensures
        r == (role.permissions & ADMINISTRATOR != 0 || is_moderator_name(
            lowercase_of(role.name@),
        )),
{
    let name = to_lowercase(role.name.as_str());
    is_moderator_folded(name.as_str(), role.permissions)
}

} // verus!
