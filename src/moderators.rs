use vstd::prelude::*;
use vstd::string::StringExecFns;
use crate::moderation::{is_moderator_role, is_moderator_name, lowercase_of, CachedRoleProto, ADMINISTRATOR};
use crate::roles::contains_id;
use crate::text::{mention, mention_of};
use rand::Rng;

verus! {

/// A member as stored: its user and whether that user is a bot.
#[derive(Clone, Copy, Debug, PartialEq, Eq, Structural)]
pub struct Member {
    pub user_id: u64,
    pub bot: bool,
}

pub open spec fn moderator_role(r: CachedRoleProto) -> bool {
    r.permissions & ADMINISTRATOR != 0 || is_moderator_name(lowercase_of(r.name@))
}

pub open spec fn role_id_of(r: CachedRoleProto) -> u64 {
    r.role_id
}

pub open spec fn user_id_of(m: Member) -> u64 {
    m.user_id
}

pub open spec fn not_bot(m: Member) -> bool {
    !m.bot
}

proof fn lemma_filter_push<A>(s: Seq<A>, x: A, p: spec_fn(A) -> bool)
    ensures
        s.push(x).filter(p) == (if p(x) {
            s.filter(p).push(x)
        } else {
            s.filter(p)
        }),
{
    reveal(Seq::filter);
    assert(s.push(x).drop_last() =~= s);
}

proof fn lemma_map_push<A, B>(s: Seq<A>, x: A, f: spec_fn(A) -> B)
    ensures
        s.push(x).map_values(f) == s.map_values(f).push(f(x)),
{
    assert(s.push(x).map_values(f) =~= s.map_values(f).push(f(x)));
}

/// The ids of the moderator roles among `roles`, in their order.
pub fn find_moderator_roles(roles: &Vec<CachedRoleProto>) -> (r: Vec<u64>)
    ensures
        r@ == roles@.filter(|x: CachedRoleProto| moderator_role(x)).map_values(
            |x: CachedRoleProto| role_id_of(x),
        ),
{
    let ghost p = |x: CachedRoleProto| moderator_role(x);
    let ghost f = |x: CachedRoleProto| role_id_of(x);
    let mut r: Vec<u64> = Vec::new();
    let mut i: usize = 0;
    while i < roles.len()
        invariant
            i <= roles.len(),
            r@ == roles@.subrange(0, i as int).filter(p).map_values(f),
            p == (|x: CachedRoleProto| moderator_role(x)),
            f == (|x: CachedRoleProto| role_id_of(x)),
        decreases roles.len() - i,
    {
        let role = &roles[i];
        let keep = is_moderator_role(role);
        proof {
            let s = roles@.subrange(0, i as int);
            assert(roles@.subrange(0, i + 1) =~= s.push(*role));
            lemma_filter_push(s, *role, p);
            lemma_map_push(s.filter(p), *role, f);
        }
        if keep {
            r.push(role.role_id);
        }
        i += 1;
    }
    assert(roles@.subrange(0, roles.len() as int) =~= roles@);
    r
}

/// The users among `members` that are not bots, in their order.
pub fn find_moderators(members: &Vec<Member>) -> (r: Vec<u64>)
    ensures
        r@ == members@.filter(|m: Member| not_bot(m)).map_values(|m: Member| user_id_of(m)),
{
    let ghost p = |m: Member| not_bot(m);
    let ghost f = |m: Member| user_id_of(m);
    let mut r: Vec<u64> = Vec::new();
    let mut i: usize = 0;
    while i < members.len()
        invariant
            i <= members.len(),
            r@ == members@.subrange(0, i as int).filter(p).map_values(f),
            p == (|m: Member| not_bot(m)),
            f == (|m: Member| user_id_of(m)),
        decreases members.len() - i,
    {
        let m = members[i];
        proof {
            let s = members@.subrange(0, i as int);
            assert(members@.subrange(0, i + 1) =~= s.push(m));
            lemma_filter_push(s, m, p);
            lemma_map_push(s.filter(p), m, f);
        }
        if !m.bot {
            r.push(m.user_id);
        }
        i += 1;
    }
    assert(members@.subrange(0, members.len() as int) =~= members@);
    r
}

/// The moderators among `moderators` that are in `online`, in their order.
pub fn find_online_moderators(moderators: &Vec<u64>, online: &Vec<u64>) -> (r: Vec<u64>)
    ensures
        r@ == moderators@.filter(|u: u64| online@.contains(u)),
{
    let ghost p = |u: u64| online@.contains(u);
    let mut r: Vec<u64> = Vec::new();
    let mut i: usize = 0;
    while i < moderators.len()
        invariant
            i <= moderators.len(),
            r@ == moderators@.subrange(0, i as int).filter(p),
            p == (|u: u64| online@.contains(u)),
        decreases moderators.len() - i,
    {
        let u = moderators[i];
        proof {
            let s = moderators@.subrange(0, i as int);
            assert(moderators@.subrange(0, i + 1) =~= s.push(u));
            lemma_filter_push(s, u, p);
        }
        if contains_id(online, u) {
            r.push(u);
        }
        i += 1;
    }
    assert(moderators@.subrange(0, moderators.len() as int) =~= moderators@);
    r
}

/// Whether any of `roles` is one of `moderator_roles`.
pub fn is_moderator(roles: &Vec<u64>, moderator_roles: &Vec<u64>) -> (r: bool)
    ensures
        r == exists|i: int| 0 <= i < roles@.len() && moderator_roles@.contains(#[trigger] roles@[i]),
{
    let mut i: usize = 0;
    while i < roles.len()
        invariant
            i <= roles.len(),
            forall|j: int| 0 <= j < i ==> !moderator_roles@.contains(#[trigger] roles@[j]),
        decreases roles.len() - i,
    {
        if contains_id(moderator_roles, roles[i]) {
            return true;
        }
        i += 1;
    }
    false
}

/// The mention and ping for a call for a moderator: with no moderator online,
/// the guild owner is pinged with a note saying so; otherwise the online
/// moderator at `pick` is mentioned and pinged.
pub fn ping_message(owner_id: u64, online_mods: &Vec<u64>, pick: usize) -> (r: (String, String))
    requires
        online_mods@.len() > 0 ==> pick < online_mods@.len(),
    ensures
        online_mods@.len() == 0 ==> r.0@ == mention_of(owner_id) && r.1@ == mention_of(owner_id)
            + ", No mods online!"@,
        online_mods@.len() > 0 ==> r.0@ == mention_of(online_mods@[pick as int]) && r.1@
            == r.0@,
{
    if online_mods.len() == 0 {
        let m = mention(owner_id);
        let mut p = mention(owner_id);
        p.append(", No mods online!");
        (m, p)
    } else {
        let m = mention(online_mods[pick]);
        let p = m.clone();
        (m, p)
    }
}

/// Relies on rand's thread_rng and Rng::gen_range: a value in `0..n`, which
/// is not empty.
#[verifier::external_body]
fn random_below(n: usize) -> (r: usize)
    requires
        n > 0,
    ensures
        r < n,
{
    rand::thread_rng().gen_range(0..n)
}

/// The mention and ping for a call for a moderator, with the online
/// moderator picked at random.
pub fn ping_online_mod(owner_id: u64, online_mods: &Vec<u64>) -> (r: (String, String))
    ensures
        online_mods@.len() == 0 ==> r.0@ == mention_of(owner_id) && r.1@ == mention_of(owner_id)
            + ", No mods online!"@,
        online_mods@.len() > 0 ==> exists|i: int|
            0 <= i < online_mods@.len() && r.0@ == mention_of(#[trigger] online_mods@[i]) && r.1@
                == r.0@,
{
    let pick = if online_mods.len() == 0 {
        0
    } else {
        random_below(online_mods.len())
    };
    let r = ping_message(owner_id, online_mods, pick);
    if online_mods.len() > 0 {
        assert(0 <= pick < online_mods@.len() && r.0@ == mention_of(online_mods@[pick as int]));
    }
    r
}

} // verus!
