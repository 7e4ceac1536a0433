use vstd::prelude::*;
use crate::action::StatusType;

verus! {

/// The role set a member ends with when `ids` are applied to `current`:
/// apply adds them, unapply removes them, toggle flips each one.
pub open spec fn role_result(current: Set<u64>, type_: StatusType, ids: Set<u64>) -> Set<u64> {
    match type_ {
        StatusType::Apply => current.union(ids),
        StatusType::Unapply => current.difference(ids),
        StatusType::Toggle => current.difference(ids).union(ids.difference(current)),
    }
}

proof fn lemma_push_contains(s: Seq<u64>, x: u64)
    ensures
        forall|y: u64| #[trigger] s.push(x).contains(y) <==> (s.contains(y) || y == x),
{
    assert forall|y: u64| #[trigger] s.push(x).contains(y) <==> (s.contains(y) || y == x) by {
        if s.contains(y) {
            let j = choose|j: int| 0 <= j < s.len() && s[j] == y;
            assert(s.push(x)[j] == y);
        }
        if y == x {
            assert(s.push(x)[s.len() as int] == y);
        }
        if s.push(x).contains(y) && y != x {
            let j = choose|j: int| 0 <= j < s.len() + 1 && s.push(x)[j] == y;
            assert(s[j] == y);
        }
    }
}

/// Applying or unapplying the same roles a second time changes nothing, so a
/// redundant reversal is harmless; toggling them twice restores the roles.
pub proof fn lemma_role_change_repeat(current: Set<u64>, ids: Set<u64>)
    ensures
        role_result(role_result(current, StatusType::Apply, ids), StatusType::Apply, ids)
            == role_result(current, StatusType::Apply, ids),
        role_result(role_result(current, StatusType::Unapply, ids), StatusType::Unapply, ids)
            == role_result(current, StatusType::Unapply, ids),
        role_result(role_result(current, StatusType::Toggle, ids), StatusType::Toggle, ids)
            == current,
{
    assert(role_result(role_result(current, StatusType::Apply, ids), StatusType::Apply, ids)
        =~= role_result(current, StatusType::Apply, ids));
    assert(role_result(role_result(current, StatusType::Unapply, ids), StatusType::Unapply, ids)
        =~= role_result(current, StatusType::Unapply, ids));
    assert(role_result(role_result(current, StatusType::Toggle, ids), StatusType::Toggle, ids)
        =~= current);
}

/// Whether `x` is among `v`.
pub fn contains_id(v: &Vec<u64>, x: u64) -> (r: bool)
    ensures
        r == v@.contains(x),
{
    let mut i: usize = 0;
    while i < v.len()
        invariant
            i <= v.len(),
            forall|j: int| 0 <= j < i ==> v@[j] != x,
        decreases v.len() - i,
    {
        if v[i] == x {
            return true;
        }
        i += 1;
    }
    false
}

/// Computes the roles a member holds after a role change, each one once.
pub fn updated_roles(current: &Vec<u64>, type_: StatusType, ids: &Vec<u64>) -> (r: Vec<u64>)
    ensures
        r@.no_duplicates(),
        r@.to_set() == role_result(current@.to_set(), type_, ids@.to_set()),
{
    let mut r: Vec<u64> = Vec::new();
    let mut i: usize = 0;
    while i < current.len()
        invariant
            i <= current.len(),
            r@.no_duplicates(),
            forall|x: u64|
                r@.contains(x) <==> (current@.subrange(0, i as int).contains(x) && (
                type_ == StatusType::Apply || !ids@.contains(x))),
        decreases current.len() - i,
    {
        let x = current[i];
        let keep = match type_ {
            StatusType::Apply => true,
            _ => !contains_id(ids, x),
        };
        let ghost before = r@;
        if keep && !contains_id(&r, x) {
            r.push(x);
            proof {
                lemma_push_contains(before, x);
            }
        }
        proof {
            assert(current@.subrange(0, i + 1) =~= current@.subrange(0, i as int).push(x));
            lemma_push_contains(current@.subrange(0, i as int), x);
        }
        i += 1;
    }
    assert(current@.subrange(0, current.len() as int) =~= current@);
    let mut k: usize = 0;
    while k < ids.len()
        invariant
            k <= ids.len(),
            r@.no_duplicates(),
            forall|x: u64|
                r@.contains(x) <==> ((current@.contains(x) && (type_ == StatusType::Apply
                    || !ids@.contains(x))) || (ids@.subrange(0, k as int).contains(x) && (
                type_ == StatusType::Apply || (type_ == StatusType::Toggle
                    && !current@.contains(x))))),
        decreases ids.len() - k,
    {
        let x = ids[k];
        let add = match type_ {
            StatusType::Apply => true,
            StatusType::Unapply => false,
            StatusType::Toggle => !contains_id(current, x),
        };
        let ghost before = r@;
        if add && !contains_id(&r, x) {
            r.push(x);
            proof {
                lemma_push_contains(before, x);
            }
        }
        proof {
            assert(ids@.subrange(0, k + 1) =~= ids@.subrange(0, k as int).push(x));
            lemma_push_contains(ids@.subrange(0, k as int), x);
        }
        k += 1;
    }
    assert(ids@.subrange(0, ids.len() as int) =~= ids@);
    assert(r@.to_set() =~= role_result(current@.to_set(), type_, ids@.to_set()));
    r
}

} // verus!
