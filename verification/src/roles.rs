//! Path roles: an ordered list of role names in which no name occurs twice.
//! A role is added at the end only when it is not there yet, so the first
//! occurrence of each name keeps its place.
use vstd::prelude::*;

use crate::text::{contains_text, lemma_text_seq_push, text_seq};

verus! {

/// `roles` with `role` added at the end, unless it is already there.
pub open spec fn with_role(roles: Seq<Seq<char>>, role: Seq<char>) -> Seq<Seq<char>> {
    if roles.contains(role) {
        roles
    } else {
        roles.push(role)
    }
}

/// `roles` with each of `others` added in order, as by `with_role`.
pub open spec fn with_roles(roles: Seq<Seq<char>>, others: Seq<Seq<char>>) -> Seq<Seq<char>>
    decreases others.len(),
{
    if others.len() == 0 {
        roles
    } else {
        with_role(with_roles(roles, others.drop_last()), others.last())
    }
}

/// Adding a role keeps every role and adds exactly that one.
pub proof fn lemma_with_role_contains(roles: Seq<Seq<char>>, role: Seq<char>, x: Seq<char>)
    ensures
        with_role(roles, role).contains(x) <==> (roles.contains(x) || x == role),
{
    if !roles.contains(role) {
        if roles.contains(x) {
            let k = choose|k: int| 0 <= k < roles.len() && roles[k] == x;
            assert(roles.push(role)[k] == x);
        }
        if x == role {
            assert(roles.push(role)[roles.len() as int] == x);
        }
        if roles.push(role).contains(x) && x != role {
            let k = choose|k: int| 0 <= k < roles.push(role).len() && roles.push(role)[k] == x;
            assert(roles[k] == x);
        }
    }
}

/// The roles after adding a list are those before together with the list.
pub proof fn lemma_with_roles_contains(roles: Seq<Seq<char>>, others: Seq<Seq<char>>, x: Seq<char>)
    ensures
        with_roles(roles, others).contains(x) <==> (roles.contains(x) || others.contains(x)),
    decreases others.len(),
{
    if others.len() > 0 {
        let init = others.drop_last();
        lemma_with_roles_contains(roles, init, x);
        lemma_with_role_contains(with_roles(roles, init), others.last(), x);
        if init.contains(x) {
            let k = choose|k: int| 0 <= k < init.len() && init[k] == x;
            assert(others[k] == x);
        }
        if x == others.last() {
            assert(others[others.len() - 1] == x);
        }
        if others.contains(x) && x != others.last() {
            let k = choose|k: int| 0 <= k < others.len() && others[k] == x;
            assert(k != others.len() - 1);
            assert(init[k] == x);
        }
    }
}

/// Adding a role keeps the list free of duplicates.
pub proof fn lemma_with_role_no_duplicates(roles: Seq<Seq<char>>, role: Seq<char>)
    requires
        roles.no_duplicates(),
    ensures
        with_role(roles, role).no_duplicates(),
{
    if !roles.contains(role) {
        let r = roles.push(role);
        assert forall|i: int, j: int| 0 <= i < r.len() && 0 <= j < r.len() && i != j implies r[i]
            != r[j] by {
            if i == roles.len() {
                assert(roles[j] == r[j]);
            } else if j == roles.len() {
                assert(roles[i] == r[i]);
            }
        }
    }
}

/// Adding a list of roles keeps the list free of duplicates.
pub proof fn lemma_with_roles_no_duplicates(roles: Seq<Seq<char>>, others: Seq<Seq<char>>)
    requires
        roles.no_duplicates(),
    ensures
        with_roles(roles, others).no_duplicates(),
    decreases others.len(),
{
    if others.len() > 0 {
        lemma_with_roles_no_duplicates(roles, others.drop_last());
        lemma_with_role_no_duplicates(with_roles(roles, others.drop_last()), others.last());
    }
}

/// Adding roles keeps the earlier list as a prefix.
pub proof fn lemma_with_roles_prefix(roles: Seq<Seq<char>>, others: Seq<Seq<char>>)
    ensures
        roles.len() <= with_roles(roles, others).len(),
        with_roles(roles, others).subrange(0, roles.len() as int) == roles,
    decreases others.len(),
{
    if others.len() > 0 {
        lemma_with_roles_prefix(roles, others.drop_last());
        let prev = with_roles(roles, others.drop_last());
        assert(with_role(prev, others.last()).subrange(0, roles.len() as int) =~= roles) by {
            assert(prev.subrange(0, roles.len() as int) =~= roles);
        }
    }
}

/// Adding roles that are all present already changes nothing.
pub proof fn lemma_with_roles_present(roles: Seq<Seq<char>>, others: Seq<Seq<char>>)
    requires
        forall|i: int| 0 <= i < others.len() ==> roles.contains(#[trigger] others[i]),
    ensures
        with_roles(roles, others) == roles,
    decreases others.len(),
{
    if others.len() > 0 {
        let init = others.drop_last();
        assert forall|i: int| 0 <= i < init.len() implies roles.contains(#[trigger] init[i]) by {
            assert(init[i] == others[i]);
        }
        lemma_with_roles_present(roles, init);
        assert(roles.contains(others[others.len() - 1]));
    }
}

/// Adding a duplicate-free list to no roles gives that list.
pub proof fn lemma_with_roles_from_empty(others: Seq<Seq<char>>)
    requires
        others.no_duplicates(),
    ensures
        with_roles(Seq::empty(), others) == others,
    decreases others.len(),
{
    if others.len() > 0 {
        let init = others.drop_last();
        assert(init.no_duplicates()) by {
            assert forall|i: int, j: int|
                0 <= i < init.len() && 0 <= j < init.len() && i != j implies init[i] != init[j] by {
                assert(init[i] == others[i] && init[j] == others[j]);
            }
        }
        lemma_with_roles_from_empty(init);
        if init.contains(others.last()) {
            let k = choose|k: int| 0 <= k < init.len() && init[k] == others.last();
            assert(others[k] == others[others.len() - 1]);
        }
        assert(init.push(others.last()) =~= others);
    }
}

/// Adding the roles of `with_role(s, z)` is adding those of `s`, then `z`.
pub proof fn lemma_with_roles_with_role(roles: Seq<Seq<char>>, s: Seq<Seq<char>>, z: Seq<char>)
    ensures
        with_roles(roles, with_role(s, z)) == with_role(with_roles(roles, s), z),
{
    if s.contains(z) {
        lemma_with_roles_contains(roles, s, z);
    } else {
        assert(s.push(z).drop_last() =~= s);
    }
}

/// Adding role lists is associative.
pub proof fn lemma_with_roles_assoc(a: Seq<Seq<char>>, b: Seq<Seq<char>>, c: Seq<Seq<char>>)
    ensures
        with_roles(with_roles(a, b), c) == with_roles(a, with_roles(b, c)),
    decreases c.len(),
{
    if c.len() > 0 {
        lemma_with_roles_assoc(a, b, c.drop_last());
        lemma_with_roles_with_role(a, with_roles(b, c.drop_last()), c.last());
    }
}

/// `roles` with `role` added at the end, unless a string with the same
/// characters is already there.
pub fn push_role(roles: Vec<String>, role: String) -> (r: Vec<String>)
    ensures
        text_seq(r@) == with_role(text_seq(roles@), role@),
{
    if contains_text(&roles, &role) {
        roles
    } else {
        let mut roles = roles;
        proof {
            lemma_text_seq_push(roles@, role);
        }
        roles.push(role);
        roles
    }
}

/// `roles` with each of `others` added in order, as by `push_role`.
pub fn push_roles(roles: Vec<String>, others: &Vec<String>) -> (r: Vec<String>)
    ensures
        text_seq(r@) == with_roles(text_seq(roles@), text_seq(others@)),
{
    let ghost start = text_seq(roles@);
    let n = others.len();
    let mut roles = roles;
    let mut i: usize = 0;
    while i < n
        invariant
            n == others@.len(),
            0 <= i <= n,
            text_seq(roles@) == with_roles(start, text_seq(others@).take(i as int)),
        decreases n - i,
    {
        let role = others[i].clone();
        roles = push_role(roles, role);
        assert(text_seq(others@).take(i + 1).drop_last() =~= text_seq(others@).take(i as int));
        assert(text_seq(others@).take(i + 1).last() == others@[i as int]@);
        i = i + 1;
    }
    assert(text_seq(others@).take(n as int) =~= text_seq(others@));
    roles
}

} // verus!
