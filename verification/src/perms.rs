//! Permission strings and the check of a permission against a set of them.
//!
//! A permission is written `<namespace>.<permission>`.
//!
//! - `*` as the permission grants every permission of the namespace.
//! - The namespace `global` matches every namespace: `global.view` grants the
//!   `view` permission of every namespace.
//! - A permission without a namespace (no `.`) is read as `<it>.*`.
//! - A `~` at the start of the namespace makes a negator, which removes the
//!   permissions it names again (but never the `global.*` permission).
//! - Anything after `<namespace>.<permission>` is ignored.
use crate::text::{
    chars_eq, chars_of, find_char, find_char_exec, lemma_find_char_free,
    push_char, push_str, skip_leading, skip_leading_exec, sub_chars, char_free,
};
use vstd::prelude::*;

verus! {

/// The characters `global`.
pub open spec fn global_ns() -> Seq<char> {
    seq!['g', 'l', 'o', 'b', 'a', 'l']
}

/// The characters `*`.
pub open spec fn star() -> Seq<char> {
    seq!['*']
}

/// The characters `global.*`, the permission that grants everything.
pub open spec fn global_star() -> Seq<char> {
    seq!['g', 'l', 'o', 'b', 'a', 'l', '.', '*']
}

/// The namespace of a permission: everything before its first `.`.
pub open spec fn namespace_of(s: Seq<char>) -> Seq<char> {
    s.take(find_char(s, '.') as int)
}

/// The permission part of a permission string: the text between the first
/// and the second `.`, or `*` when the string has no `.` at all.
pub open spec fn name_of(s: Seq<char>) -> Seq<char> {
    let k = find_char(s, '.');
    if k == s.len() {
        star()
    } else {
        let rest = s.skip(k + 1 as int);
        rest.take(find_char(rest, '.') as int)
    }
}

/// A negator starts with `~`.
pub open spec fn is_negator(s: Seq<char>) -> bool {
    s.len() > 0 && s[0] == '~'
}

/// The namespace of a user permission with the negating `~`s removed.
pub open spec fn effective_namespace(s: Seq<char>) -> Seq<char> {
    skip_leading(namespace_of(s), '~')
}

/// The user permission `u` speaks about the checked permission `p`.
pub open spec fn grants(u: Seq<char>, p: Seq<char>) -> bool {
    &&& (effective_namespace(u) == namespace_of(p) || effective_namespace(u) == global_ns()
        || namespace_of(p) == global_ns())
    &&& (name_of(u) == star() || name_of(u) == name_of(p))
}

/// Whether the permissions `perms` allow `p`: either `global.*` is among
/// them, or some permission matches `p` and no matching one is a negator.
pub open spec fn has_perm_spec(perms: Seq<Seq<char>>, p: Seq<char>) -> bool {
    ||| perms.contains(global_star())
    ||| {
        &&& exists|u: Seq<char>| perms.contains(u) && #[trigger] grants(u, p)
        &&& !exists|u: Seq<char>| perms.contains(u) && #[trigger] grants(u, p) && is_negator(u)
    }
}

/// The character views of a list of strings.
pub open spec fn views(v: Seq<String>) -> Seq<Seq<char>> {
    v.map_values(|s: String| s@)
}

/// The namespace and the permission part of a permission string.
fn split_perm(s: &Vec<char>) -> (r: (Vec<char>, Vec<char>))
    ensures
        r.0@ == namespace_of(s@),
        r.1@ == name_of(s@),
{
    let k = find_char_exec(s, '.');
    let ns = sub_chars(s, 0, k);
    assert(ns@ =~= s@.take(k as int));
    if k == s.len() {
        let mut name: Vec<char> = Vec::new();
        name.push('*');
        assert(name@ =~= star());
        (ns, name)
    } else {
        let rest = sub_chars(s, k + 1, s.len());
        assert(rest@ =~= s@.skip(k + 1));
        let k2 = find_char_exec(&rest, '.');
        let name = sub_chars(&rest, 0, k2);
        assert(name@ =~= rest@.take(k2 as int));
        (ns, name)
    }
}

fn global_ns_exec() -> (r: Vec<char>)
    ensures
        r@ == global_ns(),
{
    let r: Vec<char> = vec!['g', 'l', 'o', 'b', 'a', 'l'];
    assert(r@ =~= global_ns());
    r
}

fn global_star_exec() -> (r: Vec<char>)
    ensures
        r@ == global_star(),
{
    let r: Vec<char> = vec!['g', 'l', 'o', 'b', 'a', 'l', '.', '*'];
    assert(r@ =~= global_star());
    r
}

fn star_exec() -> (r: Vec<char>)
    ensures
        r@ == star(),
{
    let r: Vec<char> = vec!['*'];
    assert(r@ =~= star());
    r
}

/// Check if the user has a permission given a set of user permissions and a
/// permission to check for.
pub fn has_perm(perms: &Vec<String>, perm: &str) -> (r: bool)
    ensures
        r == has_perm_spec(views(perms@), perm@),
{
    let p = chars_of(perm);
    let (p_ns, p_name) = split_perm(&p);
    let global = global_ns_exec();
    let gstar = global_star_exec();
    let star_v = star_exec();
    let p_is_global = chars_eq(&p_ns, &global);
    let ghost vs = views(perms@);

    let mut found = false;
    let mut negated = false;
    let mut i: usize = 0;
    while i < perms.len()
        invariant
            i <= perms.len(),
            vs == views(perms@),
            p@ == perm@,
            p_ns@ == namespace_of(p@),
            p_name@ == name_of(p@),
            global@ == global_ns(),
            gstar@ == global_star(),
            star_v@ == star(),
            p_is_global == (p_ns@ == global_ns()),
            forall|j: int| 0 <= j < i ==> vs[j] != global_star(),
            found == exists|j: int| 0 <= j < i && grants(#[trigger] vs[j], p@),
            negated == exists|j: int| 0 <= j < i && grants(#[trigger] vs[j], p@) && is_negator(vs[j]),
        decreases perms.len() - i,
    {
        let u = chars_of(perms[i].as_str());
        assert(u@ == vs[i as int]);
        if chars_eq(&u, &gstar) {
            assert(vs.contains(global_star()));
            return true;
        }
        let (u_ns, u_name) = split_perm(&u);
        let u_eff = skip_leading_exec(&u_ns, '~');
        let ns_ok = chars_eq(&u_eff, &p_ns) || chars_eq(&u_eff, &global) || p_is_global;
        let name_ok = chars_eq(&u_name, &star_v) || chars_eq(&u_name, &p_name);
        let neg = u.len() > 0 && u[0] == '~';
        assert(neg == is_negator(u@));
        if ns_ok && name_ok {
            assert(grants(vs[i as int], p@));
            found = true;
            if neg {
                negated = true;
            }
        } else {
            assert(!grants(vs[i as int], p@));
        }
        i = i + 1;
    }
    proof {
        assert(!vs.contains(global_star()));
        assert(found == exists|u: Seq<char>| vs.contains(u) && #[trigger] grants(u, p@)) by {
            if found {
                let j = choose|j: int| 0 <= j < vs.len() && grants(#[trigger] vs[j], p@);
                assert(vs.contains(vs[j]));
            }
        }
        assert(negated == exists|u: Seq<char>|
            vs.contains(u) && #[trigger] grants(u, p@) && is_negator(u)) by {
            if negated {
                let j = choose|j: int|
                    0 <= j < vs.len() && grants(#[trigger] vs[j], p@) && is_negator(vs[j]);
                assert(vs.contains(vs[j]));
            }
        }
    }
    found && !negated
}

/// Builds a permission string from a namespace and permission.
pub fn build(namespace: &str, perm: &str) -> (r: String)
    ensures
        r@ == namespace@ + seq!['.'] + perm@,
{
    let mut s = String::new();
    push_str(&mut s, namespace);
    push_char(&mut s, '.');
    push_str(&mut s, perm);
    assert(s@ =~= namespace@ + seq!['.'] + perm@);
    s
}

// ----- Laws -----

/// `global.*` grants every permission.
pub proof fn law_global_star_grants_all(perms: Seq<Seq<char>>, p: Seq<char>)
    requires
        perms.contains(global_star()),
    ensures
        has_perm_spec(perms, p),
{
}

/// A matching negator takes a permission away again, whatever else is held,
/// unless `global.*` is held.
pub proof fn law_negator_revokes(perms: Seq<Seq<char>>, p: Seq<char>, n: Seq<char>)
    requires
        perms.contains(n),
        is_negator(n),
        grants(n, p),
        !perms.contains(global_star()),
    ensures
        !has_perm_spec(perms, p),
{
}

/// The answer depends only on which permissions are held, not on their order
/// or on repetitions.
pub proof fn law_only_membership_matters(a: Seq<Seq<char>>, b: Seq<Seq<char>>, p: Seq<char>)
    requires
        forall|u: Seq<char>| a.contains(u) <==> b.contains(u),
    ensures
        has_perm_spec(a, p) == has_perm_spec(b, p),
{
    if exists|u: Seq<char>| a.contains(u) && #[trigger] grants(u, p) {
        let u = choose|u: Seq<char>| a.contains(u) && #[trigger] grants(u, p);
        assert(b.contains(u));
    }
    if exists|u: Seq<char>| b.contains(u) && #[trigger] grants(u, p) {
        let u = choose|u: Seq<char>| b.contains(u) && #[trigger] grants(u, p);
        assert(a.contains(u));
    }
    if exists|u: Seq<char>| a.contains(u) && #[trigger] grants(u, p) && is_negator(u) {
        let u = choose|u: Seq<char>| a.contains(u) && #[trigger] grants(u, p) && is_negator(u);
        assert(b.contains(u));
    }
    if exists|u: Seq<char>| b.contains(u) && #[trigger] grants(u, p) && is_negator(u) {
        let u = choose|u: Seq<char>| b.contains(u) && #[trigger] grants(u, p) && is_negator(u);
        assert(a.contains(u));
    }
}

/// Listing the same permissions in another order gives the same answer.
pub proof fn law_order_independent(a: Seq<Seq<char>>, b: Seq<Seq<char>>, p: Seq<char>)
    ensures
        has_perm_spec(a + b, p) == has_perm_spec(b + a, p),
{
    assert forall|u: Seq<char>| (a + b).contains(u) <==> (b + a).contains(u) by {
        if (a + b).contains(u) {
            let k = choose|k: int| 0 <= k < (a + b).len() && (a + b)[k] == u;
            if k < a.len() {
                assert((b + a)[b.len() + k] == u);
            } else {
                assert((b + a)[k - a.len()] == u);
            }
        }
        if (b + a).contains(u) {
            let k = choose|k: int| 0 <= k < (b + a).len() && (b + a)[k] == u;
            if k < b.len() {
                assert((a + b)[a.len() + k] == u);
            } else {
                assert((a + b)[k - b.len()] == u);
            }
        }
    }
    law_only_membership_matters(a + b, b + a, p);
}

/// Gaining a permission that is not a negator never takes a permission away.
pub proof fn law_positive_grant_is_monotone(perms: Seq<Seq<char>>, p: Seq<char>, q: Seq<char>)
    requires
        !is_negator(q),
        has_perm_spec(perms, p),
    ensures
        has_perm_spec(perms.push(q), p),
{
    let bigger = perms.push(q);
    assert forall|u: Seq<char>| perms.contains(u) implies bigger.contains(u) by {
        let k = choose|k: int| 0 <= k < perms.len() && perms[k] == u;
        assert(bigger[k] == u);
    }
    if perms.contains(global_star()) {
        assert(bigger.contains(global_star()));
    } else {
        let u = choose|u: Seq<char>| perms.contains(u) && #[trigger] grants(u, p);
        assert(bigger.contains(u));
        if exists|v: Seq<char>| bigger.contains(v) && #[trigger] grants(v, p) && is_negator(v) {
            let v = choose|v: Seq<char>| bigger.contains(v) && #[trigger] grants(v, p) && is_negator(v);
            let k = choose|k: int| 0 <= k < bigger.len() && bigger[k] == v;
            if k < perms.len() {
                assert(perms.contains(v));
            }
        }
    }
}

/// A permission without a namespace is read as `<it>.*`.
pub proof fn law_bare_permission_is_namespace_wildcard(perms: Seq<Seq<char>>, ns: Seq<char>)
    requires
        char_free(ns, '.'),
    ensures
        has_perm_spec(perms, ns) == has_perm_spec(perms, ns + seq!['.'] + star()),
{
    let full = ns + seq!['.'] + star();
    lemma_find_char_free(ns, '.');
    lemma_namespace_and_name_of_built(ns, star());
    assert(namespace_of(ns) =~= ns);
    assert(name_of(ns) == star());
    assert forall|u: Seq<char>| grants(u, ns) == grants(u, full) by {}
}

/// `build` takes a namespace and a permission apart again, as long as neither
/// holds a `.`.
pub proof fn lemma_namespace_and_name_of_built(ns: Seq<char>, name: Seq<char>)
    requires
        char_free(ns, '.'),
        char_free(name, '.'),
    ensures
        namespace_of(ns + seq!['.'] + name) == ns,
        name_of(ns + seq!['.'] + name) == name,
{
    let s = ns + seq!['.'] + name;
    assert forall|j: int| 0 <= j < ns.len() implies s[j] != '.' by {
        assert(s[j] == ns[j]);
    }
    crate::text::lemma_find_char_at(s, '.', ns.len() as int);
    assert(s.take(ns.len() as int) =~= ns);
    let rest = s.skip(ns.len() + 1 as int);
    assert(rest =~= name);
    lemma_find_char_free(name, '.');
    assert(name.take(name.len() as int) =~= name);
}

/// A namespace wildcard grants every permission of its namespace.
pub proof fn law_namespace_wildcard(ns: Seq<char>, name: Seq<char>)
    requires
        char_free(ns, '.'),
        char_free(name, '.'),
        !is_negator(ns),
    ensures
        has_perm_spec(seq![ns + seq!['.'] + star()], ns + seq!['.'] + name),
{
    let w = ns + seq!['.'] + star();
    let p = ns + seq!['.'] + name;
    lemma_namespace_and_name_of_built(ns, star());
    lemma_namespace_and_name_of_built(ns, name);
    crate::text::lemma_skip_leading_none(ns, '~');
    assert(seq![w].contains(w)) by {
        assert(seq![w][0] == w);
    }
    assert(grants(w, p));
    assert(!is_negator(w)) by {
        if ns.len() > 0 {
            assert(w[0] == ns[0]);
        } else {
            assert(w[0] == '.');
        }
    }
    assert forall|u: Seq<char>| seq![w].contains(u) implies u == w by {}
}

/// `global.<name>` grants `<name>` in every namespace.
pub proof fn law_global_name_grants_every_namespace(ns: Seq<char>, name: Seq<char>)
    requires
        char_free(ns, '.'),
        char_free(name, '.'),
    ensures
        has_perm_spec(seq![global_ns() + seq!['.'] + name], ns + seq!['.'] + name),
{
    let g = global_ns() + seq!['.'] + name;
    let p = ns + seq!['.'] + name;
    assert(char_free(global_ns(), '.'));
    lemma_namespace_and_name_of_built(global_ns(), name);
    lemma_namespace_and_name_of_built(ns, name);
    crate::text::lemma_skip_leading_none(global_ns(), '~');
    assert(seq![g].contains(g)) by {
        assert(seq![g][0] == g);
    }
    assert(grants(g, p));
    assert(!is_negator(g)) by {
        assert(g[0] == 'g');
    }
    assert forall|u: Seq<char>| seq![g].contains(u) implies u == g by {}
}

/// A held permission without a namespace may be replaced by `<it>.*`
/// without changing any answer. The one exception is `global` itself, which
/// would become `global.*`, the permission that no negator takes away.
pub proof fn law_held_bare_permission_is_namespace_wildcard(
    perms: Seq<Seq<char>>,
    i: int,
    p: Seq<char>,
)
    requires
        0 <= i < perms.len(),
        char_free(perms[i], '.'),
        perms[i] != global_ns(),
    ensures
        has_perm_spec(perms, p) == has_perm_spec(
            perms.update(i, perms[i] + seq!['.'] + star()),
            p,
        ),
{
    let u = perms[i];
    let w = u + seq!['.'] + star();
    let q = perms.update(i, w);
    lemma_find_char_free(u, '.');
    lemma_namespace_and_name_of_built(u, star());
    assert(namespace_of(u) =~= u);
    assert(name_of(u) == star());
    assert(grants(u, p) == grants(w, p));
    assert(is_negator(u) == is_negator(w)) by {
        if u.len() > 0 {
            assert(w[0] == u[0]);
        } else {
            assert(w[0] == '.');
        }
    }
    assert(u != global_star()) by {
        assert(global_star()[6] == '.');
        if u == global_star() {
            assert(u[6] == '.');
        }
    }
    assert(w != global_star()) by {
        if w == global_star() {
            assert(u.len() == 6);
            assert forall|k: int| 0 <= k < 6 implies u[k] == global_ns()[k] by {
                assert(w[k] == u[k]);
            }
            assert(u =~= global_ns());
        }
    }
    assert(perms.contains(global_star()) == q.contains(global_star())) by {
        if perms.contains(global_star()) {
            let k = choose|k: int| 0 <= k < perms.len() && perms[k] == global_star();
            assert(q[k] == global_star());
        }
        if q.contains(global_star()) {
            let k = choose|k: int| 0 <= k < q.len() && q[k] == global_star();
            assert(perms[k] == global_star());
        }
    }
    assert forall|k: int| 0 <= k < perms.len() implies grants(#[trigger] perms[k], p) == grants(
        q[k],
        p,
    ) && is_negator(perms[k]) == is_negator(q[k]) by {
        if k == i {
        } else {
            assert(q[k] == perms[k]);
        }
    }
    if exists|v: Seq<char>| perms.contains(v) && #[trigger] grants(v, p) {
        let v = choose|v: Seq<char>| perms.contains(v) && #[trigger] grants(v, p);
        let k = choose|k: int| 0 <= k < perms.len() && perms[k] == v;
        assert(grants(perms[k], p));
        assert(q.contains(q[k]));
        assert(grants(q[k], p));
    }
    if exists|v: Seq<char>| q.contains(v) && #[trigger] grants(v, p) {
        let v = choose|v: Seq<char>| q.contains(v) && #[trigger] grants(v, p);
        let k = choose|k: int| 0 <= k < q.len() && q[k] == v;
        assert(grants(perms[k], p));
        assert(perms.contains(perms[k]));
    }
    if exists|v: Seq<char>| perms.contains(v) && #[trigger] grants(v, p) && is_negator(v) {
        let v = choose|v: Seq<char>| perms.contains(v) && #[trigger] grants(v, p) && is_negator(v);
        let k = choose|k: int| 0 <= k < perms.len() && perms[k] == v;
        assert(grants(perms[k], p));
        assert(q.contains(q[k]));
        assert(grants(q[k], p) && is_negator(q[k]));
    }
    if exists|v: Seq<char>| q.contains(v) && #[trigger] grants(v, p) && is_negator(v) {
        let v = choose|v: Seq<char>| q.contains(v) && #[trigger] grants(v, p) && is_negator(v);
        let k = choose|k: int| 0 <= k < q.len() && q[k] == v;
        assert(grants(perms[k], p));
        assert(perms.contains(perms[k]));
        assert(grants(perms[k], p) && is_negator(perms[k]));
    }
}

/// A permission without a namespace stands for `<it>.*`, both when it is
/// checked and when it is held: checking `s` answers as checking `s.*`, and
/// replacing a held `u` (other than `global`) by `u.*` changes no answer.
pub proof fn law_bare_permission_reads_as_wildcard(
    perms: Seq<Seq<char>>,
    s: Seq<char>,
    i: int,
    p: Seq<char>,
)
    requires
        char_free(s, '.'),
        0 <= i < perms.len(),
        char_free(perms[i], '.'),
        perms[i] != global_ns(),
    ensures
        has_perm_spec(perms, s) == has_perm_spec(perms, s + seq!['.'] + star()),
        has_perm_spec(perms, p) == has_perm_spec(
            perms.update(i, perms[i] + seq!['.'] + star()),
            p,
        ),
{
    law_bare_permission_is_namespace_wildcard(perms, s);
    law_held_bare_permission_is_namespace_wildcard(perms, i, p);
}

} // verus!
