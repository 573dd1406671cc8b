//! Which devices a hardware decoder is offered, in order: the default one
//! first, then — for VAAPI, whose default is only the first GPU — every DRM
//! render node the machine has, in name order.

use vstd::prelude::*;
use vstd::relations::sorted_by;
use crate::panel_command::views;
use crate::text::{chars_of, has_infix, owned, str_contains};

verus! {

broadcast use vstd::seq_lib::group_to_multiset_ensures;

/// Strings in the order `String`'s own comparison puts them: by character,
/// a prefix first.
pub open spec fn lex_le(a: Seq<char>, b: Seq<char>) -> bool
    decreases a.len(),
{
    if a.len() == 0 {
        true
    } else if b.len() == 0 {
        false
    } else if (a[0] as u32) < (b[0] as u32) {
        true
    } else if (a[0] as u32) > (b[0] as u32) {
        false
    } else {
        lex_le(a.drop_first(), b.drop_first())
    }
}

/// Any two strings are in order one way or the other.
pub proof fn lex_le_total(a: Seq<char>, b: Seq<char>)
    ensures
        lex_le(a, b) || lex_le(b, a),
    decreases a.len(),
{
    if a.len() > 0 && b.len() > 0 && (a[0] as u32) == (b[0] as u32) {
        lex_le_total(a.drop_first(), b.drop_first());
    }
}

/// The order is transitive.
pub proof fn lex_le_transitive(a: Seq<char>, b: Seq<char>, c: Seq<char>)
    requires
        lex_le(a, b),
        lex_le(b, c),
    ensures
        lex_le(a, c),
    decreases a.len(),
{
    if a.len() > 0 && b.len() > 0 && c.len() > 0 && (a[0] as u32) == (b[0] as u32)
        && (b[0] as u32) == (c[0] as u32) {
        lex_le_transitive(a.drop_first(), b.drop_first(), c.drop_first());
    }
}

/// The order of two strings.
fn lex_le_exec(a: &Vec<char>, b: &Vec<char>) -> (r: bool)
    ensures
        r == lex_le(a@, b@),
{
    let mut i: usize = 0;
    assert(a@.subrange(0, a@.len() as int) =~= a@);
    assert(b@.subrange(0, b@.len() as int) =~= b@);
    while i < a.len() && i < b.len() && (a[i] as u32) == (b[i] as u32)
        invariant
            i <= a@.len(),
            i <= b@.len(),
            lex_le(a@, b@) == lex_le(a@.subrange(i as int, a@.len() as int), b@.subrange(i as int, b@.len() as int)),
        decreases a.len() - i,
    {
        assert(a@.subrange(i as int, a@.len() as int).drop_first() =~= a@.subrange(i + 1, a@.len() as int));
        assert(b@.subrange(i as int, b@.len() as int).drop_first() =~= b@.subrange(i + 1, b@.len() as int));
        i = i + 1;
    }
    if i == a.len() {
        true
    } else if i == b.len() {
        false
    } else {
        (a[i] as u32) < (b[i] as u32)
    }
}

/// The entries whose name marks a DRM render node, in the order listed.
pub open spec fn render_nodes(entries: Seq<Seq<char>>) -> Seq<Seq<char>>
    decreases entries.len(),
{
    if entries.len() == 0 {
        Seq::empty()
    } else if has_infix(entries.last(), "renderD"@) {
        render_nodes(entries.drop_last()).push(entries.last())
    } else {
        render_nodes(entries.drop_last())
    }
}

/// `x` put into the sorted `out` before the first entry it is not after.
fn insert_sorted(out: &mut Vec<String>, x: String)
    requires
        sorted_by(views(old(out)@), |a: Seq<char>, b: Seq<char>| lex_le(a, b)),
    ensures
        sorted_by(views(final(out)@), |a: Seq<char>, b: Seq<char>| lex_le(a, b)),
        views(final(out)@).to_multiset() == views(old(out)@).to_multiset().insert(x@),
{
    let ghost s = views(out@);
    let xv = chars_of(x.as_str());
    let mut p: usize = 0;
    while p < out.len()
        invariant
            p <= out@.len(),
            s == views(out@),
            xv@ == x@,
            forall|j: int| 0 <= j < p ==> !lex_le(x@, #[trigger] s[j]),
        ensures
            p <= out@.len(),
            s == views(out@),
            forall|j: int| 0 <= j < p ==> !lex_le(x@, #[trigger] s[j]),
            p < out@.len() ==> lex_le(x@, s[p as int]),
        decreases out.len() - p,
    {
        let ev = chars_of(out[p].as_str());
        if lex_le_exec(&xv, &ev) {
            break;
        }
        p = p + 1;
    }
    let ghost leq = |a: Seq<char>, b: Seq<char>| lex_le(a, b);
    proof {
        assert forall|j: int| 0 <= j < p implies lex_le(#[trigger] s[j], x@) by {
            lex_le_total(x@, s[j]);
        }
        assert(p < s.len() ==> lex_le(x@, s[p as int]));
    }
    out.insert(p, x);
    proof {
        let t = views(out@);
        assert(t =~= s.insert(p as int, x@));
        assert forall|i: int, j: int| 0 <= i < j < t.len() implies #[trigger] leq(t[i], t[j]) by {
            if j < p {
                assert(leq(s[i], s[j]));
            } else if j == p {
                assert(t[j] == x@);
            } else if i == p {
                assert(t[j] == s[j - 1]);
                if p < s.len() {
                    if j - 1 > p {
                        assert(leq(s[p as int], s[j - 1]));
                        lex_le_transitive(x@, s[p as int], s[j - 1]);
                    }
                }
            } else if i < p {
                assert(t[j] == s[j - 1]);
                lex_le_total(x@, s[i]);
                if j - 1 >= p {
                    if p < s.len() {
                        lex_le_transitive(s[i], x@, s[p as int]);
                        if j - 1 > p {
                            assert(leq(s[p as int], s[j - 1]));
                            lex_le_transitive(s[i], s[p as int], s[j - 1]);
                        }
                    }
                }
            } else {
                assert(t[i] == s[i - 1] && t[j] == s[j - 1]);
                assert(leq(s[i - 1], s[j - 1]));
            }
        }
        vstd::seq_lib::to_multiset_insert(s, p as int, x@);
    }
}

/// The devices offered to a hardware type, the default (`None`) first:
/// VAAPI's also gets every render node among the entries of `/dev/dri`, in
/// name order.
pub fn device_paths(vaapi: bool, entries: Vec<String>) -> (r: Vec<Option<String>>)
    ensures
        r@.len() >= 1,
        r@[0] is None,
        !vaapi ==> r@.len() == 1,
        vaapi ==> ({
            let nodes = r@.drop_first().map_values(|o: Option<String>| o.unwrap()@);
            &&& forall|i: int| 1 <= i < r@.len() ==> (#[trigger] r@[i]) is Some
            &&& sorted_by(nodes, |a: Seq<char>, b: Seq<char>| lex_le(a, b))
            &&& nodes.to_multiset() == render_nodes(views(entries@)).to_multiset()
        }),
{
    let mut paths: Vec<Option<String>> = Vec::new();
    paths.push(None);
    if !vaapi {
        return paths;
    }
    let mut nodes: Vec<String> = Vec::new();
    let mut i: usize = 0;
    while i < entries.len()
        invariant
            i <= entries@.len(),
            sorted_by(views(nodes@), |a: Seq<char>, b: Seq<char>| lex_le(a, b)),
            views(nodes@).to_multiset() == render_nodes(views(entries@).subrange(0, i as int)).to_multiset(),
        decreases entries.len() - i,
    {
        assert(views(entries@).subrange(0, i + 1).drop_last() =~= views(entries@).subrange(0, i as int));
        let name = entries[i].as_str();
        if str_contains(name, "renderD") {
            insert_sorted(&mut nodes, owned(name));
        }
        i = i + 1;
    }
    assert(views(entries@).subrange(0, entries@.len() as int) =~= views(entries@));
    let ghost sorted_nodes = views(nodes@);
    let mut k: usize = 0;
    while k < nodes.len()
        invariant
            k <= nodes@.len(),
            sorted_nodes == views(nodes@),
            paths@.len() == k + 1,
            paths@[0] is None,
            forall|j: int| 1 <= j < paths@.len() ==> (#[trigger] paths@[j]) is Some && paths@[j]->0@ == sorted_nodes[j - 1],
        decreases nodes.len() - k,
    {
        paths.push(Some(owned(nodes[k].as_str())));
        k = k + 1;
    }
    assert(paths@.drop_first().map_values(|o: Option<String>| o.unwrap()@) =~= sorted_nodes);
    paths
}

} // verus!
