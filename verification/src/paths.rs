//! Path equality as `std::path::Path` decides it on Unix: component by
//! component, so repeated and trailing separators and `.` pieces inside a
//! path do not matter, while a leading `.` and a leading `/` do.

use crate::text::{chars_eq, lemma_split_nonempty, split_char, split_on, to_chars, views};
use vstd::prelude::*;

verus! {

/// A piece between separators that names a component: not empty and not `.`.
pub open spec fn is_normal_piece() -> spec_fn(Seq<char>) -> bool {
    |p: Seq<char>| p.len() > 0 && p != seq!['.']
}

/// What two equal paths share: whether the path is absolute, whether it
/// starts with a `.` component, and its other components in order.
pub open spec fn path_key(s: Seq<char>) -> (bool, bool, Seq<Seq<char>>) {
    (
        s.len() > 0 && s[0] == '/',
        split_char(s, '/')[0] == seq!['.'],
        split_char(s, '/').filter(is_normal_piece()),
    )
}

/// Whether two texts name the same path.
pub open spec fn same_path(a: Seq<char>, b: Seq<char>) -> bool {
    path_key(a) == path_key(b)
}

/// `s` without a path that names the same path as an earlier one; each
/// path is kept at its first occurrence, in its original spelling.
pub open spec fn dedup_paths(s: Seq<Seq<char>>) -> Seq<Seq<char>>
    decreases s.len(),
{
    if s.len() == 0 {
        s
    } else {
        let d = dedup_paths(s.drop_last());
        if exists|k: int| 0 <= k < d.len() && same_path(#[trigger] d[k], s.last()) {
            d
        } else {
            d.push(s.last())
        }
    }
}

/// No two elements of `s` name the same path.
pub open spec fn path_distinct(s: Seq<Seq<char>>) -> bool {
    forall|i: int, j: int| 0 <= i < j < s.len() ==> !same_path(#[trigger] s[i], #[trigger] s[j])
}

/// `dedup_paths` names no path twice, keeps a path equal to each element of
/// `s`, keeps only elements of `s`, and keeps the first element first.
#[verifier::spinoff_prover]
#[verifier::rlimit(40)]
pub proof fn lemma_dedup_paths(s: Seq<Seq<char>>)
    ensures
        path_distinct(dedup_paths(s)),
        forall|k: int|
            #![trigger s[k]]
            0 <= k < s.len() ==> exists|i: int|
                0 <= i < dedup_paths(s).len() && same_path(#[trigger] dedup_paths(s)[i], s[k]),
        forall|i: int| 0 <= i < dedup_paths(s).len() ==> s.contains(#[trigger] dedup_paths(s)[i]),
        s.len() > 0 ==> dedup_paths(s).len() > 0 && dedup_paths(s)[0] == s[0],
        dedup_paths(s).len() <= s.len(),
    decreases s.len(),
{
    if s.len() > 0 {
        let t = s.drop_last();
        lemma_dedup_paths(t);
        let d = dedup_paths(t);
        let x = s.last();
        let r = dedup_paths(s);
        if exists|k: int| 0 <= k < d.len() && same_path(#[trigger] d[k], x) {
            assert(r == d);
            assert forall|k: int| #![trigger s[k]] 0 <= k < s.len() implies exists|i: int|
                0 <= i < r.len() && same_path(#[trigger] r[i], s[k]) by {
                if k < s.len() - 1 {
                    assert(s[k] == t[k]);
                }
            }
            assert forall|i: int| 0 <= i < r.len() implies s.contains(#[trigger] r[i]) by {
                assert(t.contains(d[i]));
                let m = choose|m: int| 0 <= m < t.len() && t[m] == d[i];
                assert(s[m] == r[i]);
            }
            if t.len() > 0 {
                assert(s[0] == t[0]);
            }
        } else {
            assert(r == d.push(x));
            assert forall|i: int, j: int| 0 <= i < j < r.len() implies !same_path(
                #[trigger] r[i],
                #[trigger] r[j],
            ) by {
                assert(r[i] == d[i]);
                if j < d.len() {
                    assert(r[j] == d[j]);
                } else {
                    assert(r[j] == x);
                }
            }
            assert forall|k: int| #![trigger s[k]] 0 <= k < s.len() implies exists|i: int|
                0 <= i < r.len() && same_path(#[trigger] r[i], s[k]) by {
                if k < s.len() - 1 {
                    assert(s[k] == t[k]);
                    let i = choose|i: int| 0 <= i < d.len() && same_path(#[trigger] d[i], t[k]);
                    assert(r[i] == d[i]);
                } else {
                    assert(r[d.len() as int] == x);
                    assert(same_path(r[d.len() as int], s[k]));
                }
            }
            assert forall|i: int| 0 <= i < r.len() implies s.contains(#[trigger] r[i]) by {
                if i < d.len() {
                    assert(r[i] == d[i]);
                    assert(t.contains(d[i]));
                    let m = choose|m: int| 0 <= m < t.len() && t[m] == d[i];
                    assert(s[m] == r[i]);
                } else {
                    assert(s[s.len() - 1] == r[i]);
                }
            }
            if t.len() > 0 {
                assert(s[0] == t[0]);
                assert(r[0] == d[0]);
            } else {
                assert(r[0] == x);
            }
        }
    }
}

/// The components of a path as `path_key` gives them.
pub fn path_key_of(s: &str) -> (r: (bool, bool, Vec<Vec<char>>))
    ensures
        (r.0, r.1, views(r.2@)) == path_key(s@),
{
    let chars = to_chars(s);
    let absolute = chars.len() > 0 && chars[0] == '/';
    let parts = split_on(chars.as_slice(), '/');
    proof {
        lemma_split_nonempty(s@, '/');
    }
    assert(views(parts@).len() == parts@.len());
    let dot = vec!['.'];
    assert(dot@ =~= seq!['.']);
    assert(views(parts@)[0] == parts@[0]@);
    let lead_dot = chars_eq(parts[0].as_slice(), dot.as_slice());
    let mut kept: Vec<Vec<char>> = Vec::new();
    let mut i: usize = 0;
    while i < parts.len()
        invariant
            i <= parts@.len(),
            views(parts@) == split_char(s@, '/'),
            dot@ == seq!['.'],
            views(kept@) == views(parts@).take(i as int).filter(is_normal_piece()),
        decreases parts.len() - i,
    {
        let ghost pre = views(parts@).take(i + 1);
        assert(pre.drop_last() =~= views(parts@).take(i as int));
        assert(pre.last() == parts@[i as int]@);
        proof {
            reveal(Seq::filter);
        }
        let p = &parts[i];
        if p.len() > 0 && !chars_eq(p.as_slice(), dot.as_slice()) {
            let ghost before = views(kept@);
            kept.push(p.clone());
            assert(views(kept@) =~= before.push(parts@[i as int]@));
        }
        i = i + 1;
    }
    assert(views(parts@).take(i as int) =~= views(parts@));
    (absolute, lead_dot, kept)
}

/// Whether two lists of components are equal.
fn components_eq(a: &Vec<Vec<char>>, b: &Vec<Vec<char>>) -> (r: bool)
    ensures
        r == (views(a@) == views(b@)),
{
    if a.len() != b.len() {
        assert(views(a@).len() != views(b@).len());
        return false;
    }
    let mut i: usize = 0;
    while i < a.len()
        invariant
            i <= a@.len(),
            a@.len() == b@.len(),
            forall|k: int| 0 <= k < i ==> views(a@)[k] == views(b@)[k],
        decreases a.len() - i,
    {
        if !chars_eq(a[i].as_slice(), b[i].as_slice()) {
            assert(views(a@)[i as int] != views(b@)[i as int]);
            return false;
        }
        i = i + 1;
    }
    assert(views(a@) =~= views(b@));
    true
}

/// Whether two texts name the same path.
pub fn paths_equal(a: &str, b: &str) -> (r: bool)
    ensures
        r == same_path(a@, b@),
{
    let ka = path_key_of(a);
    let kb = path_key_of(b);
    ka.0 == kb.0 && ka.1 == kb.1 && components_eq(&ka.2, &kb.2)
}

/// The paths without one that names the same path as an earlier one.
pub fn dedup_path_strings(v: Vec<String>) -> (r: Vec<String>)
    ensures
        r.deep_view() == dedup_paths(v.deep_view()),
{
    let mut out: Vec<String> = Vec::new();
    let mut i: usize = 0;
    while i < v.len()
        invariant
            i <= v@.len(),
            out.deep_view() == dedup_paths(v.deep_view().take(i as int)),
        decreases v.len() - i,
    {
        let ghost prefix = v.deep_view().take(i + 1);
        assert(prefix.drop_last() =~= v.deep_view().take(i as int));
        assert(prefix.last() == v@[i as int]@);
        let mut found = false;
        let mut j: usize = 0;
        while j < out.len()
            invariant
                j <= out@.len(),
                i < v@.len(),
                found == exists|k: int| 0 <= k < j && same_path(#[trigger] out.deep_view()[k], v@[i as int]@),
            decreases out.len() - j,
        {
            assert(out.deep_view()[j as int] == out@[j as int]@);
            if paths_equal(out[j].as_str(), v[i].as_str()) {
                found = true;
            }
            j = j + 1;
        }
        if !found {
            let ghost old_out = out.deep_view();
            out.push(v[i].clone());
            assert(out.deep_view() =~= old_out.push(v@[i as int]@));
        }
        i = i + 1;
    }
    assert(v.deep_view().take(i as int) =~= v.deep_view());
    out
}

} // verus!
