//! Pure path handling: normalization (the membership key of the reference
//! set), joining a relative path under a base directory, and the sidecar name.

use vstd::prelude::*;
use crate::strutil::str_eq;

verus! {

/// A path is absolute when it starts with a separator.
pub open spec fn is_abs(s: Seq<char>) -> bool {
    s.len() > 0 && s[0] == '/'
}

/// The components of `s` from position `i` on: maximal separator-free nonempty
/// runs, `cur` being the run read so far and `acc` the components already cut.
pub open spec fn split_from(s: Seq<char>, i: int, cur: Seq<char>, acc: Seq<Seq<char>>) -> Seq<
    Seq<char>,
>
    decreases s.len() - i,
{
    if i < 0 || i >= s.len() {
        if cur.len() > 0 {
            acc.push(cur)
        } else {
            acc
        }
    } else if s[i] == '/' {
        if cur.len() > 0 {
            split_from(s, i + 1, Seq::empty(), acc.push(cur))
        } else {
            split_from(s, i + 1, Seq::empty(), acc)
        }
    } else {
        split_from(s, i + 1, cur.push(s[i]), acc)
    }
}

/// The separator-free components of a path string; empty runs are dropped.
pub open spec fn path_components(s: Seq<char>) -> Seq<Seq<char>> {
    split_from(s, 0, Seq::empty(), Seq::empty())
}

/// The first `i` components of `cs` folded: `.` is dropped, `..` removes the
/// last component kept so far (or nothing at the front), others are kept.
pub open spec fn normed(cs: Seq<Seq<char>>, i: int) -> Seq<Seq<char>>
    decreases i,
{
    if i <= 0 {
        Seq::empty()
    } else {
        let prev = normed(cs, i - 1);
        let c = cs[i - 1];
        if c == seq!['.'] {
            prev
        } else if c == seq!['.', '.'] {
            if prev.len() > 0 {
                prev.drop_last()
            } else {
                prev
            }
        } else {
            prev.push(c)
        }
    }
}

pub open spec fn norm_components(cs: Seq<Seq<char>>) -> Seq<Seq<char>> {
    normed(cs, cs.len() as int)
}

/// The first `i` components of `cs` joined with a separator between each pair.
pub open spec fn joined_rel(cs: Seq<Seq<char>>, i: int) -> Seq<char>
    decreases i,
{
    if i <= 0 {
        Seq::empty()
    } else if i == 1 {
        cs[0]
    } else {
        joined_rel(cs, i - 1) + seq!['/'] + cs[i - 1]
    }
}

pub open spec fn join_path(abs: bool, cs: Seq<Seq<char>>) -> Seq<char> {
    if abs {
        seq!['/'] + joined_rel(cs, cs.len() as int)
    } else {
        joined_rel(cs, cs.len() as int)
    }
}

/// What normalizing a path string yields: its components with `.` and `..`
/// folded away, rejoined, keeping a leading separator if one was there.
pub open spec fn normalize_spec(s: Seq<char>) -> Seq<char> {
    join_path(is_abs(s), norm_components(path_components(s)))
}

/// Cuts `s` into its separator-free components.
fn split_path(s: &str) -> (r: Vec<String>)
    ensures
        r.deep_view() == path_components(s@),
{
    let n = s.unicode_len();
    let mut acc: Vec<String> = Vec::new();
    let mut cur = String::new();
    proof {
        assert(acc.deep_view() =~= Seq::<Seq<char>>::empty());
    }
    let mut i: usize = 0;
    while i < n
        invariant
            i <= n,
            n == s@.len(),
            split_from(s@, i as int, cur@, acc.deep_view()) == path_components(s@),
        decreases n - i,
    {
        let ghost pre_cur = cur@;
        let ghost pre_acc = acc.deep_view();
        let c = s.get_char(i);
        if c == '/' {
            if cur.unicode_len() > 0 {
                acc.push(cur);
                cur = String::new();
                proof {
                    assert(acc.deep_view() =~= pre_acc.push(pre_cur));
                    assert(split_from(s@, i as int, pre_cur, pre_acc) == split_from(
                        s@,
                        i + 1,
                        cur@,
                        acc.deep_view(),
                    ));
                }
            } else {
                proof {
                    assert(cur@ =~= Seq::<char>::empty());
                    assert(split_from(s@, i as int, pre_cur, pre_acc) == split_from(
                        s@,
                        i + 1,
                        cur@,
                        acc.deep_view(),
                    ));
                }
            }
        } else {
            let piece = s.substring_char(i, i + 1);
            proof {
                assert(piece@ =~= seq![s@[i as int]]);
                assert(pre_cur + piece@ =~= pre_cur.push(s@[i as int]));
            }
            cur.append(piece);
            proof {
                assert(split_from(s@, i as int, pre_cur, pre_acc) == split_from(
                    s@,
                    i + 1,
                    cur@,
                    acc.deep_view(),
                ));
            }
        }
        i += 1;
    }
    let ghost pre_cur = cur@;
    let ghost pre_acc = acc.deep_view();
    if cur.unicode_len() > 0 {
        acc.push(cur);
        proof {
            assert(acc.deep_view() =~= pre_acc.push(pre_cur));
        }
    }
    acc
}

/// Folds `.` and `..` components.
fn normalize_components(cs: Vec<String>) -> (r: Vec<String>)
    ensures
        r.deep_view() == norm_components(cs.deep_view()),
{
    let mut out: Vec<String> = Vec::new();
    let mut i: usize = 0;
    while i < cs.len()
        invariant
            i <= cs.len(),
            out.deep_view() == normed(cs.deep_view(), i as int),
        decreases cs.len() - i,
    {
        let c = &cs[i];
        if str_eq(c.as_str(), ".") {
            proof {
                reveal_strlit(".");
                assert(c.deep_view() =~= seq!['.']);
            }
        } else if str_eq(c.as_str(), "..") {
            proof {
                reveal_strlit("..");
                reveal_strlit(".");
                assert(c.deep_view() =~= seq!['.', '.']);
                assert(c.deep_view() !~= seq!['.']);
            }
            if out.len() > 0 {
                out.pop();
                proof {
                    assert(out.deep_view() =~= normed(cs.deep_view(), i + 1));
                }
            }
        } else {
            proof {
                reveal_strlit(".");
                reveal_strlit("..");
                assert(c.deep_view() != seq!['.']) by {
                    if c.deep_view() == seq!['.'] {
                        assert(c@ =~= "."@);
                    }
                }
                assert(c.deep_view() != seq!['.', '.']) by {
                    if c.deep_view() == seq!['.', '.'] {
                        assert(c@ =~= ".."@);
                    }
                }
            }
            out.push(c.clone());
        }
        i += 1;
    }
    out
}

/// Joins components with separators, prefixing one when `abs` holds.
fn join_components(abs: bool, cs: &Vec<String>) -> (r: String)
    ensures
        r@ == join_path(abs, cs.deep_view()),
{
    let mut out = String::new();
    if abs {
        out.append("/");
        proof {
            reveal_strlit("/");
            assert(out@ =~= seq!['/']);
        }
    }
    let ghost base: Seq<char> = out@;
    let mut i: usize = 0;
    while i < cs.len()
        invariant
            i <= cs.len(),
            base == if abs {
                seq!['/']
            } else {
                Seq::<char>::empty()
            },
            out@ == base + joined_rel(cs.deep_view(), i as int),
        decreases cs.len() - i,
    {
        if i > 0 {
            out.append("/");
            proof {
                reveal_strlit("/");
                assert(out@ =~= base + joined_rel(cs.deep_view(), i as int) + seq!['/']);
            }
        }
        out.append(cs[i].as_str());
        proof {
            assert(out@ =~= base + joined_rel(cs.deep_view(), i + 1));
        }
        i += 1;
    }
    proof {
        assert(out@ =~= join_path(abs, cs.deep_view()));
    }
    out
}

/// Normalizes a path without touching the filesystem: separators are
/// deduplicated, `.` components are dropped, and a `..` removes the component
/// before it (at the front of the path it removes nothing). The result is the
/// membership key used by the reference set.
pub fn normalize_path(path: &str) -> (r: String)
    ensures
        r@ == normalize_spec(path@),
{
    let n = is_absolute(path);
    let comps = split_path(path);
    let normed_comps = normalize_components(comps);
    join_components(n, &normed_comps)
}

/// True when `path` is absolute.
fn is_absolute(path: &str) -> (r: bool)
    ensures
        r == is_abs(path@),
{
    if path.unicode_len() > 0 {
        path.get_char(0) == '/'
    } else {
        false
    }
}

/// `base` with `rel` appended under it; an absolute `rel` replaces `base`
/// outright, as filesystem path joining does.
pub open spec fn join_under_spec(base: Seq<char>, rel: Seq<char>) -> Seq<char> {
    if is_abs(rel) {
        rel
    } else {
        base + seq!['/'] + rel
    }
}

pub fn join_under(base: &str, rel: &str) -> (r: String)
    ensures
        r@ == join_under_spec(base@, rel@),
{
    if is_absolute(rel) {
        let mut out = String::new();
        out.append(rel);
        proof {
            assert(out@ =~= rel@);
        }
        out
    } else {
        let mut out = String::new();
        out.append(base);
        out.append("/");
        out.append(rel);
        proof {
            reveal_strlit("/");
            assert(out@ =~= join_under_spec(base@, rel@));
        }
        out
    }
}

/// The name of the digest sidecar that stands beside an artifact.
pub open spec fn sidecar_name_spec(name: Seq<char>) -> Seq<char> {
    name + ".sha256"@
}

pub fn sidecar_name(name: &str) -> (r: String)
    ensures
        r@ == sidecar_name_spec(name@),
{
    let mut out = String::new();
    out.append(name);
    out.append(".sha256");
    out
}

} // verus!
