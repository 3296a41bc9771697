//! Filesystem paths, as Unix has them: held as the sequence of their
//! components (as `std::path::Path::components` yields them: a leading `/`
//! for the root, then the names in order), or as the text they are written
//! with, where that text is shown.
use vstd::prelude::*;

verus! {

/// The mathematical value of a path: its components as character sequences.
pub open spec fn pv(p: &Vec<String>) -> Seq<Seq<char>> {
    p.deep_view()
}

pub open spec fn is_root(c: Seq<char>) -> bool {
    c == "/"@
}

pub open spec fn is_absolute(p: Seq<Seq<char>>) -> bool {
    p.len() > 0 && is_root(p[0])
}

/// `base.join(rel)`: an absolute `rel` replaces `base`; otherwise its
/// components follow those of `base`.
pub open spec fn join(base: Seq<Seq<char>>, rel: Seq<Seq<char>>) -> Seq<Seq<char>> {
    if is_absolute(rel) {
        rel
    } else {
        base + rel
    }
}

/// `Path::parent`: none for the empty path and for the root alone.
pub open spec fn parent(p: Seq<Seq<char>>) -> Option<Seq<Seq<char>>> {
    if p.len() == 0 || (p.len() == 1 && is_root(p[0])) {
        None
    } else {
        Some(p.drop_last())
    }
}

/// A component that names an entry (not the root, `.` or `..`).
pub open spec fn is_normal(c: Seq<char>) -> bool {
    c != "/"@ && c != "."@ && c != ".."@
}

/// `Path::file_name`: the last component when it names an entry.
pub open spec fn file_name(p: Seq<Seq<char>>) -> Option<Seq<char>> {
    if p.len() > 0 && is_normal(p.last()) {
        Some(p.last())
    } else {
        None
    }
}

/// A copy of a path.
pub fn clone_path(p: &Vec<String>) -> (r: Vec<String>)
    ensures
        r@ == p@,
{
    let mut r: Vec<String> = Vec::new();
    for i in 0..p.len()
        invariant
            r@ == p@.take(i as int),
    {
        r.push(p[i].clone());
        assert(r@ =~= p@.take(i + 1));
    }
    assert(r@ =~= p@);
    r
}

/// Appends copies of the components of `rel` to `base`.
pub fn extend_path(base: &mut Vec<String>, rel: &Vec<String>)
    ensures
        final(base)@ == old(base)@ + rel@,
{
    let ghost start = base@;
    for i in 0..rel.len()
        invariant
            base@ == start + rel@.take(i as int),
    {
        base.push(rel[i].clone());
        assert(base@ =~= start + rel@.take(i + 1));
    }
    assert(rel@.take(rel.len() as int) =~= rel@);
}

/// Appends one component.
pub fn push_component(p: &mut Vec<String>, c: &str)
    ensures
        pv(final(p)) == pv(old(p)).push(c@),
{
    p.push(String::from_str(c));
    assert(pv(p) =~= pv(old(p)).push(c@));
}

/// Appends one component.
pub fn push_string(p: &mut Vec<String>, c: String)
    ensures
        pv(final(p)) == pv(old(p)).push(c@),
{
    p.push(c);
    assert(pv(p) =~= pv(old(p)).push(c@));
}

/// Whether a component names an entry.
pub fn is_normal_component(c: &String) -> (r: bool)
    ensures
        r == is_normal(c@),
{
    let root = String::from_str("/");
    let here = String::from_str(".");
    let up = String::from_str("..");
    !(*c == root || *c == here || *c == up)
}

/// Whether a component is the root.
pub fn is_root_component(c: &String) -> (r: bool)
    ensures
        r == is_root(c@),
{
    let root = String::from_str("/");
    *c == root
}

/// `base.join(rel)` on components.
pub fn join_path(base: &Vec<String>, rel: &Vec<String>) -> (r: Vec<String>)
    ensures
        pv(&r) == join(pv(base), pv(rel)),
{
    if rel.len() > 0 && is_root_component(&rel[0]) {
        let r = clone_path(rel);
        assert(pv(&r) =~= pv(rel));
        r
    } else {
        let mut r = clone_path(base);
        extend_path(&mut r, rel);
        assert(pv(&r) =~= pv(base) + pv(rel));
        r
    }
}

/// `PathBuf::push` on the text of a path, as Unix does it: an absolute
/// `rel` replaces `base`; otherwise a `/` is put between them unless `base`
/// is empty or already ends with one.
pub open spec fn push_text(base: Seq<char>, rel: Seq<char>) -> Seq<char> {
    if rel.len() > 0 && rel[0] == '/' {
        rel
    } else if base.len() > 0 && base.last() != '/' {
        base + seq!['/'] + rel
    } else {
        base + rel
    }
}

/// The text of `base.join(rel)`.
pub fn join_text(base: &str, rel: &str) -> (r: String)
    ensures
        r@ == push_text(base@, rel@),
{
    let rn = rel.unicode_len();
    if rn > 0 && rel.get_char(0) == '/' {
        return String::from_str(rel);
    }
    let bn = base.unicode_len();
    let mut t = String::from_str(base);
    if bn > 0 && base.get_char(bn - 1) != '/' {
        t.append("/");
        proof {
            reveal_strlit("/");
        }
    }
    t.append(rel);
    t
}

} // verus!
