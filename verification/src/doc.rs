use vstd::prelude::*;
use crate::wide::{wide_copy, wide_eq};

verus! {

broadcast use vstd::seq::group_seq_axioms, vstd::std_specs::vec::group_vec_axioms;

/// One node of a profile's configuration document: a named element with its
/// text content and its child elements, in document order.
#[derive(Debug)]
pub struct Element {
    pub name: Vec<u16>,
    pub text: Vec<u16>,
    pub children: Vec<Element>,
}

/// The credential walk below a list of sibling elements: follow `path` from
/// segment `i` on, scanning the siblings from position `j`. A sibling whose
/// name equals the current segment commits to that subtree for the remaining
/// segments, but a subtree that lacks them does not end the search: every
/// later same-named sibling is still tried before this level answers
/// "not found". The element reached by the final segment yields its text.
pub open spec fn walk(cs: Seq<Element>, path: Seq<Seq<u16>>, i: int, j: int) -> Option<Seq<u16>>
    decreases cs, path.len() - i, cs.len() - j,
{
    if i < 0 || i >= path.len() || j < 0 || j >= cs.len() {
        None
    } else if cs[j].name@ == path[i] {
        if i == path.len() - 1 {
            Some(cs[j].text@)
        } else {
            match walk(cs[j].children@, path, i + 1, 0) {
                Some(t) => Some(t),
                None => walk(cs, path, i, j + 1),
            }
        }
    } else {
        walk(cs, path, i, j + 1)
    }
}

/// What `extract_field` returns: the text reached by following `path`
/// through the document's children, or nothing when the document lacks the
/// path — which is a normal empty result, never an error.
pub open spec fn spec_extract(doc: Element, path: Seq<Seq<u16>>) -> Option<Seq<u16>> {
    if path.len() == 0 {
        None
    } else {
        walk(doc.children@, path, 0, 0)
    }
}

/// Whether the path from segment `i` on is present among the siblings from
/// position `j` on: some such sibling bears the current segment's name and,
/// unless that segment is the last, holds the rest of the path below it.
pub open spec fn has_path_from(cs: Seq<Element>, path: Seq<Seq<u16>>, i: int, j: int) -> bool
    decreases cs, path.len() - i, cs.len() - j,
{
    if i < 0 || i >= path.len() || j < 0 || j >= cs.len() {
        false
    } else {
        (cs[j].name@ == path[i] && (i == path.len() - 1 || has_path_from(
            cs[j].children@,
            path,
            i + 1,
            0,
        ))) || has_path_from(cs, path, i, j + 1)
    }
}

/// The walk yields a result exactly when the path is present among the
/// siblings it scans: nothing reachable is missed, and nothing absent is
/// invented.
pub proof fn lemma_walk_finds_iff_present(cs: Seq<Element>, path: Seq<Seq<u16>>, i: int, j: int)
    requires
        0 <= i < path.len(),
        0 <= j,
    ensures
        walk(cs, path, i, j) is Some <==> has_path_from(cs, path, i, j),
    decreases cs, path.len() - i, cs.len() - j,
{
    if j < cs.len() {
        if cs[j].name@ == path[i] && i < path.len() - 1 {
            lemma_walk_finds_iff_present(cs[j].children@, path, i + 1, 0);
            if walk(cs[j].children@, path, i + 1, 0) is None {
                lemma_walk_finds_iff_present(cs, path, i, j + 1);
            }
        } else if cs[j].name@ != path[i] {
            lemma_walk_finds_iff_present(cs, path, i, j + 1);
        }
    }
}

/// A document that holds the credential path somewhere below its root is
/// never answered with "not found", and one that lacks the path entirely
/// always is — the empty result is a normal outcome, not an error.
pub proof fn lemma_extract_iff_path_present(doc: Element, path: Seq<Seq<u16>>)
    requires
        path.len() > 0,
    ensures
        spec_extract(doc, path) is Some <==> has_path_from(doc.children@, path, 0, 0),
{
    lemma_walk_finds_iff_present(doc.children@, path, 0, 0);
}

/// A same-named sibling whose subtree lacks the remaining path does not end
/// the search at its level: the walk carries on with the next sibling, so a
/// later sibling of the same name can still supply the credential.
pub proof fn lemma_walk_tries_next_sibling(
    cs: Seq<Element>,
    path: Seq<Seq<u16>>,
    i: int,
    j: int,
)
    requires
        0 <= i < path.len() - 1,
        0 <= j < cs.len(),
        cs[j].name@ == path[i],
        walk(cs[j].children@, path, i + 1, 0) is None,
    ensures
        walk(cs, path, i, j) == walk(cs, path, i, j + 1),
{
}

/// Extracts the text content of the element reached by `path` from the
/// document's root, trying every child whose name matches the current
/// segment before declaring the path absent. `None` is the normal
/// "not found" outcome (an open network's profile, say), not an error.
pub fn extract_field(doc: &Element, path: &Vec<Vec<u16>>) -> (r: Option<Vec<u16>>)
    ensures
        match r {
            Some(t) => spec_extract(*doc, path.deep_view()) == Some(t@),
            None => spec_extract(*doc, path.deep_view()) is None,
        },
{
    if path.len() == 0 {
        return None;
    }
    extract_from(doc, path, 0)
}

/// The walk itself, from segment `i` of the path, over the children of `e`.
fn extract_from(e: &Element, path: &Vec<Vec<u16>>, i: usize) -> (r: Option<Vec<u16>>)
    requires
        i < path@.len(),
    ensures
        match r {
            Some(t) => walk(e.children@, path.deep_view(), i as int, 0) == Some(t@),
            None => walk(e.children@, path.deep_view(), i as int, 0) is None,
        },
    decreases *e,
{
    let ghost pv = path.deep_view();
    let mut j: usize = 0;
    while j < e.children.len()
        invariant
            i < path@.len(),
            pv == path.deep_view(),
            j <= e.children.len(),
            walk(e.children@, pv, i as int, 0) == walk(e.children@, pv, i as int, j as int),
        decreases e.children.len() - j,
    {
        let c = &e.children[j];
        proof {
            assert(pv[i as int] =~= path@[i as int]@);
        }
        if wide_eq(&c.name, &path[i]) {
            assert(c.name@ == pv[i as int]);
            if i == path.len() - 1 {
                let t = wide_copy(&c.text);
                return Some(t);
            }
            let deeper = extract_from(c, path, i + 1);
            match deeper {
                Some(t) => {
                    return Some(t);
                }
                None => {}
            }
        }
        j += 1;
    }
    None
}

} // verus!
