//! Tag lookup: building the scratchpad's tag and finding the container
//! that carries it among the flattened leaves.

use vstd::prelude::*;
use vstd::string::StringExecFns;
use crate::tree::Container;

verus! {

/// The namespace prefixed to every user-supplied scratchpad name, so that
/// the resulting tag cannot collide with unrelated tags.
pub const MARK_PREFIX: &'static str = "SCRATCHPAD_";

/// The tag for a scratchpad called `name`: the namespace prefix followed
/// by the name.
pub fn scratchpad_tag(name: &str) -> (r: String)
    ensures
        r@ == MARK_PREFIX@ + name@,
{
    String::from_str(MARK_PREFIX).concat(name)
}

/// Whether the container carries the tag, i.e. some entry of its tag list
/// spells exactly `tag`.
pub open spec fn has_tag(c: Container, tag: Seq<char>) -> bool {
    exists|i: int| 0 <= i < c.tags@.len() && c.tags@[i]@ == tag
}

/// Whether the container carries the tag.
pub fn container_has_tag(c: &Container, tag: &String) -> (r: bool)
    ensures
        r == has_tag(*c, tag@),
{
    let mut i: usize = 0;
    while i < c.tags.len()
        invariant
            i <= c.tags@.len(),
            forall|j: int| 0 <= j < i ==> c.tags@[j]@ != tag@,
        decreases c.tags@.len() - i,
    {
        if c.tags[i] == *tag {
            return true;
        }
        i = i + 1;
    }
    false
}

/// The position of the first container that carries the tag, scanning in
/// the order the tree search produced; `None` when no container does.
pub open spec fn first_tagged(cs: Seq<Container>, tag: Seq<char>) -> Option<int>
    decreases cs,
{
    if cs.len() == 0 {
        None
    } else if has_tag(cs[0], tag) {
        Some(0)
    } else {
        match first_tagged(cs.drop_first(), tag) {
            None => None,
            Some(i) => Some(i + 1),
        }
    }
}

/// The first position reported by [`first_tagged`] indeed carries the tag,
/// no earlier position does, and `None` is reported exactly when no
/// position carries it — in particular on an empty sequence, and first
/// match wins when several containers carry the same tag.
pub proof fn lemma_first_tagged(cs: Seq<Container>, tag: Seq<char>)
    ensures
        match first_tagged(cs, tag) {
            Some(i) => 0 <= i < cs.len() && has_tag(cs[i], tag) && (forall|j: int|
                0 <= j < i ==> !has_tag(cs[j], tag)),
            None => forall|j: int| 0 <= j < cs.len() ==> !has_tag(cs[j], tag),
        },
    decreases cs,
{
    if cs.len() > 0 && !has_tag(cs[0], tag) {
        lemma_first_tagged(cs.drop_first(), tag);
        assert(forall|j: int| 1 <= j < cs.len() ==> cs[j] == cs.drop_first()[j - 1]);
    }
}

/// The index of the first container carrying the tag, or `None` when no
/// container does.
pub fn find_by_tag(containers: &Vec<Container>, tag: &String) -> (r: Option<usize>)
    ensures
        match r {
            Some(i) => first_tagged(containers@, tag@) == Some(i as int),
            None => first_tagged(containers@, tag@) is None,
        },
{
    proof {
        lemma_first_tagged(containers@, tag@);
    }
    let mut i: usize = 0;
    while i < containers.len()
        invariant
            i <= containers@.len(),
            forall|j: int| 0 <= j < i ==> !has_tag(containers@[j], tag@),
            match first_tagged(containers@, tag@) {
                Some(k) => 0 <= k < containers@.len() && has_tag(containers@[k], tag@)
                    && (forall|j: int| 0 <= j < k ==> !has_tag(containers@[j], tag@)),
                None => forall|j: int|
                    0 <= j < containers@.len() ==> !has_tag(containers@[j], tag@),
            },
        decreases containers@.len() - i,
    {
        if container_has_tag(&containers[i], tag) {
            proof {
                if let Some(k) = first_tagged(containers@, tag@) {
                    assert(k == i);
                } else {
                    assert(has_tag(containers@[i as int], tag@));
                }
            }
            return Some(i);
        }
        i = i + 1;
    }
    None
}

} // verus!
