//! The toggle controller: the three-way decision over the flattened
//! snapshot, and the command plans of the hide and show paths.

use vstd::prelude::*;
use crate::command::{Command, CommandKind, Criteria, SETTLE_MS, park_by_tag, place_by_tag,
    summon_by_tag};
use crate::lookup::{find_by_tag, first_tagged, has_tag};
use crate::tree::Container;

verus! {

/// What one toggle invocation does: launch the command because no
/// container carries the tag, hide the tagged container because it has
/// focus, or show it because it does not.
#[derive(Clone, Copy, PartialEq, Eq, Structural, Debug)]
pub enum Decision {
    Launch,
    Hide,
    Show,
}

/// The decision for a flattened snapshot: the first container carrying the
/// tag settles it by its focus state; none at all means launch. A
/// malformed snapshot never reaches this point — building [`Container`]
/// values from the raw snapshot fails fatally before any decision.
pub open spec fn decision_for(cs: Seq<Container>, tag: Seq<char>) -> Decision {
    match first_tagged(cs, tag) {
        None => Decision::Launch,
        Some(i) => if cs[i].focused {
            Decision::Hide
        } else {
            Decision::Show
        },
    }
}

/// Decides what this invocation does, scanning the flattened snapshot for
/// the tag.
pub fn decide(containers: &Vec<Container>, tag: &String) -> (d: Decision)
    ensures
        d == decision_for(containers@, tag@),
{
    proof {
        crate::lookup::lemma_first_tagged(containers@, tag@);
    }
    match find_by_tag(containers, tag) {
        None => Decision::Launch,
        Some(i) => {
            if containers[i].focused {
                Decision::Hide
            } else {
                Decision::Show
            }
        },
    }
}

/// The hide path: one command parking the tagged container in the
/// scratchpad layer; no geometry change.
pub fn hide_plan(tag: &String) -> (c: Command)
    ensures
        c.kind is Park,
        c.criteria matches Criteria::ConMark(m) && m@ == tag@,
{
    park_by_tag(tag.clone())
}

/// The show path: summon and focus first, then, after the settle pause,
/// size and center. The order matters — the container must be back in the
/// visible layer before the placement command can reliably apply.
#[derive(Clone, Debug, PartialEq)]
pub struct ShowPlan {
    pub summon: Command,
    pub settle_ms: u64,
    pub place: Command,
}

/// The commands of the show path for the tagged container, sized
/// `width` by `height` pixels.
pub fn show_plan(tag: &String, width: u64, height: u64) -> (p: ShowPlan)
    ensures
        p.summon.kind is SummonFocus,
        p.summon.criteria matches Criteria::ConMark(m) && m@ == tag@,
        p.settle_ms == SETTLE_MS,
        p.place.kind == (CommandKind::PlaceCentered { width, height }),
        p.place.criteria matches Criteria::ConMark(m) && m@ == tag@,
{
    ShowPlan {
        summon: summon_by_tag(tag.clone()),
        settle_ms: SETTLE_MS,
        place: place_by_tag(tag.clone(), width, height),
    }
}

/// The decision is `Launch` exactly when no container carries the tag, and
/// otherwise follows the focus state of the first container that does.
pub proof fn lemma_decision_cases(cs: Seq<Container>, tag: Seq<char>)
    ensures
        (forall|j: int| 0 <= j < cs.len() ==> !has_tag(cs[j], tag)) <==> decision_for(cs, tag)
            == Decision::Launch,
        first_tagged(cs, tag) matches Some(i) ==> decision_for(cs, tag) == (if cs[i].focused {
            Decision::Hide
        } else {
            Decision::Show
        }),
{
    crate::lookup::lemma_first_tagged(cs, tag);
}

} // verus!
