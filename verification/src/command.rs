//! The manager commands the controller issues, as structured values. The
//! I/O layer renders them into the manager's command language and sends
//! them over the IPC socket.

use vstd::prelude::*;

verus! {

/// The fixed pause, in milliseconds, between two dependent manager
/// commands, letting the manager commit the first one's effect before the
/// second applies (a race mitigation, not a protocol guarantee).
pub const SETTLE_MS: u64 = 50;

/// Which containers a command applies to: the container with a given
/// container id, or every container carrying a given tag.
#[derive(Clone, Debug, PartialEq)]
pub enum Criteria {
    ConId(u64),
    ConMark(String),
}

/// What a command does.
#[derive(Clone, Debug, PartialEq)]
pub enum CommandKind {
    /// Attach the tag, park the container in the scratchpad layer, and
    /// focus it (which summons it back out): the sequence run once on a
    /// freshly spawned window.
    TagParkFocus { tag: String },
    /// Summon the container out of the scratchpad layer and focus it.
    SummonFocus,
    /// Park the container in the scratchpad layer, hiding it.
    Park,
    /// Resize the container to `width` by `height` pixels and let the
    /// manager center it on the display.
    PlaceCentered { width: u64, height: u64 },
    /// Resize the container to `width` by `height` pixels and move it to
    /// the explicit position `(x, y)`: the legacy placement, whose offsets
    /// the caller computes with [`crate::geometry::center_offset`].
    PlaceAt { width: u64, height: u64, x: u64, y: u64 },
}

/// One manager command: what to do, and which containers to do it to.
#[derive(Clone, Debug, PartialEq)]
pub struct Command {
    pub kind: CommandKind,
    pub criteria: Criteria,
}

/// The command of the hide path: park the container carrying `tag`.
pub fn park_by_tag(tag: String) -> (c: Command)
    ensures
        c.kind is Park,
        c.criteria matches Criteria::ConMark(m) && m@ == tag@,
{
    Command { kind: CommandKind::Park, criteria: Criteria::ConMark(tag) }
}

/// The first command of the show path: summon and focus the container
/// carrying `tag`.
pub fn summon_by_tag(tag: String) -> (c: Command)
    ensures
        c.kind is SummonFocus,
        c.criteria matches Criteria::ConMark(m) && m@ == tag@,
{
    Command { kind: CommandKind::SummonFocus, criteria: Criteria::ConMark(tag) }
}

/// The second command of the show path: size the container carrying `tag`
/// to `width` by `height` and center it.
pub fn place_by_tag(tag: String, width: u64, height: u64) -> (c: Command)
    ensures
        c.kind == (CommandKind::PlaceCentered { width, height }),
        c.criteria matches Criteria::ConMark(m) && m@ == tag@,
{
    Command {
        kind: CommandKind::PlaceCentered { width, height },
        criteria: Criteria::ConMark(tag),
    }
}

/// The legacy placement on the container carrying `tag`: explicit size
/// and explicit position. The preferred path is [`place_by_tag`], which
/// lets the manager center the box itself.
pub fn place_at_by_tag(tag: String, width: u64, height: u64, x: u64, y: u64) -> (c: Command)
    ensures
        c.kind == (CommandKind::PlaceAt { width, height, x, y }),
        c.criteria matches Criteria::ConMark(m) && m@ == tag@,
{
    Command {
        kind: CommandKind::PlaceAt { width, height, x, y },
        criteria: Criteria::ConMark(tag),
    }
}

/// The first command on a freshly spawned window: tag it, park it, and
/// focus it, addressed by its container id.
pub fn tag_park_focus_by_id(tag: String, id: u64) -> (c: Command)
    ensures
        c.kind matches CommandKind::TagParkFocus { tag: t } && t@ == tag@,
        c.criteria == Criteria::ConId(id),
{
    Command { kind: CommandKind::TagParkFocus { tag }, criteria: Criteria::ConId(id) }
}

/// The second command on a freshly spawned window: size and center it,
/// addressed by its container id.
pub fn place_by_id(id: u64, width: u64, height: u64) -> (c: Command)
    ensures
        c.kind == (CommandKind::PlaceCentered { width, height }),
        c.criteria == Criteria::ConId(id),
{
    Command { kind: CommandKind::PlaceCentered { width, height }, criteria: Criteria::ConId(id) }
}

} // verus!
