//! The top-level decoded document.

use vstd::prelude::*;
use crate::header::{ClassIndex, ClassNetCache, DebugInfo, HeaderProp, KeyFrame, TickMark};
use crate::network::{Frame, NetworkFrames};
use crate::primitives::ActorId;

verus! {

/// The root of one decoded replay: an immutable value tree produced by a
/// single decode pass. `properties` is an ordered key-value list, not a
/// map: duplicate keys are permitted and insertion order is semantically
/// meaningful, so nothing here deduplicates or sorts. `network_frames` is
/// present exactly when network decoding was attempted and succeeded; its
/// absence is a valid, non-error state (the network pass was skipped or,
/// under the lenient mode, discarded).
#[derive(Debug)]
pub struct Replay {
    pub header_size: i32,
    pub header_crc: u32,
    pub major_version: i32,
    pub minor_version: i32,
    pub net_version: Option<i32>,
    pub game_type: String,
    pub properties: Vec<(String, HeaderProp)>,
    pub content_size: i32,
    pub content_crc: u32,
    pub network_frames: Option<NetworkFrames>,
    pub levels: Vec<String>,
    pub keyframes: Vec<KeyFrame>,
    pub debug_info: Vec<DebugInfo>,
    pub tick_marks: Vec<TickMark>,
    pub packages: Vec<String>,
    pub objects: Vec<String>,
    pub names: Vec<String>,
    pub class_indices: Vec<ClassIndex>,
    pub net_cache: Vec<ClassNetCache>,
}

/// One validity window of an actor id. Ids are reused after destruction,
/// so any index over actors must be keyed by the pair of id and window —
/// this record — never by the id alone.
#[derive(Debug, Clone, Copy, PartialEq)]
pub struct ActorSpan {
    pub actor_id: ActorId,
    /// The frame index in which the id was assigned.
    pub spawned: usize,
    /// The frame index in which the id was retired; `None` for an actor
    /// still live at the end of the stream.
    pub destroyed: Option<usize>,
}

/// Every window lies inside the frame sequence and never ends before it
/// starts.
pub open spec fn spans_bounded(spans: Seq<ActorSpan>, cur: int, total: int) -> bool {
    &&& forall|i: int|
        0 <= i < spans.len() ==> (#[trigger] spans[i]).spawned <= cur && spans[i].spawned < total
    &&& forall|i: int|
        0 <= i < spans.len() ==> (match (#[trigger] spans[i]).destroyed {
            Some(d) => spans[i].spawned <= d && d <= cur && d < total,
            None => true,
        })
}

/// Windows are listed in spawn order.
pub open spec fn spans_ordered(spans: Seq<ActorSpan>) -> bool {
    forall|i: int, j: int|
        0 <= i < j < spans.len() ==> (#[trigger] spans[i]).spawned <= (#[trigger] spans[j]).spawned
}

/// Two windows of the same actor id never overlap: the earlier one is
/// closed no later than the later one opens, so a reused id stays
/// distinguishable by its window.
pub open spec fn spans_disjoint(spans: Seq<ActorSpan>) -> bool {
    forall|i: int, j: int|
        0 <= i < j < spans.len() && (#[trigger] spans[i]).actor_id == (
        #[trigger] spans[j]).actor_id ==> (spans[i].destroyed matches Some(d)
            && d <= spans[j].spawned)
}

/// Retires, at frame `cur`, every window of `id` that is still open.
fn close_open_spans(spans: &mut Vec<ActorSpan>, id: ActorId, cur: usize)
    ensures
        final(spans)@.len() == old(spans)@.len(),
        forall|i: int|
            0 <= i < final(spans)@.len() ==> #[trigger] final(spans)@[i] == (
            if old(spans)@[i].actor_id == id && old(spans)@[i].destroyed is None {
                ActorSpan {
                    actor_id: old(spans)@[i].actor_id,
                    spawned: old(spans)@[i].spawned,
                    destroyed: Some(cur),
                }
            } else {
                old(spans)@[i]
            }),
{
    let mut i: usize = 0;
    while i < spans.len()
        invariant
            i <= spans@.len(),
            spans@.len() == old(spans)@.len(),
            forall|k: int|
                0 <= k < i ==> #[trigger] spans@[k] == (
                if old(spans)@[k].actor_id == id && old(spans)@[k].destroyed is None {
                    ActorSpan {
                        actor_id: old(spans)@[k].actor_id,
                        spawned: old(spans)@[k].spawned,
                        destroyed: Some(cur),
                    }
                } else {
                    old(spans)@[k]
                }),
            forall|k: int| i <= k < spans@.len() ==> #[trigger] spans@[k] == old(spans)@[k],
        decreases spans@.len() - i,
    {
        let s = spans[i];
        if s.actor_id.0 == id.0 && s.destroyed.is_none() {
            spans.set(i, ActorSpan { actor_id: s.actor_id, spawned: s.spawned, destroyed: Some(cur) });
        }
        i = i + 1;
    }
}

/// Builds the actor validity index for a frame sequence: one window per
/// spawn, retired by the destroy that follows it. Within a frame the
/// destroy list is applied before the spawn list, so an id retired in
/// frame `n` may be reused from frame `n` on; a spawn whose id is somehow
/// still open retires the old window at the same frame, keeping the index
/// total. The windows come out in spawn order, inside the frame range, and
/// pairwise disjoint per id — two uses of one id are always told apart by
/// frame position.
pub fn actor_spans(frames: &Vec<Frame>) -> (spans: Vec<ActorSpan>)
    ensures
        spans_bounded(spans@, frames@.len() as int, frames@.len() as int),
        spans_ordered(spans@),
        spans_disjoint(spans@),
{
    let mut spans: Vec<ActorSpan> = Vec::new();
    let mut f: usize = 0;
    while f < frames.len()
        invariant
            f <= frames@.len(),
            spans_bounded(spans@, f as int, frames@.len() as int),
            spans_ordered(spans@),
            spans_disjoint(spans@),
        decreases frames@.len() - f,
    {
        let frame = &frames[f];
        let mut k: usize = 0;
        while k < frame.deleted_actors.len()
            invariant
                k <= frame.deleted_actors@.len(),
                spans_bounded(spans@, f as int, frames@.len() as int),
                spans_ordered(spans@),
                spans_disjoint(spans@),
                f < frames@.len(),
            decreases frame.deleted_actors@.len() - k,
        {
            close_open_spans(&mut spans, frame.deleted_actors[k], f);
            k = k + 1;
        }
        let mut i: usize = 0;
        while i < frame.new_actors.len()
            invariant
                i <= frame.new_actors@.len(),
                spans_bounded(spans@, f as int, frames@.len() as int),
                spans_ordered(spans@),
                spans_disjoint(spans@),
                f < frames@.len(),
            decreases frame.new_actors@.len() - i,
        {
            let id = frame.new_actors[i].actor_id;
            close_open_spans(&mut spans, id, f);
            spans.push(ActorSpan { actor_id: id, spawned: f, destroyed: None });
            i = i + 1;
        }
        f = f + 1;
    }
    spans
}

} // verus!
