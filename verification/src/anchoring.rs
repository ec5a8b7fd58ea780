use vstd::prelude::*;

use crate::config::{Edge, EdgeAnchor, EdgeMargin};

verus! {

/// The per-edge state a surface reports once a margin/anchor configuration
/// has been applied to it. `None` means the edge was never configured and
/// keeps the host default.
#[derive(Clone, Copy, Debug)]
pub struct EdgeSettings {
    pub margin_top: Option<i32>,
    pub margin_bottom: Option<i32>,
    pub margin_left: Option<i32>,
    pub margin_right: Option<i32>,
    pub anchor_top: Option<bool>,
    pub anchor_bottom: Option<bool>,
    pub anchor_left: Option<bool>,
    pub anchor_right: Option<bool>,
}

/// The margin an edge reports after the entries are applied in insertion
/// order: the value of the last entry for that edge, or `None` if there is
/// no such entry.
pub open spec fn margin_for(ms: Seq<EdgeMargin>, e: Edge) -> Option<i32>
    decreases ms.len(),
{
    if ms.len() == 0 {
        None
    } else if ms.last().edge == e {
        Some(ms.last().offset)
    } else {
        margin_for(ms.drop_last(), e)
    }
}

/// The anchor an edge reports after the entries are applied in insertion
/// order: the value of the last entry for that edge, or `None` if there is
/// no such entry.
pub open spec fn anchor_for(anchors: Seq<EdgeAnchor>, e: Edge) -> Option<bool>
    decreases anchors.len(),
{
    if anchors.len() == 0 {
        None
    } else if anchors.last().edge == e {
        Some(anchors.last().pinned)
    } else {
        anchor_for(anchors.drop_last(), e)
    }
}

proof fn lemma_margin_for_push(ms: Seq<EdgeMargin>, m: EdgeMargin, e: Edge)
    ensures
        margin_for(ms.push(m), e) == (if m.edge == e {
            Some(m.offset)
        } else {
            margin_for(ms, e)
        }),
{
    assert(ms.push(m).last() == m);
    assert(ms.push(m).drop_last() =~= ms);
}

proof fn lemma_anchor_for_push(anchors: Seq<EdgeAnchor>, a: EdgeAnchor, e: Edge)
    ensures
        anchor_for(anchors.push(a), e) == (if a.edge == e {
            Some(a.pinned)
        } else {
            anchor_for(anchors, e)
        }),
{
    assert(anchors.push(a).last() == a);
    assert(anchors.push(a).drop_last() =~= anchors);
}

/// Apply a margin/anchor configuration in insertion order. For each edge the
/// last configured entry wins, and an edge that is never configured keeps the
/// host default.
pub fn apply_edges(margins: &Vec<EdgeMargin>, anchors: &Vec<EdgeAnchor>) -> (r: EdgeSettings)
    ensures
        r.margin_top == margin_for(margins@, Edge::Top),
        r.margin_bottom == margin_for(margins@, Edge::Bottom),
        r.margin_left == margin_for(margins@, Edge::Left),
        r.margin_right == margin_for(margins@, Edge::Right),
        r.anchor_top == anchor_for(anchors@, Edge::Top),
        r.anchor_bottom == anchor_for(anchors@, Edge::Bottom),
        r.anchor_left == anchor_for(anchors@, Edge::Left),
        r.anchor_right == anchor_for(anchors@, Edge::Right),
{
    let mut r = EdgeSettings {
        margin_top: None,
        margin_bottom: None,
        margin_left: None,
        margin_right: None,
        anchor_top: None,
        anchor_bottom: None,
        anchor_left: None,
        anchor_right: None,
    };
    let mut i: usize = 0;
    while i < margins.len()
        invariant
            i <= margins@.len(),
            r.margin_top == margin_for(margins@.subrange(0, i as int), Edge::Top),
            r.margin_bottom == margin_for(margins@.subrange(0, i as int), Edge::Bottom),
            r.margin_left == margin_for(margins@.subrange(0, i as int), Edge::Left),
            r.margin_right == margin_for(margins@.subrange(0, i as int), Edge::Right),
            r.anchor_top is None,
            r.anchor_bottom is None,
            r.anchor_left is None,
            r.anchor_right is None,
        decreases margins@.len() - i,
    {
        let m = margins[i];
        proof {
            let prefix = margins@.subrange(0, i as int);
            assert(margins@.subrange(0, i + 1 as int) =~= prefix.push(margins@[i as int]));
            lemma_margin_for_push(prefix, margins@[i as int], Edge::Top);
            lemma_margin_for_push(prefix, margins@[i as int], Edge::Bottom);
            lemma_margin_for_push(prefix, margins@[i as int], Edge::Left);
            lemma_margin_for_push(prefix, margins@[i as int], Edge::Right);
        }
        match m.edge {
            Edge::Top => {
                r.margin_top = Some(m.offset);
            },
            Edge::Bottom => {
                r.margin_bottom = Some(m.offset);
            },
            Edge::Left => {
                r.margin_left = Some(m.offset);
            },
            Edge::Right => {
                r.margin_right = Some(m.offset);
            },
        }
        i = i + 1;
    }
    assert(margins@.subrange(0, margins@.len() as int) =~= margins@);
    let mut k: usize = 0;
    while k < anchors.len()
        invariant
            k <= anchors@.len(),
            r.margin_top == margin_for(margins@, Edge::Top),
            r.margin_bottom == margin_for(margins@, Edge::Bottom),
            r.margin_left == margin_for(margins@, Edge::Left),
            r.margin_right == margin_for(margins@, Edge::Right),
            r.anchor_top == anchor_for(anchors@.subrange(0, k as int), Edge::Top),
            r.anchor_bottom == anchor_for(anchors@.subrange(0, k as int), Edge::Bottom),
            r.anchor_left == anchor_for(anchors@.subrange(0, k as int), Edge::Left),
            r.anchor_right == anchor_for(anchors@.subrange(0, k as int), Edge::Right),
        decreases anchors@.len() - k,
    {
        let a = anchors[k];
        proof {
            let prefix = anchors@.subrange(0, k as int);
            assert(anchors@.subrange(0, k + 1 as int) =~= prefix.push(anchors@[k as int]));
            lemma_anchor_for_push(prefix, anchors@[k as int], Edge::Top);
            lemma_anchor_for_push(prefix, anchors@[k as int], Edge::Bottom);
            lemma_anchor_for_push(prefix, anchors@[k as int], Edge::Left);
            lemma_anchor_for_push(prefix, anchors@[k as int], Edge::Right);
        }
        match a.edge {
            Edge::Top => {
                r.anchor_top = Some(a.pinned);
            },
            Edge::Bottom => {
                r.anchor_bottom = Some(a.pinned);
            },
            Edge::Left => {
                r.anchor_left = Some(a.pinned);
            },
            Edge::Right => {
                r.anchor_right = Some(a.pinned);
            },
        }
        k = k + 1;
    }
    assert(anchors@.subrange(0, anchors@.len() as int) =~= anchors@);
    r
}

/// Law: an edge with no configured margin keeps the host default, and a
/// configured edge reports exactly the value of its last configured entry.
pub proof fn lemma_margin_last_write_wins(ms: Seq<EdgeMargin>, e: Edge)
    ensures
        (forall|i: int| 0 <= i < ms.len() ==> ms[i].edge != e) ==> margin_for(ms, e) is None,
        forall|i: int|
            0 <= i < ms.len() && ms[i].edge == e && (forall|j: int|
                i < j < ms.len() ==> ms[j].edge != e) ==> margin_for(ms, e) == Some(ms[i].offset),
    decreases ms.len(),
{
    if ms.len() > 0 {
        lemma_margin_last_write_wins(ms.drop_last(), e);
        assert forall|i: int|
            0 <= i < ms.len() && ms[i].edge == e && (forall|j: int|
                i < j < ms.len() ==> ms[j].edge != e) implies margin_for(ms, e) == Some(
            ms[i].offset,
        ) by {
            if i == ms.len() - 1 {
                assert(ms.last() == ms[i]);
            } else {
                assert(ms[ms.len() - 1].edge != e);
                assert(ms.drop_last()[i] == ms[i]);
                assert(forall|j: int|
                    i < j < ms.drop_last().len() ==> ms.drop_last()[j].edge != e);
            }
        }
    }
}

/// Law: an edge with no configured anchor keeps the host default, and a
/// configured edge reports exactly the value of its last configured entry.
pub proof fn lemma_anchor_last_write_wins(anchors: Seq<EdgeAnchor>, e: Edge)
    ensures
        (forall|i: int| 0 <= i < anchors.len() ==> anchors[i].edge != e) ==> anchor_for(anchors, e)
            is None,
        forall|i: int|
            0 <= i < anchors.len() && anchors[i].edge == e && (forall|j: int|
                i < j < anchors.len() ==> anchors[j].edge != e) ==> anchor_for(anchors, e) == Some(
                anchors[i].pinned,
            ),
    decreases anchors.len(),
{
    if anchors.len() > 0 {
        lemma_anchor_last_write_wins(anchors.drop_last(), e);
        assert forall|i: int|
            0 <= i < anchors.len() && anchors[i].edge == e && (forall|j: int|
                i < j < anchors.len() ==> anchors[j].edge != e) implies anchor_for(anchors, e)
            == Some(anchors[i].pinned) by {
            if i == anchors.len() - 1 {
                assert(anchors.last() == anchors[i]);
            } else {
                assert(anchors[anchors.len() - 1].edge != e);
                assert(anchors.drop_last()[i] == anchors[i]);
                assert(forall|j: int|
                    i < j < anchors.drop_last().len() ==> anchors.drop_last()[j].edge != e);
            }
        }
    }
}

} // verus!
