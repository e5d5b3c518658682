//! Laws of the per-frame draw sequence: which entities are submitted, how
//! often, and in what order.
use vstd::prelude::*;
use crate::draw::DrawCall;
use crate::draw::Submission;
use crate::draw::frame_submissions;
use crate::draw::join_submissions;
use crate::draw::ordered_submissions;
use crate::draw::spec_apply;
use crate::draw::unordered_submissions;
use crate::frame::FrameData;
use crate::frame::GlobalTransform;
use crate::frame::SpriteRender;
use crate::frame::SpriteVisibility;
use crate::frame::distinct;
use crate::frame::keys_distinct;
use crate::frame::lemma_lookup_drop_last;
use crate::frame::lemma_lookup_some_index;
use crate::frame::seq_lookup;
use crate::pass::PassModel;

verus! {

/// How many submissions in `subs` concern entity `e`.
pub open spec fn entity_count(subs: Seq<Submission>, e: u64) -> nat
    decreases subs.len(),
{
    if subs.len() == 0 {
        0
    } else {
        entity_count(subs.drop_last(), e) + (if subs.last().entity == e {
            1nat
        } else {
            0nat
        })
    }
}

/// The entities of a submission sequence, in submission order.
pub open spec fn submitted_entities(subs: Seq<Submission>) -> Seq<u64> {
    subs.map(|i: int, s: Submission| s.entity)
}

/// The subsequence of `ordered` whose entities hold a sprite component.
pub open spec fn ordered_present(ordered: Seq<u64>, sprites: Seq<(u64, SpriteRender)>) -> Seq<u64>
    decreases ordered.len(),
{
    if ordered.len() == 0 {
        Seq::empty()
    } else {
        let rest = ordered_present(ordered.drop_last(), sprites);
        if seq_lookup(sprites, ordered.last()) is Some {
            rest.push(ordered.last())
        } else {
            rest
        }
    }
}

/// Counting an entity distributes over concatenation.
pub proof fn lemma_entity_count_add(a: Seq<Submission>, b: Seq<Submission>, e: u64)
    ensures
        entity_count(a + b, e) == entity_count(a, e) + entity_count(b, e),
    decreases b.len(),
{
    if b.len() == 0 {
        assert(a + b =~= a);
    } else {
        lemma_entity_count_add(a, b.drop_last(), e);
        assert((a + b).drop_last() =~= a + b.drop_last());
        assert((a + b).last() == b.last());
    }
}

/// Distinct keys stay distinct when the last pair is dropped.
proof fn lemma_keys_distinct_drop_last<T>(s: Seq<(u64, T)>)
    requires
        keys_distinct(s),
        s.len() > 0,
    ensures
        keys_distinct(s.drop_last()),
{
    assert forall|i: int, j: int|
        0 <= i < j < s.drop_last().len() implies s.drop_last()[i].0 != s.drop_last()[j].0 by {
        assert(s.drop_last()[i] == s[i]);
        assert(s.drop_last()[j] == s[j]);
    }
}

/// Distinct values stay distinct when the last is dropped.
proof fn lemma_distinct_drop_last(s: Seq<u64>)
    requires
        distinct(s),
        s.len() > 0,
    ensures
        distinct(s.drop_last()),
{
    assert forall|i: int, j: int|
        0 <= i < j < s.drop_last().len() implies s.drop_last()[i] != s.drop_last()[j] by {
        assert(s.drop_last()[i] == s[i]);
        assert(s.drop_last()[j] == s[j]);
    }
}

/// An entity with both components appears exactly once in the join; one
/// missing either never appears.
proof fn lemma_join_count(
    sprites: Seq<(u64, SpriteRender)>,
    transforms: Seq<(u64, GlobalTransform)>,
    e: u64,
)
    requires
        keys_distinct(sprites),
    ensures
        entity_count(join_submissions(sprites, transforms), e) == (if seq_lookup(sprites, e)
            is Some && seq_lookup(transforms, e) is Some {
            1nat
        } else {
            0nat
        }),
    decreases sprites.len(),
{
    if sprites.len() == 0 {
    } else {
        let pre = sprites.drop_last();
        lemma_keys_distinct_drop_last(sprites);
        lemma_join_count(pre, transforms, e);
        let last = sprites.last();
        let rest = join_submissions(pre, transforms);
        let js = join_submissions(sprites, transforms);
        match seq_lookup(transforms, last.0) {
            Some(t) => {
                let sub = Submission { entity: last.0, sprite: last.1, transform: Some(t) };
                assert(js == rest.push(sub));
                assert(js.drop_last() =~= rest);
                assert(js.last() == sub);
                assert(entity_count(js, e) == entity_count(rest, e) + (if last.0 == e {
                    1nat
                } else {
                    0nat
                }));
            },
            None => {},
        }
        if last.0 == e {
            lemma_lookup_some_index(pre, e);
            if seq_lookup(pre, e) is Some {
                let i = choose|i: int| 0 <= i < pre.len() && pre[i].0 == e;
                assert(sprites[i] == pre[i]);
                assert(sprites[i].0 == sprites[sprites.len() - 1].0);
                assert(false);
            }
            lemma_lookup_some_index(sprites, e);
            assert(sprites[sprites.len() - 1].0 == e);
        } else {
            lemma_lookup_drop_last(sprites, e);
        }
    }
}

/// An entity in the visible set with both components appears exactly once
/// in the unordered batch; any other entity never appears.
proof fn lemma_unordered_count(
    sprites: Seq<(u64, SpriteRender)>,
    transforms: Seq<(u64, GlobalTransform)>,
    visible: Seq<u64>,
    e: u64,
)
    requires
        keys_distinct(sprites),
    ensures
        entity_count(unordered_submissions(sprites, transforms, visible), e) == (if visible.contains(
            e,
        ) && seq_lookup(sprites, e) is Some && seq_lookup(transforms, e) is Some {
            1nat
        } else {
            0nat
        }),
    decreases sprites.len(),
{
    if sprites.len() == 0 {
    } else {
        let pre = sprites.drop_last();
        lemma_keys_distinct_drop_last(sprites);
        lemma_unordered_count(pre, transforms, visible, e);
        let last = sprites.last();
        let rest = unordered_submissions(pre, transforms, visible);
        let us = unordered_submissions(sprites, transforms, visible);
        if visible.contains(last.0) {
            match seq_lookup(transforms, last.0) {
                Some(t) => {
                    let sub = Submission { entity: last.0, sprite: last.1, transform: Some(t) };
                    assert(us == rest.push(sub));
                    assert(us.drop_last() =~= rest);
                    assert(us.last() == sub);
                    assert(entity_count(us, e) == entity_count(rest, e) + (if last.0 == e {
                        1nat
                    } else {
                        0nat
                    }));
                },
                None => {},
            }
        }
        if last.0 == e {
            lemma_lookup_some_index(pre, e);
            if seq_lookup(pre, e) is Some {
                let i = choose|i: int| 0 <= i < pre.len() && pre[i].0 == e;
                assert(sprites[i] == pre[i]);
                assert(sprites[i].0 == sprites[sprites.len() - 1].0);
                assert(false);
            }
            lemma_lookup_some_index(sprites, e);
            assert(sprites[sprites.len() - 1].0 == e);
        } else {
            lemma_lookup_drop_last(sprites, e);
        }
    }
}

/// An entity of the ordered list with a sprite is submitted exactly once by
/// the ordered batch; any other entity never is.
proof fn lemma_ordered_count(
    ordered: Seq<u64>,
    sprites: Seq<(u64, SpriteRender)>,
    transforms: Seq<(u64, GlobalTransform)>,
    e: u64,
)
    requires
        distinct(ordered),
    ensures
        entity_count(ordered_submissions(ordered, sprites, transforms), e) == (if ordered.contains(
            e,
        ) && seq_lookup(sprites, e) is Some {
            1nat
        } else {
            0nat
        }),
    decreases ordered.len(),
{
    if ordered.len() == 0 {
    } else {
        let pre = ordered.drop_last();
        lemma_distinct_drop_last(ordered);
        lemma_ordered_count(pre, sprites, transforms, e);
        let last = ordered.last();
        let rest = ordered_submissions(pre, sprites, transforms);
        let os = ordered_submissions(ordered, sprites, transforms);
        match seq_lookup(sprites, last) {
            Some(sr) => {
                let sub = Submission {
                    entity: last,
                    sprite: sr,
                    transform: seq_lookup(transforms, last),
                };
                assert(os == rest.push(sub));
                assert(os.drop_last() =~= rest);
                assert(os.last() == sub);
                assert(entity_count(os, e) == entity_count(rest, e) + (if last == e {
                    1nat
                } else {
                    0nat
                }));
            },
            None => {},
        }
        if last == e {
            assert(ordered[ordered.len() - 1] == e);
            assert(ordered.contains(e));
            if pre.contains(e) {
                let i = choose|i: int| 0 <= i < pre.len() && pre[i] == e;
                assert(ordered[i] == e);
                assert(ordered[i] == ordered[ordered.len() - 1]);
                assert(false);
            }
        } else {
            if pre.contains(e) {
                let i = choose|i: int| 0 <= i < pre.len() && pre[i] == e;
                assert(ordered[i] == e);
                assert(ordered.contains(e));
            }
            if ordered.contains(e) {
                let i = choose|i: int| 0 <= i < ordered.len() && ordered[i] == e;
                assert(i < ordered.len() - 1);
                assert(pre[i] == e);
                assert(pre.contains(e));
            }
        }
    }
}

/// The ordered batch submits exactly the listed entities that hold a
/// sprite, in the exact order of the list.
proof fn lemma_ordered_entities(
    ordered: Seq<u64>,
    sprites: Seq<(u64, SpriteRender)>,
    transforms: Seq<(u64, GlobalTransform)>,
)
    ensures
        submitted_entities(ordered_submissions(ordered, sprites, transforms)) == ordered_present(
            ordered,
            sprites,
        ),
    decreases ordered.len(),
{
    if ordered.len() == 0 {
        assert(submitted_entities(ordered_submissions(ordered, sprites, transforms))
            =~= ordered_present(ordered, sprites));
    } else {
        lemma_ordered_entities(ordered.drop_last(), sprites, transforms);
        assert(submitted_entities(ordered_submissions(ordered, sprites, transforms))
            =~= ordered_present(ordered, sprites));
    }
}

/// Law: with no visibility resource, the frame's submissions are exactly
/// the sprite/transform join in storage order, and an entity is submitted
/// exactly once when it holds both a sprite and a transform, never
/// otherwise.
pub proof fn lemma_no_visibility_joins_once(frame: FrameData, e: u64)
    requires
        frame.visibility is None,
        frame.sprite_renders.wf(),
    ensures
        frame_submissions(frame) == join_submissions(
            frame.sprite_renders.entries@,
            frame.transforms.entries@,
        ),
        entity_count(frame_submissions(frame), e) == (if frame.sprite_renders.spec_get(e) is Some
            && frame.transforms.spec_get(e) is Some {
            1nat
        } else {
            0nat
        }),
{
    lemma_join_count(frame.sprite_renders.entries@, frame.transforms.entries@, e);
}

/// Law: with a visibility resource, the frame's submissions are the
/// unordered batch followed by the ordered list in exactly the list's
/// order; a listed entity with a sprite is submitted exactly once by the
/// ordered batch, one without a sprite never; an entity in the visible set
/// with both components is submitted exactly once by the unordered batch;
/// and an entity in neither view is never submitted at all.
pub proof fn lemma_visibility_order(frame: FrameData, v: SpriteVisibility, e: u64)
    requires
        frame.visibility == Some(v),
        v.wf(),
        frame.sprite_renders.wf(),
    ensures
        frame_submissions(frame) == unordered_submissions(
            frame.sprite_renders.entries@,
            frame.transforms.entries@,
            v.visible_unordered@,
        ) + ordered_submissions(
            v.visible_ordered@,
            frame.sprite_renders.entries@,
            frame.transforms.entries@,
        ),
        submitted_entities(
            ordered_submissions(
                v.visible_ordered@,
                frame.sprite_renders.entries@,
                frame.transforms.entries@,
            ),
        ) == ordered_present(v.visible_ordered@, frame.sprite_renders.entries@),
        entity_count(
            ordered_submissions(
                v.visible_ordered@,
                frame.sprite_renders.entries@,
                frame.transforms.entries@,
            ),
            e,
        ) == (if v.visible_ordered@.contains(e) && frame.sprite_renders.spec_get(e) is Some {
            1nat
        } else {
            0nat
        }),
        entity_count(
            unordered_submissions(
                frame.sprite_renders.entries@,
                frame.transforms.entries@,
                v.visible_unordered@,
            ),
            e,
        ) == (if v.visible_unordered@.contains(e) && frame.sprite_renders.spec_get(e) is Some
            && frame.transforms.spec_get(e) is Some {
            1nat
        } else {
            0nat
        }),
        (!v.visible_unordered@.contains(e) && !v.visible_ordered@.contains(e)) ==> entity_count(
            frame_submissions(frame),
            e,
        ) == 0,
{
    let sprites = frame.sprite_renders.entries@;
    let transforms = frame.transforms.entries@;
    lemma_unordered_count(sprites, transforms, v.visible_unordered@, e);
    lemma_ordered_count(v.visible_ordered@, sprites, transforms, e);
    lemma_ordered_entities(v.visible_ordered@, sprites, transforms);
    lemma_entity_count_add(
        unordered_submissions(sprites, transforms, v.visible_unordered@),
        ordered_submissions(v.visible_ordered@, sprites, transforms),
        e,
    );
}

/// Law: applying the pass twice to identical inputs yields identical
/// draw-call sequences.  The pass holds no frame-to-frame mutable state:
/// its output is a function of the configuration and the frame alone, which
/// is what `apply`'s contract pins down.
pub proof fn lemma_apply_deterministic(
    pass: PassModel,
    frame: FrameData,
    r1: Seq<DrawCall>,
    r2: Seq<DrawCall>,
)
    requires
        r1 == spec_apply(pass, frame),
        r2 == spec_apply(pass, frame),
    ensures
        r1 == r2,
{
}

} // verus!
