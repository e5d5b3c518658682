//! The per-frame work of the pass: resolving the active camera, walking the
//! visibility-aware submission sequence, and issuing one draw call per
//! submission whose sprite-sheet and texture lookups resolve.
//!
//! The pass only computes the draw-call sequence; the host owns the encoder
//! and performs each call.  A failed per-entity resolution is a skipped
//! draw, never an error: one malformed sprite must not abort the frame.
use vstd::prelude::*;
use crate::frame::Camera;
use crate::frame::Components;
use crate::frame::FrameData;
use crate::frame::GlobalTransform;
use crate::frame::SpriteRender;
use crate::frame::SpriteSheet;
use crate::frame::Texture;
use crate::frame::contains_entity;
use crate::frame::seq_lookup;
use crate::pass::DrawHandler;
use crate::pass::DrawSprite;
use crate::pass::PassModel;
use crate::pass::spec_draw_handler;

verus! {

/// One entry of the submission sequence: the entity, its sprite, and its
/// transform when present.
#[derive(Clone, Copy, PartialEq, Eq, Debug)]
pub struct Submission {
    pub entity: u64,
    pub sprite: SpriteRender,
    pub transform: Option<GlobalTransform>,
}

/// One draw call, carrying everything the draw handler marshals: the
/// resolved texture, the camera pair when one is active, and the handler it
/// is submitted through.
#[derive(Clone, Copy, PartialEq, Eq, Debug)]
pub struct DrawCall {
    pub entity: u64,
    pub sprite: SpriteRender,
    pub transform: Option<GlobalTransform>,
    pub camera: Option<(Camera, GlobalTransform)>,
    pub texture: u64,
    pub handler: DrawHandler,
}

/// The submissions of a frame without a visibility resource: the join of
/// the sprite and transform storages, in sprite-storage order.
pub open spec fn join_submissions(
    sprites: Seq<(u64, SpriteRender)>,
    transforms: Seq<(u64, GlobalTransform)>,
) -> Seq<Submission>
    decreases sprites.len(),
{
    if sprites.len() == 0 {
        Seq::empty()
    } else {
        let rest = join_submissions(sprites.drop_last(), transforms);
        match seq_lookup(transforms, sprites.last().0) {
            Some(t) => rest.push(
                Submission {
                    entity: sprites.last().0,
                    sprite: sprites.last().1,
                    transform: Some(t),
                },
            ),
            None => rest,
        }
    }
}

/// The unordered batch: the sprite/transform join restricted to the
/// visible set, in sprite-storage order.
pub open spec fn unordered_submissions(
    sprites: Seq<(u64, SpriteRender)>,
    transforms: Seq<(u64, GlobalTransform)>,
    visible: Seq<u64>,
) -> Seq<Submission>
    decreases sprites.len(),
{
    if sprites.len() == 0 {
        Seq::empty()
    } else {
        let rest = unordered_submissions(sprites.drop_last(), transforms, visible);
        if visible.contains(sprites.last().0) {
            match seq_lookup(transforms, sprites.last().0) {
                Some(t) => rest.push(
                    Submission {
                        entity: sprites.last().0,
                        sprite: sprites.last().1,
                        transform: Some(t),
                    },
                ),
                None => rest,
            }
        } else {
            rest
        }
    }
}

/// The ordered batch: the visibility list in its exact order.  An entity
/// without a sprite is skipped entirely; a missing transform is passed
/// through as none.
pub open spec fn ordered_submissions(
    ordered: Seq<u64>,
    sprites: Seq<(u64, SpriteRender)>,
    transforms: Seq<(u64, GlobalTransform)>,
) -> Seq<Submission>
    decreases ordered.len(),
{
    if ordered.len() == 0 {
        Seq::empty()
    } else {
        let rest = ordered_submissions(ordered.drop_last(), sprites, transforms);
        match seq_lookup(sprites, ordered.last()) {
            Some(sr) => rest.push(
                Submission {
                    entity: ordered.last(),
                    sprite: sr,
                    transform: seq_lookup(transforms, ordered.last()),
                },
            ),
            None => rest,
        }
    }
}

/// The frame's full submission sequence: the plain join when no visibility
/// resource exists, otherwise the unordered batch followed by the ordered
/// list.
pub open spec fn frame_submissions(frame: FrameData) -> Seq<Submission> {
    match frame.visibility {
        None => join_submissions(frame.sprite_renders.entries@, frame.transforms.entries@),
        Some(v) => unordered_submissions(
            frame.sprite_renders.entries@,
            frame.transforms.entries@,
            v.visible_unordered@,
        ) + ordered_submissions(
            v.visible_ordered@,
            frame.sprite_renders.entries@,
            frame.transforms.entries@,
        ),
    }
}

/// The camera a frame draws with: the active-camera entity's camera and
/// transform, when the singleton is set and both components exist.
pub open spec fn spec_resolve_camera(frame: FrameData) -> Option<(Camera, GlobalTransform)> {
    match frame.active_camera {
        None => None,
        Some(e) => match seq_lookup(frame.cameras.entries@, e) {
            None => None,
            Some(c) => match seq_lookup(frame.transforms.entries@, e) {
                None => None,
                Some(t) => Some((c, t)),
            },
        },
    }
}

/// What one submission resolves to: a draw call when the sprite's sheet,
/// the sheet's texture slot and the texture data are all known, a skipped
/// draw otherwise.
pub open spec fn spec_draw_sprite(
    sub: Submission,
    sheets: Seq<(u64, SpriteSheet)>,
    textures: Seq<(u64, Texture)>,
    material_textures: Seq<(u64, u64)>,
    camera: Option<(Camera, GlobalTransform)>,
    handler: DrawHandler,
) -> Option<DrawCall> {
    match seq_lookup(sheets, sub.sprite.sprite_sheet) {
        None => None,
        Some(sheet) => match seq_lookup(material_textures, sheet.texture_id) {
            None => None,
            Some(tex) => match seq_lookup(textures, tex) {
                None => None,
                Some(_) => Some(
                    DrawCall {
                        entity: sub.entity,
                        sprite: sub.sprite,
                        transform: sub.transform,
                        camera,
                        texture: tex,
                        handler,
                    },
                ),
            },
        },
    }
}

/// The draw calls a submission sequence produces, in submission order,
/// skipped submissions removed.
pub open spec fn spec_draws(
    subs: Seq<Submission>,
    sheets: Seq<(u64, SpriteSheet)>,
    textures: Seq<(u64, Texture)>,
    material_textures: Seq<(u64, u64)>,
    camera: Option<(Camera, GlobalTransform)>,
    handler: DrawHandler,
) -> Seq<DrawCall>
    decreases subs.len(),
{
    if subs.len() == 0 {
        Seq::empty()
    } else {
        let rest = spec_draws(
            subs.drop_last(),
            sheets,
            textures,
            material_textures,
            camera,
            handler,
        );
        match spec_draw_sprite(subs.last(), sheets, textures, material_textures, camera, handler) {
            Some(c) => rest.push(c),
            None => rest,
        }
    }
}

/// Everything `apply` emits for one configuration and frame.
pub open spec fn spec_apply(pass: PassModel, frame: FrameData) -> Seq<DrawCall> {
    spec_draws(
        frame_submissions(frame),
        frame.sprite_sheets.entries@,
        frame.textures.entries@,
        frame.material_textures.entries@,
        spec_resolve_camera(frame),
        spec_draw_handler(pass),
    )
}

/// Resolves the active camera and its transform; either missing yields "no
/// camera" and the frame is still drawn without view-projection data.
pub fn get_camera(frame: &FrameData) -> (r: Option<(Camera, GlobalTransform)>)
    ensures
        r == spec_resolve_camera(*frame),
{
    match frame.active_camera {
        None => None,
        Some(e) => match frame.cameras.get(e) {
            None => None,
            Some(c) => match frame.transforms.get(e) {
                None => None,
                Some(t) => Some((c, t)),
            },
        },
    }
}

/// Walks the visibility-aware submission sequence of a frame.
pub fn collect_submissions(frame: &FrameData) -> (r: Vec<Submission>)
    ensures
        r@ == frame_submissions(*frame),
{
    let mut out: Vec<Submission> = Vec::new();
    match &frame.visibility {
        None => {
            let sprites = &frame.sprite_renders.entries;
            let n = sprites.len();
            let mut i: usize = 0;
            while i < n
                invariant
                    i <= n,
                    n == sprites@.len(),
                    sprites == frame.sprite_renders.entries,
                    out@ == join_submissions(sprites@.take(i as int), frame.transforms.entries@),
                decreases n - i,
            {
                let (e, sr) = sprites[i];
                match frame.transforms.get(e) {
                    Some(t) => out.push(Submission { entity: e, sprite: sr, transform: Some(t) }),
                    None => (),
                }
                proof {
                    let pre = sprites@.take(i as int);
                    let now = sprites@.take(i as int + 1);
                    assert(now.drop_last() =~= pre);
                    assert(now.last() == sprites@[i as int]);
                }
                i = i + 1;
            }
            proof {
                assert(sprites@.take(n as int) =~= sprites@);
            }
        },
        Some(vis) => {
            let sprites = &frame.sprite_renders.entries;
            let n = sprites.len();
            let mut i: usize = 0;
            while i < n
                invariant
                    i <= n,
                    n == sprites@.len(),
                    sprites == frame.sprite_renders.entries,
                    frame.visibility == Some(*vis),
                    out@ == unordered_submissions(
                        sprites@.take(i as int),
                        frame.transforms.entries@,
                        vis.visible_unordered@,
                    ),
                decreases n - i,
            {
                let (e, sr) = sprites[i];
                if contains_entity(&vis.visible_unordered, e) {
                    match frame.transforms.get(e) {
                        Some(t) => out.push(
                            Submission { entity: e, sprite: sr, transform: Some(t) },
                        ),
                        None => (),
                    }
                }
                proof {
                    let pre = sprites@.take(i as int);
                    let now = sprites@.take(i as int + 1);
                    assert(now.drop_last() =~= pre);
                    assert(now.last() == sprites@[i as int]);
                }
                i = i + 1;
            }
            proof {
                assert(sprites@.take(n as int) =~= sprites@);
            }
            let ghost batch = out@;
            let ordered = &vis.visible_ordered;
            let m = ordered.len();
            let mut j: usize = 0;
            while j < m
                invariant
                    j <= m,
                    m == ordered@.len(),
                    ordered == vis.visible_ordered,
                    frame.visibility == Some(*vis),
                    out@ == batch + ordered_submissions(
                        ordered@.take(j as int),
                        frame.sprite_renders.entries@,
                        frame.transforms.entries@,
                    ),
                decreases m - j,
            {
                let e = ordered[j];
                match frame.sprite_renders.get(e) {
                    Some(sr) => {
                        let t = frame.transforms.get(e);
                        out.push(Submission { entity: e, sprite: sr, transform: t });
                    },
                    None => (),
                }
                proof {
                    let pre = ordered@.take(j as int);
                    let now = ordered@.take(j as int + 1);
                    assert(now.drop_last() =~= pre);
                    assert(now.last() == ordered@[j as int]);
                    assert(out@ =~= batch + ordered_submissions(
                        now,
                        frame.sprite_renders.entries@,
                        frame.transforms.entries@,
                    ));
                }
                j = j + 1;
            }
            proof {
                assert(ordered@.take(m as int) =~= ordered@);
                assert(out@ =~= frame_submissions(*frame));
            }
        },
    }
    out
}

/// Resolves one submission's sheet and texture indirection and produces its
/// draw call; a failed lookup yields a skipped draw, never an error.
pub fn draw_sprite(
    sub: Submission,
    sheets: &Components<SpriteSheet>,
    textures: &Components<Texture>,
    material_textures: &Components<u64>,
    camera: Option<(Camera, GlobalTransform)>,
    handler: DrawHandler,
) -> (r: Option<DrawCall>)
    ensures
        r == spec_draw_sprite(
            sub,
            sheets.entries@,
            textures.entries@,
            material_textures.entries@,
            camera,
            handler,
        ),
{
    match sheets.get(sub.sprite.sprite_sheet) {
        None => None,
        Some(sheet) => match material_textures.get(sheet.texture_id) {
            None => None,
            Some(tex) => match textures.get(tex) {
                None => None,
                Some(_) => Some(
                    DrawCall {
                        entity: sub.entity,
                        sprite: sub.sprite,
                        transform: sub.transform,
                        camera,
                        texture: tex,
                        handler,
                    },
                ),
            },
        },
    }
}

impl DrawSprite {
    /// Draws one frame: resolves the camera once, picks the draw handler
    /// (the override's routine when configured, the built-in marshaling
    /// otherwise), walks the visibility-aware submission sequence, and
    /// issues one draw call per resolvable submission, in submission order.
    ///
    /// The frame data is read only; the result is a function of the
    /// configuration and the frame alone.
    pub fn apply(&self, frame: &FrameData) -> (r: Vec<DrawCall>)
        ensures
            r@ == spec_apply(self@, *frame),
    {
        let camera = get_camera(frame);
        let handler = self.draw_handler();
        let subs = collect_submissions(frame);
        let mut out: Vec<DrawCall> = Vec::new();
        let n = subs.len();
        let mut i: usize = 0;
        while i < n
            invariant
                i <= n,
                n == subs@.len(),
                subs@ == frame_submissions(*frame),
                camera == spec_resolve_camera(*frame),
                handler == spec_draw_handler(self@),
                out@ == spec_draws(
                    subs@.take(i as int),
                    frame.sprite_sheets.entries@,
                    frame.textures.entries@,
                    frame.material_textures.entries@,
                    camera,
                    handler,
                ),
            decreases n - i,
        {
            match draw_sprite(
                subs[i],
                &frame.sprite_sheets,
                &frame.textures,
                &frame.material_textures,
                camera,
                handler,
            ) {
                Some(c) => out.push(c),
                None => (),
            }
            proof {
                let pre = subs@.take(i as int);
                let now = subs@.take(i as int + 1);
                assert(now.drop_last() =~= pre);
                assert(now.last() == subs@[i as int]);
            }
            i = i + 1;
        }
        proof {
            assert(subs@.take(n as int) =~= subs@);
        }
        out
    }
}

} // verus!
