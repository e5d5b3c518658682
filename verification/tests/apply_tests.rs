//! Tests of the per-frame draw sequence.
use sprite_pass::bundle::AppBundle;
use sprite_pass::draw::DrawCall;
use sprite_pass::frame::Camera;
use sprite_pass::frame::Components;
use sprite_pass::frame::FrameData;
use sprite_pass::frame::GlobalTransform;
use sprite_pass::frame::SpriteRender;
use sprite_pass::frame::SpriteSheet;
use sprite_pass::frame::SpriteVisibility;
use sprite_pass::frame::Texture;
use sprite_pass::pass::DrawHandler;
use sprite_pass::pass::DrawSprite;
use sprite_pass::pass::LazyEffectBuilder;

const SHEET: u64 = 10;
const TEXTURE_SLOT: u64 = 5;
const TEXTURE: u64 = 77;

fn sprite() -> SpriteRender {
    SpriteRender { sprite_sheet: SHEET, sprite_number: 0 }
}

fn transform(id: u64) -> GlobalTransform {
    GlobalTransform { matrix: id }
}

/// A frame whose asset storages resolve `sprite()` to `TEXTURE`.
fn frame_with(
    entities: Vec<(u64, SpriteRender)>,
    transforms: Vec<(u64, GlobalTransform)>,
    visibility: Option<SpriteVisibility>,
) -> FrameData {
    FrameData {
        active_camera: None,
        cameras: Components { entries: Vec::new() },
        sprite_sheets: Components { entries: vec![(SHEET, SpriteSheet { texture_id: TEXTURE_SLOT })] },
        textures: Components { entries: vec![(TEXTURE, Texture { data: 0 })] },
        material_textures: Components { entries: vec![(TEXTURE_SLOT, TEXTURE)] },
        visibility,
        sprite_renders: Components { entries: entities },
        transforms: Components { entries: transforms },
    }
}

fn entities_of(calls: &[DrawCall]) -> Vec<u64> {
    calls.iter().map(|c| c.entity).collect()
}

#[test]
fn no_visibility_single_entity_draws_once() {
    let frame = frame_with(vec![(1, sprite())], vec![(1, transform(100))], None);
    let calls = DrawSprite::new().apply(&frame);
    assert_eq!(calls.len(), 1);
    assert_eq!(calls[0].entity, 1);
    assert_eq!(calls[0].sprite, sprite());
    assert_eq!(calls[0].transform, Some(transform(100)));
    assert_eq!(calls[0].texture, TEXTURE);
    assert_eq!(calls[0].camera, None);
    assert_eq!(calls[0].handler, DrawHandler::BuiltIn);
}

#[test]
fn no_visibility_draws_join_in_storage_order() {
    // entity 3 has no transform and is skipped; 1 and 2 draw in storage order
    let frame = frame_with(
        vec![(1, sprite()), (3, sprite()), (2, sprite())],
        vec![(2, transform(2)), (1, transform(1))],
        None,
    );
    let calls = DrawSprite::new().apply(&frame);
    assert_eq!(entities_of(&calls), vec![1, 2]);
}

#[test]
fn ordered_entities_draw_after_unordered_batch_in_list_order() {
    // E2 and E5 are ordered (E2 first), E3 is unordered
    let vis = SpriteVisibility { visible_unordered: vec![3], visible_ordered: vec![2, 5] };
    let frame = frame_with(
        vec![(5, sprite()), (2, sprite()), (3, sprite())],
        vec![(2, transform(2)), (3, transform(3)), (5, transform(5))],
        Some(vis),
    );
    let calls = DrawSprite::new().apply(&frame);
    assert_eq!(calls.len(), 3);
    let order = entities_of(&calls);
    assert_eq!(order, vec![3, 2, 5]);
    let pos2 = order.iter().position(|e| *e == 2).unwrap();
    let pos5 = order.iter().position(|e| *e == 5).unwrap();
    assert!(pos2 < pos5);
}

#[test]
fn ordered_entity_without_sprite_is_skipped_without_fault() {
    let vis = SpriteVisibility { visible_unordered: Vec::new(), visible_ordered: vec![4] };
    let frame = frame_with(Vec::new(), vec![(4, transform(4))], Some(vis));
    let calls = DrawSprite::new().apply(&frame);
    assert_eq!(calls.len(), 0);
}

#[test]
fn ordered_entity_without_transform_draws_with_none() {
    let vis = SpriteVisibility { visible_unordered: Vec::new(), visible_ordered: vec![7] };
    let frame = frame_with(vec![(7, sprite())], Vec::new(), Some(vis));
    let calls = DrawSprite::new().apply(&frame);
    assert_eq!(calls.len(), 1);
    assert_eq!(calls[0].entity, 7);
    assert_eq!(calls[0].transform, None);
}

#[test]
fn entity_outside_both_views_is_never_drawn() {
    let vis = SpriteVisibility { visible_unordered: vec![1], visible_ordered: Vec::new() };
    let frame = frame_with(
        vec![(1, sprite()), (9, sprite())],
        vec![(1, transform(1)), (9, transform(9))],
        Some(vis),
    );
    let calls = DrawSprite::new().apply(&frame);
    assert_eq!(entities_of(&calls), vec![1]);
}

#[test]
fn apply_twice_yields_identical_sequences() {
    let vis = SpriteVisibility { visible_unordered: vec![3], visible_ordered: vec![2] };
    let frame = frame_with(
        vec![(2, sprite()), (3, sprite())],
        vec![(2, transform(2)), (3, transform(3))],
        Some(vis),
    );
    let pass = DrawSprite::new();
    let first = pass.apply(&frame);
    let second = pass.apply(&frame);
    assert_eq!(first, second);
}

#[test]
fn unknown_sprite_sheet_is_a_skipped_draw() {
    let orphan = SpriteRender { sprite_sheet: 999, sprite_number: 0 };
    let frame = frame_with(
        vec![(1, orphan), (2, sprite())],
        vec![(1, transform(1)), (2, transform(2))],
        None,
    );
    let calls = DrawSprite::new().apply(&frame);
    assert_eq!(entities_of(&calls), vec![2]);
}

#[test]
fn active_camera_with_components_is_resolved() {
    let mut frame = frame_with(vec![(1, sprite())], vec![(1, transform(1))], None);
    frame.active_camera = Some(50);
    frame.cameras = Components { entries: vec![(50, Camera { projection: 8 })] };
    frame.transforms.entries.push((50, transform(500)));
    let calls = DrawSprite::new().apply(&frame);
    assert_eq!(calls[0].camera, Some((Camera { projection: 8 }, transform(500))));
}

#[test]
fn active_camera_without_transform_yields_no_camera() {
    let mut frame = frame_with(vec![(1, sprite())], vec![(1, transform(1))], None);
    frame.active_camera = Some(50);
    frame.cameras = Components { entries: vec![(50, Camera { projection: 8 })] };
    let calls = DrawSprite::new().apply(&frame);
    assert_eq!(calls.len(), 1);
    assert_eq!(calls[0].camera, None);
}

#[test]
fn custom_shader_routes_draws_through_its_handler() {
    let lazy = LazyEffectBuilder::new(b"v".to_vec(), b"f".to_vec(), Vec::new());
    let pass = DrawSprite::new().with_custom_shader(lazy, 42);
    let frame = frame_with(vec![(1, sprite())], vec![(1, transform(1))], None);
    let calls = pass.apply(&frame);
    assert_eq!(calls[0].handler, DrawHandler::Custom(42));
}

#[test]
fn component_lookup_finds_first_entry() {
    let mut store = Components::new();
    store.insert(1, sprite());
    store.insert(2, sprite());
    assert_eq!(store.get(2), Some(sprite()));
    assert_eq!(store.get(3), None);
    assert!(store.contains(1));
    assert!(!store.contains(4));
}

#[test]
fn bundle_records_asset_path() {
    let bundle = AppBundle::new("assets/".to_owned());
    assert_eq!(bundle.path().as_str(), "assets/");
}
