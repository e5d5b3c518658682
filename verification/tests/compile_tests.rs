//! Tests of pass configuration and compilation.
use sprite_pass::effect::Blend;
use sprite_pass::effect::ColorMask;
use sprite_pass::effect::CompileError;
use sprite_pass::effect::DepthMode;
use sprite_pass::effect::EffectDecl;
use sprite_pass::pass::DrawSprite;
use sprite_pass::pass::LazyEffectBuilder;
use sprite_pass::pass::SPRITE_ARGS_STD140_SIZE;
use sprite_pass::pass::VERTEX_ARGS_STD140_SIZE;
use sprite_pass::pass::frag_src;
use sprite_pass::pass::vert_src;

fn shared_textures() -> Vec<String> {
    vec!["albedo".to_owned()]
}

fn mask_all() -> ColorMask {
    ColorMask { red: true, green: true, blue: true, alpha: true }
}

#[test]
fn default_compile_declares_two_buffers_and_textures() {
    let pass = DrawSprite::new();
    let effect = pass.compile(&shared_textures()).unwrap();
    assert_eq!(effect.vert, vert_src());
    assert_eq!(effect.frag, frag_src());
    assert_eq!(effect.decls.len(), 4);
    assert_eq!(
        effect.decls[0],
        EffectDecl::RawConstantBuffer {
            name: "VertexArgs".to_owned(),
            size: VERTEX_ARGS_STD140_SIZE,
            array_len: 1,
        }
    );
    assert_eq!(
        effect.decls[1],
        EffectDecl::RawConstantBuffer {
            name: "SpriteArgs".to_owned(),
            size: SPRITE_ARGS_STD140_SIZE,
            array_len: 1,
        }
    );
    assert_eq!(effect.decls[2], EffectDecl::TextureBinding { name: "albedo".to_owned() });
    assert_eq!(
        effect.decls[3],
        EffectDecl::OutputOpaque { name: "color".to_owned(), depth: Some(DepthMode::LessEqualWrite) }
    );
}

#[test]
fn opaque_output_uses_default_depth_policy() {
    let pass = DrawSprite::new();
    let effect = pass.compile(&shared_textures()).unwrap();
    let last = effect.decls.last().unwrap();
    assert_eq!(
        *last,
        EffectDecl::OutputOpaque { name: "color".to_owned(), depth: Some(DepthMode::LessEqualWrite) }
    );
}

#[test]
fn transparency_output_carries_exact_triple() {
    let pass = DrawSprite::new().with_transparency(
        mask_all(),
        Blend::Alpha,
        Some(DepthMode::LessEqualTest),
    );
    let effect = pass.compile(&shared_textures()).unwrap();
    let last = effect.decls.last().unwrap();
    assert_eq!(
        *last,
        EffectDecl::OutputBlended {
            name: "color".to_owned(),
            mask: mask_all(),
            blend: Blend::Alpha,
            depth: Some(DepthMode::LessEqualTest),
        }
    );
}

#[test]
fn custom_shader_program_bytes_round_trip() {
    let vert = b"custom vertex program".to_vec();
    let frag = b"custom fragment program".to_vec();
    let setup = vec![EffectDecl::RawConstantBuffer {
        name: "CustomArgs".to_owned(),
        size: 16,
        array_len: 1,
    }];
    let lazy = LazyEffectBuilder::new(vert.clone(), frag.clone(), setup);
    let pass = DrawSprite::new().with_custom_shader(lazy, 9);
    let effect = pass.compile(&shared_textures()).unwrap();
    assert_eq!(effect.vert, vert);
    assert_eq!(effect.frag, frag);
    assert_eq!(
        effect.decls[0],
        EffectDecl::RawConstantBuffer { name: "CustomArgs".to_owned(), size: 16, array_len: 1 }
    );
    assert_eq!(effect.decls[1], EffectDecl::TextureBinding { name: "albedo".to_owned() });
    assert_eq!(
        effect.decls[2],
        EffectDecl::OutputOpaque { name: "color".to_owned(), depth: Some(DepthMode::LessEqualWrite) }
    );
}

#[test]
fn custom_shader_inherits_transparency_switch() {
    let lazy = LazyEffectBuilder::new(b"v".to_vec(), b"f".to_vec(), Vec::new());
    let pass = DrawSprite::new()
        .with_custom_shader(lazy, 1)
        .with_transparency(mask_all(), Blend::Add, None);
    let effect = pass.compile(&shared_textures()).unwrap();
    assert_eq!(
        *effect.decls.last().unwrap(),
        EffectDecl::OutputBlended {
            name: "color".to_owned(),
            mask: mask_all(),
            blend: Blend::Add,
            depth: None,
        }
    );
}

#[test]
fn empty_program_fails_compilation() {
    let lazy = LazyEffectBuilder::new(Vec::new(), b"f".to_vec(), Vec::new());
    let pass = DrawSprite::new().with_custom_shader(lazy, 1);
    assert_eq!(pass.compile(&shared_textures()), Err(CompileError::EmptyProgram));
}

#[test]
fn conflicting_binding_names_fail_compilation() {
    // the setup step claims the name the shared texture list will also claim
    let setup = vec![EffectDecl::TextureBinding { name: "albedo".to_owned() }];
    let lazy = LazyEffectBuilder::new(b"v".to_vec(), b"f".to_vec(), setup);
    let pass = DrawSprite::new().with_custom_shader(lazy, 1);
    assert_eq!(pass.compile(&shared_textures()), Err(CompileError::BindingConflict));
}

#[test]
fn duplicate_texture_names_fail_compilation() {
    let pass = DrawSprite::new();
    let textures = vec!["albedo".to_owned(), "albedo".to_owned()];
    assert_eq!(pass.compile(&textures), Err(CompileError::BindingConflict));
}

#[test]
fn lazy_builders_compare_by_program_bytes_only() {
    let a = LazyEffectBuilder::new(
        b"v".to_vec(),
        b"f".to_vec(),
        vec![EffectDecl::TextureBinding { name: "extra".to_owned() }],
    );
    let b = LazyEffectBuilder::new(b"v".to_vec(), b"f".to_vec(), Vec::new());
    let c = LazyEffectBuilder::new(b"v2".to_vec(), b"f".to_vec(), Vec::new());
    assert!(a == b);
    assert!(b != c);
}

#[test]
fn custom_shaders_compare_by_description_not_handler() {
    let mk = |handler: u64| {
        DrawSprite::new()
            .with_custom_shader(LazyEffectBuilder::new(b"v".to_vec(), b"f".to_vec(), Vec::new()), handler)
            .custom_shader
            .unwrap()
    };
    assert!(mk(1) == mk(2));
}
