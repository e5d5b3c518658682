//! The sprite draw pass: construction-time configuration (transparency and
//! an optional shader override) and its one-time compilation into an
//! [`Effect`] description.
use vstd::prelude::*;
use vstd::slice::slice_to_vec;
use vstd::string::StringSliceAdditionalSpecFns;
use crate::effect::Blend;
use crate::effect::ColorMask;
use crate::effect::CompileError;
use crate::effect::DeclModel;
use crate::effect::DepthMode;
use crate::effect::Effect;
use crate::effect::EffectBuilder;
use crate::effect::EffectDecl;
use crate::effect::EffectModel;
use crate::effect::buffer_decls;
use crate::effect::decls_model;
use crate::effect::lemma_buffer_decls_add;
use crate::effect::lemma_output_decls_add;
use crate::effect::lemma_texture_names_add;
use crate::effect::output_decls;
use crate::effect::spec_build;
use crate::effect::texture_names;

verus! {

/// Packed (std140) byte size of the built-in per-draw vertex argument
/// layout (three column-major 4x4 matrices).
pub const VERTEX_ARGS_STD140_SIZE: usize = 192;

/// Packed (std140) byte size of the built-in per-draw sprite argument
/// layout (texture coordinates and sprite dimensions).
pub const SPRITE_ARGS_STD140_SIZE: usize = 32;

/// Bytes of the built-in vertex program.
pub open spec fn spec_vert_src() -> Seq<u8> {
    "builtin sprite vertex program".spec_bytes()
}

/// Bytes of the built-in fragment program.
pub open spec fn spec_frag_src() -> Seq<u8> {
    "builtin sprite fragment program".spec_bytes()
}

/// The built-in vertex program source.
pub fn vert_src() -> (r: Vec<u8>)
    ensures
        r@ == spec_vert_src(),
{
    slice_to_vec("builtin sprite vertex program".as_bytes())
}

/// The built-in fragment program source.
pub fn frag_src() -> (r: Vec<u8>)
    ensures
        r@ == spec_frag_src(),
{
    slice_to_vec("builtin sprite fragment program".as_bytes())
}

/// The two raw constant buffers the built-in program declares, each with a
/// single-element array.
pub open spec fn builtin_buffer_decls() -> Seq<DeclModel> {
    seq![
        DeclModel::RawConstantBuffer {
            name: "VertexArgs"@,
            size: VERTEX_ARGS_STD140_SIZE as int,
            array_len: 1,
        },
        DeclModel::RawConstantBuffer {
            name: "SpriteArgs"@,
            size: SPRITE_ARGS_STD140_SIZE as int,
            array_len: 1,
        },
    ]
}

/// Specification-level form of a lazy effect description.
#[verifier::ext_equal]
pub struct LazyEffectModel {
    pub vert: Seq<u8>,
    pub frag: Seq<u8>,
    pub setup: Seq<DeclModel>,
}

/// A caller-supplied effect description kept as plain data: raw program
/// bytes plus the binding declarations its setup step makes on the builder.
/// The GPU-side build is deferred until the pass compiles.
pub struct LazyEffectBuilder {
    pub vert: Vec<u8>,
    pub frag: Vec<u8>,
    pub setup: Vec<EffectDecl>,
}

impl View for LazyEffectBuilder {
    type V = LazyEffectModel;

    open spec fn view(&self) -> LazyEffectModel {
        LazyEffectModel { vert: self.vert@, frag: self.frag@, setup: decls_model(self.setup@) }
    }
}

impl LazyEffectBuilder {
    /// Wraps raw program bytes and setup declarations as a lazy description.
    pub fn new(vert: Vec<u8>, frag: Vec<u8>, setup: Vec<EffectDecl>) -> (r: Self)
        ensures
            r@ == (LazyEffectModel { vert: vert@, frag: frag@, setup: decls_model(setup@) }),
    {
        LazyEffectBuilder { vert, frag, setup }
    }
}

impl PartialEq for LazyEffectBuilder {
    /// Two lazy descriptions are equal when their program bytes are equal;
    /// setup declarations are not compared.
    fn eq(&self, other: &Self) -> (r: bool) {
        bytes_eq(&self.vert, &other.vert) && bytes_eq(&self.frag, &other.frag)
    }
}

impl vstd::std_specs::cmp::PartialEqSpecImpl for LazyEffectBuilder {
    open spec fn obeys_eq_spec() -> bool {
        true
    }

    open spec fn eq_spec(&self, other: &Self) -> bool {
        self.vert@ == other.vert@ && self.frag@ == other.frag@
    }
}

/// Element-wise comparison of two byte vectors.
pub fn bytes_eq(a: &Vec<u8>, b: &Vec<u8>) -> (r: bool)
    ensures
        r == (a@ == b@),
{
    if a.len() != b.len() {
        return false;
    }
    let mut i: usize = 0;
    while i < a.len()
        invariant
            i <= a@.len(),
            a@.len() == b@.len(),
            forall|k: int| 0 <= k < i ==> a@[k] == b@[k],
        decreases a@.len() - i,
    {
        if a[i] != b[i] {
            return false;
        }
        i = i + 1;
    }
    proof {
        assert(a@ =~= b@);
    }
    true
}

/// Specification-level form of a shader override.
#[verifier::ext_equal]
pub struct CustomShaderModel {
    pub builder: LazyEffectModel,
    pub handler: u64,
}

/// The shader override: a lazy effect description plus the identifier under
/// which the host registered the caller's draw handler routine.
pub struct CustomShader {
    pub builder: LazyEffectBuilder,
    pub handler: u64,
}

impl View for CustomShader {
    type V = CustomShaderModel;

    open spec fn view(&self) -> CustomShaderModel {
        CustomShaderModel { builder: self.builder@, handler: self.handler }
    }
}

impl PartialEq for CustomShader {
    /// Two overrides are equal when their descriptions are; the handler is
    /// not compared, since handler routines have no useful equality.
    fn eq(&self, other: &Self) -> (r: bool) {
        self.builder.eq(&other.builder)
    }
}

impl vstd::std_specs::cmp::PartialEqSpecImpl for CustomShader {
    open spec fn obeys_eq_spec() -> bool {
        true
    }

    open spec fn eq_spec(&self, other: &Self) -> bool {
        self.builder.vert@ == other.builder.vert@ && self.builder.frag@ == other.builder.frag@
    }
}

/// Which draw handler `apply` submits through: the built-in sprite
/// marshaling, or the caller routine an override named.
#[derive(Clone, Copy, PartialEq, Eq, Debug)]
pub enum DrawHandler {
    BuiltIn,
    Custom(u64),
}

/// Specification-level form of the pass configuration.
#[verifier::ext_equal]
pub struct PassModel {
    pub transparency: Option<(ColorMask, Blend, Option<DepthMode>)>,
    pub custom_shader: Option<CustomShaderModel>,
}

/// Draws sprites on a 2D quad.
///
/// Configured by at most one `with_transparency` and one
/// `with_custom_shader` call, then compiled exactly once by the host; the
/// host caches the built effect for the pass's lifetime.
pub struct DrawSprite {
    pub transparency: Option<(ColorMask, Blend, Option<DepthMode>)>,
    pub custom_shader: Option<CustomShader>,
}

impl View for DrawSprite {
    type V = PassModel;

    open spec fn view(&self) -> PassModel {
        PassModel {
            transparency: self.transparency,
            custom_shader: match self.custom_shader {
                Some(cs) => Some(cs@),
                None => None,
            },
        }
    }
}

impl DrawSprite {
    /// Creates an instance of the pass: opaque output, built-in shader.
    pub fn new() -> (r: Self)
        ensures
            r@ == (PassModel { transparency: None, custom_shader: None }),
    {
        DrawSprite { transparency: None, custom_shader: None }
    }

    /// Enables transparency: the compiled effect's color output blends with
    /// the given mask, blend function and depth policy.
    pub fn with_transparency(
        self,
        mask: ColorMask,
        blend: Blend,
        depth: Option<DepthMode>,
    ) -> (r: Self)
        ensures
            r@ == (PassModel {
                transparency: Some((mask, blend, depth)),
                custom_shader: self@.custom_shader,
            }),
    {
        DrawSprite { transparency: Some((mask, blend, depth)), custom_shader: self.custom_shader }
    }

    /// Installs a shader override: the compiled effect starts from the
    /// override's program bytes and setup declarations, and `apply` submits
    /// draws through the handler routine named by `handler`.
    pub fn with_custom_shader(self, builder: LazyEffectBuilder, handler: u64) -> (r: Self)
        ensures
            r@ == (PassModel {
                transparency: self@.transparency,
                custom_shader: Some(CustomShaderModel { builder: builder@, handler }),
            }),
    {
        DrawSprite {
            transparency: self.transparency,
            custom_shader: Some(CustomShader { builder, handler }),
        }
    }

    /// The draw handler `apply` submits through: the override's routine when
    /// one is configured, the built-in marshaling otherwise.
    pub fn draw_handler(&self) -> (r: DrawHandler)
        ensures
            r == spec_draw_handler(self@),
    {
        match &self.custom_shader {
            Some(shader) => DrawHandler::Custom(shader.handler),
            None => DrawHandler::BuiltIn,
        }
    }
}

impl Default for DrawSprite {
    /// Same as `new`: opaque output, built-in shader.
    fn default() -> (r: Self)
        ensures
            r@ == (PassModel { transparency: None, custom_shader: None }),
    {
        DrawSprite::new()
    }
}

/// The handler a configuration submits draws through.
pub open spec fn spec_draw_handler(pass: PassModel) -> DrawHandler {
    match pass.custom_shader {
        Some(cs) => DrawHandler::Custom(cs.handler),
        None => DrawHandler::BuiltIn,
    }
}

/// One texture binding per name, in order.
pub open spec fn texture_decls(names: Seq<Seq<char>>) -> Seq<DeclModel>
    decreases names.len(),
{
    if names.len() == 0 {
        Seq::empty()
    } else {
        texture_decls(names.drop_last()).push(DeclModel::TextureBinding { name: names.last() })
    }
}

/// The output declaration the transparency setting selects: blended with
/// the caller's exact triple, or opaque with the default depth policy.
pub open spec fn output_decl(transparency: Option<(ColorMask, Blend, Option<DepthMode>)>) -> DeclModel {
    match transparency {
        Some((mask, blend, depth)) => DeclModel::OutputBlended { name: "color"@, mask, blend, depth },
        None => DeclModel::OutputOpaque { name: "color"@, depth: Some(DepthMode::LessEqualWrite) },
    }
}

/// The effect description `compile` submits for building: the override's
/// program and setup declarations when one is configured, the built-in
/// program and buffers otherwise; then the shared texture bindings and the
/// output declaration.
pub open spec fn compile_input(pass: PassModel, textures: Seq<Seq<char>>) -> EffectModel {
    let base = match pass.custom_shader {
        Some(cs) => EffectModel { vert: cs.builder.vert, frag: cs.builder.frag, decls: cs.builder.setup },
        None => EffectModel {
            vert: spec_vert_src(),
            frag: spec_frag_src(),
            decls: builtin_buffer_decls(),
        },
    };
    EffectModel {
        vert: base.vert,
        frag: base.frag,
        decls: base.decls + texture_decls(textures) + seq![output_decl(pass.transparency)],
    }
}

/// What `compile` yields for a configuration and shared texture list.
pub open spec fn spec_compile(pass: PassModel, textures: Seq<Seq<char>>) -> Result<
    EffectModel,
    CompileError,
> {
    spec_build(compile_input(pass, textures))
}

/// Appends one texture binding per name in `textures`: the shared
/// texture-setup step that both compile paths run.
pub fn setup_textures(builder: &mut EffectBuilder, textures: &Vec<String>)
    ensures
        final(builder)@ == (EffectModel {
            vert: old(builder)@.vert,
            frag: old(builder)@.frag,
            decls: old(builder)@.decls + texture_decls(textures.deep_view()),
        }),
{
    let ghost base = builder@;
    let mut i: usize = 0;
    while i < textures.len()
        invariant
            i <= textures@.len(),
            builder@.vert == base.vert,
            builder@.frag == base.frag,
            builder@.decls == base.decls + texture_decls(textures.deep_view().take(i as int)),
        decreases textures@.len() - i,
    {
        builder.with_texture(textures[i].clone());
        proof {
            let names = textures.deep_view();
            assert(names[i as int] == textures@[i as int]@);
            assert(names.take(i + 1 as int).drop_last() =~= names.take(i as int));
            assert(names.take(i + 1 as int).last() == names[i as int]);
            assert(builder@.decls =~= base.decls + texture_decls(names.take(i + 1 as int)));
        }
        i = i + 1;
    }
    proof {
        assert(textures.deep_view().take(textures@.len() as int) =~= textures.deep_view());
        assert(builder@ =~= (EffectModel {
            vert: base.vert,
            frag: base.frag,
            decls: base.decls + texture_decls(textures.deep_view()),
        }));
    }
}

/// A copy of a byte vector.
pub fn copy_bytes(v: &Vec<u8>) -> (r: Vec<u8>)
    ensures
        r@ == v@,
{
    slice_to_vec(v.as_slice())
}

/// A copy of a declaration vector standing for the same declarations.
pub fn clone_decls(v: &Vec<EffectDecl>) -> (r: Vec<EffectDecl>)
    ensures
        decls_model(r@) == decls_model(v@),
{
    let mut out: Vec<EffectDecl> = Vec::new();
    let mut i: usize = 0;
    while i < v.len()
        invariant
            i <= v@.len(),
            out@.len() == i,
            forall|k: int| 0 <= k < i ==> out@[k]@ == v@[k]@,
        decreases v@.len() - i,
    {
        out.push(v[i].clone());
        i = i + 1;
    }
    proof {
        assert(decls_model(out@) =~= decls_model(v@));
    }
    out
}

impl DrawSprite {
    /// Compiles the configuration into an effect description.
    ///
    /// With an override, the build starts from the override's program bytes
    /// and replays its setup declarations; otherwise it starts from the
    /// built-in program and declares the two built-in constant buffers.
    /// Both paths then declare the shared `textures` bindings and the output
    /// selected by the transparency setting, and finalize.  Failure of the
    /// finalize step is returned and aborts pass setup.
    pub fn compile(&self, textures: &Vec<String>) -> (r: Result<Effect, CompileError>)
        ensures
            match r {
                Result::Ok(e) => spec_compile(self@, textures.deep_view()) == Result::<
                    EffectModel,
                    CompileError,
                >::Ok(e@),
                Result::Err(err) => spec_compile(self@, textures.deep_view()) == Result::<
                    EffectModel,
                    CompileError,
                >::Err(err),
            },
            // an override's program bytes appear verbatim in the effect
            (match (r, &self.custom_shader) {
                (Result::Ok(e), Some(shader)) => e@.vert == shader@.builder.vert && e@.frag
                    == shader@.builder.frag,
                _ => true,
            }),
    {
        let mut builder = match &self.custom_shader {
            Some(shader) => {
                let vert = copy_bytes(&shader.builder.vert);
                let frag = copy_bytes(&shader.builder.frag);
                let mut b = EffectBuilder::simple(vert, frag);
                let mut setup = clone_decls(&shader.builder.setup);
                b.decls.append(&mut setup);
                proof {
                    assert(decls_model(b.decls@) =~= Seq::<DeclModel>::empty()
                        + decls_model(shader.builder.setup@));
                    assert(decls_model(b.decls@) =~= shader@.builder.setup);
                }
                b
            },
            None => {
                let mut b = EffectBuilder::simple(vert_src(), frag_src());
                b.with_raw_constant_buffer("VertexArgs".to_owned(), VERTEX_ARGS_STD140_SIZE, 1);
                b.with_raw_constant_buffer("SpriteArgs".to_owned(), SPRITE_ARGS_STD140_SIZE, 1);
                proof {
                    assert(b@.decls =~= builtin_buffer_decls());
                }
                b
            },
        };
        setup_textures(&mut builder, textures);
        match self.transparency {
            Some((mask, blend, depth)) => builder.with_blended_output(
                "color".to_owned(),
                mask,
                blend,
                depth,
            ),
            None => builder.with_output("color".to_owned(), Some(DepthMode::LessEqualWrite)),
        }
        proof {
            assert(builder@ =~= compile_input(self@, textures.deep_view()));
        }
        builder.build()
    }
}

/// Law: compiling without a shader override yields an effect whose raw
/// constant buffers are exactly the two built-in ones (sized to the packed
/// vertex and sprite argument layouts), whose texture bindings are exactly
/// the shared texture list, in order, and whose single output is the one
/// the transparency setting selects.
pub proof fn lemma_compile_default_bindings(
    pass: PassModel,
    textures: Seq<Seq<char>>,
    e: EffectModel,
)
    requires
        pass.custom_shader is None,
        spec_compile(pass, textures) == Result::<EffectModel, CompileError>::Ok(e),
    ensures
        buffer_decls(e.decls) == builtin_buffer_decls(),
        texture_names(e.decls) == textures,
        output_decls(e.decls) == seq![output_decl(pass.transparency)],
        e.vert == spec_vert_src(),
        e.frag == spec_frag_src(),
{
    assert(e == compile_input(pass, textures));
    lemma_texture_filters(textures);
    lemma_builtin_buffer_filters();
    let bufs = builtin_buffer_decls();
    let texs = texture_decls(textures);
    let out = seq![output_decl(pass.transparency)];
    lemma_buffer_decls_add(bufs + texs, out);
    lemma_buffer_decls_add(bufs, texs);
    lemma_texture_names_add(bufs + texs, out);
    lemma_texture_names_add(bufs, texs);
    lemma_output_decls_add(bufs + texs, out);
    lemma_output_decls_add(bufs, texs);
    lemma_singleton_filters(output_decl(pass.transparency));
    assert(buffer_decls(e.decls) =~= builtin_buffer_decls());
    assert(texture_names(e.decls) =~= textures);
    assert(output_decls(e.decls) =~= out);
}

/// Law: the output declaration of any compiled effect is the last
/// declaration made, and is blended with the caller's exact mask, blend and
/// depth triple when transparency is configured, opaque with the default
/// depth policy otherwise.
pub proof fn lemma_compile_output(pass: PassModel, textures: Seq<Seq<char>>, e: EffectModel)
    requires
        spec_compile(pass, textures) == Result::<EffectModel, CompileError>::Ok(e),
    ensures
        e.decls.len() > 0,
        e.decls.last() == output_decl(pass.transparency),
        pass.transparency matches Some((mask, blend, depth)) ==> e.decls.last()
            == (DeclModel::OutputBlended { name: "color"@, mask, blend, depth }),
        pass.transparency is None ==> e.decls.last() == (DeclModel::OutputOpaque {
            name: "color"@,
            depth: Some(DepthMode::LessEqualWrite),
        }),
{
    assert(e == compile_input(pass, textures));
}

/// Law: an override's program bytes pass through compilation verbatim, and
/// its setup declarations open the effect's declaration list.
pub proof fn lemma_compile_override_round_trip(
    pass: PassModel,
    textures: Seq<Seq<char>>,
    e: EffectModel,
    cs: CustomShaderModel,
)
    requires
        pass.custom_shader == Some(cs),
        spec_compile(pass, textures) == Result::<EffectModel, CompileError>::Ok(e),
    ensures
        e.vert == cs.builder.vert,
        e.frag == cs.builder.frag,
        e.decls.take(cs.builder.setup.len() as int) == cs.builder.setup,
{
    assert(e == compile_input(pass, textures));
    assert(e.decls.take(cs.builder.setup.len() as int) =~= cs.builder.setup);
}

/// A texture-binding list holds no buffers or outputs, and its names are
/// the given ones.
proof fn lemma_texture_filters(names: Seq<Seq<char>>)
    ensures
        buffer_decls(texture_decls(names)) == Seq::<DeclModel>::empty(),
        texture_names(texture_decls(names)) == names,
        output_decls(texture_decls(names)) == Seq::<DeclModel>::empty(),
    decreases names.len(),
{
    if names.len() == 0 {
    } else {
        lemma_texture_filters(names.drop_last());
        let t = texture_decls(names);
        assert(t.drop_last() == texture_decls(names.drop_last()));
        assert(t.last() == (DeclModel::TextureBinding { name: names.last() }));
        assert(texture_names(t) =~= names);
        assert(buffer_decls(t) =~= Seq::<DeclModel>::empty());
        assert(output_decls(t) =~= Seq::<DeclModel>::empty());
    }
}

/// The two built-in buffers are all buffers, no textures, no outputs.
proof fn lemma_builtin_buffer_filters()
    ensures
        buffer_decls(builtin_buffer_decls()) == builtin_buffer_decls(),
        texture_names(builtin_buffer_decls()) == Seq::<Seq<char>>::empty(),
        output_decls(builtin_buffer_decls()) == Seq::<DeclModel>::empty(),
{
    reveal_with_fuel(buffer_decls, 3);
    reveal_with_fuel(texture_names, 3);
    reveal_with_fuel(output_decls, 3);
    let b = builtin_buffer_decls();
    assert(b.drop_last() =~= seq![b[0]]);
    assert(seq![b[0]].drop_last() =~= Seq::<DeclModel>::empty());
    assert(buffer_decls(b) =~= b);
    assert(texture_names(b) =~= Seq::<Seq<char>>::empty());
    assert(output_decls(b) =~= Seq::<DeclModel>::empty());
}

/// Filters of a single output declaration.
proof fn lemma_singleton_filters(d: DeclModel)
    requires
        d is OutputOpaque || d is OutputBlended,
    ensures
        buffer_decls(seq![d]) == Seq::<DeclModel>::empty(),
        texture_names(seq![d]) == Seq::<Seq<char>>::empty(),
        output_decls(seq![d]) == seq![d],
{
    reveal_with_fuel(buffer_decls, 2);
    reveal_with_fuel(texture_names, 2);
    reveal_with_fuel(output_decls, 2);
    let s = seq![d];
    assert(s.drop_last() =~= Seq::<DeclModel>::empty());
    assert(buffer_decls(s) =~= Seq::<DeclModel>::empty());
    assert(texture_names(s) =~= Seq::<Seq<char>>::empty());
    assert(output_decls(s) =~= s);
}

} // verus!
