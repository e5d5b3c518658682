//! Effect descriptions: pure data standing for a shader program plus its
//! declared buffer, texture and output bindings.
//!
//! An [`EffectBuilder`] collects binding declarations for a program; its
//! [`EffectBuilder::build`] step checks the description and yields an
//! immutable [`Effect`].  Nothing here touches a device: the host turns a
//! built [`Effect`] into its GPU-bound counterpart.
use vstd::prelude::*;

verus! {

/// Which color channels a draw is allowed to write.
#[derive(Clone, Copy, PartialEq, Eq, Debug)]
pub struct ColorMask {
    pub red: bool,
    pub green: bool,
    pub blue: bool,
    pub alpha: bool,
}

/// How a blended output combines a new fragment with the existing contents.
#[derive(Clone, Copy, PartialEq, Eq, Debug)]
pub enum Blend {
    Alpha,
    Add,
    Multiply,
    Invert,
}

/// Depth test and write policy of a color output.
#[derive(Clone, Copy, PartialEq, Eq, Debug)]
pub enum DepthMode {
    LessEqualTest,
    LessEqualWrite,
}

/// Why finalizing an effect description failed.  Fatal to pass setup.
#[derive(Clone, Copy, PartialEq, Eq, Debug)]
pub enum CompileError {
    /// A vertex or fragment program with no bytes.
    EmptyProgram,
    /// Two declarations share a binding name.
    BindingConflict,
}

/// Specification-level form of one binding declaration.
#[verifier::ext_equal]
pub enum DeclModel {
    RawConstantBuffer { name: Seq<char>, size: int, array_len: int },
    TextureBinding { name: Seq<char> },
    OutputOpaque { name: Seq<char>, depth: Option<DepthMode> },
    OutputBlended { name: Seq<char>, mask: ColorMask, blend: Blend, depth: Option<DepthMode> },
}

/// One binding declaration of an effect: a raw constant buffer, a texture
/// slot, or a color output (opaque or blended).
#[derive(Debug, PartialEq, Eq)]
pub enum EffectDecl {
    RawConstantBuffer { name: String, size: usize, array_len: usize },
    TextureBinding { name: String },
    OutputOpaque { name: String, depth: Option<DepthMode> },
    OutputBlended { name: String, mask: ColorMask, blend: Blend, depth: Option<DepthMode> },
}

impl View for EffectDecl {
    type V = DeclModel;

    open spec fn view(&self) -> DeclModel {
        match self {
            EffectDecl::RawConstantBuffer { name, size, array_len } => DeclModel::RawConstantBuffer {
                name: name@,
                size: *size as int,
                array_len: *array_len as int,
            },
            EffectDecl::TextureBinding { name } => DeclModel::TextureBinding { name: name@ },
            EffectDecl::OutputOpaque { name, depth } => DeclModel::OutputOpaque {
                name: name@,
                depth: *depth,
            },
            EffectDecl::OutputBlended { name, mask, blend, depth } => DeclModel::OutputBlended {
                name: name@,
                mask: *mask,
                blend: *blend,
                depth: *depth,
            },
        }
    }
}

/// The binding name a declaration occupies.
pub open spec fn decl_name(d: DeclModel) -> Seq<char> {
    match d {
        DeclModel::RawConstantBuffer { name, .. } => name,
        DeclModel::TextureBinding { name } => name,
        DeclModel::OutputOpaque { name, .. } => name,
        DeclModel::OutputBlended { name, .. } => name,
    }
}

/// No two declarations occupy the same binding name.
pub open spec fn names_distinct(decls: Seq<DeclModel>) -> bool {
    forall|i: int, j: int|
        0 <= i < j < decls.len() ==> decl_name(decls[i]) != decl_name(decls[j])
}

/// The declaration sequence an exec declaration vector stands for.
pub open spec fn decls_model(decls: Seq<EffectDecl>) -> Seq<DeclModel> {
    decls.map(|i: int, d: EffectDecl| d@)
}

/// Specification-level form of a builder or of a built effect: program
/// bytes plus the declarations in the order they were made.
#[verifier::ext_equal]
pub struct EffectModel {
    pub vert: Seq<u8>,
    pub frag: Seq<u8>,
    pub decls: Seq<DeclModel>,
}

/// A finished effect description: program bytes plus checked bindings.
#[derive(Debug, PartialEq, Eq)]
pub struct Effect {
    pub vert: Vec<u8>,
    pub frag: Vec<u8>,
    pub decls: Vec<EffectDecl>,
}

impl View for Effect {
    type V = EffectModel;

    open spec fn view(&self) -> EffectModel {
        EffectModel { vert: self.vert@, frag: self.frag@, decls: decls_model(self.decls@) }
    }
}

/// An effect description under construction.
pub struct EffectBuilder {
    pub vert: Vec<u8>,
    pub frag: Vec<u8>,
    pub decls: Vec<EffectDecl>,
}

impl View for EffectBuilder {
    type V = EffectModel;

    open spec fn view(&self) -> EffectModel {
        EffectModel { vert: self.vert@, frag: self.frag@, decls: decls_model(self.decls@) }
    }
}

/// What `build` yields: the description unchanged when both programs hold
/// bytes and no two declarations share a name, otherwise the first error.
pub open spec fn spec_build(b: EffectModel) -> Result<EffectModel, CompileError> {
    if b.vert.len() == 0 || b.frag.len() == 0 {
        Result::Err(CompileError::EmptyProgram)
    } else if !names_distinct(b.decls) {
        Result::Err(CompileError::BindingConflict)
    } else {
        Result::Ok(b)
    }
}

impl EffectBuilder {
    /// Starts a description from raw vertex and fragment program bytes.
    pub fn simple(vert: Vec<u8>, frag: Vec<u8>) -> (r: Self)
        ensures
            r@ == (EffectModel { vert: vert@, frag: frag@, decls: Seq::<DeclModel>::empty() }),
    {
        let r = EffectBuilder { vert, frag, decls: Vec::new() };
        proof {
            assert(r@.decls =~= Seq::<DeclModel>::empty());
        }
        r
    }

    /// Declares a raw constant buffer of `size` bytes, `array_len` elements.
    pub fn with_raw_constant_buffer(&mut self, name: String, size: usize, array_len: usize)
        ensures
            final(self)@ == (EffectModel {
                vert: old(self)@.vert,
                frag: old(self)@.frag,
                decls: old(self)@.decls.push(DeclModel::RawConstantBuffer {
                    name: name@,
                    size: size as int,
                    array_len: array_len as int,
                }),
            }),
    {
        let ghost before = self@.decls;
        self.decls.push(EffectDecl::RawConstantBuffer { name, size, array_len });
        proof {
            assert(self@.decls =~= before.push(self.decls@.last()@));
        }
    }

    /// Declares one texture binding under `name`.
    pub fn with_texture(&mut self, name: String)
        ensures
            final(self)@ == (EffectModel {
                vert: old(self)@.vert,
                frag: old(self)@.frag,
                decls: old(self)@.decls.push(DeclModel::TextureBinding { name: name@ }),
            }),
    {
        let ghost before = self@.decls;
        self.decls.push(EffectDecl::TextureBinding { name });
        proof {
            assert(self@.decls =~= before.push(self.decls@.last()@));
        }
    }

    /// Declares an opaque color output under `name` with the given depth
    /// policy.
    pub fn with_output(&mut self, name: String, depth: Option<DepthMode>)
        ensures
            final(self)@ == (EffectModel {
                vert: old(self)@.vert,
                frag: old(self)@.frag,
                decls: old(self)@.decls.push(DeclModel::OutputOpaque { name: name@, depth }),
            }),
    {
        let ghost before = self@.decls;
        self.decls.push(EffectDecl::OutputOpaque { name, depth });
        proof {
            assert(self@.decls =~= before.push(self.decls@.last()@));
        }
    }

    /// Declares a blended color output under `name` with the given mask,
    /// blend function and depth policy.
    pub fn with_blended_output(
        &mut self,
        name: String,
        mask: ColorMask,
        blend: Blend,
        depth: Option<DepthMode>,
    )
        ensures
            final(self)@ == (EffectModel {
                vert: old(self)@.vert,
                frag: old(self)@.frag,
                decls: old(self)@.decls.push(DeclModel::OutputBlended {
                    name: name@,
                    mask,
                    blend,
                    depth,
                }),
            }),
    {
        let ghost before = self@.decls;
        self.decls.push(EffectDecl::OutputBlended { name, mask, blend, depth });
        proof {
            assert(self@.decls =~= before.push(self.decls@.last()@));
        }
    }

    /// Finalizes the description.  Fails when a program holds no bytes or
    /// when two declarations share a binding name; succeeds otherwise.
    pub fn build(self) -> (r: Result<Effect, CompileError>)
        ensures
            match r {
                Result::Ok(e) => spec_build(self@) == Result::<EffectModel, CompileError>::Ok(e@),
                Result::Err(err) => spec_build(self@) == Result::<EffectModel, CompileError>::Err(
                    err,
                ),
            },
    {
        if self.vert.len() == 0 || self.frag.len() == 0 {
            return Result::Err(CompileError::EmptyProgram);
        }
        let ghost dm = decls_model(self.decls@);
        let n = self.decls.len();
        let mut i: usize = 0;
        while i < n
            invariant
                n == self.decls@.len(),
                dm == decls_model(self.decls@),
                self.vert@.len() > 0,
                self.frag@.len() > 0,
                forall|p: int, q: int|
                    0 <= p < q < n && p < i ==> decl_name(dm[p]) != decl_name(dm[q]),
            decreases n - i,
        {
            let mut j: usize = i + 1;
            while j < n
                invariant
                    i < j,
                    i < n,
                    n == self.decls@.len(),
                    dm == decls_model(self.decls@),
                    self.vert@.len() > 0,
                    self.frag@.len() > 0,
                    forall|q: int| i < q < j ==> decl_name(dm[i as int]) != decl_name(dm[q]),
                decreases n - j,
            {
                if decl_name_of(&self.decls[i]).eq(decl_name_of(&self.decls[j])) {
                    proof {
                        assert(dm[i as int] == self.decls@[i as int]@);
                        assert(dm[j as int] == self.decls@[j as int]@);
                        assert(decl_name(dm[i as int]) == decl_name(dm[j as int]));
                        assert((i as int) < (j as int) && (j as int) < dm.len());
                        assert(!names_distinct(dm));
                    }
                    return Result::Err(CompileError::BindingConflict);
                }
                j = j + 1;
            }
            i = i + 1;
        }
        proof {
            assert(names_distinct(dm));
        }
        Result::Ok(Effect { vert: self.vert, frag: self.frag, decls: self.decls })
    }
}

/// The raw constant buffers among `decls`, in declaration order.
pub open spec fn buffer_decls(decls: Seq<DeclModel>) -> Seq<DeclModel>
    decreases decls.len(),
{
    if decls.len() == 0 {
        Seq::empty()
    } else {
        buffer_decls(decls.drop_last()) + (if decls.last() is RawConstantBuffer {
            seq![decls.last()]
        } else {
            Seq::empty()
        })
    }
}

/// The names of the texture bindings among `decls`, in declaration order.
pub open spec fn texture_names(decls: Seq<DeclModel>) -> Seq<Seq<char>>
    decreases decls.len(),
{
    if decls.len() == 0 {
        Seq::empty()
    } else {
        texture_names(decls.drop_last()) + (match decls.last() {
            DeclModel::TextureBinding { name } => seq![name],
            _ => Seq::empty(),
        })
    }
}

/// The color output declarations among `decls`, in declaration order.
pub open spec fn output_decls(decls: Seq<DeclModel>) -> Seq<DeclModel>
    decreases decls.len(),
{
    if decls.len() == 0 {
        Seq::empty()
    } else {
        output_decls(decls.drop_last()) + (if decls.last() is OutputOpaque || decls.last()
            is OutputBlended {
            seq![decls.last()]
        } else {
            Seq::empty()
        })
    }
}

/// Selecting the raw constant buffers distributes over concatenation.
pub proof fn lemma_buffer_decls_add(a: Seq<DeclModel>, b: Seq<DeclModel>)
    ensures
        buffer_decls(a + b) == buffer_decls(a) + buffer_decls(b),
    decreases b.len(),
{
    if b.len() == 0 {
        assert(a + b =~= a);
        assert(buffer_decls(a) + buffer_decls(b) =~= buffer_decls(a));
    } else {
        lemma_buffer_decls_add(a, b.drop_last());
        assert((a + b).drop_last() =~= a + b.drop_last());
        assert((a + b).last() == b.last());
        assert(buffer_decls(a) + buffer_decls(b.drop_last()) + (if b.last()
            is RawConstantBuffer {
            seq![b.last()]
        } else {
            Seq::empty()
        }) =~= buffer_decls(a) + buffer_decls(b));
    }
}

/// Selecting the texture binding names distributes over concatenation.
pub proof fn lemma_texture_names_add(a: Seq<DeclModel>, b: Seq<DeclModel>)
    ensures
        texture_names(a + b) == texture_names(a) + texture_names(b),
    decreases b.len(),
{
    if b.len() == 0 {
        assert(a + b =~= a);
        assert(texture_names(a) + texture_names(b) =~= texture_names(a));
    } else {
        lemma_texture_names_add(a, b.drop_last());
        assert((a + b).drop_last() =~= a + b.drop_last());
        assert((a + b).last() == b.last());
        assert(texture_names(a) + texture_names(b.drop_last()) + (match b.last() {
            DeclModel::TextureBinding { name } => seq![name],
            _ => Seq::empty(),
        }) =~= texture_names(a) + texture_names(b));
    }
}

/// Selecting the output declarations distributes over concatenation.
pub proof fn lemma_output_decls_add(a: Seq<DeclModel>, b: Seq<DeclModel>)
    ensures
        output_decls(a + b) == output_decls(a) + output_decls(b),
    decreases b.len(),
{
    if b.len() == 0 {
        assert(a + b =~= a);
        assert(output_decls(a) + output_decls(b) =~= output_decls(a));
    } else {
        lemma_output_decls_add(a, b.drop_last());
        assert((a + b).drop_last() =~= a + b.drop_last());
        assert((a + b).last() == b.last());
        assert(output_decls(a) + output_decls(b.drop_last()) + (if b.last() is OutputOpaque
            || b.last() is OutputBlended {
            seq![b.last()]
        } else {
            Seq::empty()
        }) =~= output_decls(a) + output_decls(b));
    }
}

impl Clone for EffectDecl {
    /// A copy that stands for the same declaration.
    fn clone(&self) -> (r: Self)
        ensures
            r@ == self@,
    {
        match self {
            EffectDecl::RawConstantBuffer { name, size, array_len } => EffectDecl::RawConstantBuffer {
                name: name.clone(),
                size: *size,
                array_len: *array_len,
            },
            EffectDecl::TextureBinding { name } => EffectDecl::TextureBinding { name: name.clone() },
            EffectDecl::OutputOpaque { name, depth } => EffectDecl::OutputOpaque {
                name: name.clone(),
                depth: *depth,
            },
            EffectDecl::OutputBlended { name, mask, blend, depth } => EffectDecl::OutputBlended {
                name: name.clone(),
                mask: *mask,
                blend: *blend,
                depth: *depth,
            },
        }
    }
}

/// The binding name of an exec declaration.
pub fn decl_name_of(d: &EffectDecl) -> (r: &String)
    ensures
        r@ == decl_name(d@),
{
    match d {
        EffectDecl::RawConstantBuffer { name, .. } => name,
        EffectDecl::TextureBinding { name } => name,
        EffectDecl::OutputOpaque { name, .. } => name,
        EffectDecl::OutputBlended { name, .. } => name,
    }
}

} // verus!
