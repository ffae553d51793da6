//! The slots that a draw call reads, the errors of linking, and the two
//! contracts that every binder meets.

use vstd::prelude::*;
use crate::program::{Name, Names, ProgramHandle, ProgramInfo};
use crate::value::{RawBufferHandle, TextureParam, UniformValue};

verus! {

/// A borrowed mutable storage for shader parameter values.
pub struct ParamValues<'a> {
    /// uniform values to be provided
    pub uniforms: &'a mut [Option<UniformValue>],
    /// uniform buffers to be provided
    pub blocks: &'a mut [Option<RawBufferHandle>],
    /// textures to be provided
    pub textures: &'a mut [Option<TextureParam>],
}

/// The contents of the three slot sequences at one moment.
pub struct Slots {
    /// The uniform slots.
    pub uniforms: Seq<Option<UniformValue>>,
    /// The block slots.
    pub blocks: Seq<Option<RawBufferHandle>>,
    /// The texture slots.
    pub textures: Seq<Option<TextureParam>>,
}

impl Slots {
    /// All three sequences are empty.
    pub open spec fn is_empty(self) -> bool {
        &&& self.uniforms.len() == 0
        &&& self.blocks.len() == 0
        &&& self.textures.len() == 0
    }
}

impl<'a> View for ParamValues<'a> {
    type V = Slots;

    open spec fn view(&self) -> Slots {
        Slots { uniforms: self.uniforms@, blocks: self.blocks@, textures: self.textures@ }
    }
}

/// An error type on either the parameter storage or the program side
#[derive(PartialEq, Debug)]
pub enum ParameterError {
    /// Internal error
    ErrorInternal,
    /// Error with the named uniform
    ErrorUniform(String),
    /// Error with the named uniform block
    ErrorBlock(String),
    /// Error with the named texture.
    ErrorTexture(String),
}

/// What a `ParameterError` says: the kind of variable and its name.
pub enum Fault {
    /// Not attributable to a variable.
    Internal,
    /// The named uniform has no source.
    Uniform(Name),
    /// The named uniform block has no source.
    Block(Name),
    /// The named texture has no source.
    Texture(Name),
}

impl View for ParameterError {
    type V = Fault;

    open spec fn view(&self) -> Fault {
        match self {
            ParameterError::ErrorInternal => Fault::Internal,
            ParameterError::ErrorUniform(name) => Fault::Uniform(name@),
            ParameterError::ErrorBlock(name) => Fault::Block(name@),
            ParameterError::ErrorTexture(name) => Fault::Texture(name@),
        }
    }
}

impl Clone for ParameterError {
    fn clone(&self) -> (copy: Self)
        ensures
            copy@ == self@,
    {
        match self {
            ParameterError::ErrorInternal => ParameterError::ErrorInternal,
            ParameterError::ErrorUniform(name) => ParameterError::ErrorUniform(name.clone()),
            ParameterError::ErrorBlock(name) => ParameterError::ErrorBlock(name.clone()),
            ParameterError::ErrorTexture(name) => ParameterError::ErrorTexture(name.clone()),
        }
    }
}

/// Encloses a shader program handle with its parameter
///
/// An implementation says what it does through the three specification
/// functions; one that does not state them leaves them unspecified.
pub trait Program {
    /// The handle of the enclosed program.
    open spec fn handle(&self) -> ProgramHandle {
        arbitrary()
    }

    /// Whether `fill_params` may be called on these slots.
    open spec fn accepts(&self, slots: Slots) -> bool {
        arbitrary()
    }

    /// The slots after a fill that started from `slots`.
    open spec fn fills(&self, slots: Slots) -> Slots {
        arbitrary()
    }

    /// Get the contained program handle
    fn get_handle(&self) -> (handle: &ProgramHandle)
        ensures
            *handle == self.handle(),
    ;

    /// Get all the contained parameter values
    fn fill_params(&self, params: ParamValues<'_>)
        requires
            self.accepts(params@),
        ensures
            (Slots {
                uniforms: final(params.uniforms)@,
                blocks: final(params.blocks)@,
                textures: final(params.textures)@,
            }) == self.fills(params@),
    ;
}

/// Abstracts the shader parameter structure: a source of values that can be
/// linked to a program once and then read on every draw.
///
/// `L` is the link: what is kept of the validation, so that a fill needs no
/// name. An implementation says what it does through the four specification
/// functions; one that does not state them leaves them unspecified.
pub trait ShaderParam<L>: Sized {
    /// The error of linking a source of this shape to a program with these
    /// variables; `None` where linking succeeds. It depends on the shape and
    /// the variables alone, so the same variable is reported every time.
    open spec fn link_fault(hint: Option<Self>, variables: Names) -> Option<Fault> {
        arbitrary()
    }

    /// Whether `link` is the link of a source of this shape to a program with
    /// these variables.
    open spec fn linked(link: &L, hint: Option<Self>, variables: Names) -> bool {
        arbitrary()
    }

    /// Whether `fill_params` may be called with this link on these slots.
    open spec fn accepts(&self, link: &L, slots: Slots) -> bool {
        arbitrary()
    }

    /// The slots after a fill through `link` that started from `slots`.
    open spec fn fills(&self, link: &L, slots: Slots) -> Slots {
        arbitrary()
    }

    /// Creates a new link. `hint` is a prototype of the source: a type whose
    /// parameters are fixed by the type itself ignores it, and `None` will do.
    /// Either the whole link is made or an error names a variable of the
    /// program that the source cannot supply.
    fn create_link(hint: Option<Self>, info: &ProgramInfo) -> (result: Result<L, ParameterError>)
        ensures
            match result {
                Ok(link) => Self::link_fault(hint, info@) is None && Self::linked(&link, hint, info@),
                Err(error) => Self::link_fault(hint, info@) == Some(error@),
            },
    ;

    /// Get all the contained parameter values, using a given link.
    fn fill_params(&self, link: &L, params: ParamValues<'_>)
        requires
            self.accepts(link, params@),
        ensures
            (Slots {
                uniforms: final(params.uniforms)@,
                blocks: final(params.blocks)@,
                textures: final(params.textures)@,
            }) == self.fills(link, params@),
    ;
}

/// The error of linking a source without parameters: the first variable of
/// the program, uniforms before blocks before textures.
pub open spec fn first_variable(variables: Names) -> Option<Fault> {
    if variables.uniforms.len() > 0 {
        Some(Fault::Uniform(variables.uniforms[0]))
    } else if variables.blocks.len() > 0 {
        Some(Fault::Block(variables.blocks[0]))
    } else if variables.textures.len() > 0 {
        Some(Fault::Texture(variables.textures[0]))
    } else {
        None
    }
}

/// The source without parameters: it links to the programs that declare no
/// variable, and fills nothing.
impl ShaderParam<()> for () {
    open spec fn link_fault(hint: Option<Self>, variables: Names) -> Option<Fault> {
        first_variable(variables)
    }

    open spec fn linked(link: &(), hint: Option<Self>, variables: Names) -> bool {
        variables.is_empty()
    }

    open spec fn accepts(&self, link: &(), slots: Slots) -> bool {
        true
    }

    open spec fn fills(&self, link: &(), slots: Slots) -> Slots {
        slots
    }

    fn create_link(hint: Option<()>, info: &ProgramInfo) -> (result: Result<(), ParameterError>) {
        match info.uniforms.as_slice().first() {
            Some(u) => return Err(ParameterError::ErrorUniform(u.name.clone())),
            None => (),
        }
        match info.blocks.as_slice().first() {
            Some(b) => return Err(ParameterError::ErrorBlock(b.name.clone())),
            None => (),
        }
        match info.textures.as_slice().first() {
            Some(t) => return Err(ParameterError::ErrorTexture(t.name.clone())),
            None => (),
        }
        Ok(())
    }

    fn fill_params(&self, link: &(), params: ParamValues<'_>) {
    }
}

} // verus!

