//! What is known of a compiled program: the variables that it declares, and
//! the handle that carries them.

use vstd::prelude::*;

verus! {

/// The name of a variable or of a storage entry, as a sequence of characters.
pub type Name = Seq<char>;

/// A variable that a compiled program declares.
#[derive(PartialEq, Eq, Debug)]
pub struct VarInfo {
    /// Name of the variable.
    pub name: String,
}

impl View for VarInfo {
    type V = Name;

    open spec fn view(&self) -> Name {
        self.name@
    }
}

impl Clone for VarInfo {
    fn clone(&self) -> (copy: Self)
        ensures
            copy@ == self@,
    {
        VarInfo { name: self.name.clone() }
    }
}

/// The names of a list of variables, in order.
pub open spec fn var_names(vars: Seq<VarInfo>) -> Seq<Name> {
    Seq::new(vars.len(), |i: int| vars[i]@)
}

/// Three lists of names, one for each kind of variable: what a program
/// declares, or what a storage offers.
pub struct Names {
    /// Names of the uniforms, in order.
    pub uniforms: Seq<Name>,
    /// Names of the uniform blocks, in order.
    pub blocks: Seq<Name>,
    /// Names of the textures, in order.
    pub textures: Seq<Name>,
}

impl Names {
    /// No name occurs twice within one list.
    pub open spec fn distinct(self) -> bool {
        &&& self.uniforms.no_duplicates()
        &&& self.blocks.no_duplicates()
        &&& self.textures.no_duplicates()
    }

    /// There is no name at all.
    pub open spec fn is_empty(self) -> bool {
        &&& self.uniforms.len() == 0
        &&& self.blocks.len() == 0
        &&& self.textures.len() == 0
    }
}

/// Everything a compiled program tells of its inputs.
#[derive(PartialEq, Eq, Debug)]
pub struct ProgramInfo {
    /// Uniforms in the program.
    pub uniforms: Vec<VarInfo>,
    /// Uniform blocks in the program.
    pub blocks: Vec<VarInfo>,
    /// Textures in the program.
    pub textures: Vec<VarInfo>,
}

impl View for ProgramInfo {
    type V = Names;

    open spec fn view(&self) -> Names {
        Names {
            uniforms: var_names(self.uniforms@),
            blocks: var_names(self.blocks@),
            textures: var_names(self.textures@),
        }
    }
}

impl Clone for ProgramInfo {
    fn clone(&self) -> (copy: Self)
        ensures
            copy@ == self@,
    {
        let copy = ProgramInfo {
            uniforms: self.uniforms.clone(),
            blocks: self.blocks.clone(),
            textures: self.textures.clone(),
        };
        assert(copy@.uniforms =~= self@.uniforms);
        assert(copy@.blocks =~= self@.blocks);
        assert(copy@.textures =~= self@.textures);
        copy
    }
}

/// What a program handle stands for: the name of the program on the device and
/// the variables that it declares.
pub struct ProgramModel {
    /// Name of the program on the device.
    pub name: u32,
    /// The variables of the program.
    pub variables: Names,
}

/// Handle of a compiled program, together with what the program declares.
#[derive(PartialEq, Eq, Debug)]
pub struct ProgramHandle {
    name: u32,
    info: ProgramInfo,
}

impl View for ProgramHandle {
    type V = ProgramModel;

    closed spec fn view(&self) -> ProgramModel {
        ProgramModel { name: self.name, variables: self.info@ }
    }
}

impl ProgramHandle {
    /// Make a handle from the name of a program and its variables.
    pub fn new(name: u32, info: ProgramInfo) -> (handle: ProgramHandle)
        ensures
            handle@.name == name,
            handle@.variables == info@,
    {
        ProgramHandle { name, info }
    }

    /// Get the name of the program on the device.
    pub fn get_name(&self) -> (name: u32)
        ensures
            name == self@.name,
    {
        self.name
    }

    /// Get the variables of the program.
    pub fn get_info(&self) -> (info: &ProgramInfo)
        ensures
            info@ == self@.variables,
    {
        &self.info
    }
}

impl Clone for ProgramHandle {
    fn clone(&self) -> (copy: Self)
        ensures
            copy@ == self@,
    {
        ProgramHandle { name: self.name, info: self.info.clone() }
    }
}

} // verus!
