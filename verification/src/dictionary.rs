//! Programs bound to a dictionary of named parameters, which any number of
//! programs may be linked to.

use vstd::prelude::*;
use crate::params::{Fault, ParamValues, ParameterError, Program, ShaderParam, Slots};
use crate::program::{var_names, Name, Names, ProgramHandle, ProgramInfo, VarInfo};
use crate::resolve::{
    first_unresolved, lemma_all_resolved, lemma_position_absent, lemma_position_found,
    lemma_unresolved_found, position, resolves,
};
use crate::value::{RawBufferHandle, TextureParam, UniformValue};

verus! {

/// A named cell containing arbitrary value
#[derive(PartialEq, Debug)]
pub struct NamedCell<T> {
    /// Name
    pub name: String,
    /// Value
    pub value: T,
}

impl<T: Copy> Clone for NamedCell<T> {
    fn clone(&self) -> (copy: Self)
        ensures
            copy.name@ == self.name@,
            copy.value == self.value,
    {
        NamedCell { name: self.name.clone(), value: self.value }
    }
}

/// The names of a list of cells, in order.
pub open spec fn cell_names<T>(cells: Seq<NamedCell<T>>) -> Seq<Name> {
    Seq::new(cells.len(), |j: int| cells[j].name@)
}

/// The values of a list of cells, in order.
pub open spec fn cell_values<T>(cells: Seq<NamedCell<T>>) -> Seq<T> {
    Seq::new(cells.len(), |j: int| cells[j].value)
}

/// A dictionary of parameters, meant to be shared between different programs
#[derive(PartialEq, Debug)]
pub struct ParamDictionary {
    /// Uniform dictionary
    pub uniforms: Vec<NamedCell<UniformValue>>,
    /// Block dictionary
    pub blocks: Vec<NamedCell<RawBufferHandle>>,
    /// Texture dictionary
    pub textures: Vec<NamedCell<TextureParam>>,
}

/// What a dictionary holds: the names of its cells and, in the same order,
/// their current values.
pub struct Pool {
    /// The names of the cells.
    pub names: Names,
    /// The values of the uniform cells.
    pub uniforms: Seq<UniformValue>,
    /// The values of the block cells.
    pub blocks: Seq<RawBufferHandle>,
    /// The values of the texture cells.
    pub textures: Seq<TextureParam>,
}

impl Pool {
    /// There is one value for each name.
    pub open spec fn well_formed(self) -> bool {
        &&& self.uniforms.len() == self.names.uniforms.len()
        &&& self.blocks.len() == self.names.blocks.len()
        &&& self.textures.len() == self.names.textures.len()
    }
}

impl View for ParamDictionary {
    type V = Pool;

    open spec fn view(&self) -> Pool {
        Pool {
            names: Names {
                uniforms: cell_names(self.uniforms@),
                blocks: cell_names(self.blocks@),
                textures: cell_names(self.textures@),
            },
            uniforms: cell_values(self.uniforms@),
            blocks: cell_values(self.blocks@),
            textures: cell_values(self.textures@),
        }
    }
}

impl Clone for ParamDictionary {
    fn clone(&self) -> (copy: Self)
        ensures
            copy@ == self@,
    {
        let copy = ParamDictionary {
            uniforms: self.uniforms.clone(),
            blocks: self.blocks.clone(),
            textures: self.textures.clone(),
        };
        assert(copy@.names.uniforms =~= self@.names.uniforms);
        assert(copy@.names.blocks =~= self@.names.blocks);
        assert(copy@.names.textures =~= self@.names.textures);
        assert(copy@.uniforms =~= self@.uniforms);
        assert(copy@.blocks =~= self@.blocks);
        assert(copy@.textures =~= self@.textures);
        copy
    }
}

/// An associated link structure for `ParamDictionary` that redirects program
/// input to the relevant dictionary cell.
#[derive(PartialEq, Debug)]
pub struct ParamDictionaryLink {
    uniforms: Vec<usize>,
    blocks: Vec<usize>,
    textures: Vec<usize>,
}

/// What a link holds: for each slot of a program, the index of the cell that
/// supplies it.
pub struct Indices {
    /// The cell of each uniform slot.
    pub uniforms: Seq<usize>,
    /// The cell of each block slot.
    pub blocks: Seq<usize>,
    /// The cell of each texture slot.
    pub textures: Seq<usize>,
}

impl View for ParamDictionaryLink {
    type V = Indices;

    closed spec fn view(&self) -> Indices {
        Indices { uniforms: self.uniforms@, blocks: self.blocks@, textures: self.textures@ }
    }
}

/// Every entry of `link` that a fill of `slots` reads is the index of a value.
pub open spec fn in_reach<T>(link: Seq<usize>, values: Seq<T>, slots: Seq<Option<T>>) -> bool {
    forall|i: int| 0 <= i < link.len() && i < slots.len() ==> #[trigger] link[i] < values.len()
}

/// The slots after a fill: each slot that `link` has an entry for holds the
/// value that the entry points at, and the slots beyond the link are as they
/// were.
pub open spec fn filled<T>(link: Seq<usize>, values: Seq<T>, slots: Seq<Option<T>>) -> Seq<Option<T>> {
    Seq::new(
        slots.len(),
        |i: int| if i < link.len() { Some(values[link[i] as int]) } else { slots[i] },
    )
}

/// The error of linking variables to names: the first variable that has no
/// entry of its name, uniforms before blocks before textures.
pub open spec fn first_missing(vars: Names, names: Names) -> Option<Fault> {
    if let Some(i) = first_unresolved(vars.uniforms, names.uniforms) {
        Some(Fault::Uniform(vars.uniforms[i]))
    } else if let Some(i) = first_unresolved(vars.blocks, names.blocks) {
        Some(Fault::Block(vars.blocks[i]))
    } else if let Some(i) = first_unresolved(vars.textures, names.textures) {
        Some(Fault::Texture(vars.textures[i]))
    } else {
        None
    }
}

impl Indices {
    /// Every variable is sent to the first cell of its name.
    pub open spec fn links(self, vars: Names, names: Names) -> bool {
        &&& resolves(self.uniforms, vars.uniforms, names.uniforms)
        &&& resolves(self.blocks, vars.blocks, names.blocks)
        &&& resolves(self.textures, vars.textures, names.textures)
    }

    /// Every entry that a fill of `slots` reads is the index of a cell of
    /// `pool`.
    pub open spec fn reaches(self, pool: Pool, slots: Slots) -> bool {
        &&& in_reach(self.uniforms, pool.uniforms, slots.uniforms)
        &&& in_reach(self.blocks, pool.blocks, slots.blocks)
        &&& in_reach(self.textures, pool.textures, slots.textures)
    }

    /// The slots after a fill from `pool`.
    pub open spec fn fills(self, pool: Pool, slots: Slots) -> Slots {
        Slots {
            uniforms: filled(self.uniforms, pool.uniforms, slots.uniforms),
            blocks: filled(self.blocks, pool.blocks, slots.blocks),
            textures: filled(self.textures, pool.textures, slots.textures),
        }
    }
}

/// Looks for the first cell called `name`.
fn find_cell<T>(cells: &Vec<NamedCell<T>>, name: &String) -> (found: Option<usize>)
    ensures
        match found {
            Some(j) => position(cell_names(cells@), name@) == Some(j as int),
            None => position(cell_names(cells@), name@) is None,
        },
{
    let mut j: usize = 0;
    while j < cells.len()
        invariant
            j <= cells.len(),
            forall|k: int| 0 <= k < j ==> cell_names(cells@)[k] != name@,
        decreases cells.len() - j,
    {
        if cells[j].name == *name {
            proof {
                lemma_position_found(cell_names(cells@), name@, 0, j as int);
            }
            return Some(j);
        }
        j += 1;
    }
    proof {
        lemma_position_absent(cell_names(cells@), name@, 0);
    }
    None
}

/// Looks every variable up among the cells: the cell of each, or the index of
/// the first variable that has none.
fn link_cells<T>(vars: &Vec<VarInfo>, cells: &Vec<NamedCell<T>>) -> (result: Result<Vec<usize>, usize>)
    ensures
        match result {
            Ok(link) => {
                &&& first_unresolved(var_names(vars@), cell_names(cells@)) is None
                &&& resolves(link@, var_names(vars@), cell_names(cells@))
            },
            Err(i) => {
                &&& i < vars.len()
                &&& first_unresolved(var_names(vars@), cell_names(cells@)) == Some(i as int)
            },
        },
{
    let mut link: Vec<usize> = Vec::new();
    let mut i: usize = 0;
    while i < vars.len()
        invariant
            i <= vars.len(),
            link@.len() == i,
            forall|k: int|
                0 <= k < i ==> position(cell_names(cells@), #[trigger] var_names(vars@)[k]) == Some(
                    link@[k] as int,
                ),
        decreases vars.len() - i,
    {
        match find_cell(cells, &vars[i].name) {
            Some(j) => {
                link.push(j);
            },
            None => {
                proof {
                    lemma_unresolved_found(var_names(vars@), cell_names(cells@), 0, i as int);
                }
                return Err(i);
            },
        }
        i += 1;
    }
    proof {
        lemma_all_resolved(var_names(vars@), cell_names(cells@), 0);
    }
    Ok(link)
}

/// Copies the value of each linked cell into its slot.
fn fill_slots<T: Copy>(link: &Vec<usize>, cells: &Vec<NamedCell<T>>, slots: &mut [Option<T>])
    requires
        in_reach(link@, cell_values(cells@), old(slots)@),
    ensures
        final(slots)@ == filled(link@, cell_values(cells@), old(slots)@),
{
    let mut i: usize = 0;
    while i < link.len() && i < slots.len()
        invariant
            i <= link.len(),
            i <= slots@.len(),
            slots@.len() == old(slots)@.len(),
            in_reach(link@, cell_values(cells@), old(slots)@),
            forall|k: int| 0 <= k < i ==> slots@[k] == Some(cells@[link@[k] as int].value),
            forall|k: int| i <= k < slots@.len() ==> slots@[k] == old(slots)@[k],
        decreases link.len() - i,
    {
        slots[i] = Some(cells[link[i]].value);
        i += 1;
    }
    assert(slots@ =~= filled(link@, cell_values(cells@), old(slots)@));
}

/// Whether every entry of `link` that a fill of `slots` reads is the index of
/// a cell.
fn reaches_cells<T>(link: &Vec<usize>, cells: &Vec<NamedCell<T>>, slots: &[Option<T>]) -> (ok: bool)
    ensures
        ok == in_reach(link@, cell_values(cells@), slots@),
{
    let mut i: usize = 0;
    while i < link.len() && i < slots.len()
        invariant
            forall|k: int| 0 <= k < i ==> #[trigger] link@[k] < cells@.len(),
        decreases link.len() - i,
    {
        if link[i] >= cells.len() {
            return false;
        }
        i += 1;
    }
    true
}

impl ParamDictionaryLink {
    /// The cell index of each uniform slot.
    pub fn uniforms(&self) -> (indices: &[usize])
        ensures
            indices@ == self@.uniforms,
    {
        self.uniforms.as_slice()
    }

    /// The cell index of each block slot.
    pub fn blocks(&self) -> (indices: &[usize])
        ensures
            indices@ == self@.blocks,
    {
        self.blocks.as_slice()
    }

    /// The cell index of each texture slot.
    pub fn textures(&self) -> (indices: &[usize])
        ensures
            indices@ == self@.textures,
    {
        self.textures.as_slice()
    }
}

impl ParamDictionary {
    /// A dictionary without cells.
    pub fn new() -> (empty: ParamDictionary)
        ensures
            empty@.names.is_empty(),
            empty@.uniforms.len() == 0,
            empty@.blocks.len() == 0,
            empty@.textures.len() == 0,
    {
        ParamDictionary { uniforms: Vec::new(), blocks: Vec::new(), textures: Vec::new() }
    }

    /// Links the variables of a program to the cells of this dictionary, by
    /// name. Fails on the first variable that no cell is called after,
    /// uniforms before blocks before textures.
    pub fn link_to(&self, info: &ProgramInfo) -> (result: Result<ParamDictionaryLink, ParameterError>)
        ensures
            match result {
                Ok(link) => first_missing(info@, self@.names) is None && link@.links(info@, self@.names),
                Err(error) => first_missing(info@, self@.names) == Some(error@),
            },
    {
        let uniforms = match link_cells(&info.uniforms, &self.uniforms) {
            Ok(link) => link,
            Err(i) => {
                return Err(ParameterError::ErrorUniform(info.uniforms[i].name.clone()));
            },
        };
        let blocks = match link_cells(&info.blocks, &self.blocks) {
            Ok(link) => link,
            Err(i) => {
                return Err(ParameterError::ErrorBlock(info.blocks[i].name.clone()));
            },
        };
        let textures = match link_cells(&info.textures, &self.textures) {
            Ok(link) => link,
            Err(i) => {
                return Err(ParameterError::ErrorTexture(info.textures[i].name.clone()));
            },
        };
        Ok(ParamDictionaryLink { uniforms, blocks, textures })
    }

    /// Whether `fill_params` can read this dictionary through `link` to fill
    /// `params`: whether every index that the fill reads is one of a cell.
    pub fn can_fill(&self, link: &ParamDictionaryLink, params: &ParamValues<'_>) -> (ok: bool)
        ensures
            ok == link@.reaches(self@, params@),
    {
        reaches_cells(&link.uniforms, &self.uniforms, &*params.uniforms)
            && reaches_cells(&link.blocks, &self.blocks, &*params.blocks)
            && reaches_cells(&link.textures, &self.textures, &*params.textures)
    }
}

/// The names that a prototype offers; none where there is no prototype.
pub open spec fn offered(hint: Option<ParamDictionary>) -> Names {
    match hint {
        Some(data) => data@.names,
        None => Names { uniforms: Seq::empty(), blocks: Seq::empty(), textures: Seq::empty() },
    }
}

/// A dictionary is a parameter structure too: a list of named values for
/// each kind of variable, linked by the names of a prototype and read by
/// index afterwards.
impl ShaderParam<ParamDictionaryLink> for ParamDictionary {
    open spec fn link_fault(hint: Option<Self>, variables: Names) -> Option<Fault> {
        first_missing(variables, offered(hint))
    }

    open spec fn linked(link: &ParamDictionaryLink, hint: Option<Self>, variables: Names) -> bool {
        link@.links(variables, offered(hint))
    }

    open spec fn accepts(&self, link: &ParamDictionaryLink, slots: Slots) -> bool {
        link@.reaches(self@, slots)
    }

    open spec fn fills(&self, link: &ParamDictionaryLink, slots: Slots) -> Slots {
        link@.fills(self@, slots)
    }

    /// Links a program to the cells of the prototype; a missing prototype
    /// offers no cell.
    fn create_link(hint: Option<ParamDictionary>, info: &ProgramInfo) -> (result: Result<
        ParamDictionaryLink,
        ParameterError,
    >) {
        match hint {
            Some(data) => data.link_to(info),
            None => ParamDictionary::new().link_to(info),
        }
    }

    fn fill_params(&self, link: &ParamDictionaryLink, params: ParamValues<'_>) {
        let ParamValues { uniforms, blocks, textures } = params;
        fill_slots(&link.uniforms, &self.uniforms, uniforms);
        fill_slots(&link.blocks, &self.blocks, blocks);
        fill_slots(&link.textures, &self.textures, textures);
    }
}

/// A shader program with dictionary of parameters
pub struct DictionaryProgram {
    program: ProgramHandle,
    link: ParamDictionaryLink,
    names: Ghost<Names>,
}

impl DictionaryProgram {
    /// The handle of the bound program.
    pub closed spec fn handle(&self) -> ProgramHandle {
        self.program
    }

    /// The link that was made when the program was connected.
    pub closed spec fn link(&self) -> ParamDictionaryLink {
        self.link
    }

    /// The names of the cells of the dictionary that the program was
    /// connected to.
    pub closed spec fn names(&self) -> Names {
        self.names@
    }

    /// The link sends every variable of the program to the first cell of its
    /// name.
    #[verifier::type_invariant]
    spec fn is_linked(self) -> bool {
        self.link@.links(self.program@.variables, self.names@)
    }

    /// Connect a shader program with a dictionary of parameters: every
    /// variable of the program is linked to the first cell of its name. Fails
    /// on the first variable that no cell is called after, uniforms before
    /// blocks before textures.
    pub fn connect(prog: ProgramHandle, data: &ParamDictionary) -> (result: Result<
        DictionaryProgram,
        ParameterError,
    >)
        ensures
            match result {
                Ok(bound) => {
                    &&& first_missing(prog@.variables, data@.names) is None
                    &&& bound.handle() == prog
                    &&& bound.names() == data@.names
                    &&& bound.link()@.links(prog@.variables, data@.names)
                },
                Err(error) => first_missing(prog@.variables, data@.names) == Some(error@),
            },
    {
        match data.link_to(prog.get_info()) {
            Ok(link) => Ok(DictionaryProgram { program: prog, link: link, names: Ghost(data@.names) }),
            Err(error) => Err(error),
        }
    }

    /// Get the contained program handle
    pub fn get_handle(&self) -> (handle: &ProgramHandle)
        ensures
            *handle == self.handle(),
    {
        &self.program
    }

    /// Get the link between the program and the dictionary: it sends every
    /// variable of the program to the first cell of its name.
    pub fn get_link(&self) -> (link: &ParamDictionaryLink)
        ensures
            *link == self.link(),
            link@.links(self.handle()@.variables, self.names()),
    {
        proof {
            use_type_invariant(self);
        }
        &self.link
    }
}

// As with a parameter structure, the tuple of references
// `(&DictionaryProgram, &ParamDictionary)` provides a program with its
// parameters for the draw call.

impl<'a> Program for (&'a DictionaryProgram, &'a ParamDictionary) {
    open spec fn handle(&self) -> ProgramHandle {
        self.0.handle()
    }

    open spec fn accepts(&self, slots: Slots) -> bool {
        self.0.link()@.reaches(self.1@, slots)
    }

    open spec fn fills(&self, slots: Slots) -> Slots {
        self.0.link()@.fills(self.1@, slots)
    }

    /// The handle of the program; the link of the bundle sends every
    /// variable of that program to the first cell of its name.
    fn get_handle(&self) -> (handle: &ProgramHandle)
        ensures
            self.0.link()@.links(handle@.variables, self.0.names()),
    {
        proof {
            use_type_invariant(self.0);
        }
        self.0.get_handle()
    }

    fn fill_params(&self, params: ParamValues<'_>) {
        self.1.fill_params(&self.0.link, params);
    }
}

} // verus!
