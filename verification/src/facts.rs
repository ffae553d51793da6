//! What holds of linking and filling, whatever the program and the storage.

use vstd::prelude::*;
use crate::dictionary::{
    filled, first_missing, in_reach, DictionaryProgram, Indices, ParamDictionary,
    ParamDictionaryLink, Pool,
};
use crate::params::{first_variable, Fault, Program, ShaderParam, Slots};
use crate::program::{Name, Names};
use crate::resolve::{
    first_unresolved, lemma_all_resolved, lemma_first_unresolved, lemma_position, resolves,
};
use crate::user::EmptyProgram;

verus! {

/// Every variable has an entry of its name, kind by kind.
pub open spec fn all_offered(vars: Names, names: Names) -> bool {
    &&& forall|i: int| 0 <= i < vars.uniforms.len() ==> names.uniforms.contains(#[trigger] vars.uniforms[i])
    &&& forall|i: int| 0 <= i < vars.blocks.len() ==> names.blocks.contains(#[trigger] vars.blocks[i])
    &&& forall|i: int| 0 <= i < vars.textures.len() ==> names.textures.contains(#[trigger] vars.textures[i])
}

/// A program that declares no variable links to a source without parameters,
/// and filling its empty slots leaves them empty.
pub proof fn lemma_empty_program_links(bound: &EmptyProgram, variables: Names, slots: Slots)
    requires
        variables.is_empty(),
        slots.is_empty(),
    ensures
        <() as ShaderParam<()>>::link_fault(None, variables) is None,
        <() as ShaderParam<()>>::linked(&(), None, variables),
        bound.accepts(slots),
        bound.fills(slots).is_empty(),
        ().fills(&(), slots).is_empty(),
{
}

/// A source without parameters is refused by a program that declares a
/// uniform, and the error names the first uniform, whatever blocks and
/// textures the program declares besides.
pub proof fn lemma_first_uniform_is_reported(variables: Names)
    requires
        variables.uniforms.len() > 0,
    ensures
        <() as ShaderParam<()>>::link_fault(None, variables) == Some(
            Fault::Uniform(variables.uniforms[0]),
        ),
{
}

/// A storage that offers no name is refused as a source without parameters
/// is: on the first variable of the program.
pub proof fn lemma_nothing_offered(variables: Names, names: Names)
    requires
        names.is_empty(),
    ensures
        first_missing(variables, names) == first_variable(variables),
{
    lemma_unresolved_without_names(variables.uniforms, names.uniforms);
    lemma_unresolved_without_names(variables.blocks, names.blocks);
    lemma_unresolved_without_names(variables.textures, names.textures);
}

proof fn lemma_unresolved_without_names(vars: Seq<Name>, names: Seq<Name>)
    requires
        names.len() == 0,
    ensures
        first_unresolved(vars, names) == if vars.len() > 0 {
            Some(0int)
        } else {
            None
        },
{
}

/// Linking is refused exactly when the program declares a variable that the
/// storage has no entry for, and the error then names such a variable.
pub proof fn lemma_absent_name_is_rejected(vars: Names, names: Names)
    ensures
        first_missing(vars, names) is None <==> all_offered(vars, names),
        match first_missing(vars, names) {
            None => true,
            Some(Fault::Uniform(name)) => vars.uniforms.contains(name) && !names.uniforms.contains(name),
            Some(Fault::Block(name)) => vars.blocks.contains(name) && !names.blocks.contains(name),
            Some(Fault::Texture(name)) => vars.textures.contains(name) && !names.textures.contains(name),
            Some(Fault::Internal) => false,
        },
{
    lemma_first_unresolved(vars.uniforms, names.uniforms);
    lemma_first_unresolved(vars.blocks, names.blocks);
    lemma_first_unresolved(vars.textures, names.textures);
}

/// A link sends each variable to an entry that is called as the variable is:
/// never to another one. Where a link exists, linking is not refused.
pub proof fn lemma_link_follows_names(link: Indices, vars: Names, names: Names)
    requires
        link.links(vars, names),
    ensures
        first_missing(vars, names) is None,
        forall|i: int|
            0 <= i < vars.uniforms.len() ==> 0 <= #[trigger] link.uniforms[i] < names.uniforms.len()
                && names.uniforms[link.uniforms[i] as int] == vars.uniforms[i],
        forall|i: int|
            0 <= i < vars.blocks.len() ==> 0 <= #[trigger] link.blocks[i] < names.blocks.len()
                && names.blocks[link.blocks[i] as int] == vars.blocks[i],
        forall|i: int|
            0 <= i < vars.textures.len() ==> 0 <= #[trigger] link.textures[i] < names.textures.len()
                && names.textures[link.textures[i] as int] == vars.textures[i],
{
    lemma_resolved_kind(link.uniforms, vars.uniforms, names.uniforms);
    lemma_resolved_kind(link.blocks, vars.blocks, names.blocks);
    lemma_resolved_kind(link.textures, vars.textures, names.textures);
}

proof fn lemma_resolved_kind(link: Seq<usize>, vars: Seq<Name>, names: Seq<Name>)
    requires
        resolves(link, vars, names),
    ensures
        first_unresolved(vars, names) is None,
        forall|i: int|
            0 <= i < vars.len() ==> 0 <= #[trigger] link[i] < names.len() && names[link[i] as int]
                == vars[i],
{
    assert forall|i: int| 0 <= i < vars.len() implies 0 <= #[trigger] link[i] < names.len()
        && names[link[i] as int] == vars[i] by {
        lemma_position(names, vars[i]);
    }
    lemma_all_resolved(vars, names, 0);
}

/// Where no name occurs twice in the storage, the entry that a link sends a
/// variable to is the only one of that name.
pub proof fn lemma_link_is_unambiguous(link: Indices, vars: Names, names: Names)
    requires
        link.links(vars, names),
        names.distinct(),
    ensures
        forall|i: int, j: int|
            0 <= i < vars.uniforms.len() && 0 <= j < names.uniforms.len() && #[trigger] names.uniforms[j]
                == #[trigger] vars.uniforms[i] ==> j == link.uniforms[i],
        forall|i: int, j: int|
            0 <= i < vars.blocks.len() && 0 <= j < names.blocks.len() && #[trigger] names.blocks[j]
                == #[trigger] vars.blocks[i] ==> j == link.blocks[i],
        forall|i: int, j: int|
            0 <= i < vars.textures.len() && 0 <= j < names.textures.len() && #[trigger] names.textures[j]
                == #[trigger] vars.textures[i] ==> j == link.textures[i],
{
    lemma_link_follows_names(link, vars, names);
}

/// A link made for the names of a storage can fill any slots from it: every
/// entry is the index of a cell.
pub proof fn lemma_link_is_in_reach(link: Indices, vars: Names, pool: Pool, slots: Slots)
    requires
        link.links(vars, pool.names),
        pool.well_formed(),
    ensures
        link.reaches(pool, slots),
{
    lemma_link_follows_names(link, vars, pool.names);
}

/// A link made for a prototype can fill any slots from every dictionary whose
/// cells are called as those of the prototype: after a successful link, a
/// fill cannot fail.
pub proof fn lemma_prototype_link_can_fill(
    source: &ParamDictionary,
    prototype: ParamDictionary,
    link: &ParamDictionaryLink,
    variables: Names,
    slots: Slots,
)
    requires
        ParamDictionary::linked(link, Some(prototype), variables),
        source@.names == prototype@.names,
    ensures
        source.accepts(link, slots),
{
    lemma_link_is_in_reach(link@, variables, source@, slots);
}

/// A program can be filled from any dictionary whose cells are called as
/// those of the dictionary that it was connected to, whatever their values.
pub proof fn lemma_same_names_can_fill(bound: &DictionaryProgram, data: &ParamDictionary, slots: Slots)
    requires
        bound.link()@.links(bound.handle()@.variables, bound.names()),
        data@.names == bound.names(),
    ensures
        (bound, data).accepts(slots),
{
    lemma_link_is_in_reach(bound.link()@, bound.handle()@.variables, data@, slots);
}

/// Filling twice from an unchanged storage leaves the slots as the first
/// fill left them.
pub proof fn lemma_fill_is_idempotent(link: Indices, pool: Pool, slots: Slots)
    ensures
        link.fills(pool, link.fills(pool, slots)) == link.fills(pool, slots),
{
    let once = link.fills(pool, slots);
    let twice = link.fills(pool, once);
    assert(twice.uniforms =~= once.uniforms);
    assert(twice.blocks =~= once.blocks);
    assert(twice.textures =~= once.textures);
}

/// Filling from a source without parameters changes nothing, once or twice.
pub proof fn lemma_trivial_fill_is_idempotent(bound: &EmptyProgram, slots: Slots)
    ensures
        ().fills(&(), ().fills(&(), slots)) == slots,
        bound.fills(bound.fills(slots)) == slots,
{
}

/// Where the slots are sized to the link, what a fill leaves does not depend
/// on what the slots held before.
pub proof fn lemma_fill_overwrites(link: Indices, pool: Pool, first: Slots, second: Slots)
    requires
        first.uniforms.len() == second.uniforms.len() <= link.uniforms.len(),
        first.blocks.len() == second.blocks.len() <= link.blocks.len(),
        first.textures.len() == second.textures.len() <= link.textures.len(),
    ensures
        link.fills(pool, first) == link.fills(pool, second),
{
    let a = link.fills(pool, first);
    let b = link.fills(pool, second);
    assert(a.uniforms =~= b.uniforms);
    assert(a.blocks =~= b.blocks);
    assert(a.textures =~= b.textures);
}

/// Giving one cell a new value changes, in the next fill, the slots that are
/// linked to that cell and no other slot.
pub proof fn lemma_new_value_is_local<T>(
    link: Seq<usize>,
    values: Seq<T>,
    cell: int,
    value: T,
    slots: Seq<Option<T>>,
)
    requires
        in_reach(link, values, slots),
        0 <= cell < values.len(),
    ensures
        in_reach(link, values.update(cell, value), slots),
        filled(link, values.update(cell, value), slots).len() == filled(link, values, slots).len(),
        forall|i: int|
            0 <= i < slots.len() ==> #[trigger] filled(link, values.update(cell, value), slots)[i] == if i
                < link.len() && link[i] == cell {
                Some(value)
            } else {
                filled(link, values, slots)[i]
            },
{
}

/// Giving one uniform cell a new value leaves the block and texture slots of
/// the next fill as they would have been, and changes only the uniform slots
/// that are linked to that cell.
pub proof fn lemma_new_uniform_is_local(link: Indices, before: Pool, after: Pool, cell: int, slots: Slots)
    requires
        link.reaches(before, slots),
        0 <= cell < before.uniforms.len(),
        after.uniforms == before.uniforms.update(cell, after.uniforms[cell]),
        after.blocks == before.blocks,
        after.textures == before.textures,
    ensures
        link.reaches(after, slots),
        link.fills(after, slots).blocks == link.fills(before, slots).blocks,
        link.fills(after, slots).textures == link.fills(before, slots).textures,
        link.fills(after, slots).uniforms.len() == link.fills(before, slots).uniforms.len(),
        forall|i: int|
            0 <= i < slots.uniforms.len() ==> #[trigger] link.fills(after, slots).uniforms[i] == if i
                < link.uniforms.len() && link.uniforms[i] == cell {
                Some(after.uniforms[cell])
            } else {
                link.fills(before, slots).uniforms[i]
            },
{
    lemma_new_value_is_local(link.uniforms, before.uniforms, cell, after.uniforms[cell], slots.uniforms);
}

/// Giving one block cell a new value leaves the uniform and texture slots of
/// the next fill as they would have been, and changes only the block slots
/// that are linked to that cell.
pub proof fn lemma_new_block_is_local(link: Indices, before: Pool, after: Pool, cell: int, slots: Slots)
    requires
        link.reaches(before, slots),
        0 <= cell < before.blocks.len(),
        after.blocks == before.blocks.update(cell, after.blocks[cell]),
        after.uniforms == before.uniforms,
        after.textures == before.textures,
    ensures
        link.reaches(after, slots),
        link.fills(after, slots).uniforms == link.fills(before, slots).uniforms,
        link.fills(after, slots).textures == link.fills(before, slots).textures,
        link.fills(after, slots).blocks.len() == link.fills(before, slots).blocks.len(),
        forall|i: int|
            0 <= i < slots.blocks.len() ==> #[trigger] link.fills(after, slots).blocks[i] == if i
                < link.blocks.len() && link.blocks[i] == cell {
                Some(after.blocks[cell])
            } else {
                link.fills(before, slots).blocks[i]
            },
{
    lemma_new_value_is_local(link.blocks, before.blocks, cell, after.blocks[cell], slots.blocks);
}

/// Giving one texture cell a new value leaves the uniform and block slots of
/// the next fill as they would have been, and changes only the texture slots
/// that are linked to that cell.
pub proof fn lemma_new_texture_is_local(link: Indices, before: Pool, after: Pool, cell: int, slots: Slots)
    requires
        link.reaches(before, slots),
        0 <= cell < before.textures.len(),
        after.textures == before.textures.update(cell, after.textures[cell]),
        after.uniforms == before.uniforms,
        after.blocks == before.blocks,
    ensures
        link.reaches(after, slots),
        link.fills(after, slots).uniforms == link.fills(before, slots).uniforms,
        link.fills(after, slots).blocks == link.fills(before, slots).blocks,
        link.fills(after, slots).textures.len() == link.fills(before, slots).textures.len(),
        forall|i: int|
            0 <= i < slots.textures.len() ==> #[trigger] link.fills(after, slots).textures[i] == if i
                < link.textures.len() && link.textures[i] == cell {
                Some(after.textures[cell])
            } else {
                link.fills(before, slots).textures[i]
            },
{
    lemma_new_value_is_local(link.textures, before.textures, cell, after.textures[cell], slots.textures);
}

} // verus!
