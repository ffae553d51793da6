//! Looking variables up by name: the model that linking is held to.

use vstd::prelude::*;
use crate::program::Name;

verus! {

/// The first position at or after `from` at which `names` holds `name`.
pub open spec fn position_from(names: Seq<Name>, name: Name, from: int) -> Option<int>
    decreases names.len() - from,
{
    if from < 0 || from >= names.len() {
        None
    } else if names[from] == name {
        Some(from)
    } else {
        position_from(names, name, from + 1)
    }
}

/// The first position at which `names` holds `name`.
pub open spec fn position(names: Seq<Name>, name: Name) -> Option<int> {
    position_from(names, name, 0)
}

/// `link` sends every variable to the first entry of `names` that is called
/// as the variable is.
pub open spec fn resolves(link: Seq<usize>, vars: Seq<Name>, names: Seq<Name>) -> bool {
    &&& link.len() == vars.len()
    &&& forall|i: int| 0 <= i < vars.len() ==> position(names, #[trigger] vars[i]) == Some(link[i] as int)
}

/// The first variable at or after `from` that no entry of `names` is called
/// after.
pub open spec fn first_unresolved_from(vars: Seq<Name>, names: Seq<Name>, from: int) -> Option<int>
    decreases vars.len() - from,
{
    if from < 0 || from >= vars.len() {
        None
    } else if position(names, vars[from]) is None {
        Some(from)
    } else {
        first_unresolved_from(vars, names, from + 1)
    }
}

/// The first variable that no entry of `names` is called after.
pub open spec fn first_unresolved(vars: Seq<Name>, names: Seq<Name>) -> Option<int> {
    first_unresolved_from(vars, names, 0)
}

/// A position found from `from` on holds the name, and no position between
/// the two does; none is found exactly when no position from `from` on holds
/// the name.
pub proof fn lemma_position_from(names: Seq<Name>, name: Name, from: int)
    requires
        0 <= from,
    ensures
        match position_from(names, name, from) {
            Some(j) => {
                &&& from <= j < names.len()
                &&& names[j] == name
                &&& forall|k: int| from <= k < j ==> names[k] != name
            },
            None => forall|k: int| from <= k < names.len() ==> names[k] != name,
        },
    decreases names.len() - from,
{
    if from < names.len() && names[from] != name {
        lemma_position_from(names, name, from + 1);
    }
}

/// The position of a name is its first occurrence; a name has no position
/// exactly when it does not occur.
pub proof fn lemma_position(names: Seq<Name>, name: Name)
    ensures
        match position(names, name) {
            Some(j) => {
                &&& 0 <= j < names.len()
                &&& names[j] == name
                &&& forall|k: int| 0 <= k < j ==> names[k] != name
            },
            None => !names.contains(name),
        },
{
    lemma_position_from(names, name, 0);
}

/// Where the entries before `j` are not called `name` and entry `j` is, `j`
/// is the position of `name` from any start up to `j`.
pub proof fn lemma_position_found(names: Seq<Name>, name: Name, from: int, j: int)
    requires
        0 <= from <= j < names.len(),
        names[j] == name,
        forall|k: int| from <= k < j ==> names[k] != name,
    ensures
        position_from(names, name, from) == Some(j),
    decreases j - from,
{
    if from < j {
        lemma_position_found(names, name, from + 1, j);
    }
}

/// Where no entry from `from` on is called `name`, the name has no position
/// from there.
pub proof fn lemma_position_absent(names: Seq<Name>, name: Name, from: int)
    requires
        0 <= from,
        forall|k: int| from <= k < names.len() ==> names[k] != name,
    ensures
        position_from(names, name, from) is None,
    decreases names.len() - from,
{
    if from < names.len() {
        lemma_position_absent(names, name, from + 1);
    }
}

/// Where the variables from `from` up to `i` have a position and variable `i`
/// has none, `i` is the first unresolved one.
pub proof fn lemma_unresolved_found(vars: Seq<Name>, names: Seq<Name>, from: int, i: int)
    requires
        0 <= from <= i < vars.len(),
        position(names, vars[i]) is None,
        forall|k: int| from <= k < i ==> position(names, #[trigger] vars[k]) is Some,
    ensures
        first_unresolved_from(vars, names, from) == Some(i),
    decreases i - from,
{
    if from < i {
        lemma_unresolved_found(vars, names, from + 1, i);
    }
}

/// Where every variable from `from` on has a position, none is unresolved.
pub proof fn lemma_all_resolved(vars: Seq<Name>, names: Seq<Name>, from: int)
    requires
        0 <= from,
        forall|k: int| from <= k < vars.len() ==> position(names, #[trigger] vars[k]) is Some,
    ensures
        first_unresolved_from(vars, names, from) is None,
    decreases vars.len() - from,
{
    if from < vars.len() {
        lemma_all_resolved(vars, names, from + 1);
    }
}

/// The first unresolved variable has no entry of its name, and every
/// variable before it has one; none is unresolved exactly when every variable
/// has an entry.
pub proof fn lemma_first_unresolved(vars: Seq<Name>, names: Seq<Name>)
    ensures
        match first_unresolved(vars, names) {
            Some(i) => {
                &&& 0 <= i < vars.len()
                &&& !names.contains(vars[i])
                &&& forall|k: int| 0 <= k < i ==> names.contains(#[trigger] vars[k])
            },
            None => forall|k: int| 0 <= k < vars.len() ==> names.contains(#[trigger] vars[k]),
        },
{
    lemma_first_unresolved_from(vars, names, 0);
}

proof fn lemma_first_unresolved_from(vars: Seq<Name>, names: Seq<Name>, from: int)
    requires
        0 <= from,
    ensures
        match first_unresolved_from(vars, names, from) {
            Some(i) => {
                &&& from <= i < vars.len()
                &&& !names.contains(vars[i])
                &&& forall|k: int| from <= k < i ==> names.contains(#[trigger] vars[k])
            },
            None => forall|k: int| from <= k < vars.len() ==> names.contains(#[trigger] vars[k]),
        },
    decreases vars.len() - from,
{
    if from < vars.len() {
        lemma_position(names, vars[from]);
        if position(names, vars[from]) is Some {
            lemma_first_unresolved_from(vars, names, from + 1);
        }
    }
}

} // verus!
