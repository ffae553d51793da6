//! Programs bound to a parameter structure of the application's own.

use std::marker::PhantomData;
use vstd::prelude::*;
use crate::params::{ParamValues, ParameterError, Program, ShaderParam, Slots};
use crate::program::ProgramHandle;

verus! {

/// A bundle that encapsulates a program and a custom user-provided
/// structure containing the program parameters.
/// # Type parameters:
///
/// * `L` - link that has a variable index for every parameter of T
/// * `T` - user-provided structure containing actual parameter values
pub struct UserProgram<L, T: ShaderParam<L>> {
    /// Shader program handle
    program: ProgramHandle,
    /// Hidden link that provides parameter indices for user data
    link: L,
    /// The structure that the link was made for
    source: PhantomData<T>,
}

impl<L, T: ShaderParam<L>> UserProgram<L, T> {
    /// The handle of the bound program.
    pub closed spec fn handle(&self) -> ProgramHandle {
        self.program
    }

    /// The link that was made when the program was connected.
    pub closed spec fn link(&self) -> L {
        self.link
    }

    /// The link is the one of the structure to the variables of the program.
    #[verifier::type_invariant]
    spec fn is_linked(self) -> bool {
        T::linked(&self.link, None, self.program@.variables)
    }
}

impl<L: Copy, T: ShaderParam<L>> Clone for UserProgram<L, T> {
    fn clone(&self) -> (copy: Self)
        ensures
            copy.handle()@ == self.handle()@,
            copy.link() == self.link(),
    {
        proof {
            use_type_invariant(self);
        }
        UserProgram { program: self.program.clone(), link: self.link, source: PhantomData }
    }
}

impl<L, T: ShaderParam<L>> UserProgram<L, T> {
    /// Connect a shader program with a parameter structure
    pub fn connect(prog: ProgramHandle) -> (result: Result<UserProgram<L, T>, ParameterError>)
        ensures
            match result {
                Ok(bound) => {
                    &&& T::link_fault(None, prog@.variables) is None
                    &&& bound.handle() == prog
                    &&& T::linked(&bound.link(), None, prog@.variables)
                },
                Err(error) => T::link_fault(None, prog@.variables) == Some(error@),
            },
    {
        match T::create_link(None, prog.get_info()) {
            Ok(link) => Ok(UserProgram { program: prog, link: link, source: PhantomData }),
            Err(error) => Err(error),
        }
    }
}

// Tuple of references `(&MyProgram, &Data)` is the standard way of providing
// a program with its parameters for the draw call.

impl<'a, L, T: ShaderParam<L>> Program for (&'a UserProgram<L, T>, &'a T) {
    open spec fn handle(&self) -> ProgramHandle {
        self.0.handle()
    }

    open spec fn accepts(&self, slots: Slots) -> bool {
        self.1.accepts(&self.0.link(), slots)
    }

    open spec fn fills(&self, slots: Slots) -> Slots {
        self.1.fills(&self.0.link(), slots)
    }

    /// The handle of the program; the link of the bundle is the one of the
    /// structure to the variables of that program.
    fn get_handle(&self) -> (handle: &ProgramHandle)
        ensures
            T::linked(&self.0.link(), None, handle@.variables),
    {
        proof {
            use_type_invariant(self.0);
        }
        &self.0.program
    }

    fn fill_params(&self, params: ParamValues<'_>) {
        self.1.fill_params(&self.0.link, params);
    }
}

/// A program without parameters.
pub type EmptyProgram = UserProgram<(), ()>;

impl<'a> Program for &'a EmptyProgram {
    open spec fn handle(&self) -> ProgramHandle {
        (*self).handle()
    }

    open spec fn accepts(&self, slots: Slots) -> bool {
        slots.is_empty()
    }

    open spec fn fills(&self, slots: Slots) -> Slots {
        slots
    }

    /// The handle of the program, which declares no variable.
    fn get_handle(&self) -> (handle: &ProgramHandle)
        ensures
            handle@.variables.is_empty(),
    {
        proof {
            use_type_invariant(*self);
        }
        &self.program
    }

    fn fill_params(&self, params: ParamValues<'_>) {
    }
}

} // verus!
