//! Tuples of parameters: each element is bound to the placeholder at its place in the tuple.
use crate::error::Error;
use crate::handles::{surface, Binding, Bindings, Statement, Surface};
use crate::parameter::{InputParameter, OutputParameter};
use crate::parameter_collection::ParameterCollectionRef;
use vstd::prelude::*;

verus! {

/// Can be bound to a single placeholder: an element of a tuple of parameters.
pub trait ParameterTupleElement {
    /// Whether a statement may write to the element.
    spec fn is_output(&self) -> bool;

    /// What a statement is handed with the element.
    spec fn element_surface(&self) -> Surface;

    /// Binds the element to the placeholder with the number `parameter_number`.
    fn bind_to<S: Statement>(&mut self, parameter_number: u16, stmt: &mut Bindings<S>) -> (result:
        Result<(), Error>)
        requires
            parameter_number >= 1,
        ensures
            Bindings::recorded(
                old(stmt),
                final(stmt),
                (Binding {
                    position: parameter_number,
                    output: old(self).is_output(),
                    surface: old(self).element_surface(),
                }),
                result,
            ),
    ;
}

/// The binding of an element of a tuple to the placeholder `position`.
pub open spec fn element_binding<E: ParameterTupleElement>(element: &E, position: u16) -> Binding {
    Binding { position, output: element.is_output(), surface: element.element_surface() }
}

/// A shared reference binds what it refers to as an input.
impl<T: InputParameter + ?Sized> ParameterTupleElement for &T {
    open spec fn is_output(&self) -> bool {
        false
    }

    open spec fn element_surface(&self) -> Surface {
        surface(&**self)
    }

    fn bind_to<S: Statement>(&mut self, parameter_number: u16, stmt: &mut Bindings<S>) -> (result:
        Result<(), Error>) {
        stmt.bind_input_parameter(parameter_number, &**self)
    }
}

/// A mutable reference binds what it refers to as an input and output.
impl<T: OutputParameter> ParameterTupleElement for &mut T {
    open spec fn is_output(&self) -> bool {
        true
    }

    open spec fn element_surface(&self) -> Surface {
        surface(&**self)
    }

    fn bind_to<S: Statement>(&mut self, parameter_number: u16, stmt: &mut Bindings<S>) -> (result:
        Result<(), Error>) {
        stmt.bind_parameter(parameter_number, &mut **self)
    }
}

/// The empty tuple binds nothing.
impl ParameterCollectionRef for () {
    open spec fn set_size(&self) -> nat {
        1
    }

    open spec fn bindings(&self) -> Seq<Binding> {
        Seq::empty()
    }

    proof fn lemma_binding_order(&self) {
    }

    fn parameter_set_size(&self) -> (size: usize) {
        1
    }

    fn bind_parameters_to<S: Statement>(&mut self, stmt: &mut Bindings<S>) -> (result: Result<
        (),
        Error,
    >) {
        assert(stmt.accepted() =~= old(stmt).accepted() + self.bindings());
        Ok(())
    }
}

/// A tuple of one element binds it to the first placeholder.
impl<A: ParameterTupleElement> ParameterCollectionRef for (A,) {
    open spec fn set_size(&self) -> nat {
        1
    }

    open spec fn bindings(&self) -> Seq<Binding> {
        seq![element_binding(&self.0, 1)]
    }

    proof fn lemma_binding_order(&self) {
    }

    fn parameter_set_size(&self) -> (size: usize) {
        1
    }

    fn bind_parameters_to<S: Statement>(&mut self, stmt: &mut Bindings<S>) -> (result: Result<
        (),
        Error,
    >) {
        let ghost all = self.bindings();
        let ghost start = stmt.accepted();
        match self.0.bind_to(1, stmt) {
            Ok(()) => {},
            Err(error) => {
                assert(stmt.accepted() =~= start + all.subrange(0, 0));
                return Err(error);
            },
        }
        assert(stmt.accepted() =~= start + all);
        Ok(())
    }
}

/// A tuple of two elements binds the first to the first placeholder and the second to the
/// second.
impl<A: ParameterTupleElement, B: ParameterTupleElement> ParameterCollectionRef for (A, B) {
    open spec fn set_size(&self) -> nat {
        1
    }

    open spec fn bindings(&self) -> Seq<Binding> {
        seq![element_binding(&self.0, 1), element_binding(&self.1, 2)]
    }

    proof fn lemma_binding_order(&self) {
    }

    fn parameter_set_size(&self) -> (size: usize) {
        1
    }

    fn bind_parameters_to<S: Statement>(&mut self, stmt: &mut Bindings<S>) -> (result: Result<
        (),
        Error,
    >) {
        let ghost all = self.bindings();
        let ghost start = stmt.accepted();
        match self.0.bind_to(1, stmt) {
            Ok(()) => {},
            Err(error) => {
                assert(stmt.accepted() =~= start + all.subrange(0, 0));
                return Err(error);
            },
        }
        match self.1.bind_to(2, stmt) {
            Ok(()) => {},
            Err(error) => {
                assert(stmt.accepted() =~= start + all.subrange(0, 1));
                return Err(error);
            },
        }
        assert(stmt.accepted() =~= start + all);
        Ok(())
    }
}

/// A tuple of three elements binds them from left to right to the placeholders one, two and
/// three.
impl<
    A: ParameterTupleElement,
    B: ParameterTupleElement,
    C: ParameterTupleElement,
> ParameterCollectionRef for (A, B, C) {
    open spec fn set_size(&self) -> nat {
        1
    }

    open spec fn bindings(&self) -> Seq<Binding> {
        seq![
            element_binding(&self.0, 1),
            element_binding(&self.1, 2),
            element_binding(&self.2, 3),
        ]
    }

    proof fn lemma_binding_order(&self) {
    }

    fn parameter_set_size(&self) -> (size: usize) {
        1
    }

    fn bind_parameters_to<S: Statement>(&mut self, stmt: &mut Bindings<S>) -> (result: Result<
        (),
        Error,
    >) {
        let ghost all = self.bindings();
        let ghost start = stmt.accepted();
        match self.0.bind_to(1, stmt) {
            Ok(()) => {},
            Err(error) => {
                assert(stmt.accepted() =~= start + all.subrange(0, 0));
                return Err(error);
            },
        }
        match self.1.bind_to(2, stmt) {
            Ok(()) => {},
            Err(error) => {
                assert(stmt.accepted() =~= start + all.subrange(0, 1));
                return Err(error);
            },
        }
        match self.2.bind_to(3, stmt) {
            Ok(()) => {},
            Err(error) => {
                assert(stmt.accepted() =~= start + all.subrange(0, 2));
                return Err(error);
            },
        }
        assert(stmt.accepted() =~= start + all);
        Ok(())
    }
}

} // verus!
