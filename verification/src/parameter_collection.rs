//! Single values, slices and tuples as the parameters of a statement.
use crate::error::Error;
use crate::handles::{surface, Binding, Bindings, Statement};
use crate::parameter::{InputParameter, OutputParameter};
use vstd::prelude::*;

pub mod tuple;

pub use tuple::ParameterTupleElement;

verus! {

/// The bindings of the first `count` parameters of a slice: each element at the placeholder
/// whose number is one more than the index of the element.
pub open spec fn slice_bindings<T: InputParameter>(parameters: Seq<T>, count: int) -> Seq<Binding> {
    Seq::new(
        count as nat,
        |index: int|
            Binding {
                position: (index + 1) as u16,
                output: false,
                surface: surface(&parameters[index]),
            },
    )
}

/// Whether the bindings are numbered from one on, in their order.
pub open spec fn numbered_from_one(bindings: Seq<Binding>) -> bool {
    forall|index: int| 0 <= index < bindings.len() ==> (#[trigger] bindings[index]).position == index + 1
}

/// The number of the placeholder which the element with the index `index` is bound to.
pub fn parameter_number(index: usize) -> (number: u16)
    requires
        index < u16::MAX,
    ensures
        number == index + 1,
{
    index as u16 + 1
}

/// A collection of input parameters. They can be bound to a statement using a shared reference.
///
/// What is bound has to stay where it is for as long as the statement may read it. The
/// parameter set size must not be larger than the number of values behind each parameter.
pub trait InputParameterCollection {
    /// The number of values per parameter.
    spec fn set_size(&self) -> nat;

    /// What the statement is handed when all parameters are bound, in the order of the calls.
    spec fn bindings(&self) -> Seq<Binding>;

    /// The parameters are bound to the placeholders one, two, three and so on, in this order,
    /// and all of them as inputs.
    proof fn lemma_binding_order(&self)
        requires
            self.bindings().len() <= u16::MAX,
        ensures
            numbered_from_one(self.bindings()),
            forall|index: int|
                0 <= index < self.bindings().len() ==> !(#[trigger] self.bindings()[index]).output,
    ;

    /// Number of values per parameter in the collection. This can be different from the maximum
    /// batch size a buffer may be able to hold. Returning `0` will cause the the query not to
    /// be executed.
    fn parameter_set_size(&self) -> (size: usize)
        ensures
            size == self.set_size(),
    ;

    /// Binds the parameters to the statement, in their order. Stops at the first parameter
    /// which the statement refuses and hands on what it reported: the parameters before it
    /// stay bound, and the caller must not execute the statement without binding anew.
    fn bind_input_parameters_to<S: Statement>(&self, stmt: &mut Bindings<S>) -> (result: Result<
        (),
        Error,
    >)
        requires
            self.bindings().len() <= u16::MAX,
        ensures
            Bindings::bound_in_order(old(stmt), final(stmt), self.bindings(), result),
            self.bindings().len() == 0 ==> result is Ok,
    ;
}

/// A single parameter is bound to the first placeholder, with one value.
impl<T: InputParameter + ?Sized> InputParameterCollection for T {
    open spec fn set_size(&self) -> nat {
        1
    }

    open spec fn bindings(&self) -> Seq<Binding> {
        seq![Binding { position: 1, output: false, surface: surface(self) }]
    }

    proof fn lemma_binding_order(&self) {
    }

    fn parameter_set_size(&self) -> (size: usize) {
        1
    }

    fn bind_input_parameters_to<S: Statement>(&self, stmt: &mut Bindings<S>) -> (result: Result<
        (),
        Error,
    >) {
        let result = stmt.bind_input_parameter(1, self);
        proof {
            let all = self.bindings();
            assert(old(stmt).accepted().push(all[0]) =~= old(stmt).accepted() + all);
            assert(old(stmt).accepted() =~= old(stmt).accepted() + all.subrange(0, 0));
        }
        result
    }
}

/// The elements of a slice are bound one after the other, each to a placeholder of its own.
/// They are the values of one parameter, so the size of the set is their number, and an empty
/// slice tells the caller not to execute the statement.
impl<T: InputParameter> InputParameterCollection for [T] {
    open spec fn set_size(&self) -> nat {
        self@.len()
    }

    open spec fn bindings(&self) -> Seq<Binding> {
        slice_bindings(self@, self@.len() as int)
    }

    proof fn lemma_binding_order(&self) {
    }

    fn parameter_set_size(&self) -> (size: usize) {
        self.len()
    }

    fn bind_input_parameters_to<S: Statement>(&self, stmt: &mut Bindings<S>) -> (result: Result<
        (),
        Error,
    >) {
        let mut index: usize = 0;
        while index < self.len()
            invariant
                index <= self@.len() <= u16::MAX,
                stmt.accepted() == old(stmt).accepted() + slice_bindings(self@, index as int),
                stmt.refused() == old(stmt).refused(),
            decreases self@.len() - index,
        {
            match stmt.bind_input_parameter(parameter_number(index), &self[index]) {
                Ok(()) => {},
                Err(error) => {
                    proof {
                        assert(self.bindings().subrange(0, index as int) =~= slice_bindings(
                            self@,
                            index as int,
                        ));
                    }
                    return Err(error);
                },
            }
            proof {
                assert(slice_bindings(self@, index + 1) =~= slice_bindings(self@, index as int).push(
                    self.bindings()[index as int],
                ));
                assert(stmt.accepted() =~= old(stmt).accepted() + slice_bindings(self@, index + 1));
            }
            index += 1;
        }
        Ok(())
    }
}

/// Parameters used to execute a query.
///
/// A statement has a placeholder for each parameter, and each placeholder needs a parameter
/// bound to it before the statement is executed. This trait is implemented by references to
/// single parameters and to slices of them, by tuples of parameters, and by mutable references
/// to parameters which a statement writes to.
///
/// Instances are passed by value, so the trait can be implemented by shared and by mutable
/// references. What is bound has to live for as long as the statement may use it.
pub trait ParameterCollectionRef {
    /// The number of values per parameter.
    spec fn set_size(&self) -> nat;

    /// What the statement is handed when all parameters are bound, in the order of the calls.
    spec fn bindings(&self) -> Seq<Binding>;

    /// The parameters are bound to the placeholders one, two, three and so on, in this order.
    proof fn lemma_binding_order(&self)
        requires
            self.bindings().len() <= u16::MAX,
        ensures
            numbered_from_one(self.bindings()),
    ;

    /// Number of values per parameter in the collection. This can be different from the maximum
    /// batch size a buffer may be able to hold. Returning `0` will cause the the query not to
    /// be executed.
    fn parameter_set_size(&self) -> (size: usize)
        ensures
            size == self.set_size(),
    ;

    /// Binds the parameters to the statement, in their order. Stops at the first parameter
    /// which the statement refuses and hands on what it reported: the parameters before it
    /// stay bound, and the caller must not execute the statement without binding anew.
    fn bind_parameters_to<S: Statement>(&mut self, stmt: &mut Bindings<S>) -> (result: Result<
        (),
        Error,
    >)
        requires
            old(self).bindings().len() <= u16::MAX,
        ensures
            Bindings::bound_in_order(old(stmt), final(stmt), old(self).bindings(), result),
            old(self).bindings().len() == 0 ==> result is Ok,
    ;
}

/// A shared reference to a collection of inputs binds what the collection binds.
impl<T: InputParameterCollection + ?Sized> ParameterCollectionRef for &T {
    open spec fn set_size(&self) -> nat {
        (**self).set_size()
    }

    open spec fn bindings(&self) -> Seq<Binding> {
        (**self).bindings()
    }

    proof fn lemma_binding_order(&self) {
        (**self).lemma_binding_order();
    }

    fn parameter_set_size(&self) -> (size: usize) {
        (**self).parameter_set_size()
    }

    fn bind_parameters_to<S: Statement>(&mut self, stmt: &mut Bindings<S>) -> (result: Result<
        (),
        Error,
    >) {
        (**self).bind_input_parameters_to(stmt)
    }
}

/// A parameter which a statement writes to is bound through a mutable reference, to the first
/// placeholder and with one value, so that the caller finds in it what the statement wrote.
impl<T: OutputParameter> ParameterCollectionRef for &mut T {
    open spec fn set_size(&self) -> nat {
        1
    }

    open spec fn bindings(&self) -> Seq<Binding> {
        seq![Binding { position: 1, output: true, surface: surface(&**self) }]
    }

    proof fn lemma_binding_order(&self) {
    }

    fn parameter_set_size(&self) -> (size: usize) {
        1
    }

    fn bind_parameters_to<S: Statement>(&mut self, stmt: &mut Bindings<S>) -> (result: Result<
        (),
        Error,
    >) {
        let result = stmt.bind_parameter(1, &mut **self);
        proof {
            let all = old(self).bindings();
            assert(old(stmt).accepted().push(all[0]) =~= old(stmt).accepted() + all);
            assert(old(stmt).accepted() =~= old(stmt).accepted() + all.subrange(0, 0));
        }
        result
    }
}

/// The elements of a slice are bound in ascending order, one to each placeholder: the element
/// with the index `index` is what the placeholder `index + 1` has been handed, and there are as
/// many bindings as elements.
pub proof fn lemma_slice_binding_order<T: InputParameter>(parameters: Seq<T>)
    requires
        parameters.len() <= u16::MAX,
    ensures
        slice_bindings(parameters, parameters.len() as int).len() == parameters.len(),
        forall|index: int|
            0 <= index < parameters.len() ==> #[trigger] slice_bindings(
                parameters,
                parameters.len() as int,
            )[index] == (Binding {
                position: (index + 1) as u16,
                output: false,
                surface: surface(&parameters[index]),
            }),
        numbered_from_one(slice_bindings(parameters, parameters.len() as int)),
{
}

} // verus!
