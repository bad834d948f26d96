//! What a statement and the values bound to it know of each other.
use crate::data_type::DataType;
use crate::error::{into_result, into_result_spec, DiagnosticRecord, Error};
use crate::parameter::{InputParameter, OutputParameter};
use odbc_sys::CDataType;
use vstd::prelude::*;

verus! {

/// A value whose buffer and indicator a statement can read.
pub trait CData {
    /// The element type of the buffer.
    spec fn bound_type(&self) -> CDataType;

    /// The bytes of the buffer.
    spec fn bound_value(&self) -> Seq<u8>;

    /// The indicator in its native encoding.
    spec fn bound_indicator(&self) -> int;

    /// The element type the buffer is bound as.
    fn cdata_type(&self) -> (c_data_type: CDataType)
        ensures
            c_data_type == self.bound_type(),
    ;

    /// The indicator in its native encoding, at the place where it is stored. A statement
    /// reads the length of the value there.
    fn indicator_ref(&self) -> (indicator: &isize)
        ensures
            *indicator == self.bound_indicator(),
    ;

    /// The buffer which holds the value. A statement reads the value there.
    fn value_ref(&self) -> (value: &[u8])
        ensures
            value@ == self.bound_value(),
    ;

    /// Length of the buffer in bytes: the most a statement may write to it. It is not the size
    /// of the value with its indicator, and so not the distance between two values which lie
    /// one behind the other.
    fn buffer_length(&self) -> (length: isize)
        requires
            self.bound_value().len() <= isize::MAX,
        ensures
            length == self.bound_value().len(),
    ;
}

/// A value whose buffer and indicator a statement can also write to.
pub trait CDataMut: CData {
    /// The place of the indicator, to write to. The value has afterwards the indicator that
    /// was left there, and the buffer it had.
    fn mut_indicator_ref(&mut self) -> (indicator: &mut isize)
        ensures
            *indicator == old(self).bound_indicator(),
            final(self).bound_indicator() == *final(indicator),
            final(self).bound_value() == old(self).bound_value(),
    ;

    /// The buffer, to write to. The value has afterwards the bytes that were left there, and
    /// the indicator it had.
    fn mut_value_ref(&mut self) -> (value: &mut [u8])
        ensures
            value@ == old(self).bound_value(),
            final(self).bound_value() == final(value)@,
            final(self).bound_indicator() == old(self).bound_indicator(),
    ;
}

/// A value which knows the relational type it stands for.
pub trait HasDataType {
    /// The relational type of the value.
    spec fn relational_type(&self) -> DataType;

    /// The relational type of the value.
    fn data_type(&self) -> (data_type: DataType)
        ensures
            data_type == self.relational_type(),
    ;
}

/// What a statement is handed with a parameter: the element type and the relational type it is
/// declared with, and what buffer and indicator hold when it is bound.
pub struct Surface {
    /// The element type of the buffer.
    pub c_data_type: CDataType,
    /// The relational type of the parameter.
    pub data_type: DataType,
    /// The bytes of the buffer. Their number is the buffer length that is declared.
    pub value: Seq<u8>,
    /// The indicator in its native encoding.
    pub indicator: int,
}

/// The surface of a parameter.
pub open spec fn surface<P: InputParameter + ?Sized>(parameter: &P) -> Surface {
    Surface {
        c_data_type: parameter.bound_type(),
        data_type: parameter.relational_type(),
        value: parameter.bound_value(),
        indicator: parameter.bound_indicator(),
    }
}

/// One parameter at its place in a statement.
pub struct Binding {
    /// The number of the placeholder, counted from one.
    pub position: u16,
    /// Whether the statement may write to the parameter.
    pub output: bool,
    /// What the statement has been handed.
    pub surface: Surface,
}

/// A call which a statement refused.
pub struct Refusal {
    /// The number of the placeholder of the call.
    pub position: u16,
    /// What the statement reported.
    pub record: DiagnosticRecord,
}

/// The target which parameters are bound to. What stands behind it decides whether a call
/// succeeds, so no outcome is promised: a caller has to be right whatever it is. What a call
/// is said to do, it is said to do by the statement's own account, [`Statement::answers`].
pub trait Statement {
    /// Whether a call which hands the statement `binding` can find it as `before`, leave it as
    /// `after` and answer with `outcome`. Each statement may say this of itself, and nothing is
    /// asked of what it says: of a statement which says nothing, whose calls may do anything,
    /// it holds always.
    open spec fn answers(
        before: &Self,
        after: &Self,
        binding: Binding,
        outcome: Result<(), DiagnosticRecord>,
    ) -> bool {
        true
    }

    /// Binds `parameter` as an input to the placeholder with the number `parameter_number`.
    fn bind_input_parameter<P: InputParameter + ?Sized>(
        &mut self,
        parameter_number: u16,
        parameter: &P,
    ) -> (outcome: Result<(), DiagnosticRecord>)
        requires
            parameter_number >= 1,
        ensures
            Self::answers(
                old(self),
                final(self),
                (Binding {
                    position: parameter_number,
                    output: false,
                    surface: surface(parameter),
                }),
                outcome,
            ),
    ;

    /// Binds `parameter` as an input and output to the placeholder with the number
    /// `parameter_number`. What the parameter holds after the statement wrote to it is for the
    /// caller to check.
    fn bind_parameter<P: OutputParameter>(
        &mut self,
        parameter_number: u16,
        parameter: &mut P,
    ) -> (outcome: Result<(), DiagnosticRecord>)
        requires
            parameter_number >= 1,
        ensures
            Self::answers(
                old(self),
                final(self),
                (Binding {
                    position: parameter_number,
                    output: true,
                    surface: surface(old(parameter)),
                }),
                outcome,
            ),
    ;
}

/// A mutable reference to a statement is a statement: a call finds and leaves the statement
/// behind the reference as the same call to that statement does, and gives its answer.
impl<S: Statement> Statement for &mut S {
    open spec fn answers(
        before: &Self,
        after: &Self,
        binding: Binding,
        outcome: Result<(), DiagnosticRecord>,
    ) -> bool {
        S::answers(&**before, &**after, binding, outcome)
    }

    fn bind_input_parameter<P: InputParameter + ?Sized>(
        &mut self,
        parameter_number: u16,
        parameter: &P,
    ) -> (outcome: Result<(), DiagnosticRecord>) {
        (**self).bind_input_parameter(parameter_number, parameter)
    }

    fn bind_parameter<P: OutputParameter>(
        &mut self,
        parameter_number: u16,
        parameter: &mut P,
    ) -> (outcome: Result<(), DiagnosticRecord>) {
        (**self).bind_parameter(parameter_number, parameter)
    }
}

/// A statement together with the record of what has been bound to it.
///
/// The record is kept by this type and not by the statement: it lists, in their order, the
/// calls made through this value, those which the statement reported as successful apart from
/// those which it refused.
pub struct Bindings<S: Statement> {
    statement: S,
    accepted: Ghost<Seq<Binding>>,
    refused: Ghost<Seq<Refusal>>,
}

impl<S: Statement> Bindings<S> {
    /// The parameters which the statement has accepted, in the order of the calls.
    pub closed spec fn accepted(&self) -> Seq<Binding> {
        self.accepted@
    }

    /// The calls which the statement has refused, in their order.
    pub closed spec fn refused(&self) -> Seq<Refusal> {
        self.refused@
    }

    /// The statement which the parameters are bound to.
    pub closed spec fn statement(&self) -> S {
        self.statement
    }

    /// Starts a record for `statement`, with nothing bound yet.
    pub fn new(statement: S) -> (bindings: Self)
        ensures
            bindings.statement() == statement,
            bindings.accepted() == Seq::<Binding>::empty(),
            bindings.refused() == Seq::<Refusal>::empty(),
    {
        Bindings { statement, accepted: Ghost(Seq::empty()), refused: Ghost(Seq::empty()) }
    }

    /// Gives the statement back, as the calls have left it.
    pub fn into_statement(self) -> (statement: S)
        ensures
            statement == self.statement(),
    {
        self.statement
    }

    /// What the record is after one call for the placeholder of `binding` to which the
    /// statement answered with `result`: one binding more if it succeeded, else one refusal
    /// more, with the diagnostics that the caller is handed.
    pub open spec fn recorded(
        before: &Self,
        after: &Self,
        binding: Binding,
        result: Result<(), Error>,
    ) -> bool {
        match result {
            Ok(()) => {
                &&& after.accepted() == before.accepted().push(binding)
                &&& after.refused() == before.refused()
            },
            Err(Error::Diagnostics { record }) => {
                &&& after.accepted() == before.accepted()
                &&& after.refused() == before.refused().push(
                    Refusal { position: binding.position, record },
                )
            },
        }
    }

    /// What the record is after the parameters `all` have been bound in their order, up to the
    /// first one which the statement refused, with `result` handed to the caller: all of them
    /// are bound if it is a success, else those in front of one of them, which was refused
    /// with the diagnostics that the caller is handed. Nothing was tried after it.
    pub open spec fn bound_in_order(
        before: &Self,
        after: &Self,
        all: Seq<Binding>,
        result: Result<(), Error>,
    ) -> bool {
        match result {
            Ok(()) => {
                &&& after.accepted() == before.accepted() + all
                &&& after.refused() == before.refused()
            },
            Err(Error::Diagnostics { record }) => exists|bound: int|
                {
                    &&& 0 <= bound < all.len()
                    &&& after.accepted() == before.accepted() + #[trigger] all.subrange(0, bound)
                    &&& after.refused() == before.refused().push(
                        Refusal { position: all[bound].position, record },
                    )
                },
        }
    }

    /// Notes what the statement answered to the call for `binding`, and wraps a failure.
    fn note(&mut self, Ghost(binding): Ghost<Binding>, outcome: Result<(), DiagnosticRecord>) -> (result:
        Result<(), Error>)
        ensures
            Self::recorded(old(self), final(self), binding, result),
            result == into_result_spec(outcome),
    {
        match outcome {
            Ok(()) => {
                self.accepted = Ghost(self.accepted@.push(binding));
            },
            Err(record) => {
                self.refused = Ghost(
                    self.refused@.push(Refusal { position: binding.position, record }),
                );
            },
        }
        into_result(outcome)
    }

    /// Binds `parameter` as an input to the placeholder `parameter_number`. The record grows
    /// by this binding if the statement accepts it, and by a refusal if not.
    pub fn bind_input_parameter<P: InputParameter + ?Sized>(
        &mut self,
        parameter_number: u16,
        parameter: &P,
    ) -> (result: Result<(), Error>)
        requires
            parameter_number >= 1,
        ensures
            Self::recorded(
                old(self),
                final(self),
                (Binding {
                    position: parameter_number,
                    output: false,
                    surface: surface(parameter),
                }),
                result,
            ),
    {
        let outcome = self.statement.bind_input_parameter(parameter_number, parameter);
        self.note(
            Ghost(
                Binding { position: parameter_number, output: false, surface: surface(parameter) },
            ),
            outcome,
        )
    }

    /// Binds `parameter` as an input and output to the placeholder `parameter_number`. The
    /// record grows by this binding, with what the parameter held before the call, if the
    /// statement accepts it, and by a refusal if not.
    pub fn bind_parameter<P: OutputParameter>(
        &mut self,
        parameter_number: u16,
        parameter: &mut P,
    ) -> (result: Result<(), Error>)
        requires
            parameter_number >= 1,
        ensures
            Self::recorded(
                old(self),
                final(self),
                (Binding {
                    position: parameter_number,
                    output: true,
                    surface: surface(old(parameter)),
                }),
                result,
            ),
    {
        let ghost before = surface(parameter);
        let outcome = self.statement.bind_parameter(parameter_number, parameter);
        self.note(
            Ghost(Binding { position: parameter_number, output: true, surface: before }),
            outcome,
        )
    }
}

} // verus!
