//! The two kinds of variable-length data: text and binary.
use crate::data_type::DataType;
use odbc_sys::CDataType;
use vstd::prelude::*;

verus! {

/// `odbc_sys::CDataType`, the codes by which a buffer's element type is declared when it is
/// bound. Declared with its variants, of which this crate names `Char` and `Binary`.
#[verifier::external_type_specification]
pub struct ExCDataType(CDataType);

/// A tag that tells different kinds of variadic buffers apart.
///
/// The number of terminating zeroes enters the arithmetic on buffer offsets and the C data type
/// is what a buffer is bound as, so both are fixed with the kind and a cell offers no way to
/// choose them apart from it.
pub trait VarKind {
    /// Number of terminating zeroes required for this kind of variadic buffer.
    spec fn zeroes() -> nat;

    /// The element type that buffers of this kind are bound as.
    spec fn c_type() -> CDataType;

    /// The relational type of a buffer of `length` bytes.
    spec fn relation(length: usize) -> DataType;

    /// No kind asks for more than one terminating zero.
    proof fn lemma_terminating_zeroes()
        ensures
            Self::zeroes() <= 1,
    ;

    /// Number of terminating zeroes required for this kind of variadic buffer.
    fn terminating_zeroes() -> (zeroes: usize)
        ensures
            zeroes == Self::zeroes(),
    ;

    /// The element type that buffers of this kind are bound as.
    fn c_data_type() -> (c_data_type: CDataType)
        ensures
            c_data_type == Self::c_type(),
    ;

    /// The relational type of a buffer of `length` bytes. The type carries the length of the
    /// whole buffer, so that it is right for a buffer that takes a value as well as for one
    /// that gives it.
    fn relational_type(length: usize) -> (data_type: DataType)
        ensures
            data_type == Self::relation(length),
            data_type.declared_length() == length,
    ;
}

/// Declares that a buffer holds narrow text, as opposed to wide UTF-16 text.
#[derive(Debug)]
pub struct Text;

impl VarKind for Text {
    open spec fn zeroes() -> nat {
        1
    }

    open spec fn c_type() -> CDataType {
        CDataType::Char
    }

    fn terminating_zeroes() -> (zeroes: usize) {
        1
    }

    fn c_data_type() -> (c_data_type: CDataType) {
        CDataType::Char
    }

    open spec fn relation(length: usize) -> DataType {
        DataType::Varchar { length }
    }

    proof fn lemma_terminating_zeroes() {
    }

    fn relational_type(length: usize) -> (data_type: DataType) {
        // The buffer may take a value, so the type has the full length of the buffer, with
        // nothing deducted for the terminating zero.
        DataType::Varchar { length }
    }
}

/// Declares that a buffer holds raw binary data.
#[derive(Debug)]
pub struct Binary;

impl VarKind for Binary {
    open spec fn zeroes() -> nat {
        0
    }

    open spec fn c_type() -> CDataType {
        CDataType::Binary
    }

    fn terminating_zeroes() -> (zeroes: usize) {
        0
    }

    fn c_data_type() -> (c_data_type: CDataType) {
        CDataType::Binary
    }

    open spec fn relation(length: usize) -> DataType {
        DataType::Varbinary { length }
    }

    proof fn lemma_terminating_zeroes() {
    }

    fn relational_type(length: usize) -> (data_type: DataType) {
        DataType::Varbinary { length }
    }
}

} // verus!
