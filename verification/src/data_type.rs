//! The relational types under which a variable-length cell is declared to a data source.
use vstd::prelude::*;

verus! {

/// A relational type of variable length, with the length in bytes that it is declared with.
#[derive(Debug, Clone, Copy, PartialEq, Eq, Structural)]
pub enum DataType {
    /// Character data of variable length, `Varchar(length)`.
    Varchar {
        /// Largest length in bytes of a value of the type.
        length: usize,
    },
    /// Binary data of variable length, `Varbinary(length)`.
    Varbinary {
        /// Largest length in bytes of a value of the type.
        length: usize,
    },
}

impl DataType {
    /// The length in bytes that the type is declared with.
    pub open spec fn declared_length(self) -> nat {
        match self {
            DataType::Varchar { length } => length as nat,
            DataType::Varbinary { length } => length as nat,
        }
    }

    /// The length in bytes that the type is declared with. For a cell this is the size of its
    /// whole buffer, not that of the value in it.
    pub fn column_size(&self) -> (size: usize)
        ensures
            size == self.declared_length(),
    {
        match self {
            DataType::Varchar { length } => *length,
            DataType::Varbinary { length } => *length,
        }
    }
}

} // verus!
