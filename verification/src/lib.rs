//! Variable-length cells for an indicator-and-buffer protocol, and the positional binding of
//! collections of such cells to a statement.
//!
//! A cell pairs a byte buffer of fixed capacity with an out-of-band indicator which tells the
//! true length of the value, that the value is missing, or that its length is unknown. The
//! modules, leaves first:
//!
//! * [`indicator`]: the indicator and its native encoding.
//! * [`data_type`]: the relational type a cell is declared as.
//! * [`error`]: what a caller is told when binding fails.
//! * [`kind`]: the text and binary policies.
//! * [`storage`]: the buffer shapes a cell can be built on.
//! * [`handles`]: what a statement and the values bound to it know of each other, and the
//!   record of what has been bound.
//! * [`varcell`]: the cell itself, its model and the laws of the model.
//! * [`parameter`]: which cells can be bound, and in which direction.
//! * [`parameter_collection`]: single values, slices and tuples as sets of parameters.
pub mod data_type;
pub mod error;
pub mod handles;
pub mod indicator;
pub mod kind;
pub mod parameter;
pub mod parameter_collection;
pub mod storage;
pub mod varcell;
