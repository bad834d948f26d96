//! Which values can be bound to a statement, and in which direction.
use crate::handles::{CData, CDataMut, HasDataType};
use crate::kind::VarKind;
use crate::varcell::VarCell;
use vstd::prelude::*;

verus! {

/// A value which is certified as an element a statement can read from: one of a closed list of
/// cells, and not whatever can be read as bytes. A buffer which answered two reads with slices
/// of different lengths would have a statement read the one with the length of the other.
pub trait CElement: CData {

}

/// A value which can be bound as an input parameter.
pub trait InputParameter: HasDataType + CData {

}

impl<T: CElement + HasDataType> InputParameter for T {

}

/// A value which can be bound as an input and output parameter: a statement can write to it.
pub trait OutputParameter: CDataMut + HasDataType + InputParameter {

}

impl<K: VarKind> CElement for VarCell<&[u8], K> {

}

impl<const LENGTH: usize, K: VarKind> CElement for VarCell<[u8; LENGTH], K> {

}

impl<const LENGTH: usize, K: VarKind> OutputParameter for VarCell<[u8; LENGTH], K> {

}

impl<K: VarKind> CElement for VarCell<&mut [u8], K> {

}

impl<K: VarKind> OutputParameter for VarCell<&mut [u8], K> {

}

impl<K: VarKind> CElement for VarCell<Box<[u8]>, K> {

}

impl<K: VarKind> OutputParameter for VarCell<Box<[u8]>, K> {

}

} // verus!
