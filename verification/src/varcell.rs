//! A buffer of variable-length data together with its indicator.
use crate::data_type::DataType;
use crate::handles::{CData, CDataMut, HasDataType};
use crate::indicator::Indicator;
use crate::kind::{Binary, Text, VarKind};
use crate::storage::{Storage, StorageMut};
use core::marker::PhantomData;
use odbc_sys::CDataType;
use vstd::prelude::*;

verus! {

/// Whether `buffer` holds at least `number_of_zeroes` bytes and its last `number_of_zeroes`
/// bytes are all zero.
pub open spec fn closes_with_zeroes(buffer: Seq<u8>, number_of_zeroes: nat) -> bool {
    &&& buffer.len() >= number_of_zeroes
    &&& forall|i: int| buffer.len() - number_of_zeroes <= i < buffer.len() ==> buffer[i] == 0
}

/// What a buffer of `capacity` bytes holds once `input` has been stored in it: all of `input`
/// followed by zeroes where it fits, else its first `capacity` bytes with a zero in place of the
/// last of them.
pub open spec fn stored(input: Seq<u8>, capacity: nat) -> Seq<u8> {
    Seq::new(
        capacity,
        |i: int|
            if i < input.len() && !(input.len() > capacity && i == capacity - 1) {
                input[i]
            } else {
                0u8
            },
    )
}

/// The state of a cell: the bytes of its buffer and its indicator.
pub struct CellView {
    /// The bytes of the buffer, terminating zeroes included.
    pub buffer: Seq<u8>,
    /// Length or state of the value.
    pub indicator: Indicator,
}

impl CellView {
    /// The invariant of a cell whose kind asks for `zeroes` terminating zeroes: a value that
    /// does not fit into the buffer is terminated with zeroes, so that a reader which ignores
    /// the indicator never runs past the end of the buffer. Indicator and capacity both have a
    /// native encoding.
    pub open spec fn wf(self, zeroes: nat) -> bool {
        &&& self.buffer.len() <= isize::MAX
        &&& self.indicator.encodable()
        &&& self.indicator.truncated(self.buffer.len()) ==> closes_with_zeroes(self.buffer, zeroes)
    }

    /// The largest length of a value the buffer can hold in full. A buffer that closes with the
    /// terminating zeroes is taken to hold them as a terminator, not as part of the value.
    pub open spec fn usable_length(self, zeroes: nat) -> nat {
        if closes_with_zeroes(self.buffer, zeroes) {
            (self.buffer.len() - zeroes) as nat
        } else {
            self.buffer.len()
        }
    }

    /// Whether the buffer holds the whole value.
    pub open spec fn complete(self, zeroes: nat) -> bool {
        !self.indicator.truncated(self.usable_length(zeroes))
    }

    /// The number of bytes of the value that the buffer holds: all of them if the value is
    /// complete, else as many as fit in front of the terminating zeroes.
    pub open spec fn stored_length(self, zeroes: nat) -> int {
        match self.indicator {
            Indicator::Length(len) if self.complete(zeroes) => len as int,
            _ => self.buffer.len() - zeroes,
        }
    }

    /// The part of the value that the buffer holds, or `None` for a missing value.
    pub open spec fn payload(self, zeroes: nat) -> Option<Seq<u8>> {
        if self.indicator is Null {
            None
        } else {
            Some(self.buffer.subrange(0, self.stored_length(zeroes)))
        }
    }

    /// The state in which what the buffer holds is the whole value: a complete cell as it is, a
    /// truncated one with the length of its payload as indicator.
    pub open spec fn hidden(self, zeroes: nat) -> CellView {
        if self.complete(zeroes) {
            self
        } else {
            CellView {
                buffer: self.buffer,
                indicator: Indicator::Length((self.buffer.len() - zeroes) as usize),
            }
        }
    }
}

/// Binds a byte array as variadic sized character or binary data. It can not be used for
/// columnar bulk fetches, but if the buffer type is stack allocated it can be utilized in row
/// wise bulk fetches.
///
/// Meaningful instantiations of this type are:
///
/// * [`VarCharSlice`] - immutable borrowed parameter.
/// * [`VarCharSliceMut`] - mutable borrowed input / output parameter
/// * [`VarCharArray`] - stack allocated owned input / output parameter
/// * [`VarCharBox`] - heap allocated owned input /output parameter
/// * [`VarBinarySlice`] - immutable borrowed parameter.
/// * [`VarBinarySliceMut`] - mutable borrowed input / output parameter
/// * [`VarBinaryArray`] - stack allocated owned input / output parameter
/// * [`VarBinaryBox`] - heap allocated owned input /output parameter
#[derive(Debug)]
pub struct VarCell<B: Storage, K: VarKind> {
    /// Contains the value. Characters must be valid up to the index indicated by `indicator`. If
    /// `indicator` is longer than buffer, the last element in buffer must be a terminating zero,
    /// which is not regarded as being part of the payload itself.
    buffer: B,
    /// Indicates the length of the value stored in `buffer`. Should indicator exceed the buffer
    /// length the value stored in buffer is truncated, and holds actually `buffer.len() - 1`
    /// valid characters. The last element of the buffer being the terminating zero. If
    /// indicator is exactly the buffer length, the value should be considered valid up to the
    /// last element, unless the value is `\0`. In that case we assume `\0` to be a terminating
    /// zero left over from truncation, rather than the last character of the string.
    indicator: isize,
    /// Variadic Kind, declaring wether the buffer holds text or binary data.
    kind: PhantomData<K>,
}

/// A cell of binary data.
pub type VarBinary<B> = VarCell<B, Binary>;

/// A cell of narrow text.
pub type VarChar<B> = VarCell<B, Text>;

/// Parameter type for owned, variable sized character data.
///
/// We use `Box<[u8]>` rather than `Vec<u8>` as a buffer type since the indicator already has
/// the role of telling us how many bytes in the buffer are part of the payload.
pub type VarCharBox = VarChar<Box<[u8]>>;

/// Parameter type for owned, variable sized binary data.
///
/// We use `Box<[u8]>` rather than `Vec<u8>` as a buffer type since the indicator already has
/// the role of telling us how many bytes in the buffer are part of the payload.
pub type VarBinaryBox = VarBinary<Box<[u8]>>;

/// Binds a byte array as a VarChar input parameter.
///
/// While a byte array can provide us with a pointer to the start of the array and the length of
/// the array itself, it can not provide us with a pointer to the length of the buffer. So to
/// bind strings which are not zero terminated we need to store the length in a separate value.
pub type VarCharSlice<'a> = VarChar<&'a [u8]>;

/// Binds a byte array as a variadic binary input parameter.
///
/// While a byte array can provide us with a pointer to the start of the array and the length of
/// the array itself, it can not provide us with a pointer to the length of the buffer. So to
/// bind byte slices (`&[u8]`) we need to store the length in a separate value.
pub type VarBinarySlice<'a> = VarBinary<&'a [u8]>;

/// Wraps a slice so it can be used as an output parameter for character data.
pub type VarCharSliceMut<'a> = VarChar<&'a mut [u8]>;

/// Wraps a slice so it can be used as an output parameter for binary data.
pub type VarBinarySliceMut<'a> = VarBinary<&'a mut [u8]>;

/// A stack allocated VARCHAR type.
///
/// Due to its memory layout this type can be bound either as a single parameter, or as a column
/// of a row-by-row output, but not be used in columnar parameter arrays or output buffers.
pub type VarCharArray<const LENGTH: usize> = VarChar<[u8; LENGTH]>;

/// A stack allocated VARBINARY type.
///
/// Due to its memory layout this type can be bound either as a single parameter, or as a column
/// of a row-by-row output, but not be used in columnar parameter arrays or output buffers.
pub type VarBinaryArray<const LENGTH: usize> = VarBinary<[u8; LENGTH]>;

impl<B: Storage, K: VarKind> View for VarCell<B, K> {
    type V = CellView;

    /// The bytes of the buffer, and the indicator which the native value encodes.
    open spec fn view(&self) -> CellView {
        CellView { buffer: self.bytes(), indicator: Indicator::of_native(self.native()) }
    }
}

/// `String::into_bytes`: the bytes handed out are the UTF-8 encoding of the string.
pub assume_specification[ String::into_bytes ](text: String) -> (bytes: Vec<u8>)
    ensures
        bytes@ == vstd::utf8::encode_utf8(text@),
;

/// Calls `Vec::into_boxed_slice`: the boxed slice holds the bytes of the vector, in their
/// order.
#[verifier::external_body]
fn into_boxed_slice(bytes: Vec<u8>) -> (boxed: Box<[u8]>)
    ensures
        boxed@ == bytes@,
{
    bytes.into_boxed_slice()
}

impl<K: VarKind> VarCell<Box<[u8]>, K> {
    /// Constructs a 'missing' value.
    pub fn null() -> (cell: Self)
        ensures
            cell@ == (CellView { buffer: seq![0u8], indicator: Indicator::Null }),
            cell.wf(),
    {
        // We do not want to use the empty buffer (`&[]`) here. It would be bound as
        // `VARCHAR(0)` which caused errors with Microsoft Access and older versions of the
        // Microsoft SQL Server ODBC driver.
        let buffer: Box<[u8]> = Box::new([0u8]);
        assert(buffer.bytes() =~= seq![0u8]);
        Self::from_buffer(buffer, Indicator::Null)
    }

    /// Create an owned parameter containing the character data from the passed string.
    pub fn from_string(val: String) -> (cell: Self)
        requires
            vstd::utf8::encode_utf8(val@).len() <= isize::MAX,
        ensures
            cell@ == (CellView {
                buffer: vstd::utf8::encode_utf8(val@),
                indicator: Indicator::Length(vstd::utf8::encode_utf8(val@).len() as usize),
            }),
            cell.wf(),
    {
        Self::from_vec(val.into_bytes())
    }

    /// Create a VarChar box from a `Vec`.
    pub fn from_vec(val: Vec<u8>) -> (cell: Self)
        requires
            val@.len() <= isize::MAX,
        ensures
            cell@ == (CellView { buffer: val@, indicator: Indicator::Length(val@.len() as usize) }),
            cell.wf(),
    {
        let indicator = Indicator::Length(val.len());
        let buffer = into_boxed_slice(val);
        Self::from_buffer(buffer, indicator)
    }
}

impl<B: Storage, K: VarKind> VarCell<B, K> {
    /// The bytes of the buffer, terminating zeroes included.
    pub closed spec fn bytes(&self) -> Seq<u8> {
        self.buffer.bytes()
    }

    /// The indicator as the cell stores it, in its native encoding.
    pub closed spec fn native(&self) -> int {
        self.indicator as int
    }

    /// The invariant of a cell: the stored indicator is the native encoding of an indicator,
    /// and a value which does not fit into the buffer is terminated with the zeroes of the
    /// kind. Every constructor establishes it and `hide_truncation` keeps it. Only what is
    /// written through [`CDataMut::mut_indicator_ref`] or [`CDataMut::mut_value_ref`] can break
    /// it.
    pub open spec fn wf(&self) -> bool {
        &&& Indicator::is_native(self.native())
        &&& self@.wf(K::zeroes())
    }

    /// The stored indicator is a native value, and it is the encoding of the indicator of a
    /// valid cell.
    pub proof fn lemma_native(&self)
        ensures
            isize::MIN <= self.native() <= isize::MAX,
            self.wf() ==> self.native() == self@.indicator.native(),
    {
    }

    /// Creates a new instance from an existing buffer. For text should the indicator be
    /// `NoTotal` or indicate a length longer than buffer, the last element in the buffer must
    /// be nul (`\0`).
    pub fn from_buffer(buffer: B, indicator: Indicator) -> (cell: Self)
        requires
            (CellView { buffer: buffer.bytes(), indicator }).wf(K::zeroes()),
        ensures
            cell@ == (CellView { buffer: buffer.bytes(), indicator }),
            cell.native() == indicator.native(),
            cell.wf(),
    {
        Self { buffer, indicator: indicator.to_isize(), kind: PhantomData }
    }

    /// Creates a new instance from an existing buffer, unless buffer and indicator contradict
    /// each other: the indicator tells of a value which does not fit into the buffer, and the
    /// buffer does not close with the terminating zeroes of its kind. A native reader would
    /// walk past the end of such a buffer in search of a terminator. A length or capacity
    /// without native encoding is refused, too.
    pub fn try_from_buffer(buffer: B, indicator: Indicator) -> (cell: Option<Self>)
        ensures
            cell is Some <==> (CellView { buffer: buffer.bytes(), indicator }).wf(
                K::zeroes(),
            ),
            cell matches Some(cell) ==> cell.wf() && cell@ == (CellView {
                buffer: buffer.bytes(),
                indicator,
            }),
    {
        let limit: usize = isize::MAX as usize;
        let buf = buffer.as_slice();
        if buf.len() > limit {
            return None;
        }
        if let Indicator::Length(len) = indicator {
            if len > limit {
                return None;
            }
        }
        if indicator.is_truncated(buf.len()) {
            // Value is truncated. Let's check that all required terminating zeroes are at the
            // end of the buffer.
            if !ends_in_zeroes(buf, K::terminating_zeroes()) {
                return None;
            }
        }
        Some(Self::from_buffer(buffer, indicator))
    }

    /// Valid payload of the buffer (excluding terminating zeroes) returned as slice or `None`
    /// in case the indicator is `NULL_DATA`.
    pub fn as_bytes(&self) -> (payload: Option<&[u8]>)
        requires
            self.wf(),
        ensures
            match payload {
                Some(bytes) => self@.payload(K::zeroes()) == Some(bytes@),
                None => self@.payload(K::zeroes()) is None,
            },
            payload is None <==> self@.indicator is Null,
    {
        let slice = self.buffer.as_slice();
        match self.indicator() {
            Indicator::Null => None,
            Indicator::NoTotal => Some(&slice[0..(slice.len() - K::terminating_zeroes())]),
            Indicator::Length(len) => {
                if self.is_complete() {
                    Some(&slice[0..len])
                } else {
                    Some(&slice[0..(slice.len() - K::terminating_zeroes())])
                }
            },
        }
    }

    /// Call this method to ensure that the entire field content did fit into the buffer. While
    /// it is false, more of the value can be read into the same or a larger buffer: an
    /// incomplete value is the expected outcome of a buffer too small, not a failure.
    pub fn is_complete(&self) -> (complete: bool)
        requires
            self.wf(),
        ensures
            complete == self@.complete(K::zeroes()),
    {
        let slice = self.buffer.as_slice();
        let max_value_length = if ends_in_zeroes(slice, K::terminating_zeroes()) {
            slice.len() - K::terminating_zeroes()
        } else {
            slice.len()
        };
        !self.indicator().is_truncated(max_value_length)
    }

    /// Read access to the underlying ODBC indicator. After data has been fetched the indicator
    /// value is set to the length the buffer should have had to hold the entire value. It may
    /// also be [`Indicator::Null`] to indicate `NULL` or [`Indicator::NoTotal`] which tells us
    /// the data source does not know how big the buffer must be to hold the complete value.
    /// [`Indicator::NoTotal`] implies that the content of the current buffer is valid up to its
    /// maximum capacity.
    pub fn indicator(&self) -> (indicator: Indicator)
        requires
            self.wf(),
        ensures
            indicator == self@.indicator,
    {
        Indicator::from_isize(self.indicator)
    }

    /// The payload in bytes the buffer can hold including terminating zeroes
    pub fn capacity(&self) -> (capacity: usize)
        ensures
            capacity == self@.buffer.len(),
    {
        self.buffer.as_slice().len()
    }

    /// Call this method to reset the indicator to a value which matches the length returned by
    /// the [`Self::as_bytes`] method. This is useful if you want to insert values into the
    /// database despite the fact, that they might have been truncated. Otherwise the behaviour
    /// of databases in this situation is driver specific. Some drivers insert up to the
    /// terminating zero, others detect the truncation and throw an error.
    pub fn hide_truncation(&mut self)
        requires
            old(self).wf(),
        ensures
            final(self)@ == old(self)@.hidden(K::zeroes()),
            final(self).wf(),
    {
        if !self.is_complete() {
            let length = self.buffer.as_slice().len() - K::terminating_zeroes();
            self.indicator = length as isize;
        }
    }

    /// Whether the cell upholds its invariant. A cell does so from its construction on. After
    /// something has been written through [`CDataMut::mut_indicator_ref`] or
    /// [`CDataMut::mut_value_ref`], this tells whether the cell can be inspected again.
    pub fn is_valid(&self) -> (valid: bool)
        ensures
            valid == self.wf(),
    {
        let limit: usize = isize::MAX as usize;
        let buf = self.buffer.as_slice();
        if buf.len() > limit || !Indicator::is_native_value(self.indicator) {
            return false;
        }
        let indicator = Indicator::from_isize(self.indicator);
        !indicator.is_truncated(buf.len()) || ends_in_zeroes(buf, K::terminating_zeroes())
    }
}

impl<'a, K: VarKind> VarCell<&'a [u8], K> {
    /// Indicates missing data
    pub fn null() -> (cell: Self)
        ensures
            cell@ == (CellView { buffer: seq![0u8], indicator: Indicator::Null }),
            cell.wf(),
    {
        // We do not want to use the empty buffer (`&[]`) here. It would be bound as
        // `VARCHAR(0)` which caused errors with Microsoft Access and older versions of the
        // Microsoft SQL Server ODBC driver.
        let buffer: &'a [u8] = &[0u8];
        assert(buffer.bytes() =~= seq![0u8]);
        Self::from_buffer(buffer, Indicator::Null)
    }

    /// Constructs a new VarChar containing the text in the specified buffer.
    ///
    /// Caveat: This constructor is going to create a truncated value in case the input slice
    /// ends with `nul`. Should you want to insert an actual string those payload ends with
    /// `nul` into the database you need a buffer one byte longer than the string. You can
    /// instantiate such a value using [`Self::from_buffer`].
    pub fn new(value: &'a [u8]) -> (cell: Self)
        requires
            value@.len() <= isize::MAX,
        ensures
            cell@ == (CellView {
                buffer: value@,
                indicator: Indicator::Length(value@.len() as usize),
            }),
            cell.wf(),
    {
        Self::from_buffer(value, Indicator::Length(value.len()))
    }
}

impl<const LENGTH: usize, K: VarKind> VarCell<[u8; LENGTH], K> {
    /// Indicates a missing value.
    pub fn null() -> (cell: Self)
        requires
            LENGTH <= isize::MAX,
        ensures
            cell@ == (CellView { buffer: stored(Seq::empty(), LENGTH as nat), indicator: Indicator::Null }),
            cell.wf(),
    {
        let buffer = [0u8;LENGTH];
        assert(buffer@ =~= stored(Seq::empty(), LENGTH as nat));
        Self::from_buffer(buffer, Indicator::Null)
    }

    /// Construct from a slice. If value is longer than `LENGTH` it will be truncated. In that
    /// case the last byte will be set to `0`.
    pub fn new(bytes: &[u8]) -> (cell: Self)
        requires
            LENGTH <= isize::MAX,
            bytes@.len() <= isize::MAX,
            bytes@.len() > LENGTH ==> LENGTH > 0,
        ensures
            cell@ == (CellView {
                buffer: stored(bytes@, LENGTH as nat),
                indicator: Indicator::Length(bytes@.len() as usize),
            }),
            cell.wf(),
    {
        let indicator = Indicator::Length(bytes.len());
        let mut buffer = [0u8;LENGTH];
        let copied = if bytes.len() > LENGTH {
            LENGTH - 1
        } else {
            bytes.len()
        };
        let mut i: usize = 0;
        while i < copied
            invariant
                i <= copied <= LENGTH,
                copied <= bytes@.len(),
                forall|j: int| 0 <= j < i ==> buffer@[j] == bytes@[j],
                forall|j: int| i <= j < LENGTH ==> buffer@[j] == 0,
            decreases copied - i,
        {
            buffer[i] = bytes[i];
            i += 1;
        }
        proof {
            K::lemma_terminating_zeroes();
            assert(buffer@ =~= stored(bytes@, LENGTH as nat));
        }
        Self::from_buffer(buffer, indicator)
    }
}

/// Figures out, wether or not the buffer ends with a fixed number of zeroes.
pub fn ends_in_zeroes(buffer: &[u8], number_of_zeroes: usize) -> (ends: bool)
    ensures
        ends == closes_with_zeroes(buffer@, number_of_zeroes as nat),
{
    let len = buffer.len();
    if len < number_of_zeroes {
        return false;
    }
    let mut checked: usize = 0;
    while checked < number_of_zeroes
        invariant
            checked <= number_of_zeroes <= len,
            len == buffer@.len(),
            forall|i: int| len - checked <= i < len ==> buffer@[i] == 0,
        decreases number_of_zeroes - checked,
    {
        if buffer[len - 1 - checked] != 0 {
            return false;
        }
        checked += 1;
    }
    true
}

} // verus!

verus! {

/// A cell made of the bytes of an owned value and of their number gives the value back and is
/// complete, whatever the kind, unless the kind asks for terminating zeroes and the value closes
/// with them: such a value cannot be told from a truncated one.
pub proof fn lemma_owned_round_trip<K: VarKind>(value: Seq<u8>)
    requires
        value.len() <= isize::MAX,
        K::zeroes() == 0 || !closes_with_zeroes(value, K::zeroes()),
    ensures
        ({
            let cell = CellView { buffer: value, indicator: Indicator::Length(value.len() as usize) };
            &&& cell.wf(K::zeroes())
            &&& cell.complete(K::zeroes())
            &&& cell.payload(K::zeroes()) == Some(value)
        }),
{
    let cell = CellView { buffer: value, indicator: Indicator::Length(value.len() as usize) };
    assert(cell.buffer.subrange(0, value.len() as int) =~= value);
}

/// A cell of text made of a value which ends in a zero byte, and of the number of its bytes,
/// takes that byte for a terminator: it reports itself as truncated and gives the value
/// without its last byte.
pub proof fn lemma_owned_text_closing_with_zero(value: Seq<u8>)
    requires
        0 < value.len() <= isize::MAX,
        value.last() == 0,
    ensures
        ({
            let cell = CellView { buffer: value, indicator: Indicator::Length(value.len() as usize) };
            &&& cell.wf(1)
            &&& !cell.complete(1)
            &&& cell.payload(1) == Some(value.drop_last())
        }),
{
}

/// A missing value has no payload and is complete, whatever its buffer holds.
pub proof fn lemma_null_has_no_payload(buffer: Seq<u8>, zeroes: nat)
    ensures
        ({
            let cell = CellView { buffer, indicator: Indicator::Null };
            &&& cell.payload(zeroes) is None
            &&& cell.complete(zeroes)
            &&& (buffer.len() <= isize::MAX ==> cell.wf(zeroes))
        }),
{
}

/// A buffer of `capacity` bytes which has been filled from a longer input has a zero for its
/// last byte, reports the value as truncated, and holds `capacity` bytes less the terminating
/// zeroes of the kind. They are the first bytes of the input, but for the last byte of a
/// binary buffer, which the zero has replaced: the input must have had a zero there.
pub proof fn lemma_truncated_input<K: VarKind>(input: Seq<u8>, capacity: nat)
    requires
        0 < capacity < input.len() <= isize::MAX,
        K::zeroes() == 1 || input[capacity - 1] == 0,
    ensures
        ({
            let cell = CellView {
                buffer: stored(input, capacity),
                indicator: Indicator::Length(input.len() as usize),
            };
            &&& cell.buffer.len() == capacity
            &&& cell.buffer.last() == 0
            &&& cell.wf(K::zeroes())
            &&& !cell.complete(K::zeroes())
            &&& cell.payload(K::zeroes()) == Some(
                input.subrange(0, capacity - K::zeroes()),
            )
        }),
{
    K::lemma_terminating_zeroes();
    let cell = CellView {
        buffer: stored(input, capacity),
        indicator: Indicator::Length(input.len() as usize),
    };
    assert(closes_with_zeroes(cell.buffer, K::zeroes()));
    assert(cell.buffer.subrange(0, capacity - K::zeroes()) =~= input.subrange(
        0,
        capacity - K::zeroes(),
    ));
}

/// Whatever the kind and whatever the input holds, a buffer filled from a longer input gives
/// `capacity` bytes less the terminating zeroes, and each of them but the last byte of the
/// buffer is the byte of the input at its place.
pub proof fn lemma_truncated_input_prefix<K: VarKind>(input: Seq<u8>, capacity: nat)
    requires
        0 < capacity < input.len() <= isize::MAX,
    ensures
        ({
            let cell = CellView {
                buffer: stored(input, capacity),
                indicator: Indicator::Length(input.len() as usize),
            };
            let payload = cell.payload(K::zeroes()).unwrap();
            &&& !cell.complete(K::zeroes())
            &&& cell.payload(K::zeroes()) is Some
            &&& payload.len() == capacity - K::zeroes()
            &&& forall|i: int| 0 <= i < payload.len() && i < capacity - 1 ==> payload[i] == input[i]
        }),
{
    K::lemma_terminating_zeroes();
    let cell = CellView {
        buffer: stored(input, capacity),
        indicator: Indicator::Length(input.len() as usize),
    };
    assert(closes_with_zeroes(cell.buffer, K::zeroes()));
}

/// A buffer filled to its last byte by an input which does not end in zero holds the whole
/// value: the cell is complete and gives all the bytes of the input.
pub proof fn lemma_exactly_full<K: VarKind>(input: Seq<u8>)
    requires
        0 < input.len() <= isize::MAX,
        input.last() != 0,
    ensures
        ({
            let cell = CellView {
                buffer: stored(input, input.len()),
                indicator: Indicator::Length(input.len() as usize),
            };
            &&& cell.buffer == input
            &&& cell.wf(K::zeroes())
            &&& cell.complete(K::zeroes())
            &&& cell.payload(K::zeroes()) == Some(input)
        }),
{
    K::lemma_terminating_zeroes();
    assert(stored(input, input.len()) =~= input);
    assert(input.subrange(0, input.len() as int) =~= input);
    if K::zeroes() == 1 {
        assert(input[input.len() - 1] != 0);
    }
}

/// Hiding the truncation of a complete cell changes nothing.
pub proof fn lemma_hide_complete(cell: CellView, zeroes: nat)
    requires
        cell.complete(zeroes),
    ensures
        cell.hidden(zeroes) == cell,
{
}

/// Hiding the truncation twice is hiding it once. What comes of it is a valid and complete
/// cell, with the payload that the cell had before.
pub proof fn lemma_hide_idempotent(cell: CellView, zeroes: nat)
    requires
        cell.wf(zeroes),
    ensures
        cell.hidden(zeroes).hidden(zeroes) == cell.hidden(zeroes),
        cell.hidden(zeroes).wf(zeroes),
        cell.hidden(zeroes).complete(zeroes),
        cell.hidden(zeroes).payload(zeroes) == cell.payload(zeroes),
        cell.hidden(zeroes).buffer == cell.buffer,
{
}

} // verus!

verus! {

impl<B: Storage, K: VarKind> CData for VarCell<B, K> {
    open spec fn bound_type(&self) -> CDataType {
        K::c_type()
    }

    open spec fn bound_value(&self) -> Seq<u8> {
        self.bytes()
    }

    open spec fn bound_indicator(&self) -> int {
        self.native()
    }

    fn cdata_type(&self) -> (c_data_type: CDataType) {
        K::c_data_type()
    }

    fn indicator_ref(&self) -> (indicator: &isize) {
        &self.indicator
    }

    fn value_ref(&self) -> (value: &[u8]) {
        self.buffer.as_slice()
    }

    fn buffer_length(&self) -> (length: isize) {
        // This is the maximum buffer length, but it is NOT the length of an instance of Self
        // due to the missing size of the indicator value. As such the buffer length can not be
        // used to correctly index a columnar buffer of Self.
        self.buffer.as_slice().len() as isize
    }
}

impl<B: Storage, K: VarKind> HasDataType for VarCell<B, K> {
    open spec fn relational_type(&self) -> DataType {
        K::relation(self.bytes().len() as usize)
    }

    fn data_type(&self) -> (data_type: DataType) {
        K::relational_type(self.buffer.as_slice().len())
    }
}

impl<B: StorageMut, K: VarKind> CDataMut for VarCell<B, K> {
    fn mut_indicator_ref(&mut self) -> (indicator: &mut isize) {
        &mut self.indicator
    }

    fn mut_value_ref(&mut self) -> (value: &mut [u8]) {
        self.buffer.as_mut_slice()
    }
}

} // verus!
