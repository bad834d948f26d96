//! The length or state of a value, as it travels beside the value's buffer.
use vstd::prelude::*;

verus! {

/// The native encoding of a missing value.
pub open spec fn null_data() -> int {
    -1
}

/// The native encoding of a truncated value whose full length is not known.
pub open spec fn no_total() -> int {
    -4
}

/// Reads `odbc_sys::NULL_DATA`, the native indicator of a missing value. The constant is
/// declared as -1, and the contract claims no more than that.
#[verifier::external_body]
fn native_null_data() -> (raw: isize)
    ensures
        raw == null_data(),
{
    odbc_sys::NULL_DATA
}

/// Reads `odbc_sys::NO_TOTAL`, the native indicator of a value of unknown length. The constant
/// is declared as -4, and the contract claims no more than that.
#[verifier::external_body]
fn native_no_total() -> (raw: isize)
    ensures
        raw == no_total(),
{
    odbc_sys::NO_TOTAL
}

/// Length or state of a value in a buffer.
#[derive(Debug, Clone, Copy, PartialEq, Eq, Structural)]
pub enum Indicator {
    /// The value is missing.
    Null,
    /// The value has been truncated and its full length is not known. The buffer is valid up
    /// to the terminating zeroes of its kind.
    NoTotal,
    /// The full length of the value in bytes. It may exceed the capacity of the buffer, in
    /// which case the buffer holds a truncated value.
    Length(usize),
}

impl Indicator {
    /// Whether `raw` is the native encoding of some indicator: a sentinel or a length.
    pub open spec fn is_native(raw: int) -> bool {
        raw >= 0 || raw == null_data() || raw == no_total()
    }

    /// The indicator which `raw` encodes.
    pub open spec fn of_native(raw: int) -> Indicator {
        if raw == null_data() {
            Indicator::Null
        } else if raw == no_total() {
            Indicator::NoTotal
        } else {
            Indicator::Length(raw as usize)
        }
    }

    /// The native encoding of the indicator.
    pub open spec fn native(self) -> int {
        match self {
            Indicator::Null => null_data(),
            Indicator::NoTotal => no_total(),
            Indicator::Length(len) => len as int,
        }
    }

    /// Whether the indicator has a native encoding: a length must not exceed the largest
    /// native value.
    pub open spec fn encodable(self) -> bool {
        self matches Indicator::Length(len) ==> len <= isize::MAX
    }

    /// Whether a buffer able to hold `capacity` bytes of payload holds less than the value.
    pub open spec fn truncated(self, capacity: nat) -> bool {
        match self {
            Indicator::Null => false,
            Indicator::NoTotal => true,
            Indicator::Length(len) => len > capacity,
        }
    }

    /// Decodes a native indicator.
    pub fn from_isize(indicator: isize) -> (decoded: Self)
        requires
            Self::is_native(indicator as int),
        ensures
            decoded == Self::of_native(indicator as int),
            decoded.encodable(),
    {
        if indicator == native_null_data() {
            Indicator::Null
        } else if indicator == native_no_total() {
            Indicator::NoTotal
        } else {
            Indicator::Length(indicator as usize)
        }
    }

    /// Encodes the indicator for the native interface.
    pub fn to_isize(self) -> (raw: isize)
        requires
            self.encodable(),
        ensures
            raw == self.native(),
            Self::is_native(raw as int),
    {
        match self {
            Indicator::Null => native_null_data(),
            Indicator::NoTotal => native_no_total(),
            Indicator::Length(len) => len as isize,
        }
    }

    /// Does this indicator imply truncation for a buffer which can hold `length_in_bytes`
    /// bytes of payload? `length_in_bytes` counts no terminating zero.
    pub fn is_truncated(self, length_in_bytes: usize) -> (truncated: bool)
        ensures
            truncated == self.truncated(length_in_bytes as nat),
    {
        match self {
            Indicator::Null => false,
            Indicator::NoTotal => true,
            Indicator::Length(len) => len > length_in_bytes,
        }
    }

    /// Whether `raw` encodes an indicator. Every value that `to_isize` returns does.
    pub fn is_native_value(raw: isize) -> (native: bool)
        ensures
            native == Self::is_native(raw as int),
    {
        raw >= 0 || raw == native_null_data() || raw == native_no_total()
    }
}

/// Decoding undoes encoding: every indicator that can be encoded comes back unchanged.
pub proof fn lemma_decode_encode(indicator: Indicator)
    requires
        indicator.encodable(),
    ensures
        Indicator::is_native(indicator.native()),
        Indicator::of_native(indicator.native()) == indicator,
{
}

/// Encoding undoes decoding: every native value that encodes an indicator is the encoding of
/// exactly the indicator it decodes to.
pub proof fn lemma_encode_decode(raw: int)
    requires
        Indicator::is_native(raw),
        raw <= isize::MAX,
    ensures
        Indicator::of_native(raw).encodable(),
        Indicator::of_native(raw).native() == raw,
{
}

/// The three variants partition the native values: the two sentinels are negative and distinct,
/// and every other encoding is a length.
pub proof fn lemma_variants_disjoint(raw: int)
    requires
        Indicator::is_native(raw),
    ensures
        Indicator::of_native(raw) is Null <==> raw == null_data(),
        Indicator::of_native(raw) is NoTotal <==> raw == no_total(),
        Indicator::of_native(raw) is Length <==> raw >= 0,
{
}

} // verus!
