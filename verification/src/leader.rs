//! The leader's record-length field: five right-justified, zero-padded ASCII
//! decimal digits encoding the total byte length of the record, 0 to 99999.

use vstd::prelude::*;

verus! {

/// The leader contains information for the processing of the record.
#[derive(Debug, PartialEq, Eq)]
pub struct Leader {
    pub(crate) record_len: u32,
}

/// An error that can occur when parsing the leader field.
#[derive(Debug, PartialEq, Eq)]
pub enum ParseLeaderError {
    /// A byte inside the five-byte record-length window is not an ASCII
    /// decimal digit.
    InvalidRecordLength,
    /// The input holds fewer than five bytes; carries exactly how many more
    /// bytes are needed before decoding can be attempted.
    Incomplete(usize),
}

/// An error at the level of the fixed-width field decoder, finer grained than
/// [`ParseLeaderError`] for internal diagnostics.
#[derive(Debug, PartialEq, Eq)]
pub enum FieldError {
    /// The input ends before the field does; carries exactly the shortfall.
    Incomplete(usize),
    /// The byte at this offset does not satisfy the decimal-digit predicate;
    /// decoding stopped at the first such byte.
    NonDigit(usize),
}

/// A byte is an ASCII decimal digit, `'0'` through `'9'`.
pub open spec fn is_ascii_digit_byte(b: u8) -> bool {
    0x30 <= b && b <= 0x39
}

/// The numeric value of an ASCII decimal digit byte.
pub open spec fn digit_value(b: u8) -> int {
    b - 0x30
}

/// The input starts with a well-formed record-length field: it holds at least
/// five bytes and the first five are all ASCII decimal digits.
pub open spec fn valid_record_len_field(s: Seq<u8>) -> bool {
    s.len() >= 5 && forall|i: int| 0 <= i < 5 ==> is_ascii_digit_byte(s[i])
}

/// The record length encoded by the five digit bytes at the front of `s`:
/// a right-justified, zero-padded base-10 number.
pub open spec fn record_len_value(s: Seq<u8>) -> int {
    digit_value(s[0]) * 10000 + digit_value(s[1]) * 1000 + digit_value(s[2]) * 100
        + digit_value(s[3]) * 10 + digit_value(s[4])
}

/// The value of the first `n` digit bytes of `s`, folded left to right as
/// `acc * 10 + digit`, starting from 0. This is the accumulator the decoder
/// maintains.
pub open spec fn folded_prefix_value(s: Seq<u8>, n: int) -> int
    decreases n,
{
    if n <= 0 {
        0
    } else {
        folded_prefix_value(s, n - 1) * 10 + digit_value(s[n - 1])
    }
}

/// The largest value a zero-padded field of `n` ASCII decimal digits can
/// encode; used to bound the decoder's accumulator.
spec fn max_field_value(n: int) -> int {
    if n <= 0 {
        0
    } else if n == 1 {
        9
    } else if n == 2 {
        99
    } else if n == 3 {
        999
    } else if n == 4 {
        9999
    } else {
        99999
    }
}

/// Folding five digit bytes left to right as `acc * 10 + digit` yields the
/// positional value `d0*10000 + d1*1000 + d2*100 + d3*10 + d4`.
pub proof fn lemma_folded_prefix_value_positional(s: Seq<u8>)
    ensures
        folded_prefix_value(s, 5) == record_len_value(s),
{
    assert(folded_prefix_value(s, 0) == 0);
    assert(folded_prefix_value(s, 1) == digit_value(s[0]));
    assert(folded_prefix_value(s, 2) == digit_value(s[0]) * 10 + digit_value(s[1]));
    assert(folded_prefix_value(s, 3) == digit_value(s[0]) * 100 + digit_value(s[1]) * 10
        + digit_value(s[2]));
    assert(folded_prefix_value(s, 4) == digit_value(s[0]) * 1000 + digit_value(s[1]) * 100
        + digit_value(s[2]) * 10 + digit_value(s[3]));
    assert(folded_prefix_value(s, 5) == record_len_value(s));
}

/// A well-formed record-length field always encodes a value in [0, 99999]:
/// the maximum representable and the maximum valid value coincide, so no
/// overflow case exists for valid input.
pub proof fn lemma_record_len_value_in_range(s: Seq<u8>)
    requires
        valid_record_len_field(s),
    ensures
        0 <= record_len_value(s) <= 99999,
{
    assert(is_ascii_digit_byte(s[0]));
    assert(is_ascii_digit_byte(s[1]));
    assert(is_ascii_digit_byte(s[2]));
    assert(is_ascii_digit_byte(s[3]));
    assert(is_ascii_digit_byte(s[4]));
}

/// Parse the record length field.
///
/// The record length is encoded as five right justified ASCII digits.
/// An unused position is set to zero. The record length is between 0
/// and 99999.
///
/// On success the pair holds the unconsumed remainder of the input and the
/// decoded value; the sixth byte and beyond are never consumed.
pub fn parse_record_len<'a>(i: &'a [u8]) -> (r: Result<(&'a [u8], u32), FieldError>)
    ensures
        valid_record_len_field(i@) ==> (r matches Ok((rest, v)) && rest@ == i@.subrange(
            5,
            i@.len() as int,
        ) && v == record_len_value(i@)),
        i@.len() < 5 ==> (r matches Err(FieldError::Incomplete(needed)) && needed == 5 - i@.len()),
        i@.len() >= 5 && !valid_record_len_field(i@) ==> (r matches Err(FieldError::NonDigit(pos))
            && pos < 5 && !is_ascii_digit_byte(i@[pos as int]) && (forall|j: int|
            0 <= j < pos ==> is_ascii_digit_byte(i@[j]))),
{
    if i.len() < 5 {
        return Err(FieldError::Incomplete(5 - i.len()));
    }
    let mut acc: u32 = 0;
    let mut idx: usize = 0;
    while idx < 5
        invariant
            i@.len() >= 5,
            idx <= 5,
            forall|j: int| 0 <= j < idx ==> is_ascii_digit_byte(i@[j]),
            acc == folded_prefix_value(i@, idx as int),
            acc <= max_field_value(idx as int),
        decreases 5 - idx,
    {
        let b = i[idx];
        if b < 0x30 || b > 0x39 {
            return Err(FieldError::NonDigit(idx));
        }
        acc = acc * 10 + (b - 0x30) as u32;
        idx = idx + 1;
    }
    proof {
        lemma_folded_prefix_value_positional(i@);
    }
    Ok((&i[5..i.len()], acc))
}

/// Parse a leader from the front of the input, narrowing any byte-content
/// mismatch reported by the field decoder to
/// [`ParseLeaderError::InvalidRecordLength`] and passing an incompleteness
/// signal through unchanged.
pub(crate) fn parse_leader<'a>(i: &'a [u8]) -> (r: Result<(&'a [u8], Leader), ParseLeaderError>)
    ensures
        valid_record_len_field(i@) ==> (r matches Ok((rest, leader)) && rest@ == i@.subrange(
            5,
            i@.len() as int,
        ) && leader.spec_record_len() == record_len_value(i@) && leader.wf()),
        i@.len() < 5 ==> (r matches Err(ParseLeaderError::Incomplete(needed)) && needed == 5
            - i@.len()),
        i@.len() >= 5 && !valid_record_len_field(i@) ==> r matches Err(
            ParseLeaderError::InvalidRecordLength,
        ),
{
    match parse_record_len(i) {
        Ok((rest, record_len)) => Ok((rest, Leader { record_len })),
        Err(FieldError::Incomplete(needed)) => Err(ParseLeaderError::Incomplete(needed)),
        Err(FieldError::NonDigit(_)) => Err(ParseLeaderError::InvalidRecordLength),
    }
}

impl Leader {
    /// The record length this leader holds, for use in contracts.
    pub closed spec fn spec_record_len(&self) -> u32 {
        self.record_len
    }

    /// A leader is well formed when its record length does not exceed the
    /// largest value five decimal digits can encode.
    pub open spec fn wf(&self) -> bool {
        self.spec_record_len() <= 99999
    }

    /// Creates a leader from a byte slice.
    ///
    /// The first five bytes must be ASCII decimal digits; any unconsumed
    /// trailing bytes are the caller's responsibility and are discarded here.
    pub fn from_bytes(data: &[u8]) -> (r: Result<Self, ParseLeaderError>)
        ensures
            valid_record_len_field(data@) ==> (r matches Ok(leader)
                && leader.spec_record_len() == record_len_value(data@) && leader.wf()),
            data@.len() < 5 ==> (r matches Err(ParseLeaderError::Incomplete(needed)) && needed == 5
                - data@.len()),
            data@.len() >= 5 && !valid_record_len_field(data@) ==> r matches Err(
                ParseLeaderError::InvalidRecordLength,
            ),
    {
        match parse_leader(data) {
            Ok((_, leader)) => Ok(leader),
            Err(e) => Err(e),
        }
    }

    /// Returns the length of the entire record, including the leader
    /// and the record terminator.
    ///
    /// The maximum length of a record is 99999 bytes/octets. This is a pure
    /// accessor: it never mutates the leader, so repeated calls return the
    /// same value.
    pub fn record_length(&self) -> (len: u32)
        ensures
            len == self.spec_record_len(),
    {
        self.record_len
    }
}

} // verus!
