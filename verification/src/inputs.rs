//! The numbers of an input document.
//!
//! An input document gives each input of a circuit a name and a list of numbers,
//! written as decimal numerals. Reading the document is the caller's work. What
//! is decided here is which field element a numeral denotes, and which fields a
//! circuit cannot do without.

use crate::backend::{backend_accepts_scalar, is_canonical, little_endian_value, ScalarBytes};
use crate::error::ErrorKind;
use crate::protocol::BackendFailure;
use vstd::prelude::*;
use vstd::string::*;

verus! {

/// Why a text is not the numeral of a field element.
#[derive(Clone, Copy, Debug, PartialEq, Eq, Structural)]
pub enum NumberError {
    /// The text is empty.
    Empty,
    /// The byte at this index is not a decimal digit; it is the first that is not.
    NotADigit { index: usize },
    /// The number is not below the order of the field.
    TooLarge,
}

/// Whether a byte is one of the digits `0` to `9`.
pub open spec fn spec_is_digit(byte: u8) -> bool {
    48 <= byte <= 57
}

/// The number that a text of decimal digits denotes.
pub open spec fn spec_decimal_value(text: Seq<u8>) -> nat
    decreases text.len(),
{
    if text.len() == 0 {
        0
    } else {
        10 * spec_decimal_value(text.drop_last()) + (text.last() - 48) as nat
    }
}

/// The index of the first byte that is not a digit, if there is one.
pub open spec fn spec_first_non_digit(text: Seq<u8>) -> Option<int> {
    if exists|i: int| 0 <= i < text.len() && !spec_is_digit(text[i]) {
        Some(
            choose|i: int|
                0 <= i < text.len() && !spec_is_digit(text[i]) && forall|j: int|
                    0 <= j < i ==> spec_is_digit(text[j]),
        )
    } else {
        None
    }
}

/// Why a text is not the numeral of a field element, if it is not: it is empty,
/// or it holds something other than digits, or its number is too large.
pub open spec fn spec_number_error(text: Seq<u8>) -> Option<NumberError> {
    if text.len() == 0 {
        Some(NumberError::Empty)
    } else if exists|i: int| 0 <= i < text.len() && !spec_is_digit(text[i]) {
        Some(NumberError::NotADigit { index: spec_first_non_digit(text).unwrap() as usize })
    } else if spec_decimal_value(text) >= crate::backend::scalar_modulus() {
        Some(NumberError::TooLarge)
    } else {
        None
    }
}

/// 256 to the power of `n`.
pub open spec fn spec_pow256(n: nat) -> nat
    decreases n,
{
    if n == 0 {
        1
    } else {
        256 * spec_pow256((n - 1) as nat)
    }
}

/// The value of a byte string grows by its last byte times its weight.
proof fn lemma_value_push(bytes: Seq<u8>, last: u8)
    ensures
        little_endian_value(bytes.push(last)) == little_endian_value(bytes) + last as nat
            * spec_pow256(bytes.len()),
    decreases bytes.len(),
{
    if bytes.len() == 0 {
        assert(bytes.push(last).drop_first() =~= Seq::<u8>::empty());
        assert(little_endian_value(bytes.push(last)) == last as nat) by {
            assert(little_endian_value(Seq::<u8>::empty()) == 0);
        }
        assert(last as nat * spec_pow256(0) == last as nat) by (nonlinear_arith)
            requires
                spec_pow256(0) == 1,
        ;
    } else {
        let longer = bytes.push(last);
        assert(longer.drop_first() =~= bytes.drop_first().push(last));
        lemma_value_push(bytes.drop_first(), last);
        let weight = spec_pow256((bytes.len() - 1) as nat);
        assert(spec_pow256(bytes.len()) == 256 * weight);
        assert(256 * (last as nat * weight) == last as nat * (256 * weight)) by (nonlinear_arith);
    }
}

/// 256 to the power of 32 is 2 to the power of 256, which is above the order of
/// the field.
proof fn lemma_pow256_32()
    ensures
        spec_pow256(32)
            == 0x1_0000_0000_0000_0000_0000_0000_0000_0000_0000_0000_0000_0000_0000_0000_0000_0000nat,
        crate::backend::scalar_modulus() < spec_pow256(32),
{
    assert(spec_pow256(4) == 0x1_0000_0000nat) by {
        reveal_with_fuel(spec_pow256, 5);
    }
    assert(spec_pow256(8) == 0x1_0000_0000_0000_0000nat) by {
        reveal_with_fuel(spec_pow256, 5);
    }
    assert(spec_pow256(12) == 0x1_0000_0000_0000_0000_0000_0000nat) by {
        reveal_with_fuel(spec_pow256, 5);
    }
    assert(spec_pow256(16) == 0x1_0000_0000_0000_0000_0000_0000_0000_0000nat) by {
        reveal_with_fuel(spec_pow256, 5);
    }
    assert(spec_pow256(20) == 0x1_0000_0000_0000_0000_0000_0000_0000_0000_0000_0000nat) by {
        reveal_with_fuel(spec_pow256, 5);
    }
    assert(spec_pow256(24) == 0x1_0000_0000_0000_0000_0000_0000_0000_0000_0000_0000_0000_0000nat)
        by {
        reveal_with_fuel(spec_pow256, 5);
    }
    assert(spec_pow256(28)
        == 0x1_0000_0000_0000_0000_0000_0000_0000_0000_0000_0000_0000_0000_0000_0000nat) by {
        reveal_with_fuel(spec_pow256, 5);
    }
    assert(spec_pow256(32)
        == 0x1_0000_0000_0000_0000_0000_0000_0000_0000_0000_0000_0000_0000_0000_0000_0000_0000nat)
        by {
        reveal_with_fuel(spec_pow256, 5);
    }
}

/// A numeral denotes at least what any of its beginnings denotes.
proof fn lemma_value_grows(text: Seq<u8>, shorter: int)
    requires
        0 <= shorter <= text.len(),
        forall|i: int| 0 <= i < text.len() ==> spec_is_digit(text[i]),
    ensures
        spec_decimal_value(text.take(shorter)) <= spec_decimal_value(text),
    decreases text.len() - shorter,
{
    if shorter < text.len() {
        let next = text.take(shorter + 1);
        assert(next.drop_last() =~= text.take(shorter));
        lemma_value_grows(text, shorter + 1);
    } else {
        assert(text.take(shorter) =~= text);
    }
}

/// Multiplies the number in `acc` by ten and adds `digit`. Answers whether the
/// result still fits 32 bytes; if it does not, `acc` holds its low 32 bytes.
fn times_ten_plus(acc: &mut ScalarBytes, digit: u8) -> (fits: bool)
    requires
        digit <= 9,
    ensures
        fits ==> little_endian_value(final(acc)@) == 10 * little_endian_value(old(acc)@) + digit,
        !fits ==> 10 * little_endian_value(old(acc)@) + digit >= spec_pow256(32),
{
    let ghost before = acc@;
    let mut carry: u32 = digit as u32;
    let mut j: usize = 0;
    proof {
        assert(acc@.take(0) =~= Seq::<u8>::empty());
        assert(before.take(0) =~= Seq::<u8>::empty());
        assert(little_endian_value(Seq::<u8>::empty()) == 0);
        assert(carry * spec_pow256(0) == carry) by (nonlinear_arith)
            requires
                spec_pow256(0) == 1,
        ;
    }
    while j < 32
        invariant
            j <= 32,
            before.len() == 32,
            acc@.len() == 32,
            carry <= 9,
            forall|k: int| j <= k < 32 ==> acc@[k] == before[k],
            little_endian_value(acc@.take(j as int)) + carry * spec_pow256(j as nat) == 10
                * little_endian_value(before.take(j as int)) + digit,
        decreases 32 - j,
    {
        let product: u32 = 10 * (acc[j] as u32) + carry;
        let low = (product % 256) as u8;
        let high = product / 256;
        proof {
            let weight = spec_pow256(j as nat);
            assert(before.take(j + 1) =~= before.take(j as int).push(before[j as int]));
            lemma_value_push(before.take(j as int), before[j as int]);
            assert(spec_pow256((j + 1) as nat) == 256 * weight);
            assert(product == 10 * before[j as int] + carry);
            assert(low + 256 * high == product);
            assert(low * weight + high * (256 * weight) == (10 * before[j as int] + carry)
                * weight) by (nonlinear_arith)
                requires
                    low + 256 * high == 10 * before[j as int] + carry,
            ;
            assert((10 * before[j as int] + carry) * weight == 10 * (before[j as int] * weight)
                + carry * weight) by (nonlinear_arith);
        }
        let ghost earlier = acc@.take(j as int);
        acc[j] = low;
        proof {
            assert(acc@.take(j as int) =~= earlier);
            assert(acc@.take(j + 1) =~= earlier.push(low));
            lemma_value_push(earlier, low);
        }
        carry = high;
        j += 1;
    }
    proof {
        assert(acc@.take(32) =~= acc@);
        assert(before.take(32) =~= before);
        if carry != 0 {
            assert(carry * spec_pow256(32) >= spec_pow256(32)) by (nonlinear_arith)
                requires
                    carry >= 1,
            ;
        } else {
            assert(carry * spec_pow256(32) == 0) by (nonlinear_arith)
                requires
                    carry == 0,
            ;
        }
    }
    carry == 0
}

/// The index of the first byte that is not a digit, if there is one.
fn first_non_digit(text: &[u8]) -> (found: Option<usize>)
    ensures
        match found {
            Some(i) => i < text@.len() && !spec_is_digit(text@[i as int]) && forall|j: int|
                0 <= j < i ==> spec_is_digit(text@[j]),
            None => forall|j: int| 0 <= j < text@.len() ==> spec_is_digit(text@[j]),
        },
{
    let mut i: usize = 0;
    while i < text.len()
        invariant
            i <= text.len(),
            forall|j: int| 0 <= j < i ==> spec_is_digit(text@[j]),
        decreases text.len() - i,
    {
        if text[i] < 48 || text[i] > 57 {
            return Some(i);
        }
        i += 1;
    }
    None
}

/// Reads a decimal numeral as a field element, in its 32-byte little-endian
/// representation.
///
/// Succeeds exactly on the non-empty texts of digits whose number is below the
/// order of the field, and then the scalar denotes that number. Leading zeros
/// are allowed.
pub fn parse_decimal_scalar(text: &[u8]) -> (parsed: Result<ScalarBytes, NumberError>)
    ensures
        match parsed {
            Ok(scalar) => spec_number_error(text@) is None && little_endian_value(scalar@)
                == spec_decimal_value(text@) && is_canonical(scalar@),
            Err(e) => spec_number_error(text@) == Some(e),
        },
{
    if text.len() == 0 {
        return Err(NumberError::Empty);
    }
    match first_non_digit(text) {
        Some(index) => {
            proof {
                let chosen = spec_first_non_digit(text@).unwrap();
                assert(0 <= chosen < text@.len() && !spec_is_digit(text@[chosen]) && forall|
                    j: int,
                | 0 <= j < chosen ==> spec_is_digit(text@[j]));
                assert(chosen == index) by {
                    if chosen < index {
                        assert(spec_is_digit(text@[chosen]));
                    }
                    if index < chosen {
                        assert(spec_is_digit(text@[index as int]));
                    }
                }
            }
            return Err(NumberError::NotADigit { index });
        },
        None => {},
    }
    let mut acc: ScalarBytes = [0u8;32];
    proof {
        lemma_zero_value(acc@);
        assert(text@.take(0) =~= Seq::<u8>::empty());
    }
    let mut i: usize = 0;
    while i < text.len()
        invariant
            i <= text.len(),
            forall|j: int| 0 <= j < text@.len() ==> spec_is_digit(text@[j]),
            little_endian_value(acc@) == spec_decimal_value(text@.take(i as int)),
        decreases text.len() - i,
    {
        proof {
            assert(text@.take(i + 1).drop_last() =~= text@.take(i as int));
            assert(text@.take(i + 1).last() == text@[i as int]);
        }
        let fits = times_ten_plus(&mut acc, text[i] - 48);
        if !fits {
            proof {
                lemma_pow256_32();
                lemma_value_grows(text@, i + 1);
            }
            return Err(NumberError::TooLarge);
        }
        i += 1;
    }
    proof {
        assert(text@.take(i as int) =~= text@);
    }
    if backend_accepts_scalar(&acc) {
        Ok(acc)
    } else {
        Err(NumberError::TooLarge)
    }
}

/// Byte strings of one length that denote the same number are the same.
pub proof fn lemma_value_determines_bytes(a: Seq<u8>, b: Seq<u8>)
    requires
        a.len() == b.len(),
        little_endian_value(a) == little_endian_value(b),
    ensures
        a == b,
    decreases a.len(),
{
    if a.len() > 0 {
        let rest_a = little_endian_value(a.drop_first());
        let rest_b = little_endian_value(b.drop_first());
        assert(a[0] as nat + 256 * rest_a == b[0] as nat + 256 * rest_b);
        assert(a[0] == b[0] && rest_a == rest_b);
        lemma_value_determines_bytes(a.drop_first(), b.drop_first());
        assert(a =~= seq![a[0]] + a.drop_first());
        assert(b =~= seq![b[0]] + b.drop_first());
    } else {
        assert(a =~= b);
    }
}

/// Bytes that are all zero denote zero.
proof fn lemma_zero_value(bytes: Seq<u8>)
    requires
        forall|i: int| 0 <= i < bytes.len() ==> bytes[i] == 0,
    ensures
        little_endian_value(bytes) == 0,
    decreases bytes.len(),
{
    if bytes.len() > 0 {
        lemma_zero_value(bytes.drop_first());
    }
}

impl NumberError {
    /// The words that describe the failure.
    pub open spec fn spec_describe(self) -> Seq<char> {
        match self {
            NumberError::Empty => "it is empty"@,
            NumberError::NotADigit { .. } => "it holds something other than digits"@,
            NumberError::TooLarge => "it is not below the order of the field"@,
        }
    }

    /// The words that describe the failure.
    pub fn describe(self) -> (words: &'static str)
        ensures
            words@ == self.spec_describe(),
    {
        match self {
            NumberError::Empty => "it is empty",
            NumberError::NotADigit { .. } => "it holds something other than digits",
            NumberError::TooLarge => "it is not below the order of the field",
        }
    }
}

/// One input of a circuit as the input document gives it: its name and its
/// numbers, each a decimal numeral in ASCII.
#[derive(Debug)]
pub struct InputField {
    pub name: String,
    pub values: Vec<Vec<u8>>,
}

/// Whether `index` is the first field of the document that is called `name`.
pub open spec fn spec_is_first_named(fields: Seq<InputField>, name: Seq<char>, index: int) -> bool {
    &&& 0 <= index < fields.len()
    &&& fields[index].name@ == name
    &&& forall|j: int| 0 <= j < index ==> (#[trigger] fields[j]).name@ != name
}

/// Whether the document has a field that is called `name`.
pub open spec fn spec_has_field(fields: Seq<InputField>, name: Seq<char>) -> bool {
    exists|i: int| 0 <= i < fields.len() && (#[trigger] fields[i]).name@ == name
}

/// The index of the first field of the document that is called `name`, if there
/// is one.
pub open spec fn spec_field_index(fields: Seq<InputField>, name: Seq<char>) -> Option<int> {
    if exists|i: int| spec_is_first_named(fields, name, i) {
        Some(choose|i: int| spec_is_first_named(fields, name, i))
    } else {
        None
    }
}

/// Finds the first field of the document that is called `name`.
pub fn find_field(fields: &Vec<InputField>, name: &str) -> (found: Option<usize>)
    ensures
        match found {
            Some(index) => spec_field_index(fields@, name@) == Some(index as int)
                && spec_is_first_named(fields@, name@, index as int),
            None => spec_field_index(fields@, name@) is None && !spec_has_field(fields@, name@),
        },
{
    let wanted = String::from_str(name);
    let mut i: usize = 0;
    while i < fields.len()
        invariant
            i <= fields.len(),
            wanted@ == name@,
            forall|j: int| 0 <= j < i ==> (#[trigger] fields@[j]).name@ != name@,
        decreases fields.len() - i,
    {
        if fields[i].name == wanted {
            proof {
                assert(spec_is_first_named(fields@, name@, i as int));
                let chosen = spec_field_index(fields@, name@).unwrap();
                assert(spec_is_first_named(fields@, name@, chosen));
                if chosen < i {
                    assert(fields@[chosen].name@ != name@);
                }
                if i < chosen {
                    assert(fields@[i as int].name@ != name@);
                }
            }
            return Some(i);
        }
        i += 1;
    }
    proof {
        assert forall|k: int| !spec_is_first_named(fields@, name@, k) by {
            if 0 <= k < fields@.len() {
                assert(fields@[k].name@ != name@);
            }
        }
    }
    None
}

/// The message of the failure that a missing field is answered with.
pub open spec fn spec_missing_field_message(name: Seq<char>) -> Seq<char> {
    "The input document has no field '"@ + name + "'"@
}

/// The message of the failure that a field without numbers is answered with.
pub open spec fn spec_empty_field_message(name: Seq<char>) -> Seq<char> {
    "The field '"@ + name + "' of the input document holds no number"@
}

/// The message of the failure that a field is answered with whose first number is
/// not the numeral of a field element.
pub open spec fn spec_bad_number_message(name: Seq<char>, e: NumberError) -> Seq<char> {
    "The first number of the field '"@ + name + "' cannot be used: "@ + e.spec_describe()
}

/// What reading the first number of the field `name` is answered with: the
/// numeral's text, or the failure. Every failure is invalid input.
pub open spec fn spec_first_number(fields: Seq<InputField>, name: Seq<char>) -> Result<
    Seq<u8>,
    (ErrorKind, Seq<char>),
> {
    match spec_field_index(fields, name) {
        None => Err((ErrorKind::InvalidInput, spec_missing_field_message(name))),
        Some(i) => if fields[i].values@.len() == 0 {
            Err((ErrorKind::InvalidInput, spec_empty_field_message(name)))
        } else {
            match spec_number_error(fields[i].values@[0]@) {
                Some(e) => Err((ErrorKind::InvalidInput, spec_bad_number_message(name, e))),
                None => Ok(fields[i].values@[0]@),
            }
        },
    }
}

/// Reads the first number of the first field called `name` as a field element.
///
/// Fails with invalid input when the document has no such field, when the field
/// holds no number, and when its first number is not the numeral of a field
/// element; succeeds otherwise, with the scalar that the numeral denotes.
pub fn scalar_input(
    fields: &Vec<InputField>,
    name: &str,
) -> (read: Result<ScalarBytes, BackendFailure>)
    ensures
        match read {
            Ok(scalar) => spec_first_number(fields@, name@) is Ok && little_endian_value(scalar@)
                == spec_decimal_value(spec_first_number(fields@, name@)->Ok_0) && is_canonical(
                scalar@,
            ),
            Err(failure) => spec_first_number(fields@, name@) == Err::<
                Seq<u8>,
                (ErrorKind, Seq<char>),
            >(failure.spec_report()),
        },
{
    let index = match find_field(fields, name) {
        Some(index) => index,
        None => {
            let mut reason = String::from_str("The input document has no field '");
            reason.append(name);
            reason.append("'");
            return Err(BackendFailure::InvalidInput { reason });
        },
    };
    if fields[index].values.len() == 0 {
        let mut reason = String::from_str("The field '");
        reason.append(name);
        reason.append("' of the input document holds no number");
        return Err(BackendFailure::InvalidInput { reason });
    }
    match parse_decimal_scalar(fields[index].values[0].as_slice()) {
        Ok(scalar) => Ok(scalar),
        Err(e) => {
            let mut reason = String::from_str("The first number of the field '");
            reason.append(name);
            reason.append("' cannot be used: ");
            reason.append(e.describe());
            Err(BackendFailure::InvalidInput { reason })
        },
    }
}

} // verus!
