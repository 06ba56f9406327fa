//! The proving backend's commitment primitives, as this library sees them.
//!
//! Scalars cross this boundary as their canonical 32-byte little-endian
//! representation, commitments as the backend's binary encoding. Nothing in this
//! file is proved: each function states what the backend is relied upon to do.

use ff::PrimeField;
use spartan2::provider::pcs::hyrax_pc::{HyraxBlind, HyraxPCS};
use spartan2::provider::pt256::t256;
use spartan2::provider::T256HyraxEngine;
use spartan2::traits::pcs::PCSEngineTrait;
use vstd::prelude::*;

verus! {

/// A scalar of the backend's field in its 32-byte little-endian representation.
pub type ScalarBytes = [u8; 32];

/// The backend's scalar.
type Fr = t256::Scalar;

/// The backend's commitment scheme.
type Pcs = HyraxPCS<T256HyraxEngine>;

/// Whether the backend can draw `rows` blinding rows at once. It fills one buffer
/// of 64 bytes for each row, and a buffer holds at most `isize::MAX` bytes, which
/// is half of `usize::MAX`.
pub open spec fn blind_rows_fit(rows: nat) -> bool {
    rows * 128 <= usize::MAX
}

/// Whether the backend can derive the generators for rows of `width` scalars. It
/// derives one generator more than a row is wide and keeps them in one buffer of
/// 96 bytes each, and a buffer holds at most `isize::MAX` bytes, which is half of
/// `usize::MAX`.
pub open spec fn row_width_fits(width: nat) -> bool {
    (width + 1) * 192 <= usize::MAX
}

/// The order of the backend's scalar field.
pub open spec fn scalar_modulus() -> nat {
    0xffffffff00000001000000000000000000000000ffffffffffffffffffffffffnat
}

/// The number that a byte string denotes when read least significant byte first.
pub open spec fn little_endian_value(bytes: Seq<u8>) -> nat
    decreases bytes.len(),
{
    if bytes.len() == 0 {
        0
    } else {
        bytes[0] as nat + 256 * little_endian_value(bytes.drop_first())
    }
}

/// A representation is canonical when it denotes a number below the field's order.
pub open spec fn is_canonical(repr: Seq<u8>) -> bool {
    little_endian_value(repr) < scalar_modulus()
}

/// Every scalar of the sequence is canonical.
pub open spec fn all_canonical(scalars: Seq<ScalarBytes>) -> bool {
    forall|i: int| 0 <= i < scalars.len() ==> is_canonical(#[trigger] scalars[i]@)
}

/// The byte strings of a sequence of scalars.
pub open spec fn scalar_views(scalars: Seq<ScalarBytes>) -> Seq<Seq<u8>> {
    scalars.map_values(|s: ScalarBytes| s@)
}

/// The number of commitment rows that `count` scalars occupy when a row holds
/// `width` of them.
pub open spec fn rows_needed(count: nat, width: nat) -> nat
    recommends
        width > 0,
{
    ((count + width - 1) / (width as int)) as nat
}

/// What [`backend_commit`] returns: the bytes that `bincode` gives for the
/// commitment that `HyraxPCS::commit` makes to `values` in rows of `width`
/// scalars, under the blinding scalars `blinds`, one blind per row, with the
/// generators that `HyraxPCS::setup` derives from `label`. It stands for these
/// three steps together, and is `None` when the backend gives no commitment.
pub uninterp spec fn hyrax_commitment(label: Seq<char>, width: nat, values: Seq<Seq<u8>>, blinds: Seq<Seq<u8>>) -> Option<Seq<u8>>;

/// Whether the machine's words have 64 bits.
pub open spec fn word_is_64_bits() -> bool {
    usize::MAX == 0xffff_ffff_ffff_ffff
}

/// The byte string held by an optional buffer.
pub open spec fn bytes_of(buffer: Option<Vec<u8>>) -> Option<Seq<u8>> {
    match buffer {
        Some(bytes) => Some(bytes@),
        None => None,
    }
}

/// Calls `PrimeField::from_repr` of the backend's scalar field and reports whether
/// it accepted the bytes. The field accepts exactly the little-endian encodings of
/// numbers below its order.
#[verifier::external_body]
pub(crate) fn backend_accepts_scalar(repr: &ScalarBytes) -> (accepted: bool)
    ensures
        accepted == is_canonical(repr@),
{
    bool::from(Fr::from_repr((*repr).into()).is_some())
}

/// Calls `HyraxPCS::blind`, the backend's source of blinding scalars, for `rows`
/// rows of width one, and takes the scalars out of the blind through its `bincode`
/// encoding. The scalars are random: all that is claimed is that there is one per
/// row and that each is a canonical field element. The call is made only for as
/// many rows as the backend's buffer of random bytes can be allocated for.
#[verifier::external_body]
pub(crate) fn backend_generate_blinds(rows: usize) -> (blinds: Vec<ScalarBytes>)
    requires
        blind_rows_fit(rows as nat),
    ensures
        blinds@.len() == rows,
        all_canonical(blinds@),
{
    let (key, _) = Pcs::setup(b"", rows, 1);
    let blind = Pcs::blind(&key, rows);
    let encoded = bincode::serialize(&blind).unwrap();
    let scalars: Vec<Fr> = bincode::deserialize(&encoded).unwrap();
    scalars.iter().map(|s| s.to_repr().into()).collect()
}

/// Calls `HyraxPCS::commit` on `values` in rows of `width` scalars with one blind
/// per row, under the generators that `HyraxPCS::setup` derives from `label`, and
/// returns the commitment as `bincode` encodes it. The result is a function of the
/// four arguments alone. It exists only when every scalar is canonical
/// (`PrimeField::from_repr` accepts it). On a machine whose words have 64 bits it
/// exists whenever every scalar is canonical; on a machine with shorter words the
/// backend gives up on a long row of small scalars of which one does not fit a
/// word, and then there is no result. The call is made only with a width above
/// zero, by which the backend divides, for which the generators can be allocated,
/// and with a blind for every row, which the backend indexes.
#[verifier::external_body]
pub(crate) fn backend_commit(
    label: &'static str,
    width: usize,
    values: &Vec<ScalarBytes>,
    blinds: &Vec<ScalarBytes>,
) -> (commitment: Option<Vec<u8>>)
    requires
        0 < width,
        row_width_fits(width as nat),
        rows_needed(values@.len(), width as nat) <= blinds@.len(),
    ensures
        commitment.is_some() ==> all_canonical(values@) && all_canonical(blinds@),
        word_is_64_bits() && all_canonical(values@) && all_canonical(blinds@)
            ==> commitment.is_some(),
        bytes_of(commitment) == hyrax_commitment(
            label@,
            width as nat,
            scalar_views(values@),
            scalar_views(blinds@),
        ),
{
    let decode = |r: &ScalarBytes| Option::<Fr>::from(Fr::from_repr((*r).into()));
    let values: Vec<Fr> = values.iter().map(decode).collect::<Option<_>>()?;
    let blinds: Vec<Fr> = blinds.iter().map(decode).collect::<Option<_>>()?;
    let encoded = bincode::serialize(&blinds).ok()?;
    let blind: HyraxBlind<T256HyraxEngine> = bincode::deserialize(&encoded).ok()?;
    let (key, _) = Pcs::setup(label.as_bytes(), values.len(), width);
    let commitment = Pcs::commit(&key, &values, &blind, false).ok()?;
    bincode::serialize(&commitment).ok()
}

} // verus!
