//! The encodings under which instances, witnesses and shared blinds are kept.
//!
//! Every encoding starts with four bytes that name what is encoded and the
//! version of the layout. After them come *sections*: a list of scalars is
//! written as its count in four bytes, least significant first, followed by the
//! scalars, 32 bytes each; a byte string is written as its length in four bytes
//! followed by the bytes. An encoding ends with its last section: bytes after it
//! make it malformed.
//!
//! | artifact      | first four bytes | sections                          |
//! |---------------|------------------|-----------------------------------|
//! | shared blinds | `z k B 1`        | the blinds                        |
//! | witness       | `z k W 1`        | the shared values, then the rest  |
//! | instance      | `z k I 1`        | the public values, the commitment |

use crate::backend::{scalar_views, ScalarBytes};
use crate::store::{Instance, InstanceView, Slot, SlotView, Witness, WitnessView};
use crate::wtns::spec_u32_at;
use vstd::prelude::*;
use vstd::string::*;

verus! {

/// Why a byte string is not the encoding of an artifact.
#[derive(Clone, Copy, Debug, PartialEq, Eq, Structural)]
pub enum DecodeError {
    /// The first four bytes are not those of the artifact.
    BadMagic,
    /// The bytes end before the section that is being read.
    Truncated,
    /// There are bytes after the last section.
    TrailingBytes,
}

/// The first four bytes of encoded shared blinds.
pub open spec fn spec_blinds_magic() -> Seq<u8> {
    seq![0x7au8, 0x6bu8, 0x42u8, 0x31u8]
}

/// The first four bytes of an encoded witness.
pub open spec fn spec_witness_magic() -> Seq<u8> {
    seq![0x7au8, 0x6bu8, 0x57u8, 0x31u8]
}

/// The first four bytes of an encoded instance.
pub open spec fn spec_instance_magic() -> Seq<u8> {
    seq![0x7au8, 0x6bu8, 0x49u8, 0x31u8]
}

/// The four bytes of a number below 2^32, least significant first.
pub open spec fn spec_u32_bytes(n: nat) -> Seq<u8> {
    seq![
        (n % 0x100) as u8,
        (n / 0x100 % 0x100) as u8,
        (n / 0x1_0000 % 0x100) as u8,
        (n / 0x100_0000 % 0x100) as u8,
    ]
}

/// The bytes of a list of scalars, one scalar after the other.
pub open spec fn spec_flatten(scalars: Seq<Seq<u8>>) -> Seq<u8> {
    Seq::new(32 * scalars.len(), |i: int| scalars[i / 32][i % 32])
}

/// Every scalar of the list has 32 bytes.
pub open spec fn spec_all_32(scalars: Seq<Seq<u8>>) -> bool {
    forall|i: int| 0 <= i < scalars.len() ==> (#[trigger] scalars[i]).len() == 32
}

/// The section that holds a list of scalars.
pub open spec fn spec_scalars_section(scalars: Seq<Seq<u8>>) -> Seq<u8> {
    spec_u32_bytes(scalars.len()) + spec_flatten(scalars)
}

/// The section that holds a byte string.
pub open spec fn spec_bytes_section(bytes: Seq<u8>) -> Seq<u8> {
    spec_u32_bytes(bytes.len()) + bytes
}

/// The encoding of shared blinds.
pub open spec fn spec_encode_blinds(blinds: Seq<Seq<u8>>) -> Seq<u8> {
    spec_blinds_magic() + spec_scalars_section(blinds)
}

/// The encoding of a witness.
pub open spec fn spec_encode_witness(shared: Seq<Seq<u8>>, rest: Seq<Seq<u8>>) -> Seq<u8> {
    spec_witness_magic() + spec_scalars_section(shared) + spec_scalars_section(rest)
}

/// The encoding of an instance.
pub open spec fn spec_encode_instance(
    public_values: Seq<Seq<u8>>,
    comm_shared: Seq<u8>,
) -> Seq<u8> {
    spec_instance_magic() + spec_scalars_section(public_values) + spec_bytes_section(comm_shared)
}

/// The section of scalars that starts at `at`, if it is there in full, and where
/// it ends.
pub open spec fn spec_read_scalars(bytes: Seq<u8>, at: int) -> Option<(Seq<Seq<u8>>, int)> {
    if at + 4 > bytes.len() {
        None
    } else {
        let count = spec_u32_at(bytes, at);
        if at + 4 + 32 * count > bytes.len() {
            None
        } else {
            Some(
                (
                    Seq::new(
                        count,
                        |i: int| bytes.subrange(at + 4 + 32 * i, at + 4 + 32 * i + 32),
                    ),
                    at + 4 + 32 * count,
                ),
            )
        }
    }
}

/// The section of bytes that starts at `at`, if it is there in full, and where it
/// ends.
pub open spec fn spec_read_bytes(bytes: Seq<u8>, at: int) -> Option<(Seq<u8>, int)> {
    if at + 4 > bytes.len() {
        None
    } else {
        let count = spec_u32_at(bytes, at);
        if at + 4 + count > bytes.len() {
            None
        } else {
            Some((bytes.subrange(at + 4, at + 4 + count), at + 4 + count))
        }
    }
}

/// Whether the bytes start with the four bytes `magic`.
pub open spec fn spec_has_magic(bytes: Seq<u8>, magic: Seq<u8>) -> bool {
    bytes.len() >= 4 && bytes.subrange(0, 4) == magic
}

/// What a byte string holds when read as encoded shared blinds.
pub open spec fn spec_decode_blinds(bytes: Seq<u8>) -> Result<Seq<Seq<u8>>, DecodeError> {
    if !spec_has_magic(bytes, spec_blinds_magic()) {
        Err(DecodeError::BadMagic)
    } else {
        match spec_read_scalars(bytes, 4) {
            None => Err(DecodeError::Truncated),
            Some((blinds, end)) => if end != bytes.len() {
                Err(DecodeError::TrailingBytes)
            } else {
                Ok(blinds)
            },
        }
    }
}

/// What a byte string holds when read as an encoded witness: the shared values
/// and the rest.
pub open spec fn spec_decode_witness(bytes: Seq<u8>) -> Result<
    (Seq<Seq<u8>>, Seq<Seq<u8>>),
    DecodeError,
> {
    if !spec_has_magic(bytes, spec_witness_magic()) {
        Err(DecodeError::BadMagic)
    } else {
        match spec_read_scalars(bytes, 4) {
            None => Err(DecodeError::Truncated),
            Some((shared, middle)) => match spec_read_scalars(bytes, middle) {
                None => Err(DecodeError::Truncated),
                Some((rest, end)) => if end != bytes.len() {
                    Err(DecodeError::TrailingBytes)
                } else {
                    Ok((shared, rest))
                },
            },
        }
    }
}

/// What a byte string holds when read as an encoded instance: the public values
/// and the shared commitment.
pub open spec fn spec_decode_instance(
    bytes: Seq<u8>,
) -> Result<(Seq<Seq<u8>>, Seq<u8>), DecodeError> {
    if !spec_has_magic(bytes, spec_instance_magic()) {
        Err(DecodeError::BadMagic)
    } else {
        match spec_read_scalars(bytes, 4) {
            None => Err(DecodeError::Truncated),
            Some((public_values, middle)) => match spec_read_bytes(bytes, middle) {
                None => Err(DecodeError::Truncated),
                Some((comm_shared, end)) => if end != bytes.len() {
                    Err(DecodeError::TrailingBytes)
                } else {
                    Ok((public_values, comm_shared))
                },
            },
        }
    }
}

/// Appends the four bytes of a number.
fn put_u32(out: &mut Vec<u8>, n: u32)
    ensures
        final(out)@ == old(out)@ + spec_u32_bytes(n as nat),
{
    out.push((n % 0x100) as u8);
    out.push((n / 0x100 % 0x100) as u8);
    out.push((n / 0x1_0000 % 0x100) as u8);
    out.push((n / 0x100_0000 % 0x100) as u8);
    assert(out@ =~= old(out)@ + spec_u32_bytes(n as nat));
}

/// Appends a section of scalars.
fn put_scalars(out: &mut Vec<u8>, scalars: &Vec<ScalarBytes>)
    requires
        scalars@.len() <= u32::MAX,
    ensures
        final(out)@ == old(out)@ + spec_scalars_section(scalar_views(scalars@)),
{
    put_u32(out, scalars.len() as u32);
    let ghost start = out@;
    let mut i: usize = 0;
    while i < scalars.len()
        invariant
            i <= scalars.len(),
            out@.len() == start.len() + 32 * i,
            forall|k: int| 0 <= k < start.len() ==> out@[k] == start[k],
            forall|k: int|
                0 <= k < 32 * i ==> out@[start.len() + k] == #[trigger] spec_flatten(
                    scalar_views(scalars@),
                )[k],
        decreases scalars.len() - i,
    {
        let scalar = scalars[i];
        let mut j: usize = 0;
        while j < 32
            invariant
                j <= 32,
                i < scalars.len(),
                scalar == scalars@[i as int],
                out@.len() == start.len() + 32 * i + j,
                forall|k: int| 0 <= k < start.len() ==> out@[k] == start[k],
                forall|k: int|
                    0 <= k < 32 * i + j ==> out@[start.len() + k] == #[trigger] spec_flatten(
                        scalar_views(scalars@),
                    )[k],
            decreases 32 - j,
        {
            out.push(scalar[j]);
            assert(spec_flatten(scalar_views(scalars@))[32 * i + j] == scalar@[j as int]);
            j += 1;
        }
        i += 1;
    }
    assert(out@ =~= start + spec_flatten(scalar_views(scalars@)));
    assert(start + spec_flatten(scalar_views(scalars@)) =~= old(out)@ + spec_scalars_section(
        scalar_views(scalars@),
    ));
}

/// Appends a section of bytes.
fn put_bytes(out: &mut Vec<u8>, bytes: &Vec<u8>)
    requires
        bytes@.len() <= u32::MAX,
    ensures
        final(out)@ == old(out)@ + spec_bytes_section(bytes@),
{
    put_u32(out, bytes.len() as u32);
    let ghost start = out@;
    let mut i: usize = 0;
    while i < bytes.len()
        invariant
            i <= bytes.len(),
            out@ == start + bytes@.take(i as int),
        decreases bytes.len() - i,
    {
        out.push(bytes[i]);
        assert(out@ =~= start + bytes@.take(i + 1));
        i += 1;
    }
    assert(bytes@.take(i as int) =~= bytes@);
    assert(start + bytes@ =~= old(out)@ + spec_bytes_section(bytes@));
}

/// Appends the four bytes that name an artifact.
fn put_magic(out: &mut Vec<u8>, magic: [u8; 4])
    ensures
        final(out)@ == old(out)@ + magic@,
{
    out.push(magic[0]);
    out.push(magic[1]);
    out.push(magic[2]);
    out.push(magic[3]);
    assert(out@ =~= old(out)@ + magic@);
}

/// Whether the bytes start with `magic`.
fn has_magic(bytes: &[u8], magic: [u8; 4]) -> (has: bool)
    ensures
        has == spec_has_magic(bytes@, magic@),
{
    if bytes.len() < 4 {
        return false;
    }
    let has = bytes[0] == magic[0] && bytes[1] == magic[1] && bytes[2] == magic[2] && bytes[3]
        == magic[3];
    proof {
        let head = bytes@.subrange(0, 4);
        assert(head.len() == 4 && magic@.len() == 4);
        assert(head[0] == bytes@[0] && head[1] == bytes@[1] && head[2] == bytes@[2] && head[3]
            == bytes@[3]);
        if has {
            assert(head =~= magic@);
        }
    }
    has
}

/// Reads four bytes from `at` as a number, if they are there.
fn take_u32(bytes: &[u8], at: usize) -> (read: Option<u32>)
    requires
        at <= bytes@.len(),
    ensures
        read is Some == (at + 4 <= bytes@.len()),
        read is Some ==> read.unwrap() == spec_u32_at(bytes@, at as int),
{
    if bytes.len() - at < 4 {
        None
    } else {
        let b0 = bytes[at] as u32;
        let b1 = bytes[at + 1] as u32;
        let b2 = bytes[at + 2] as u32;
        let b3 = bytes[at + 3] as u32;
        Some(b0 + 0x100 * b1 + 0x1_0000 * b2 + 0x100_0000 * b3)
    }
}

/// Reads the section of scalars that starts at `at`.
fn take_scalars(bytes: &[u8], at: usize) -> (read: Option<(Vec<ScalarBytes>, usize)>)
    requires
        at <= bytes@.len(),
    ensures
        match read {
            Some((scalars, end)) => spec_read_scalars(bytes@, at as int) == Some(
                (scalar_views(scalars@), end as int),
            ) && end <= bytes@.len(),
            None => spec_read_scalars(bytes@, at as int) is None,
        },
{
    let count = match take_u32(bytes, at) {
        Some(count) => count,
        None => {
            return None;
        },
    };
    let len = bytes.len();
    let first = at + 4;
    if ((len - first) as u64) < 32 * (count as u64) {
        return None;
    }
    let mut scalars: Vec<ScalarBytes> = Vec::new();
    let mut i: u32 = 0;
    while i < count
        invariant
            i <= count,
            first == at + 4,
            len == bytes@.len(),
            first + 32 * count <= len,
            scalars@.len() == i,
            forall|k: int|
                0 <= k < i ==> (#[trigger] scalars@[k])@ == bytes@.subrange(
                    first + 32 * k,
                    first + 32 * k + 32,
                ),
        decreases count - i,
    {
        let from = first + 32 * (i as usize);
        let mut scalar: ScalarBytes = [0u8;32];
        let mut j: usize = 0;
        while j < 32
            invariant
                j <= 32,
                len == bytes@.len(),
                from + 32 <= len,
                forall|k: int| 0 <= k < j ==> scalar@[k] == bytes@[from + k],
            decreases 32 - j,
        {
            scalar[j] = bytes[from + j];
            j += 1;
        }
        assert(scalar@ =~= bytes@.subrange(from as int, from + 32));
        scalars.push(scalar);
        i += 1;
    }
    let end = first + 32 * (count as usize);
    assert(scalar_views(scalars@) =~= Seq::new(
        count as nat,
        |k: int| bytes@.subrange(at + 4 + 32 * k, at + 4 + 32 * k + 32),
    ));
    Some((scalars, end))
}

/// Reads the section of bytes that starts at `at`.
fn take_bytes(bytes: &[u8], at: usize) -> (read: Option<(Vec<u8>, usize)>)
    requires
        at <= bytes@.len(),
    ensures
        match read {
            Some((content, end)) => spec_read_bytes(bytes@, at as int) == Some(
                (content@, end as int),
            ) && end <= bytes@.len(),
            None => spec_read_bytes(bytes@, at as int) is None,
        },
{
    let count = match take_u32(bytes, at) {
        Some(count) => count,
        None => {
            return None;
        },
    };
    let len = bytes.len();
    let first = at + 4;
    if ((len - first) as u64) < count as u64 {
        return None;
    }
    let mut content: Vec<u8> = Vec::new();
    let mut i: usize = 0;
    while i < count as usize
        invariant
            i <= count,
            first == at + 4,
            len == bytes@.len(),
            first + count <= len,
            content@ == bytes@.subrange(first as int, first + i),
        decreases count - i,
    {
        content.push(bytes[first + i]);
        assert(content@ =~= bytes@.subrange(first as int, first + i + 1));
        i += 1;
    }
    Some((content, first + count as usize))
}

/// Encodes shared blinds. There is no encoding for more than `u32::MAX` blinds.
pub fn encode_blinds(blinds: &Vec<ScalarBytes>) -> (encoded: Option<Vec<u8>>)
    ensures
        encoded is Some == (blinds@.len() <= u32::MAX),
        encoded is Some ==> encoded.unwrap()@ == spec_encode_blinds(scalar_views(blinds@)),
{
    if blinds.len() > u32::MAX as usize {
        return None;
    }
    let mut out: Vec<u8> = Vec::new();
    put_magic(&mut out, [0x7a, 0x6b, 0x42, 0x31]);
    put_scalars(&mut out, blinds);
    assert(out@ =~= spec_encode_blinds(scalar_views(blinds@)));
    Some(out)
}

/// Decodes shared blinds. Succeeds exactly on the byte strings that follow the
/// layout from the first byte to the last.
pub fn decode_blinds(bytes: &[u8]) -> (decoded: Result<Vec<ScalarBytes>, DecodeError>)
    ensures
        match decoded {
            Ok(blinds) => spec_decode_blinds(bytes@) == Ok::<Seq<Seq<u8>>, DecodeError>(
                scalar_views(blinds@),
            ),
            Err(e) => spec_decode_blinds(bytes@) == Err::<Seq<Seq<u8>>, DecodeError>(e),
        },
{
    if !has_magic(bytes, [0x7a, 0x6b, 0x42, 0x31]) {
        return Err(DecodeError::BadMagic);
    }
    match take_scalars(bytes, 4) {
        None => Err(DecodeError::Truncated),
        Some((blinds, end)) => if end != bytes.len() {
            Err(DecodeError::TrailingBytes)
        } else {
            Ok(blinds)
        },
    }
}

/// Encodes a witness. There is no encoding for lists of more than `u32::MAX` scalars.
pub fn encode_witness(witness: &Witness) -> (encoded: Option<Vec<u8>>)
    ensures
        encoded is Some == (witness@.shared.len() <= u32::MAX && witness@.rest.len() <= u32::MAX),
        encoded is Some ==> encoded.unwrap()@ == spec_encode_witness(
            scalar_views(witness@.shared),
            scalar_views(witness@.rest),
        ),
{
    if witness.shared.len() > u32::MAX as usize || witness.rest.len() > u32::MAX as usize {
        return None;
    }
    let mut out: Vec<u8> = Vec::new();
    put_magic(&mut out, [0x7a, 0x6b, 0x57, 0x31]);
    put_scalars(&mut out, &witness.shared);
    put_scalars(&mut out, &witness.rest);
    assert(out@ =~= spec_encode_witness(
        scalar_views(witness@.shared),
        scalar_views(witness@.rest),
    ));
    Some(out)
}

/// Decodes a witness. Succeeds exactly on the byte strings that follow the layout
/// from the first byte to the last.
pub fn decode_witness(bytes: &[u8]) -> (decoded: Result<Witness, DecodeError>)
    ensures
        match decoded {
            Ok(witness) => spec_decode_witness(bytes@) == Ok::<
                (Seq<Seq<u8>>, Seq<Seq<u8>>),
                DecodeError,
            >((scalar_views(witness@.shared), scalar_views(witness@.rest))),
            Err(e) => spec_decode_witness(bytes@) == Err::<
                (Seq<Seq<u8>>, Seq<Seq<u8>>),
                DecodeError,
            >(e),
        },
{
    if !has_magic(bytes, [0x7a, 0x6b, 0x57, 0x31]) {
        return Err(DecodeError::BadMagic);
    }
    let (shared, middle) = match take_scalars(bytes, 4) {
        None => {
            return Err(DecodeError::Truncated);
        },
        Some(read) => read,
    };
    let (rest, end) = match take_scalars(bytes, middle) {
        None => {
            return Err(DecodeError::Truncated);
        },
        Some(read) => read,
    };
    if end != bytes.len() {
        Err(DecodeError::TrailingBytes)
    } else {
        Ok(Witness { shared, rest })
    }
}

/// Encodes an instance. There is no encoding for more than `u32::MAX` public
/// values or a commitment of more than `u32::MAX` bytes.
pub fn encode_instance(instance: &Instance) -> (encoded: Option<Vec<u8>>)
    ensures
        encoded is Some == (instance@.public_values.len() <= u32::MAX
            && instance@.comm_shared.len() <= u32::MAX),
        encoded is Some ==> encoded.unwrap()@ == spec_encode_instance(
            scalar_views(instance@.public_values),
            instance@.comm_shared,
        ),
{
    if instance.public_values.len() > u32::MAX as usize || instance.comm_shared.len()
        > u32::MAX as usize {
        return None;
    }
    let mut out: Vec<u8> = Vec::new();
    put_magic(&mut out, [0x7a, 0x6b, 0x49, 0x31]);
    put_scalars(&mut out, &instance.public_values);
    put_bytes(&mut out, &instance.comm_shared);
    assert(out@ =~= spec_encode_instance(
        scalar_views(instance@.public_values),
        instance@.comm_shared,
    ));
    Some(out)
}

/// Decodes an instance. Succeeds exactly on the byte strings that follow the
/// layout from the first byte to the last.
pub fn decode_instance(bytes: &[u8]) -> (decoded: Result<Instance, DecodeError>)
    ensures
        match decoded {
            Ok(instance) => spec_decode_instance(bytes@) == Ok::<
                (Seq<Seq<u8>>, Seq<u8>),
                DecodeError,
            >((scalar_views(instance@.public_values), instance@.comm_shared)),
            Err(e) => spec_decode_instance(bytes@) == Err::<(Seq<Seq<u8>>, Seq<u8>), DecodeError>(
                e,
            ),
        },
{
    if !has_magic(bytes, [0x7a, 0x6b, 0x49, 0x31]) {
        return Err(DecodeError::BadMagic);
    }
    let (public_values, middle) = match take_scalars(bytes, 4) {
        None => {
            return Err(DecodeError::Truncated);
        },
        Some(read) => read,
    };
    let (comm_shared, end) = match take_bytes(bytes, middle) {
        None => {
            return Err(DecodeError::Truncated);
        },
        Some(read) => read,
    };
    if end != bytes.len() {
        Err(DecodeError::TrailingBytes)
    } else {
        Ok(Instance { public_values, comm_shared })
    }
}

/// A number that was written is the number that is read.
pub proof fn lemma_u32_written(prefix: Seq<u8>, n: nat, suffix: Seq<u8>)
    requires
        n <= u32::MAX,
    ensures
        spec_u32_at(prefix + spec_u32_bytes(n) + suffix, prefix.len() as int) == n,
{
    let all = prefix + spec_u32_bytes(n) + suffix;
    let at = prefix.len() as int;
    assert(all[at] == spec_u32_bytes(n)[0]);
    assert(all[at + 1] == spec_u32_bytes(n)[1]);
    assert(all[at + 2] == spec_u32_bytes(n)[2]);
    assert(all[at + 3] == spec_u32_bytes(n)[3]);
}

/// A section of scalars that was written is the section that is read, wherever
/// it stands.
pub proof fn lemma_scalars_written(prefix: Seq<u8>, scalars: Seq<Seq<u8>>, suffix: Seq<u8>)
    requires
        scalars.len() <= u32::MAX,
        spec_all_32(scalars),
    ensures
        spec_read_scalars(
            prefix + spec_scalars_section(scalars) + suffix,
            prefix.len() as int,
        ) == Some((scalars, (prefix.len() + 4 + 32 * scalars.len()) as int)),
{
    let all = prefix + spec_scalars_section(scalars) + suffix;
    let at = prefix.len() as int;
    let flat = spec_flatten(scalars);
    assert(all =~= prefix + spec_u32_bytes(scalars.len()) + (flat + suffix));
    lemma_u32_written(prefix, scalars.len(), flat + suffix);
    let read = Seq::new(
        scalars.len(),
        |i: int| all.subrange(at + 4 + 32 * i, at + 4 + 32 * i + 32),
    );
    assert forall|i: int| 0 <= i < scalars.len() implies read[i] == scalars[i] by {
        let piece = all.subrange(at + 4 + 32 * i, at + 4 + 32 * i + 32);
        assert(scalars[i].len() == 32);
        assert forall|j: int| 0 <= j < 32 implies piece[j] == scalars[i][j] by {
            assert(piece[j] == all[at + 4 + 32 * i + j]);
            assert(all[at + 4 + 32 * i + j] == flat[32 * i + j]);
            assert((32 * i + j) / 32 == i);
            assert((32 * i + j) % 32 == j);
        }
        assert(piece =~= scalars[i]);
    }
    assert(read =~= scalars);
}

/// A section of bytes that was written is the section that is read, wherever it
/// stands.
pub proof fn lemma_bytes_written(prefix: Seq<u8>, bytes: Seq<u8>, suffix: Seq<u8>)
    requires
        bytes.len() <= u32::MAX,
    ensures
        spec_read_bytes(prefix + spec_bytes_section(bytes) + suffix, prefix.len() as int) == Some(
            (bytes, (prefix.len() + 4 + bytes.len()) as int),
        ),
{
    let all = prefix + spec_bytes_section(bytes) + suffix;
    let at = prefix.len() as int;
    assert(all =~= prefix + spec_u32_bytes(bytes.len()) + (bytes + suffix));
    lemma_u32_written(prefix, bytes.len(), bytes + suffix);
    assert(all.subrange(at + 4, at + 4 + bytes.len()) =~= bytes);
}

/// Shared blinds that are encoded and decoded again are the same blinds.
pub proof fn law_blinds_round_trip(blinds: Seq<Seq<u8>>)
    requires
        blinds.len() <= u32::MAX,
        spec_all_32(blinds),
    ensures
        spec_decode_blinds(spec_encode_blinds(blinds)) == Ok::<Seq<Seq<u8>>, DecodeError>(blinds),
{
    let encoded = spec_encode_blinds(blinds);
    let magic = spec_blinds_magic();
    assert(encoded.len() == 4 + 4 + 32 * blinds.len());
    assert(spec_has_magic(encoded, magic)) by {
        assert(encoded.subrange(0, 4) =~= magic);
    }
    assert(spec_read_scalars(encoded, 4) == Some((blinds, encoded.len() as int))) by {
        assert(encoded =~= magic + spec_scalars_section(blinds) + Seq::<u8>::empty());
        lemma_scalars_written(magic, blinds, Seq::empty());
    }
}

/// A witness that is encoded and decoded again is the same witness.
pub proof fn law_witness_round_trip(shared: Seq<Seq<u8>>, rest: Seq<Seq<u8>>)
    requires
        shared.len() <= u32::MAX,
        rest.len() <= u32::MAX,
        spec_all_32(shared),
        spec_all_32(rest),
    ensures
        spec_decode_witness(spec_encode_witness(shared, rest)) == Ok::<
            (Seq<Seq<u8>>, Seq<Seq<u8>>),
            DecodeError,
        >((shared, rest)),
{
    let encoded = spec_encode_witness(shared, rest);
    let magic = spec_witness_magic();
    let first = spec_scalars_section(shared);
    let second = spec_scalars_section(rest);
    let head = magic + first;
    let middle = 4 + 4 + 32 * shared.len();
    assert(head.len() == middle);
    assert(encoded.len() == middle + 4 + 32 * rest.len());
    assert(spec_has_magic(encoded, magic)) by {
        assert(encoded.subrange(0, 4) =~= magic);
    }
    assert(spec_read_scalars(encoded, 4) == Some((shared, middle as int))) by {
        assert(encoded =~= magic + first + second);
        lemma_scalars_written(magic, shared, second);
    }
    assert(spec_read_scalars(encoded, middle as int) == Some((rest, encoded.len() as int))) by {
        assert(encoded =~= head + second + Seq::<u8>::empty());
        lemma_scalars_written(head, rest, Seq::empty());
    }
}

/// An instance that is encoded and decoded again is the same instance.
pub proof fn law_instance_round_trip(public_values: Seq<Seq<u8>>, comm_shared: Seq<u8>)
    requires
        public_values.len() <= u32::MAX,
        comm_shared.len() <= u32::MAX,
        spec_all_32(public_values),
    ensures
        spec_decode_instance(spec_encode_instance(public_values, comm_shared)) == Ok::<
            (Seq<Seq<u8>>, Seq<u8>),
            DecodeError,
        >((public_values, comm_shared)),
{
    let encoded = spec_encode_instance(public_values, comm_shared);
    let magic = spec_instance_magic();
    let values = spec_scalars_section(public_values);
    let commitment = spec_bytes_section(comm_shared);
    let head = magic + values;
    let middle = 4 + 4 + 32 * public_values.len();
    assert(head.len() == middle);
    assert(encoded.len() == middle + 4 + comm_shared.len());
    assert(spec_has_magic(encoded, magic)) by {
        assert(encoded.subrange(0, 4) =~= magic);
    }
    assert(spec_read_scalars(encoded, 4) == Some((public_values, middle as int))) by {
        assert(encoded =~= magic + values + commitment);
        lemma_scalars_written(magic, public_values, commitment);
    }
    assert(spec_read_bytes(encoded, middle as int) == Some(
        (comm_shared, encoded.len() as int),
    )) by {
        assert(encoded =~= head + commitment + Seq::<u8>::empty());
        lemma_bytes_written(head, comm_shared, Seq::empty());
    }
}

/// Two lists of scalars with the same bytes are the same list.
pub proof fn lemma_scalars_by_bytes(a: Seq<ScalarBytes>, b: Seq<ScalarBytes>)
    requires
        scalar_views(a) == scalar_views(b),
    ensures
        a == b,
{
    assert(a.len() == scalar_views(a).len());
    assert(b.len() == scalar_views(b).len());
    assert forall|i: int| 0 <= i < a.len() implies a[i] == b[i] by {
        assert(a[i]@ == scalar_views(a)[i]);
        assert(b[i]@ == scalar_views(b)[i]);
        assert(a[i] =~= b[i]);
    }
    assert(a =~= b);
}

/// What a slot for shared blinds holds after the file `content` has been read
/// into it: nothing for no file, the blinds for a well-formed file, and the
/// reason for a malformed one.
pub open spec fn spec_restored_blinds(
    content: Option<Seq<u8>>,
    slot: SlotView<Seq<ScalarBytes>>,
) -> bool {
    match content {
        None => slot is Absent,
        Some(bytes) => match spec_decode_blinds(bytes) {
            Ok(blinds) => slot is Present && scalar_views(slot->value) == blinds,
            Err(e) => slot == (SlotView::<Seq<ScalarBytes>>::Malformed { reason: e.spec_describe() }),
        },
    }
}

/// What a slot for a witness holds after the file `content` has been read into it.
pub open spec fn spec_restored_witness(
    content: Option<Seq<u8>>,
    slot: SlotView<WitnessView>,
) -> bool {
    match content {
        None => slot is Absent,
        Some(bytes) => match spec_decode_witness(bytes) {
            Ok(pair) => slot is Present && scalar_views(slot->value.shared) == pair.0
                && scalar_views(slot->value.rest) == pair.1,
            Err(e) => slot == (SlotView::<WitnessView>::Malformed { reason: e.spec_describe() }),
        },
    }
}

/// What a slot for an instance holds after the file `content` has been read into it.
pub open spec fn spec_restored_instance(
    content: Option<Seq<u8>>,
    slot: SlotView<InstanceView>,
) -> bool {
    match content {
        None => slot is Absent,
        Some(bytes) => match spec_decode_instance(bytes) {
            Ok(pair) => slot is Present && scalar_views(slot->value.public_values) == pair.0
                && slot->value.comm_shared == pair.1,
            Err(e) => slot == (SlotView::<InstanceView>::Malformed { reason: e.spec_describe() }),
        },
    }
}

/// The byte string held by an optional buffer.
pub open spec fn spec_content(content: Option<Vec<u8>>) -> Option<Seq<u8>> {
    match content {
        Some(bytes) => Some(bytes@),
        None => None,
    }
}

/// Fills a slot for a key or a proof from the content of its file, if there is
/// one. Keys and proofs are kept as the backend encodes them.
pub fn restore_blob(content: Option<Vec<u8>>) -> (slot: Slot<Vec<u8>>)
    ensures
        match content {
            None => slot@ is Absent,
            Some(bytes) => slot@ == (SlotView::Present { value: bytes@ }),
        },
{
    match content {
        None => Slot::Absent,
        Some(value) => Slot::Present { value },
    }
}

/// Fills a slot for shared blinds from the content of their file, if there is one.
/// A file that cannot be decoded leaves the slot malformed.
pub fn restore_blinds(content: Option<Vec<u8>>) -> (slot: Slot<Vec<ScalarBytes>>)
    ensures
        spec_restored_blinds(spec_content(content), slot@),
{
    match content {
        None => Slot::Absent,
        Some(bytes) => match decode_blinds(bytes.as_slice()) {
            Ok(value) => Slot::Present { value },
            Err(e) => Slot::Malformed { reason: String::from_str(e.describe()) },
        },
    }
}

/// Fills a slot for a witness from the content of its file, if there is one.
/// A file that cannot be decoded leaves the slot malformed.
pub fn restore_witness(content: Option<Vec<u8>>) -> (slot: Slot<Witness>)
    ensures
        spec_restored_witness(spec_content(content), slot@),
{
    match content {
        None => Slot::Absent,
        Some(bytes) => match decode_witness(bytes.as_slice()) {
            Ok(value) => Slot::Present { value },
            Err(e) => Slot::Malformed { reason: String::from_str(e.describe()) },
        },
    }
}

/// Fills a slot for an instance from the content of its file, if there is one.
/// A file that cannot be decoded leaves the slot malformed.
pub fn restore_instance(content: Option<Vec<u8>>) -> (slot: Slot<Instance>)
    ensures
        spec_restored_instance(spec_content(content), slot@),
{
    match content {
        None => Slot::Absent,
        Some(bytes) => match decode_instance(bytes.as_slice()) {
            Ok(value) => Slot::Present { value },
            Err(e) => Slot::Malformed { reason: String::from_str(e.describe()) },
        },
    }
}

/// The bytes to write into the file of a key or a proof: those of the artifact,
/// if the slot holds one.
pub fn persist_blob(slot: &Slot<Vec<u8>>) -> (content: Option<&Vec<u8>>)
    ensures
        match content {
            Some(bytes) => slot@ == (SlotView::Present { value: bytes@ }),
            None => !(slot@ is Present),
        },
{
    match slot {
        Slot::Present { value } => Some(value),
        _ => None,
    }
}

/// The bytes to write into the file of the shared blinds: their encoding, if the
/// slot holds blinds that have one.
pub fn persist_blinds(slot: &Slot<Vec<ScalarBytes>>) -> (content: Option<Vec<u8>>)
    ensures
        match content {
            Some(bytes) => slot@ is Present && bytes@ == spec_encode_blinds(
                scalar_views(slot@->value),
            ),
            None => !(slot@ is Present) || slot@->value.len() > u32::MAX,
        },
{
    match slot {
        Slot::Present { value } => encode_blinds(value),
        _ => None,
    }
}

/// The bytes to write into the file of a witness: its encoding, if the slot holds
/// a witness that has one. Their number is the size that
/// [`crate::inspect::get_proof_size`] reports for the witness.
pub fn persist_witness(slot: &Slot<Witness>) -> (content: Option<Vec<u8>>)
    ensures
        match content {
            Some(bytes) => slot@ is Present && bytes@ == spec_encode_witness(
                scalar_views(slot@->value.shared),
                scalar_views(slot@->value.rest),
            ),
            None => !(slot@ is Present) || slot@->value.shared.len() > u32::MAX
                || slot@->value.rest.len() > u32::MAX,
        },
{
    match slot {
        Slot::Present { value } => encode_witness(value),
        _ => None,
    }
}

/// The bytes to write into the file of an instance: its encoding, if the slot
/// holds an instance that has one.
pub fn persist_instance(slot: &Slot<Instance>) -> (content: Option<Vec<u8>>)
    ensures
        match content {
            Some(bytes) => slot@ is Present && bytes@ == spec_encode_instance(
                scalar_views(slot@->value.public_values),
                slot@->value.comm_shared,
            ),
            None => !(slot@ is Present) || slot@->value.public_values.len() > u32::MAX
                || slot@->value.comm_shared.len() > u32::MAX,
        },
{
    match slot {
        Slot::Present { value } => encode_instance(value),
        _ => None,
    }
}

/// The scalars of a list have 32 bytes each.
pub proof fn lemma_views_are_32(scalars: Seq<ScalarBytes>)
    ensures
        spec_all_32(scalar_views(scalars)),
{
    assert forall|i: int| 0 <= i < scalar_views(scalars).len() implies (
    #[trigger] scalar_views(scalars)[i]).len() == 32 by {
        assert(scalar_views(scalars)[i] == scalars[i]@);
    }
}

/// Persistence is faithful. What was written for a slot and is read back into a
/// slot is the artifact that the first slot held.
pub proof fn law_persisted_artifacts_come_back(
    blinds: Seq<ScalarBytes>,
    blinds_back: SlotView<Seq<ScalarBytes>>,
    witness: WitnessView,
    witness_back: SlotView<WitnessView>,
    instance: InstanceView,
    instance_back: SlotView<InstanceView>,
)
    requires
        blinds.len() <= u32::MAX,
        witness.shared.len() <= u32::MAX,
        witness.rest.len() <= u32::MAX,
        instance.public_values.len() <= u32::MAX,
        instance.comm_shared.len() <= u32::MAX,
        spec_restored_blinds(Some(spec_encode_blinds(scalar_views(blinds))), blinds_back),
        spec_restored_witness(
            Some(spec_encode_witness(scalar_views(witness.shared), scalar_views(witness.rest))),
            witness_back,
        ),
        spec_restored_instance(
            Some(
                spec_encode_instance(scalar_views(instance.public_values), instance.comm_shared),
            ),
            instance_back,
        ),
    ensures
        blinds_back == (SlotView::Present { value: blinds }),
        witness_back == (SlotView::Present { value: witness }),
        instance_back == (SlotView::Present { value: instance }),
{
    lemma_views_are_32(blinds);
    lemma_views_are_32(witness.shared);
    lemma_views_are_32(witness.rest);
    lemma_views_are_32(instance.public_values);
    law_blinds_round_trip(scalar_views(blinds));
    law_witness_round_trip(scalar_views(witness.shared), scalar_views(witness.rest));
    law_instance_round_trip(scalar_views(instance.public_values), instance.comm_shared);
    lemma_scalars_by_bytes(blinds_back->value, blinds);
    lemma_scalars_by_bytes(witness_back->value.shared, witness.shared);
    lemma_scalars_by_bytes(witness_back->value.rest, witness.rest);
    lemma_scalars_by_bytes(instance_back->value.public_values, instance.public_values);
}

impl DecodeError {
    /// The words that describe the failure.
    pub open spec fn spec_describe(self) -> Seq<char> {
        match self {
            DecodeError::BadMagic => "the bytes do not start as this artifact does"@,
            DecodeError::Truncated => "the bytes end too early"@,
            DecodeError::TrailingBytes => "there are bytes after the end"@,
        }
    }

    /// The words that describe the failure.
    pub fn describe(self) -> (words: &'static str)
        ensures
            words@ == self.spec_describe(),
    {
        match self {
            DecodeError::BadMagic => "the bytes do not start as this artifact does",
            DecodeError::Truncated => "the bytes end too early",
            DecodeError::TrailingBytes => "there are bytes after the end",
        }
    }
}

} // verus!
