//! The two file formats of the key tool, as functions on bytes: the setup key
//! file that is read, and the parameter file that is written.

use vstd::prelude::*;
use vstd::slice::slice_subrange;

verus! {

/// The number of bytes of a point of the first group: two coordinates of 32
/// bytes each.
pub const G1_POINT_BYTES: usize = 64;

/// The number of bytes of a point of the second group: two coordinates of
/// two times 32 bytes each.
pub const G2_POINT_BYTES: usize = 128;

/// The number of points of the second group that a setup key file holds.
pub const G2_POINT_COUNT: u64 = 2;

/// Why a setup key file cannot be read.
#[derive(Clone, Copy, Debug, PartialEq, Eq, Structural)]
pub enum KeyFileError {
    /// The file ends before a count or a point is complete.
    UnexpectedEof,
    /// The bytes of a point are not the encoding of a point of its group.
    InvalidPoint,
    /// The file announces this number of points of the second group, and not
    /// the two that a setup key has.
    UnexpectedG2Count(u64),
}

/// Why a parameter file cannot be written.
#[derive(Clone, Copy, Debug, PartialEq, Eq, Structural)]
pub enum ParamsError {
    /// The additional data has this many bytes, more than the four bytes of
    /// its length field can announce.
    AdditionalDataTooLong(usize),
}

#[verifier::external_type_specification]
#[verifier::external_body]
pub struct ExGroupDecodingError(pairing_ce::GroupDecodingError);

/// The number that eight bytes denote, most significant byte first.
pub open spec fn be_u64(bytes: Seq<u8>) -> int
    recommends
        bytes.len() >= 8,
{
    bytes[0] * 0x100_0000_0000_0000 + bytes[1] * 0x1_0000_0000_0000 + bytes[2] * 0x100_0000_0000
        + bytes[3] * 0x1_0000_0000 + bytes[4] * 0x100_0000 + bytes[5] * 0x1_0000 + bytes[6] * 0x100
        + bytes[7]
}

/// The four bytes that denote `value`, least significant byte first.
pub open spec fn le_u32(value: u32) -> Seq<u8> {
    seq![
        (value % 0x100) as u8,
        (value / 0x100 % 0x100) as u8,
        (value / 0x1_0000 % 0x100) as u8,
        (value / 0x100_0000) as u8,
    ]
}

/// The point of the first group that 64 bytes encode, as its own
/// uncompressed encoding, or `None` where they encode no point.
pub uninterp spec fn g1_point(encoding: Seq<u8>) -> Option<Seq<u8>>;

/// The point of the second group that 128 bytes encode, as its own
/// uncompressed encoding, or `None` where they encode no point.
pub uninterp spec fn g2_point(encoding: Seq<u8>) -> Option<Seq<u8>>;

/// Calls `byteorder::BigEndian::read_u64`, which reads the first eight bytes
/// of the buffer as a big-endian number and panics on a shorter buffer.
#[verifier::external_body]
fn read_u64_be(buf: &[u8]) -> (value: u64)
    requires
        buf@.len() >= 8,
    ensures
        value == be_u64(buf@),
{
    <byteorder::BigEndian as byteorder::ByteOrder>::read_u64(buf)
}

/// Calls `into_affine` of `pairing_ce::bn256::G1Uncompressed` on the 64
/// bytes, and `into_uncompressed` on the point that comes out. Whether the
/// bytes decode, and to which point, depends on the bytes alone; nothing else
/// is claimed.
#[verifier::external_body]
fn decode_g1(encoding: &[u8]) -> (decoded: Result<Vec<u8>, pairing_ce::GroupDecodingError>)
    requires
        encoding@.len() == G1_POINT_BYTES,
    ensures
        match decoded {
            Ok(point) => g1_point(encoding@) == Some(point@),
            Err(_) => g1_point(encoding@) is None,
        },
{
    let mut repr = <pairing_ce::bn256::G1Uncompressed as pairing_ce::EncodedPoint>::empty();
    repr.as_mut().copy_from_slice(encoding);
    let point = pairing_ce::EncodedPoint::into_affine(&repr)?;
    Ok(pairing_ce::CurveAffine::into_uncompressed(&point).as_ref().to_vec())
}

/// Calls `into_affine` of `pairing_ce::bn256::G2Uncompressed` on the 128
/// bytes, and `into_uncompressed` on the point that comes out. Whether the
/// bytes decode, and to which point, depends on the bytes alone; nothing else
/// is claimed.
#[verifier::external_body]
fn decode_g2(encoding: &[u8]) -> (decoded: Result<Vec<u8>, pairing_ce::GroupDecodingError>)
    requires
        encoding@.len() == G2_POINT_BYTES,
    ensures
        match decoded {
            Ok(point) => g2_point(encoding@) == Some(point@),
            Err(_) => g2_point(encoding@) is None,
        },
{
    let mut repr = <pairing_ce::bn256::G2Uncompressed as pairing_ce::EncodedPoint>::empty();
    repr.as_mut().copy_from_slice(encoding);
    let point = pairing_ce::EncodedPoint::into_affine(&repr)?;
    Ok(pairing_ce::CurveAffine::into_uncompressed(&point).as_ref().to_vec())
}

/// The byte sequences that a vector of byte vectors holds.
pub open spec fn contents(items: Seq<Vec<u8>>) -> Seq<Seq<u8>> {
    items.map_values(|item: Vec<u8>| item@)
}

/// All byte sequences of `items` one behind the other.
pub open spec fn concatenation(items: Seq<Seq<u8>>) -> Seq<u8>
    decreases items.len(),
{
    if items.len() == 0 {
        Seq::empty()
    } else {
        concatenation(items.drop_last()) + items.last()
    }
}

/// The size of the encoding of a point of the first or the second group.
pub open spec fn point_bytes(second_group: bool) -> int {
    if second_group {
        G2_POINT_BYTES as int
    } else {
        G1_POINT_BYTES as int
    }
}

/// The point that `encoding` stands for in the first or the second group.
pub open spec fn point_of(second_group: bool, encoding: Seq<u8>) -> Option<Seq<u8>> {
    if second_group {
        g2_point(encoding)
    } else {
        g1_point(encoding)
    }
}

/// The first `count` points that start at `start`, read one after the other:
/// reading stops with the first point that is incomplete or is no point.
pub open spec fn points_from(bytes: Seq<u8>, start: int, count: nat, second_group: bool) -> Result<
    Seq<Seq<u8>>,
    KeyFileError,
>
    decreases count,
{
    if count == 0 {
        Ok(Seq::empty())
    } else {
        let size = point_bytes(second_group);
        let end = start + size * count;
        match points_from(bytes, start, (count - 1) as nat, second_group) {
            Err(e) => Err(e),
            Ok(before) => if end > bytes.len() {
                Err(KeyFileError::UnexpectedEof)
            } else {
                match point_of(second_group, bytes.subrange(end - size, end)) {
                    None => Err(KeyFileError::InvalidPoint),
                    Some(point) => Ok(before.push(point)),
                }
            },
        }
    }
}

/// What a setup key file holds: a big-endian count of eight bytes and that
/// many points of the first group, then a count that must be two and two
/// points of the second group. Bytes behind them are not looked at.
pub open spec fn key_file_content(bytes: Seq<u8>) -> Result<
    (Seq<Seq<u8>>, Seq<Seq<u8>>),
    KeyFileError,
> {
    if bytes.len() < 8 {
        Err(KeyFileError::UnexpectedEof)
    } else {
        let num_g1 = be_u64(bytes.subrange(0, 8));
        match points_from(bytes, 8, num_g1 as nat, false) {
            Err(e) => Err(e),
            Ok(g1) => {
                let at = 8 + G1_POINT_BYTES * num_g1;
                if bytes.len() < at + 8 {
                    Err(KeyFileError::UnexpectedEof)
                } else {
                    let num_g2 = be_u64(bytes.subrange(at, at + 8));
                    if num_g2 != G2_POINT_COUNT {
                        Err(KeyFileError::UnexpectedG2Count(num_g2 as u64))
                    } else {
                        match points_from(bytes, at + 8, G2_POINT_COUNT as nat, true) {
                            Err(e) => Err(e),
                            Ok(g2) => Ok((g1, g2)),
                        }
                    }
                }
            },
        }
    }
}

/// Once reading has failed, asking for more points fails in the same way.
pub proof fn lemma_points_from_failure_persists(
    bytes: Seq<u8>,
    start: int,
    count: nat,
    more: nat,
    second_group: bool,
)
    requires
        count <= more,
        points_from(bytes, start, count, second_group) is Err,
    ensures
        points_from(bytes, start, more, second_group) == points_from(
            bytes,
            start,
            count,
            second_group,
        ),
    decreases more,
{
    if count < more {
        lemma_points_from_failure_persists(bytes, start, count, (more - 1) as nat, second_group);
    }
}

/// Takes up a point that was decoded: one that decoded is appended to the
/// points read so far, and bytes that encode no point are refused.
pub fn accept_point(
    read: &mut Vec<Vec<u8>>,
    decoded: Result<Vec<u8>, pairing_ce::GroupDecodingError>,
) -> (accepted: Result<(), KeyFileError>)
    ensures
        match decoded {
            Ok(point) => accepted is Ok && final(read)@ == old(read)@.push(point),
            Err(_) => accepted == Err::<(), KeyFileError>(KeyFileError::InvalidPoint)
                && final(read)@ == old(read)@,
        },
{
    match decoded {
        Ok(point) => {
            read.push(point);
            Ok(())
        },
        Err(_) => Err(KeyFileError::InvalidPoint),
    }
}

/// Reads `count` points of one group, starting at `start`.
fn read_points(bytes: &[u8], start: usize, count: u64, second_group: bool) -> (points: Result<
    Vec<Vec<u8>>,
    KeyFileError,
>)
    requires
        start <= bytes@.len(),
    ensures
        match points {
            Ok(read) => points_from(bytes@, start as int, count as nat, second_group) == Ok::<
                Seq<Seq<u8>>,
                KeyFileError,
            >(contents(read@)) && start + point_bytes(second_group) * count <= bytes@.len(),
            Err(e) => points_from(bytes@, start as int, count as nat, second_group) == Err::<
                Seq<Seq<u8>>,
                KeyFileError,
            >(e),
        },
{
    let size: usize = if second_group {
        G2_POINT_BYTES
    } else {
        G1_POINT_BYTES
    };
    let mut read: Vec<Vec<u8>> = Vec::new();
    let mut done: u64 = 0;
    let mut offset: usize = start;
    assert(contents(read@) =~= Seq::<Seq<u8>>::empty());
    while done < count
        invariant
            done <= count,
            size == point_bytes(second_group),
            offset == start + size * done,
            offset <= bytes@.len(),
            points_from(bytes@, start as int, done as nat, second_group) == Ok::<
                Seq<Seq<u8>>,
                KeyFileError,
            >(contents(read@)),
        decreases count - done,
    {
        let ghost next = (done + 1) as nat;
        assert(start + size * next == offset + size) by (nonlinear_arith)
            requires
                offset == start + size * done,
                next == done + 1,
        ;
        if bytes.len() - offset < size {
            proof {
                lemma_points_from_failure_persists(
                    bytes@,
                    start as int,
                    next,
                    count as nat,
                    second_group,
                );
            }
            return Err(KeyFileError::UnexpectedEof);
        }
        let encoding = slice_subrange(bytes, offset, offset + size);
        let decoded = if second_group {
            decode_g2(encoding)
        } else {
            decode_g1(encoding)
        };
        let ghost before = contents(read@);
        match accept_point(&mut read, decoded) {
            Err(e) => {
                proof {
                    lemma_points_from_failure_persists(
                        bytes@,
                        start as int,
                        next,
                        count as nat,
                        second_group,
                    );
                }
                return Err(e);
            },
            Ok(()) => {
                assert(contents(read@) =~= before.push(read@.last()@));
            },
        }
        offset += size;
        done += 1;
    }
    Ok(read)
}

/// Reads a setup key file: the points of the first group and the two points
/// of the second group, each as its uncompressed encoding.
pub fn read_zk_sync_key(bytes: &[u8]) -> (key: Result<(Vec<Vec<u8>>, Vec<Vec<u8>>), KeyFileError>)
    ensures
        match key {
            Ok((g1, g2)) => key_file_content(bytes@) == Ok::<
                (Seq<Seq<u8>>, Seq<Seq<u8>>),
                KeyFileError,
            >((contents(g1@), contents(g2@))),
            Err(e) => key_file_content(bytes@) == Err::<(Seq<Seq<u8>>, Seq<Seq<u8>>), KeyFileError>(
                e,
            ),
        },
{
    if bytes.len() < 8 {
        return Err(KeyFileError::UnexpectedEof);
    }
    let num_g1 = read_u64_be(slice_subrange(bytes, 0, 8));
    let g1 = match read_points(bytes, 8, num_g1, false) {
        Ok(g1) => g1,
        Err(e) => {
            return Err(e);
        },
    };
    assert(8 + G1_POINT_BYTES * num_g1 <= bytes@.len()) by {
        assert(point_bytes(false) == G1_POINT_BYTES);
    }
    let at: usize = 8 + G1_POINT_BYTES * (num_g1 as usize);
    if bytes.len() - at < 8 {
        return Err(KeyFileError::UnexpectedEof);
    }
    let num_g2 = read_u64_be(slice_subrange(bytes, at, at + 8));
    if num_g2 != G2_POINT_COUNT {
        return Err(KeyFileError::UnexpectedG2Count(num_g2));
    }
    match read_points(bytes, at + 8, G2_POINT_COUNT, true) {
        Ok(g2) => Ok((g1, g2)),
        Err(e) => Err(e),
    }
}

/// What a parameter file holds: `k` in four bytes, least significant first,
/// the points of the fixed basis, the points of the Lagrange basis, and the
/// additional data behind its length in four bytes, least significant first.
pub open spec fn halo2_params_bytes(
    k: u32,
    g: Seq<Seq<u8>>,
    g_lagrange: Seq<Seq<u8>>,
    additional_data: Seq<u8>,
) -> Seq<u8> {
    le_u32(k) + concatenation(g) + concatenation(g_lagrange) + le_u32(additional_data.len() as u32)
        + additional_data
}

/// Appends `data` to `writer`.
fn write_all(writer: &mut Vec<u8>, data: &[u8])
    ensures
        final(writer)@ == old(writer)@ + data@,
{
    writer.extend_from_slice(data);
    assert(writer@ =~= old(writer)@ + data@);
}

/// Appends `value` to `writer` in four bytes, least significant first.
fn write_u32_le(writer: &mut Vec<u8>, value: u32)
    ensures
        final(writer)@ == old(writer)@ + le_u32(value),
{
    writer.push((value % 0x100) as u8);
    writer.push((value / 0x100 % 0x100) as u8);
    writer.push((value / 0x1_0000 % 0x100) as u8);
    writer.push((value / 0x100_0000) as u8);
    assert(writer@ =~= old(writer)@ + le_u32(value));
}

/// Appends the encoding of every point of `points` to `writer`, in order.
fn write_points(writer: &mut Vec<u8>, points: &Vec<Vec<u8>>)
    ensures
        final(writer)@ == old(writer)@ + concatenation(contents(points@)),
{
    let mut i: usize = 0;
    assert(contents(points@).take(0) =~= Seq::<Seq<u8>>::empty());
    while i < points.len()
        invariant
            i <= points@.len(),
            writer@ == old(writer)@ + concatenation(contents(points@).take(i as int)),
        decreases points@.len() - i,
    {
        let ghost before = contents(points@).take(i as int);
        let ghost upto = contents(points@).take(i + 1);
        assert(upto.drop_last() =~= before);
        assert(upto.last() == points@[i as int]@);
        write_all(writer, points[i].as_slice());
        assert(writer@ =~= old(writer)@ + concatenation(upto));
        i += 1;
    }
    assert(contents(points@).take(points@.len() as int) =~= contents(points@));
}

/// Writes a parameter file behind what `writer` holds: `k`, the encoded
/// points of the fixed basis and of the Lagrange basis, and the additional
/// data behind its length. Additional data that is too long for its length
/// field is refused, and nothing is written.
pub fn write_halo2_params(
    writer: &mut Vec<u8>,
    k: u32,
    g: &Vec<Vec<u8>>,
    g_lagrange: &Vec<Vec<u8>>,
    additional_data: &Vec<u8>,
) -> (written: Result<(), ParamsError>)
    ensures
        match written {
            Ok(()) => additional_data@.len() <= u32::MAX && final(writer)@ == old(writer)@
                + halo2_params_bytes(
                k,
                contents(g@),
                contents(g_lagrange@),
                additional_data@,
            ),
            Err(ParamsError::AdditionalDataTooLong(len)) => len == additional_data@.len() && len
                > u32::MAX && final(writer)@ == old(writer)@,
        },
{
    let len = additional_data.len();
    if len > u32::MAX as usize {
        return Err(ParamsError::AdditionalDataTooLong(len));
    }
    write_u32_le(writer, k);
    write_points(writer, g);
    write_points(writer, g_lagrange);
    write_u32_le(writer, len as u32);
    write_all(writer, additional_data.as_slice());
    assert(writer@ =~= old(writer)@ + halo2_params_bytes(
        k,
        contents(g@),
        contents(g_lagrange@),
        additional_data@,
    ));
    Ok(())
}

/// The number that four bytes denote, least significant byte first.
pub open spec fn le_u32_value(bytes: Seq<u8>) -> int
    recommends
        bytes.len() >= 4,
{
    bytes[0] + bytes[1] * 0x100 + bytes[2] * 0x1_0000 + bytes[3] * 0x100_0000
}

/// Whether every item of `items` has `size` bytes.
pub open spec fn all_of_size(items: Seq<Seq<u8>>, size: nat) -> bool {
    forall|i: int| 0 <= i < items.len() ==> (#[trigger] items[i]).len() == size
}

/// Four bytes that were written for a number denote that number.
pub proof fn lemma_le_u32_round_trip(value: u32)
    ensures
        le_u32(value).len() == 4,
        le_u32_value(le_u32(value)) == value,
{
}

/// Items of one size take up that size each.
pub proof fn lemma_concatenation_len(items: Seq<Seq<u8>>, size: nat)
    requires
        all_of_size(items, size),
    ensures
        concatenation(items).len() == items.len() * size,
    decreases items.len(),
{
    if items.len() > 0 {
        lemma_concatenation_len(items.drop_last(), size);
        assert(items.len() * size == (items.len() - 1) * size + size) by (nonlinear_arith);
    }
}

/// A parameter file can be read back: where all points are encoded in
/// `size` bytes, the file starts with `k`, holds the points of both bases in
/// `size` bytes each, then the length of the additional data, and ends with
/// the additional data itself.
pub proof fn params_file_layout(
    k: u32,
    g: Seq<Seq<u8>>,
    g_lagrange: Seq<Seq<u8>>,
    additional_data: Seq<u8>,
    size: nat,
)
    requires
        all_of_size(g, size),
        all_of_size(g_lagrange, size),
        additional_data.len() <= u32::MAX,
    ensures
        ({
            let file = halo2_params_bytes(k, g, g_lagrange, additional_data);
            let first = (g.len() * size) as int;
            let second = (g_lagrange.len() * size) as int;
            &&& file.len() == 4 + first + second + 4 + additional_data.len()
            &&& le_u32_value(file.subrange(0, 4)) == k
            &&& file.subrange(4, 4 + first) == concatenation(g)
            &&& file.subrange(4 + first, 4 + first + second) == concatenation(g_lagrange)
            &&& le_u32_value(file.subrange(4 + first + second, 4 + first + second + 4))
                == additional_data.len()
            &&& file.subrange(4 + first + second + 4, file.len() as int) == additional_data
        }),
{
    let file = halo2_params_bytes(k, g, g_lagrange, additional_data);
    let first = (g.len() * size) as int;
    let second = (g_lagrange.len() * size) as int;
    lemma_concatenation_len(g, size);
    lemma_concatenation_len(g_lagrange, size);
    lemma_le_u32_round_trip(k);
    lemma_le_u32_round_trip(additional_data.len() as u32);
    assert(file.subrange(0, 4) =~= le_u32(k));
    assert(file.subrange(4, 4 + first) =~= concatenation(g));
    assert(file.subrange(4 + first, 4 + first + second) =~= concatenation(g_lagrange));
    assert(file.subrange(4 + first + second, 4 + first + second + 4) =~= le_u32(
        additional_data.len() as u32,
    ));
    assert(file.subrange(4 + first + second + 4, file.len() as int) =~= additional_data);
}

} // verus!
