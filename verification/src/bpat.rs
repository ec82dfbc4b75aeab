//! The BPAT tensor storage format.
//!
//! A file starts with a magic header, then the number of tensors in one byte,
//! then each tensor: its rank, its dimensions and its raw element bytes. The
//! rank and the dimensions are little-endian words of eight bytes in the
//! formats that store `f64` elements and of four bytes in the others. The
//! checksummed formats follow each tensor with the CRC-32 of its rank,
//! dimensions and data, and end the file with the CRC-32 of everything
//! before it.

use vstd::prelude::*;
use crate::errors::{kind_text, Error, ErrorKind};

verus! {

/// `bpat`: the first format, with `f64` elements.
pub const BPAT_MAGIC_V0: [u8; 4] = [98, 112, 97, 116];

/// `BPATv1\0\0`: `f64` elements, with checksums.
pub const BPAT_MAGIC_V1: [u8; 8] = [66, 80, 65, 84, 118, 49, 0, 0];

/// `BPATv1m\0`: `f32` elements and four-byte words, with checksums.
pub const BPAT_MAGIC_V1_MICRO: [u8; 8] = [66, 80, 65, 84, 118, 49, 109, 0];

/// `BPAT\0f16`: half-precision elements and four-byte words.
pub const BPAT_MAGIC_V2_F16: [u8; 8] = [66, 80, 65, 84, 0, 102, 49, 54];

/// `BPATbf16`: brain-float elements and four-byte words.
pub const BPAT_MAGIC_V2_BF16: [u8; 8] = [66, 80, 65, 84, 98, 102, 49, 54];

/// `BPAT\0f32`: single-precision elements and four-byte words.
pub const BPAT_MAGIC_V2_F32: [u8; 8] = [66, 80, 65, 84, 0, 102, 51, 50];

/// The BPAT formats.
#[derive(Debug, Clone, Copy, PartialEq, Eq, Hash, Structural)]
pub enum BpatHeader {
    BpatV0,
    BpatV1,
    BpatV1M,
    BpatV2f16,
    BpatV2bf16,
    BpatV2f32,
}

/// The ways reading or writing tensors fails.
#[derive(Debug, Clone, Copy, PartialEq, Eq, Structural)]
pub enum SerialTensorError {
    /// A failure outside serialization itself.
    Unrelated,
    /// A checksum does not match.
    IntegrityUnverified,
    /// A tensor's data does not have the size of its shape.
    InvalidData,
    /// The file does not start with a known magic header.
    InvalidHeader,
    /// The file cannot be opened.
    InvalidPath,
    /// Reading or writing failed, or the file ended early.
    FailedFileIo,
}

impl SerialTensorError {
    /// The text that names the error.
    pub fn describe(&self) -> (s: &'static str)
        ensures
            s@ == serial_error_text(*self),
    {
        match self {
            SerialTensorError::IntegrityUnverified => "integrity unverified",
            SerialTensorError::InvalidData => "invalid data",
            SerialTensorError::InvalidHeader => "invalid header",
            SerialTensorError::InvalidPath => "invalid path",
            SerialTensorError::Unrelated => "[other]",
            SerialTensorError::FailedFileIo => "failed file I/O",
        }
    }
}

/// The text that names a serialization error.
pub open spec fn serial_error_text(e: SerialTensorError) -> Seq<char> {
    match e {
        SerialTensorError::IntegrityUnverified => "integrity unverified"@,
        SerialTensorError::InvalidData => "invalid data"@,
        SerialTensorError::InvalidHeader => "invalid header"@,
        SerialTensorError::InvalidPath => "invalid path"@,
        SerialTensorError::Unrelated => "[other]"@,
        SerialTensorError::FailedFileIo => "failed file I/O"@,
    }
}

/// A tensor as stored: its dimensions and its raw element bytes.
#[derive(Debug, Clone)]
pub struct TensorBytes {
    pub shape: Vec<u32>,
    pub data: Vec<u8>,
}

/// A stored tensor as a pair of sequences.
pub type TensorView = (Seq<u32>, Seq<u8>);

impl View for TensorBytes {
    type V = TensorView;

    open spec fn view(&self) -> TensorView {
        (self.shape@, self.data@)
    }
}

/// The views of a list of tensors.
pub open spec fn tensors_view(ts: Seq<TensorBytes>) -> Seq<TensorView> {
    ts.map_values(|t: TensorBytes| t@)
}

/// One bit of the CRC-32 register, reflected: a right shift, and the
/// polynomial 0xEDB88320 xored in where the bit shifted out was set.
pub open spec fn crc_step(c: u32) -> u32 {
    if c & 1u32 == 1u32 {
        (c >> 1u32) ^ 0xEDB8_8320u32
    } else {
        c >> 1u32
    }
}

/// `n` bits of the CRC-32 register.
pub open spec fn crc_bits(c: u32, n: nat) -> u32
    decreases n,
{
    if n == 0 {
        c
    } else {
        crc_step(crc_bits(c, (n - 1) as nat))
    }
}

/// The CRC-32 register after the bytes of `data`, one byte at a time: the
/// byte is xored into the low bits, then eight bits are stepped.
pub open spec fn crc_update(c: u32, data: Seq<u8>) -> u32
    decreases data.len(),
{
    if data.len() == 0 {
        c
    } else {
        crc_bits(crc_update(c, data.drop_last()) ^ (data.last() as u32), 8)
    }
}

/// The CRC-32 (IEEE) checksum of a byte sequence: the register starts at
/// all ones and the result is inverted.
pub open spec fn crc32(data: Seq<u8>) -> u32 {
    crc_update(0xFFFF_FFFFu32, data) ^ 0xFFFF_FFFFu32
}

/// Computes the CRC-32 (IEEE) checksum of `data` with `crc32fast::hash`,
/// whose result is the checksum `crc32` defines.
#[verifier::external_body]
fn crc32_hash(data: &[u8]) -> (c: u32)
    ensures
        c == crc32(data@),
{
    crc32fast::hash(data)
}

/// The width in bytes of the rank and of each dimension.
pub open spec fn word(h: BpatHeader) -> nat {
    match h {
        BpatHeader::BpatV0 | BpatHeader::BpatV1 => 8,
        _ => 4,
    }
}

/// The size in bytes of one element.
pub open spec fn elem_size(h: BpatHeader) -> nat {
    match h {
        BpatHeader::BpatV0 | BpatHeader::BpatV1 => 8,
        BpatHeader::BpatV1M | BpatHeader::BpatV2f32 => 4,
        BpatHeader::BpatV2f16 | BpatHeader::BpatV2bf16 => 2,
    }
}

/// Whether the format carries checksums.
pub open spec fn checksummed(h: BpatHeader) -> bool {
    h == BpatHeader::BpatV1 || h == BpatHeader::BpatV1M
}

/// The magic header of a format.
pub open spec fn magic(h: BpatHeader) -> Seq<u8> {
    match h {
        BpatHeader::BpatV0 => seq![98u8, 112, 97, 116],
        BpatHeader::BpatV1 => seq![66u8, 80, 65, 84, 118, 49, 0, 0],
        BpatHeader::BpatV1M => seq![66u8, 80, 65, 84, 118, 49, 109, 0],
        BpatHeader::BpatV2f16 => seq![66u8, 80, 65, 84, 0, 102, 49, 54],
        BpatHeader::BpatV2bf16 => seq![66u8, 80, 65, 84, 98, 102, 49, 54],
        BpatHeader::BpatV2f32 => seq![66u8, 80, 65, 84, 0, 102, 51, 50],
    }
}

/// `256` to the power `k`.
pub open spec fn p256(k: nat) -> nat
    decreases k,
{
    if k == 0 {
        1
    } else {
        256 * p256((k - 1) as nat)
    }
}

/// The `w` low bytes of `n`, least significant first.
pub open spec fn le(n: nat, w: nat) -> Seq<u8>
    decreases w,
{
    if w == 0 {
        Seq::empty()
    } else {
        seq![(n % 256) as u8] + le(n / 256, (w - 1) as nat)
    }
}

/// The number that little-endian bytes spell.
pub open spec fn le_val(b: Seq<u8>) -> nat
    decreases b.len(),
{
    if b.len() == 0 {
        0
    } else {
        b[0] as nat + 256 * le_val(b.drop_first())
    }
}

/// The product of the dimensions, wrapping at `2^32` as a product of `u32`
/// does.
pub open spec fn shape_prod(shape: Seq<u32>) -> nat
    decreases shape.len(),
{
    if shape.len() == 0 {
        1
    } else {
        (shape_prod(shape.drop_last()) * (shape.last() as nat)) % 0x1_0000_0000
    }
}

/// The dimensions, each as a little-endian word.
pub open spec fn dims_bytes(w: nat, shape: Seq<u32>) -> Seq<u8>
    decreases shape.len(),
{
    if shape.len() == 0 {
        Seq::empty()
    } else {
        dims_bytes(w, shape.drop_last()) + le(shape.last() as nat, w)
    }
}

/// A tensor's rank, dimensions and data.
pub open spec fn tensor_body(h: BpatHeader, t: TensorView) -> Seq<u8> {
    le(t.0.len(), word(h)) + dims_bytes(word(h), t.0) + t.1
}

/// A tensor as written: its body, then its checksum where the format has
/// checksums.
pub open spec fn tensor_record(h: BpatHeader, t: TensorView) -> Seq<u8> {
    let body = tensor_body(h, t);
    if checksummed(h) {
        body + le(crc32(body) as nat, 4)
    } else {
        body
    }
}

/// The records of a list of tensors, in order.
pub open spec fn records(h: BpatHeader, ts: Seq<TensorView>) -> Seq<u8>
    decreases ts.len(),
{
    if ts.len() == 0 {
        Seq::empty()
    } else {
        records(h, ts.drop_last()) + tensor_record(h, ts.last())
    }
}

/// Everything a file holds before its closing checksum.
pub open spec fn content(h: BpatHeader, ts: Seq<TensorView>) -> Seq<u8> {
    magic(h) + seq![ts.len() as u8] + records(h, ts)
}

/// The bytes of a file holding `ts` in format `h`.
pub open spec fn bpat_bytes(h: BpatHeader, ts: Seq<TensorView>) -> Seq<u8> {
    let c = content(h, ts);
    if checksummed(h) {
        c + le(crc32(c) as nat, 4)
    } else {
        c
    }
}

/// The data size of a tensor, counted in elements, is the product of its
/// dimensions.
pub open spec fn size_matches(h: BpatHeader, t: TensorView) -> bool {
    t.1.len() / elem_size(h) == shape_prod(t.0)
}

/// An error of serialization.
pub open spec fn serial_err(msg: &'static str, kind: ErrorKind, ctx: SerialTensorError) -> Error<SerialTensorError> {
    Error { msg, kind, ctx }
}

/// More tensors than one byte can count.
pub open spec fn too_many_err() -> Error<SerialTensorError> {
    serial_err("exceeds max tensors of 255", ErrorKind::InvalidArgument, SerialTensorError::Unrelated)
}

/// A tensor whose data does not have the size of its shape.
pub open spec fn mismatch_err() -> Error<SerialTensorError> {
    serial_err("tensor prod(shape)/data.size mismatch", ErrorKind::InvalidArgument, SerialTensorError::InvalidData)
}

/// What writing `ts` in format `h` gives: the file's bytes, or the error
/// that stops it.
pub open spec fn encode_spec(h: BpatHeader, ts: Seq<TensorView>) -> Result<Seq<u8>, Error<SerialTensorError>> {
    if ts.len() > 255 {
        Err(too_many_err())
    } else if exists|i: int| 0 <= i < ts.len() && !size_matches(h, #[trigger] ts[i]) {
        Err(mismatch_err())
    } else {
        Ok(bpat_bytes(h, ts))
    }
}

/// Appends the `w` low bytes of `n`, least significant first.
fn push_le(out: &mut Vec<u8>, n: u64, w: usize)
    ensures
        final(out)@ == old(out)@ + le(n as nat, w as nat),
{
    let mut x = n;
    let mut i: usize = 0;
    while i < w
        invariant
            i <= w,
            out@ + le(x as nat, (w - i) as nat) == old(out)@ + le(n as nat, w as nat),
        decreases w - i,
    {
        let ghost before = out@;
        out.push((x % 256) as u8);
        proof {
            assert(le(x as nat, (w - i) as nat) == seq![(x % 256) as u8] + le((x / 256) as nat, (w - i - 1) as nat));
            assert(out@ + le((x / 256) as nat, (w - i - 1) as nat) =~= before + le(x as nat, (w - i) as nat));
        }
        x = x / 256;
        i = i + 1;
    }
    proof {
        assert(out@ + le(x as nat, 0) =~= out@);
    }
}

/// The magic header of a format.
fn magic_bytes(h: BpatHeader) -> (v: Vec<u8>)
    ensures
        v@ == magic(h),
{
    let v = match h {
        BpatHeader::BpatV0 => vec![98u8, 112, 97, 116],
        BpatHeader::BpatV1 => vec![66u8, 80, 65, 84, 118, 49, 0, 0],
        BpatHeader::BpatV1M => vec![66u8, 80, 65, 84, 118, 49, 109, 0],
        BpatHeader::BpatV2f16 => vec![66u8, 80, 65, 84, 0, 102, 49, 54],
        BpatHeader::BpatV2bf16 => vec![66u8, 80, 65, 84, 98, 102, 49, 54],
        BpatHeader::BpatV2f32 => vec![66u8, 80, 65, 84, 0, 102, 51, 50],
    };
    proof {
        assert(v@ =~= magic(h));
    }
    v
}

/// The width in bytes of the rank and of each dimension.
fn word_of(h: BpatHeader) -> (w: usize)
    ensures
        w == word(h),
{
    match h {
        BpatHeader::BpatV0 | BpatHeader::BpatV1 => 8,
        _ => 4,
    }
}

/// The size in bytes of one element.
fn elem_size_of(h: BpatHeader) -> (s: usize)
    ensures
        s == elem_size(h),
{
    match h {
        BpatHeader::BpatV0 | BpatHeader::BpatV1 => 8,
        BpatHeader::BpatV1M | BpatHeader::BpatV2f32 => 4,
        BpatHeader::BpatV2f16 | BpatHeader::BpatV2bf16 => 2,
    }
}

/// Whether a format carries checksums.
fn is_checksummed(h: BpatHeader) -> (b: bool)
    ensures
        b == checksummed(h),
{
    h == BpatHeader::BpatV1 || h == BpatHeader::BpatV1M
}

/// The product of the dimensions, wrapping at `2^32`.
pub fn shape_product(shape: &[u32]) -> (p: u32)
    ensures
        p == shape_prod(shape@),
{
    let mut acc: u64 = 1;
    let mut i: usize = 0;
    while i < shape.len()
        invariant
            i <= shape@.len(),
            acc == shape_prod(shape@.take(i as int)),
            acc < 0x1_0000_0000,
        decreases shape@.len() - i,
    {
        proof {
            assert(shape@.take(i + 1).drop_last() =~= shape@.take(i as int));
            assert(shape@.take(i + 1).last() == shape@[i as int]);
            assert(acc * (shape@[i as int] as u64) <= 0xffff_ffff * 0xffff_ffff) by (nonlinear_arith)
                requires
                    acc < 0x1_0000_0000,
                    shape@[i as int] < 0x1_0000_0000,
            ;
        }
        acc = (acc * (shape[i] as u64)) % 0x1_0000_0000;
        i = i + 1;
    }
    proof {
        assert(shape@.take(shape@.len() as int) =~= shape@);
    }
    acc as u32
}

/// Appends a tensor's body: rank, dimensions and data.
fn push_body(out: &mut Vec<u8>, h: BpatHeader, t: &TensorBytes)
    ensures
        final(out)@ == old(out)@ + tensor_body(h, t@),
{
    let w = word_of(h);
    push_le(out, t.shape.len() as u64, w);
    let mut i: usize = 0;
    while i < t.shape.len()
        invariant
            w == word(h),
            i <= t.shape@.len(),
            out@ == old(out)@ + le(t.shape@.len(), w as nat) + dims_bytes(w as nat, t.shape@.take(i as int)),
        decreases t.shape@.len() - i,
    {
        proof {
            assert(t.shape@.take(i + 1).drop_last() =~= t.shape@.take(i as int));
            assert(t.shape@.take(i + 1).last() == t.shape@[i as int]);
        }
        push_le(out, t.shape[i] as u64, w);
        i = i + 1;
        proof {
            assert(out@ =~= old(out)@ + le(t.shape@.len(), w as nat) + dims_bytes(w as nat, t.shape@.take(i as int)));
        }
    }
    let mut j: usize = 0;
    let ghost mid = out@;
    while j < t.data.len()
        invariant
            j <= t.data@.len(),
            out@ == mid + t.data@.take(j as int),
        decreases t.data@.len() - j,
    {
        out.push(t.data[j]);
        j = j + 1;
        proof {
            assert(out@ =~= mid + t.data@.take(j as int));
        }
    }
    proof {
        assert(t.shape@.take(t.shape@.len() as int) =~= t.shape@);
        assert(t.data@.take(t.data@.len() as int) =~= t.data@);
        assert(out@ =~= old(out)@ + tensor_body(h, t@));
    }
}

/// Builds an error of serialization.
fn make_serial_err(msg: &'static str, kind: ErrorKind, ctx: SerialTensorError) -> (e: Error<SerialTensorError>)
    ensures
        e == serial_err(msg, kind, ctx),
{
    Error { msg, kind, ctx }
}

/// Writes tensors in a BPAT format: fails when there are more than 255 of
/// them, or when the data of one does not have the size of its shape.
pub fn encode_tensors(header: BpatHeader, tensors: &[TensorBytes]) -> (r: Result<Vec<u8>, Error<SerialTensorError>>)
    ensures
        match (r, encode_spec(header, tensors_view(tensors@))) {
            (Ok(v), Ok(b)) => v@ == b,
            (Err(e), Err(f)) => e == f,
            _ => false,
        },
{
    let ghost ts = tensors_view(tensors@);
    if tensors.len() > 255 {
        return Err(make_serial_err("exceeds max tensors of 255", ErrorKind::InvalidArgument, SerialTensorError::Unrelated));
    }
    let elem = elem_size_of(header);
    let mut i: usize = 0;
    while i < tensors.len()
        invariant
            ts == tensors_view(tensors@),
            elem == elem_size(header),
            tensors@.len() <= 255,
            i <= tensors@.len(),
            forall|k: int| 0 <= k < i ==> size_matches(header, #[trigger] ts[k]),
        decreases tensors@.len() - i,
    {
        let t = &tensors[i];
        proof {
            assert(ts[i as int] == t@);
        }
        if t.data.len() / elem != shape_product(t.shape.as_slice()) as usize {
            proof {
                assert(ts.len() == tensors@.len());
                assert(!size_matches(header, ts[i as int]));
                assert(encode_spec(header, ts) == Err::<Seq<u8>, Error<SerialTensorError>>(mismatch_err()));
            }
            return Err(make_serial_err(
                "tensor prod(shape)/data.size mismatch",
                ErrorKind::InvalidArgument,
                SerialTensorError::InvalidData,
            ));
        }
        i = i + 1;
    }
    proof {
        assert(ts.len() == tensors@.len());
    }
    let mut out = magic_bytes(header);
    out.push(tensors.len() as u8);
    let ghost head = out@;
    proof {
        assert(head =~= magic(header) + seq![ts.len() as u8]);
    }
    let sums = is_checksummed(header);
    let mut j: usize = 0;
    while j < tensors.len()
        invariant
            ts == tensors_view(tensors@),
            sums == checksummed(header),
            tensors@.len() <= 255,
            forall|k: int| 0 <= k < ts.len() ==> size_matches(header, #[trigger] ts[k]),
            j <= tensors@.len(),
            head == magic(header) + seq![ts.len() as u8],
            out@ == head + records(header, ts.take(j as int)),
        decreases tensors@.len() - j,
    {
        let t = &tensors[j];
        let start = out.len();
        push_body(&mut out, header, t);
        let end = out.len();
        proof {
            assert(ts[j as int] == t@);
            assert(ts.take(j + 1).drop_last() =~= ts.take(j as int));
            assert(ts.take(j + 1).last() == t@);
            assert(out@.subrange(start as int, end as int) =~= tensor_body(header, t@));
        }
        if sums {
            let crc = crc32_hash(vstd::slice::slice_subrange(out.as_slice(), start, end));
            push_le(&mut out, crc as u64, 4);
        }
        j = j + 1;
        proof {
            assert(out@ =~= head + records(header, ts.take(j as int)));
        }
    }
    proof {
        assert(ts.take(ts.len() as int) =~= ts);
        assert(out@ == content(header, ts));
    }
    if sums {
        let crc = crc32_hash(out.as_slice());
        push_le(&mut out, crc as u64, 4);
    }
    Ok(out)
}

/// The file ends before what it announces.
pub open spec fn eof_err() -> Error<SerialTensorError> {
    serial_err("unexpected EOF", ErrorKind::SerializationError, SerialTensorError::FailedFileIo)
}

/// A stored checksum differs from the checksum of what it covers.
pub open spec fn integrity_err() -> Error<SerialTensorError> {
    serial_err("checksum mismatch", ErrorKind::SerializationError, SerialTensorError::IntegrityUnverified)
}

/// The file is too short to hold a magic header.
pub open spec fn no_header_err() -> Error<SerialTensorError> {
    serial_err("header not found", ErrorKind::SerializationError, SerialTensorError::InvalidHeader)
}

/// The file starts with no known magic header.
pub open spec fn bad_magic_err() -> Error<SerialTensorError> {
    serial_err("invalid magic header", ErrorKind::SerializationError, SerialTensorError::InvalidHeader)
}

/// A dimension read from a word: its value, truncated to 32 bits.
pub open spec fn dim_of(b: Seq<u8>) -> u32 {
    (le_val(b) % 0x1_0000_0000) as u32
}

/// Reads `rank` dimensions of `w` bytes each from position `pos`: the
/// dimensions and the position after them.
pub open spec fn parse_dims(w: nat, b: Seq<u8>, pos: nat, rank: nat) -> Result<(Seq<u32>, nat), Error<SerialTensorError>>
    decreases rank,
{
    if rank == 0 {
        Ok((Seq::empty(), pos))
    } else {
        match parse_dims(w, b, pos, (rank - 1) as nat) {
            Ok((ds, p)) => if p + w <= b.len() {
                Ok((ds.push(dim_of(b.subrange(p as int, (p + w) as int))), p + w))
            } else {
                Err(eof_err())
            },
            Err(e) => Err(e),
        }
    }
}

/// Reads one tensor record from position `pos`: the tensor and the position
/// after its record.
pub open spec fn parse_tensor(h: BpatHeader, b: Seq<u8>, pos: nat) -> Result<(TensorView, nat), Error<SerialTensorError>> {
    let w = word(h);
    if pos + w > b.len() {
        Err(eof_err())
    } else {
        match parse_dims(w, b, pos + w, le_val(b.subrange(pos as int, (pos + w) as int))) {
            Err(e) => Err(e),
            Ok((ds, p)) => {
                let n = shape_prod(ds) * elem_size(h);
                if p + n > b.len() {
                    Err(eof_err())
                } else if !checksummed(h) {
                    Ok(((ds, b.subrange(p as int, (p + n) as int)), p + n))
                } else if p + n + 4 > b.len() {
                    Err(eof_err())
                } else if le_val(b.subrange((p + n) as int, (p + n + 4) as int)) != crc32(b.subrange(pos as int, (p + n) as int)) as nat {
                    Err(integrity_err())
                } else {
                    Ok(((ds, b.subrange(p as int, (p + n) as int)), p + n + 4))
                }
            },
        }
    }
}

/// Reads `count` tensor records from position `pos`.
pub open spec fn parse_records(h: BpatHeader, b: Seq<u8>, pos: nat, count: nat) -> Result<(Seq<TensorView>, nat), Error<SerialTensorError>>
    decreases count,
{
    if count == 0 {
        Ok((Seq::empty(), pos))
    } else {
        match parse_records(h, b, pos, (count - 1) as nat) {
            Ok((ts, p)) => match parse_tensor(h, b, p) {
                Ok((t, q)) => Ok((ts.push(t), q)),
                Err(e) => Err(e),
            },
            Err(e) => Err(e),
        }
    }
}

/// Recognizes the magic header: the format and the length of its magic.
pub open spec fn parse_header(b: Seq<u8>) -> Result<(BpatHeader, nat), Error<SerialTensorError>> {
    if b.len() < 4 {
        Err(no_header_err())
    } else if b.subrange(0, 4) == magic(BpatHeader::BpatV0) {
        Ok((BpatHeader::BpatV0, 4))
    } else if b.len() < 8 {
        Err(no_header_err())
    } else if b.subrange(0, 8) == magic(BpatHeader::BpatV1) {
        Ok((BpatHeader::BpatV1, 8))
    } else if b.subrange(0, 8) == magic(BpatHeader::BpatV1M) {
        Ok((BpatHeader::BpatV1M, 8))
    } else if b.subrange(0, 8) == magic(BpatHeader::BpatV2bf16) {
        Ok((BpatHeader::BpatV2bf16, 8))
    } else if b.subrange(0, 8) == magic(BpatHeader::BpatV2f16) {
        Ok((BpatHeader::BpatV2f16, 8))
    } else if b.subrange(0, 8) == magic(BpatHeader::BpatV2f32) {
        Ok((BpatHeader::BpatV2f32, 8))
    } else {
        Err(bad_magic_err())
    }
}

/// What reading a BPAT file gives: its format and its tensors, or the error
/// that stops it. Bytes after the end of the content are not read.
pub open spec fn decode_spec(b: Seq<u8>) -> Result<(BpatHeader, Seq<TensorView>), Error<SerialTensorError>> {
    match parse_header(b) {
        Err(e) => Err(e),
        Ok((h, pos)) => if pos >= b.len() {
            Err(eof_err())
        } else {
            match parse_records(h, b, pos + 1, b[pos as int] as nat) {
                Err(e) => Err(e),
                Ok((ts, p)) => if !checksummed(h) {
                    Ok((h, ts))
                } else if p + 4 > b.len() {
                    Err(eof_err())
                } else if le_val(b.subrange(p as int, (p + 4) as int)) != crc32(b.subrange(0, p as int)) as nat {
                    Err(integrity_err())
                } else {
                    Ok((h, ts))
                },
            }
        },
    }
}

/// Little-endian bytes spell less than `256` to the power of their count.
pub proof fn lemma_le_val_bound(b: Seq<u8>)
    ensures
        le_val(b) < p256(b.len()),
    decreases b.len(),
{
    if b.len() > 0 {
        lemma_le_val_bound(b.drop_first());
    }
}

/// Powers of `256` grow with the exponent.
pub proof fn lemma_p256_mono(a: nat, c: nat)
    requires
        a <= c,
    ensures
        p256(a) <= p256(c),
    decreases c,
{
    if a < c {
        lemma_p256_mono(a, (c - 1) as nat);
    }
}

/// The widths the format uses.
pub proof fn lemma_p256_values()
    ensures
        p256(4) == 0x1_0000_0000,
        p256(8) == 0x1_0000_0000_0000_0000,
{
    reveal_with_fuel(p256, 9);
}

/// Reads a little-endian word of `w` bytes at `pos`.
fn read_le(b: &[u8], pos: usize, w: usize) -> (r: u64)
    requires
        pos + w <= b@.len(),
        w <= 8,
    ensures
        r == le_val(b@.subrange(pos as int, (pos + w) as int)),
{
    let len = b.len();
    let mut acc: u64 = 0;
    let mut i: usize = w;
    proof {
        assert(b@.subrange((pos + w) as int, (pos + w) as int) =~= Seq::<u8>::empty());
    }
    while i > 0
        invariant
            i <= w,
            w <= 8,
            pos + w <= b@.len(),
            len == b@.len(),
            acc == le_val(b@.subrange((pos + i) as int, (pos + w) as int)),
        decreases i,
    {
        i = i - 1;
        let ghost tail = b@.subrange((pos + i + 1) as int, (pos + w) as int);
        proof {
            lemma_le_val_bound(tail);
            lemma_p256_mono((w - i - 1) as nat, 7);
            reveal_with_fuel(p256, 8);
            assert(b@.subrange((pos + i) as int, (pos + w) as int).drop_first() =~= tail);
            assert(acc * 256 + 255 < 0x1_0000_0000_0000_0000);
        }
        acc = acc * 256 + b[pos + i] as u64;
    }
    acc
}

/// Reads `rank` dimensions of `w` bytes each from position `pos`.
fn read_dims(w: usize, b: &[u8], pos: usize, rank: u64) -> (r: Result<(Vec<u32>, usize), Error<SerialTensorError>>)
    requires
        4 <= w <= 8,
        pos <= b@.len(),
    ensures
        match (r, parse_dims(w as nat, b@, pos as nat, rank as nat)) {
            (Ok((ds, p)), Ok((sds, sp))) => ds@ == sds && p == sp && pos <= p <= b@.len(),
            (Err(e), Err(f)) => e == f,
            _ => false,
        },
{
    let mut ds: Vec<u32> = Vec::new();
    let mut p = pos;
    let mut k: u64 = 0;
    while k < rank
        invariant
            4 <= w <= 8,
            k <= rank,
            pos <= p <= b@.len(),
            parse_dims(w as nat, b@, pos as nat, k as nat) == Ok::<(Seq<u32>, nat), Error<SerialTensorError>>((ds@, p as nat)),
        decreases b@.len() - p,
    {
        if w > b.len() - p {
            proof {
                assert(parse_dims(w as nat, b@, pos as nat, (k + 1) as nat) == Err::<(Seq<u32>, nat), Error<SerialTensorError>>(eof_err()));
                lemma_dims_err_persists(w as nat, b@, pos as nat, (k + 1) as nat, rank as nat);
            }
            return Err(make_serial_err("unexpected EOF", ErrorKind::SerializationError, SerialTensorError::FailedFileIo));
        }
        let v = read_le(b, p, w);
        ds.push((v % 0x1_0000_0000) as u32);
        p = p + w;
        k = k + 1;
    }
    Ok((ds, p))
}

/// Once reading dimensions fails, reading more of them fails the same way.
pub proof fn lemma_dims_err_persists(w: nat, b: Seq<u8>, pos: nat, k: nat, rank: nat)
    requires
        k <= rank,
        parse_dims(w, b, pos, k) is Err,
    ensures
        parse_dims(w, b, pos, rank) == parse_dims(w, b, pos, k),
    decreases rank,
{
    if k < rank {
        lemma_dims_err_persists(w, b, pos, k, (rank - 1) as nat);
    }
}

/// Once reading records fails, reading more of them fails the same way.
pub proof fn lemma_records_err_persists(h: BpatHeader, b: Seq<u8>, pos: nat, k: nat, count: nat)
    requires
        k <= count,
        parse_records(h, b, pos, k) is Err,
    ensures
        parse_records(h, b, pos, count) == parse_records(h, b, pos, k),
    decreases count,
{
    if k < count {
        lemma_records_err_persists(h, b, pos, k, (count - 1) as nat);
    }
}

/// Reads one tensor record at position `pos`.
fn read_tensor(h: BpatHeader, b: &[u8], pos: usize) -> (r: Result<(TensorBytes, usize), Error<SerialTensorError>>)
    requires
        pos <= b@.len(),
    ensures
        match (r, parse_tensor(h, b@, pos as nat)) {
            (Ok((t, p)), Ok((st, sp))) => t@ == st && p == sp && p <= b@.len(),
            (Err(e), Err(f)) => e == f,
            _ => false,
        },
{
    let w = word_of(h);
    if w > b.len() - pos {
        return Err(make_serial_err("unexpected EOF", ErrorKind::SerializationError, SerialTensorError::FailedFileIo));
    }
    let rank = read_le(b, pos, w);
    let (ds, p) = match read_dims(w, b, pos + w, rank) {
        Ok(x) => x,
        Err(e) => {
            return Err(e);
        },
    };
    let sp = shape_product(ds.as_slice()) as u64;
    let es = elem_size_of(h) as u64;
    proof {
        assert(sp * es <= 0xffff_ffff * 8) by (nonlinear_arith)
            requires
                sp <= 0xffff_ffff,
                es <= 8,
        ;
    }
    let n: u64 = sp * es;
    if n > (b.len() - p) as u64 {
        return Err(make_serial_err("unexpected EOF", ErrorKind::SerializationError, SerialTensorError::FailedFileIo));
    }
    let n = n as usize;
    let data = vstd::slice::slice_to_vec(vstd::slice::slice_subrange(b, p, p + n));
    if !is_checksummed(h) {
        return Ok((TensorBytes { shape: ds, data }, p + n));
    }
    if 4 > b.len() - (p + n) {
        return Err(make_serial_err("unexpected EOF", ErrorKind::SerializationError, SerialTensorError::FailedFileIo));
    }
    let stored = read_le(b, p + n, 4);
    let crc = crc32_hash(vstd::slice::slice_subrange(b, pos, p + n));
    if stored != crc as u64 {
        return Err(make_serial_err("checksum mismatch", ErrorKind::SerializationError, SerialTensorError::IntegrityUnverified));
    }
    Ok((TensorBytes { shape: ds, data }, p + n + 4))
}

/// Whether `b` starts with the magic header of format `h`.
fn starts_with_magic(b: &[u8], h: BpatHeader) -> (r: bool)
    ensures
        r == (magic(h).len() <= b@.len() && b@.subrange(0, magic(h).len() as int) == magic(h)),
{
    let m = magic_bytes(h);
    if m.len() > b.len() {
        return false;
    }
    let mut i: usize = 0;
    while i < m.len()
        invariant
            m@ == magic(h),
            m@.len() <= b@.len(),
            i <= m@.len(),
            forall|j: int| 0 <= j < i ==> b@[j] == m@[j],
        decreases m@.len() - i,
    {
        if b[i] != m[i] {
            proof {
                assert(b@.subrange(0, m@.len() as int)[i as int] != m@[i as int]);
            }
            return false;
        }
        i = i + 1;
    }
    proof {
        assert(b@.subrange(0, m@.len() as int) =~= m@);
    }
    true
}

/// Recognizes the magic header: the format and the length of its magic.
fn read_header(b: &[u8]) -> (r: Result<(BpatHeader, usize), Error<SerialTensorError>>)
    ensures
        match (r, parse_header(b@)) {
            (Ok((h, p)), Ok((sh, sp))) => h == sh && p == sp,
            (Err(e), Err(f)) => e == f,
            _ => false,
        },
{
    if b.len() < 4 {
        return Err(make_serial_err("header not found", ErrorKind::SerializationError, SerialTensorError::InvalidHeader));
    }
    if starts_with_magic(b, BpatHeader::BpatV0) {
        return Ok((BpatHeader::BpatV0, 4));
    }
    if b.len() < 8 {
        return Err(make_serial_err("header not found", ErrorKind::SerializationError, SerialTensorError::InvalidHeader));
    }
    if starts_with_magic(b, BpatHeader::BpatV1) {
        Ok((BpatHeader::BpatV1, 8))
    } else if starts_with_magic(b, BpatHeader::BpatV1M) {
        Ok((BpatHeader::BpatV1M, 8))
    } else if starts_with_magic(b, BpatHeader::BpatV2bf16) {
        Ok((BpatHeader::BpatV2bf16, 8))
    } else if starts_with_magic(b, BpatHeader::BpatV2f16) {
        Ok((BpatHeader::BpatV2f16, 8))
    } else if starts_with_magic(b, BpatHeader::BpatV2f32) {
        Ok((BpatHeader::BpatV2f32, 8))
    } else {
        Err(make_serial_err("invalid magic header", ErrorKind::SerializationError, SerialTensorError::InvalidHeader))
    }
}

/// Reads a BPAT file: its format and its tensors. Fails on a missing or
/// unknown magic header, on a file that ends early, and on a checksum that
/// does not match.
pub fn decode_tensors(b: &[u8]) -> (r: Result<(BpatHeader, Vec<TensorBytes>), Error<SerialTensorError>>)
    ensures
        match (r, decode_spec(b@)) {
            (Ok((h, ts)), Ok((sh, sts))) => h == sh && tensors_view(ts@) == sts,
            (Err(e), Err(f)) => e == f,
            _ => false,
        },
{
    let (h, pos) = match read_header(b) {
        Ok(x) => x,
        Err(e) => {
            return Err(e);
        },
    };
    if pos >= b.len() {
        return Err(make_serial_err("unexpected EOF", ErrorKind::SerializationError, SerialTensorError::FailedFileIo));
    }
    let count = b[pos];
    let mut ts: Vec<TensorBytes> = Vec::new();
    let mut p = pos + 1;
    let mut k: u8 = 0;
    proof {
        assert(tensors_view(ts@) =~= Seq::<TensorView>::empty());
    }
    while k < count
        invariant
            parse_header(b@) == Ok::<(BpatHeader, nat), Error<SerialTensorError>>((h, pos as nat)),
            pos < b@.len(),
            b@[pos as int] == count,
            k <= count,
            p <= b@.len(),
            parse_records(h, b@, (pos + 1) as nat, k as nat) == Ok::<(Seq<TensorView>, nat), Error<SerialTensorError>>((tensors_view(ts@), p as nat)),
        decreases count - k,
    {
        match read_tensor(h, b, p) {
            Ok((t, q)) => {
                let ghost before = ts@;
                ts.push(t);
                p = q;
                proof {
                    assert(tensors_view(ts@) =~= tensors_view(before).push(t@));
                }
            },
            Err(e) => {
                proof {
                    assert(parse_records(h, b@, (pos + 1) as nat, (k + 1) as nat) == Err::<(Seq<TensorView>, nat), Error<SerialTensorError>>(e));
                    lemma_records_err_persists(h, b@, (pos + 1) as nat, (k + 1) as nat, count as nat);
                    assert(parse_header(b@) == Ok::<(BpatHeader, nat), Error<SerialTensorError>>((h, pos as nat)));
                    assert(b@[pos as int] == count);
                    assert(decode_spec(b@) == Err::<(BpatHeader, Seq<TensorView>), Error<SerialTensorError>>(e));
                }
                return Err(e);
            },
        }
        k = k + 1;
    }
    if !is_checksummed(h) {
        return Ok((h, ts));
    }
    if 4 > b.len() - p {
        return Err(make_serial_err("unexpected EOF", ErrorKind::SerializationError, SerialTensorError::FailedFileIo));
    }
    let stored = read_le(b, p, 4);
    let crc = crc32_hash(vstd::slice::slice_subrange(b, 0, p));
    if stored != crc as u64 {
        return Err(make_serial_err("checksum mismatch", ErrorKind::SerializationError, SerialTensorError::IntegrityUnverified));
    }
    Ok((h, ts))
}

/// A tensor's data is exactly as long as its shape asks for.
pub open spec fn exact_size(h: BpatHeader, t: TensorView) -> bool {
    t.1.len() == shape_prod(t.0) * elem_size(h)
}

/// The tensors a file in format `h` can hold and give back unchanged: at
/// most 255 of them, each with exactly the data its shape asks for and a
/// rank that fits in four bytes.
pub open spec fn storable(h: BpatHeader, ts: Seq<TensorView>) -> bool {
    &&& ts.len() <= 255
    &&& forall|i: int| 0 <= i < ts.len() ==> exact_size(h, #[trigger] ts[i]) && ts[i].0.len() < 0x1_0000_0000
}

/// Little-endian bytes of a number that fits give the number back.
pub proof fn lemma_le_roundtrip(n: nat, w: nat)
    requires
        n < p256(w),
    ensures
        le(n, w).len() == w,
        le_val(le(n, w)) == n,
    decreases w,
{
    if w > 0 {
        lemma_le_roundtrip(n / 256, (w - 1) as nat);
        assert(le(n, w).drop_first() =~= le(n / 256, (w - 1) as nat));
    }
}

/// The dimensions take one word each.
pub proof fn lemma_dims_len(w: nat, shape: Seq<u32>)
    ensures
        dims_bytes(w, shape).len() == w * shape.len(),
    decreases shape.len(),
{
    if shape.len() > 0 {
        lemma_dims_len(w, shape.drop_last());
        lemma_le_len(shape.last() as nat, w);
        assert(w * shape.len() == w * (shape.len() - 1) + w) by (nonlinear_arith)
            requires
                shape.len() > 0,
        ;
    }
}

/// Little-endian bytes have the width asked for.
pub proof fn lemma_le_len(n: nat, w: nat)
    ensures
        le(n, w).len() == w,
    decreases w,
{
    if w > 0 {
        lemma_le_len(n / 256, (w - 1) as nat);
    }
}

/// Written dimensions read back as they were.
pub proof fn lemma_parse_dims(w: nat, b: Seq<u8>, pos: nat, shape: Seq<u32>)
    requires
        4 <= w,
        pos + dims_bytes(w, shape).len() <= b.len(),
        b.subrange(pos as int, (pos + dims_bytes(w, shape).len()) as int) == dims_bytes(w, shape),
    ensures
        parse_dims(w, b, pos, shape.len()) == Ok::<(Seq<u32>, nat), Error<SerialTensorError>>((shape, pos + dims_bytes(w, shape).len())),
    decreases shape.len(),
{
    if shape.len() == 0 {
        assert(shape =~= Seq::<u32>::empty());
    } else {
        let dl = shape.drop_last();
        let head = dims_bytes(w, dl);
        let last = le(shape.last() as nat, w);
        lemma_le_len(shape.last() as nat, w);
        assert(dims_bytes(w, shape) == head + last);
        assert(b.subrange(pos as int, (pos + head.len()) as int) =~= (head + last).subrange(0, head.len() as int));
        assert((head + last).subrange(0, head.len() as int) =~= head);
        lemma_parse_dims(w, b, pos, dl);
        let p = pos + head.len();
        assert(b.subrange(p as int, (p + w) as int) =~= b.subrange(pos as int, (pos + dims_bytes(w, shape).len()) as int).subrange(head.len() as int, (head.len() + w) as int));
        assert((head + last).subrange(head.len() as int, (head.len() + w) as int) =~= last);
        assert(b.subrange(p as int, (p + w) as int) =~= last);
        lemma_p256_mono(4, w);
        lemma_p256_values();
        lemma_le_roundtrip(shape.last() as nat, w);
        assert(dim_of(last) == shape.last());
        assert(dl.push(shape.last()) =~= shape);
    }
}

/// A written tensor record reads back as the tensor.
pub proof fn lemma_parse_tensor(h: BpatHeader, b: Seq<u8>, pos: nat, t: TensorView)
    requires
        exact_size(h, t),
        t.0.len() < 0x1_0000_0000,
        pos + tensor_record(h, t).len() <= b.len(),
        b.subrange(pos as int, (pos + tensor_record(h, t).len()) as int) == tensor_record(h, t),
    ensures
        parse_tensor(h, b, pos) == Ok::<(TensorView, nat), Error<SerialTensorError>>((t, pos + tensor_record(h, t).len())),
{
    let w = word(h);
    let rank = le(t.0.len(), w);
    let dims = dims_bytes(w, t.0);
    let body = tensor_body(h, t);
    lemma_p256_values();
    lemma_p256_mono(4, w);
    lemma_le_roundtrip(t.0.len(), w);
    lemma_dims_len(w, t.0);
    assert(body == rank + dims + t.1);
    let rec = tensor_record(h, t);
    assert(rec.subrange(0, body.len() as int) =~= body);
    assert(b.subrange(pos as int, (pos + w) as int) =~= rank) by {
        assert(b.subrange(pos as int, (pos + w) as int) =~= rec.subrange(0, w as int));
        assert(rec.subrange(0, w as int) =~= body.subrange(0, w as int));
    }
    let q = pos + w;
    assert(b.subrange(q as int, (q + dims.len()) as int) =~= dims) by {
        assert(b.subrange(q as int, (q + dims.len()) as int) =~= rec.subrange(w as int, (w + dims.len()) as int));
        assert(rec.subrange(w as int, (w + dims.len()) as int) =~= body.subrange(w as int, (w + dims.len()) as int));
    }
    lemma_parse_dims(w, b, q, t.0);
    let p = q + dims.len();
    let n = shape_prod(t.0) * elem_size(h);
    assert(b.subrange(p as int, (p + n) as int) =~= t.1) by {
        assert(b.subrange(p as int, (p + n) as int) =~= rec.subrange((w + dims.len()) as int, (w + dims.len() + n) as int));
        assert(rec.subrange((w + dims.len()) as int, (w + dims.len() + n) as int) =~= body.subrange((w + dims.len()) as int, (w + dims.len() + n) as int));
    }
    if checksummed(h) {
        assert(b.subrange(pos as int, (p + n) as int) =~= body) by {
            assert(b.subrange(pos as int, (p + n) as int) =~= rec.subrange(0, body.len() as int));
        }
        let sum = le(crc32(body) as nat, 4);
        lemma_le_roundtrip(crc32(body) as nat, 4);
        assert(b.subrange((p + n) as int, (p + n + 4) as int) =~= sum) by {
            assert(b.subrange((p + n) as int, (p + n + 4) as int) =~= rec.subrange(body.len() as int, (body.len() + 4) as int));
        }
    }
}

/// Written tensor records read back as the tensors.
pub proof fn lemma_parse_records(h: BpatHeader, b: Seq<u8>, pos: nat, ts: Seq<TensorView>)
    requires
        forall|i: int| 0 <= i < ts.len() ==> exact_size(h, #[trigger] ts[i]) && ts[i].0.len() < 0x1_0000_0000,
        pos + records(h, ts).len() <= b.len(),
        b.subrange(pos as int, (pos + records(h, ts).len()) as int) == records(h, ts),
    ensures
        parse_records(h, b, pos, ts.len()) == Ok::<(Seq<TensorView>, nat), Error<SerialTensorError>>((ts, pos + records(h, ts).len())),
    decreases ts.len(),
{
    if ts.len() == 0 {
        assert(ts =~= Seq::<TensorView>::empty());
    } else {
        let dl = ts.drop_last();
        let head = records(h, dl);
        let last = tensor_record(h, ts.last());
        assert(records(h, ts) == head + last);
        assert(b.subrange(pos as int, (pos + head.len()) as int) =~= (head + last).subrange(0, head.len() as int));
        assert((head + last).subrange(0, head.len() as int) =~= head);
        assert forall|i: int| 0 <= i < dl.len() implies exact_size(h, #[trigger] dl[i]) && dl[i].0.len() < 0x1_0000_0000 by {
            assert(dl[i] == ts[i]);
        }
        lemma_parse_records(h, b, pos, dl);
        let p = pos + head.len();
        assert(b.subrange(p as int, (p + last.len()) as int) =~= b.subrange(pos as int, (pos + records(h, ts).len()) as int).subrange(head.len() as int, (head.len() + last.len()) as int));
        assert((head + last).subrange(head.len() as int, (head.len() + last.len()) as int) =~= last);
        assert(b.subrange(p as int, (p + last.len()) as int) =~= last);
        assert(exact_size(h, ts[ts.len() - 1]));
        lemma_parse_tensor(h, b, p, ts.last());
        assert(dl.push(ts.last()) =~= ts);
    }
}

/// Every format's magic header is recognized as that format.
pub proof fn lemma_parse_header(h: BpatHeader, b: Seq<u8>)
    requires
        magic(h).len() <= b.len(),
        b.subrange(0, magic(h).len() as int) == magic(h),
        h != BpatHeader::BpatV0 ==> b.len() >= 8,
    ensures
        parse_header(b) == Ok::<(BpatHeader, nat), Error<SerialTensorError>>((h, magic(h).len())),
{
    if h != BpatHeader::BpatV0 {
        assert(b.subrange(0, 4)[0] == b[0]);
        assert(b[0] == 66u8) by {
            assert(b.subrange(0, magic(h).len() as int)[0] == b[0]);
        }
        assert(b.subrange(0, 4) != magic(BpatHeader::BpatV0));
        assert(b.subrange(0, 8) =~= magic(h));
        assert(magic(BpatHeader::BpatV1)[6] == 0u8);
        assert(magic(BpatHeader::BpatV1M)[6] == 109u8);
        assert(magic(BpatHeader::BpatV2bf16)[4] == 98u8);
        assert(magic(BpatHeader::BpatV2f16)[6] == 49u8);
        assert(magic(BpatHeader::BpatV2f16)[4] == 0u8);
        assert(magic(BpatHeader::BpatV2f32)[6] == 51u8);
        assert(magic(BpatHeader::BpatV2f32)[4] == 0u8);
        assert(magic(BpatHeader::BpatV1)[4] == 118u8);
        assert(magic(BpatHeader::BpatV1M)[4] == 118u8);
    } else {
        assert(b.subrange(0, 4) =~= magic(h));
    }
}

/// `w` little-endian bytes of a number are `w` bytes, the least
/// significant first.
pub proof fn law_le_bytes(n: nat, w: nat)
    ensures
        le(n, w).len() == w,
        w > 0 ==> le(n, w)[0] == (n % 256) as u8,
        w > 0 ==> le(n, w).drop_first() == le(n / 256, (w - 1) as nat),
    decreases w,
{
    if w > 0 {
        law_le_bytes(n / 256, (w - 1) as nat);
        assert(le(n, w).drop_first() =~= le(n / 256, (w - 1) as nat));
    }
}

/// The dimensions are written in order: dimension `i` is the `i`-th word.
pub proof fn law_dims_in_order(w: nat, shape: Seq<u32>, i: int)
    requires
        0 <= i < shape.len(),
    ensures
        dims_bytes(w, shape).len() == w * shape.len(),
        dims_bytes(w, shape).subrange(w * i, w * i + w) == le(shape[i] as nat, w),
    decreases shape.len(),
{
    lemma_dims_len(w, shape.drop_last());
    law_le_bytes(shape.last() as nat, w);
    let pre = dims_bytes(w, shape.drop_last());
    let last = le(shape.last() as nat, w);
    assert(w * shape.len() == w * (shape.len() - 1) + w) by (nonlinear_arith);
    if i < shape.len() - 1 {
        law_dims_in_order(w, shape.drop_last(), i);
        assert(w * i + w <= w * (shape.len() - 1)) by (nonlinear_arith)
            requires
                i < shape.len() - 1,
                0 <= i,
        ;
        assert(dims_bytes(w, shape).subrange(w * i, w * i + w) =~= pre.subrange(w * i, w * i + w));
    } else {
        assert(w * i == w * (shape.len() - 1));
        assert(dims_bytes(w, shape).subrange(w * i, w * i + w) =~= last);
    }
}

/// The size of one element in each format: 8 bytes in the f64 formats (V0,
/// V1), 4 in the f32 formats (V1M, V2f32), 2 in the half-precision formats
/// (V2f16, V2bf16). A tensor fits its shape when its data holds that many
/// bytes per element.
pub proof fn law_element_width(h: BpatHeader, t: TensorView)
    ensures
        (h == BpatHeader::BpatV0 || h == BpatHeader::BpatV1) ==> elem_size(h) == 8,
        (h == BpatHeader::BpatV1M || h == BpatHeader::BpatV2f32) ==> elem_size(h) == 4,
        (h == BpatHeader::BpatV2f16 || h == BpatHeader::BpatV2bf16) ==> elem_size(h) == 2,
        size_matches(h, t) == (t.1.len() / elem_size(h) == shape_prod(t.0)),
{
}

/// The f64 formats (V0 and V1) write a tensor's rank and each of its
/// dimensions as 8-byte little-endian words; every other format (V1M,
/// V2f16, V2bf16, V2f32) writes them as 4-byte words. So one tensor in a
/// format without checksums is written as the magic, the count 1, the rank
/// and the dimensions as 4-byte words, and the data; and reading those
/// bytes back gives the tensor.
pub proof fn law_word_width(h: BpatHeader, t: TensorView)
    ensures
        (h == BpatHeader::BpatV0 || h == BpatHeader::BpatV1)
            ==> tensor_body(h, t) == le(t.0.len(), 8) + dims_bytes(8, t.0) + t.1,
        !(h == BpatHeader::BpatV0 || h == BpatHeader::BpatV1)
            ==> tensor_body(h, t) == le(t.0.len(), 4) + dims_bytes(4, t.0) + t.1,
        (h == BpatHeader::BpatV2f16 || h == BpatHeader::BpatV2bf16 || h == BpatHeader::BpatV2f32) && storable(h, seq![t])
            ==> encode_spec(h, seq![t]) == Ok::<Seq<u8>, Error<SerialTensorError>>(
                magic(h) + seq![1u8] + le(t.0.len(), 4) + dims_bytes(4, t.0) + t.1)
            && decode_spec(magic(h) + seq![1u8] + le(t.0.len(), 4) + dims_bytes(4, t.0) + t.1)
                == Ok::<(BpatHeader, Seq<TensorView>), Error<SerialTensorError>>((h, seq![t])),
{
    if (h == BpatHeader::BpatV2f16 || h == BpatHeader::BpatV2bf16 || h == BpatHeader::BpatV2f32) && storable(h, seq![t]) {
        law_roundtrip(h, seq![t]);
        let ts = seq![t];
        assert(ts.drop_last() =~= Seq::<TensorView>::empty());
        assert(records(h, ts.drop_last()) == Seq::<u8>::empty());
        assert(ts.last() == t);
        assert(records(h, ts) =~= tensor_record(h, t));
        assert(bpat_bytes(h, ts) =~= magic(h) + seq![1u8] + le(t.0.len(), 4) + dims_bytes(4, t.0) + t.1);
    }
}

/// Reading back what was written gives the same format and the same
/// tensors, for every list of tensors the format can hold.
pub proof fn law_roundtrip(h: BpatHeader, ts: Seq<TensorView>)
    requires
        storable(h, ts),
    ensures
        encode_spec(h, ts) == Ok::<Seq<u8>, Error<SerialTensorError>>(bpat_bytes(h, ts)),
        decode_spec(bpat_bytes(h, ts)) == Ok::<(BpatHeader, Seq<TensorView>), Error<SerialTensorError>>((h, ts)),
{
    assert forall|i: int| 0 <= i < ts.len() implies size_matches(h, #[trigger] ts[i]) by {
        assert(exact_size(h, ts[i]));
        let e = elem_size(h);
        assert(e > 0);
        assert((shape_prod(ts[i].0) * e) / e == shape_prod(ts[i].0)) by (nonlinear_arith)
            requires
                e > 0,
        ;
    }
    let m = magic(h);
    let c = content(h, ts);
    let b = bpat_bytes(h, ts);
    let recs = records(h, ts);
    let start = m.len() + 1;
    assert(c == m + seq![ts.len() as u8] + recs);
    assert(b.subrange(0, c.len() as int) =~= c);
    assert(b.subrange(0, m.len() as int) =~= m);
    lemma_parse_header(h, b);
    assert(b[m.len() as int] == ts.len() as u8);
    assert(b.subrange(start as int, (start + recs.len()) as int) =~= recs);
    lemma_parse_records(h, b, start, ts);
    if checksummed(h) {
        let p = start + recs.len();
        assert(b.subrange(0, p as int) =~= c);
        lemma_p256_values();
        lemma_le_roundtrip(crc32(c) as nat, 4);
        assert(b.subrange(p as int, (p + 4) as int) =~= le(crc32(c) as nat, 4));
    }
}

impl Error<SerialTensorError> {
    /// The kind of the error, its message and what went wrong:
    /// `kind: message, cause`.
    pub fn describe(&self) -> (s: String)
        ensures
            s@ == kind_text(self.kind) + ": "@ + self.msg@ + ", "@ + serial_error_text(self.ctx),
    {
        let mut s = String::from_str(self.kind.describe());
        s.append(": ");
        s.append(self.msg);
        s.append(", ");
        s.append(self.ctx.describe());
        proof {
            reveal_strlit(": ");
            reveal_strlit(", ");
        }
        s
    }
}

} // verus!
