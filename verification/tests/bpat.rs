use fused_gpu::bpat::{
    decode_tensors, encode_tensors, shape_product, BpatHeader, SerialTensorError, TensorBytes,
    BPAT_MAGIC_V0, BPAT_MAGIC_V1, BPAT_MAGIC_V1_MICRO, BPAT_MAGIC_V2_BF16, BPAT_MAGIC_V2_F16,
    BPAT_MAGIC_V2_F32,
};
use fused_gpu::errors::ErrorKind;
use half::{bf16, f16};

fn f64_bytes(data: &[f64]) -> Vec<u8> {
    data.iter().flat_map(|x| x.to_le_bytes()).collect()
}

fn f32_bytes(data: &[f32]) -> Vec<u8> {
    data.iter().flat_map(|x| x.to_le_bytes()).collect()
}

fn f16_bytes(data: &[f16]) -> Vec<u8> {
    data.iter().flat_map(|x| x.to_le_bytes()).collect()
}

fn bf16_bytes(data: &[bf16]) -> Vec<u8> {
    data.iter().flat_map(|x| x.to_le_bytes()).collect()
}

fn roundtrip(header: BpatHeader, tensors: &[TensorBytes]) -> Vec<TensorBytes> {
    let bytes = encode_tensors(header, tensors).unwrap();
    let (h, loaded) = decode_tensors(&bytes).unwrap();
    assert_eq!(h, header);
    loaded
}

fn assert_same(loaded: &[TensorBytes], expected: &[(&[u32], Vec<u8>)]) {
    assert_eq!(loaded.len(), expected.len());
    for (t, (shape, data)) in loaded.iter().zip(expected) {
        assert_eq!(&t.shape[..], *shape);
        assert_eq!(&t.data, data);
    }
}

#[test]
fn roundtrip_v0_f64() {
    let shape1 = [2u32, 3];
    let data1 = [0.0, 1.0, -2.5, 3.25, 100.0, -999.125];
    let shape2 = [4u32];
    let data2 = [f64::MIN, -1.0, f64::MAX, 42.5];
    let tensors = vec![
        TensorBytes { shape: shape1.to_vec(), data: f64_bytes(&data1) },
        TensorBytes { shape: shape2.to_vec(), data: f64_bytes(&data2) },
    ];
    let loaded = roundtrip(BpatHeader::BpatV0, &tensors);
    assert_same(&loaded, &[(&shape1, f64_bytes(&data1)), (&shape2, f64_bytes(&data2))]);
}

#[test]
fn roundtrip_v2_f32() {
    let shape1 = [2u32, 3];
    let data1 = [0.0f32, 1.0, -2.5, 3.25, 100.0, -999.125];
    let shape2 = [4u32];
    let data2 = [f32::MIN, -1.0, f32::MAX, 42.5];
    let tensors = vec![
        TensorBytes { shape: shape1.to_vec(), data: f32_bytes(&data1) },
        TensorBytes { shape: shape2.to_vec(), data: f32_bytes(&data2) },
    ];
    let loaded = roundtrip(BpatHeader::BpatV2f32, &tensors);
    assert_same(&loaded, &[(&shape1, f32_bytes(&data1)), (&shape2, f32_bytes(&data2))]);
}

#[test]
fn roundtrip_v2_f16() {
    let shape1 = [2u32, 3];
    let data1 = [
        f16::from_f32(0.0),
        f16::from_f32(1.0),
        f16::from_f32(-2.5),
        f16::from_f32(3.25),
        f16::from_f32(100.0),
        f16::from_f32(-999.125),
    ];
    let shape2 = [4u32];
    let data2 = [f16::MIN, f16::from_f32(-1.0), f16::MAX, f16::from_f32(42.5)];
    let tensors = vec![
        TensorBytes { shape: shape1.to_vec(), data: f16_bytes(&data1) },
        TensorBytes { shape: shape2.to_vec(), data: f16_bytes(&data2) },
    ];
    let loaded = roundtrip(BpatHeader::BpatV2f16, &tensors);
    assert_same(&loaded, &[(&shape1, f16_bytes(&data1)), (&shape2, f16_bytes(&data2))]);
}

#[test]
fn roundtrip_v2_bf16() {
    let shape1 = [2u32, 3];
    let data1 = [
        bf16::from_f32(0.0),
        bf16::from_f32(1.0),
        bf16::from_f32(-2.5),
        bf16::from_f32(3.25),
        bf16::from_f32(100.0),
        bf16::from_f32(-999.125),
    ];
    let shape2 = [4u32];
    let data2 = [bf16::MIN, bf16::from_f32(-1.0), bf16::MAX, bf16::from_f32(42.5)];
    let tensors = vec![
        TensorBytes { shape: shape1.to_vec(), data: bf16_bytes(&data1) },
        TensorBytes { shape: shape2.to_vec(), data: bf16_bytes(&data2) },
    ];
    let loaded = roundtrip(BpatHeader::BpatV2bf16, &tensors);
    assert_same(&loaded, &[(&shape1, bf16_bytes(&data1)), (&shape2, bf16_bytes(&data2))]);
}

#[test]
fn roundtrip_v1_checksummed() {
    let shape = [3u32];
    let data = [1.5f64, -2.0, 8.25];
    let tensors = vec![TensorBytes { shape: shape.to_vec(), data: f64_bytes(&data) }];
    let loaded = roundtrip(BpatHeader::BpatV1, &tensors);
    assert_same(&loaded, &[(&shape, f64_bytes(&data))]);
}

#[test]
fn roundtrip_v1m_checksummed() {
    let shape = [2u32, 2];
    let data = [1.0f32, 2.0, 3.0, 4.0];
    let tensors = vec![TensorBytes { shape: shape.to_vec(), data: f32_bytes(&data) }];
    let loaded = roundtrip(BpatHeader::BpatV1M, &tensors);
    assert_same(&loaded, &[(&shape, f32_bytes(&data))]);
}

#[test]
fn roundtrip_no_tensors() {
    for h in [
        BpatHeader::BpatV0,
        BpatHeader::BpatV1,
        BpatHeader::BpatV1M,
        BpatHeader::BpatV2f16,
        BpatHeader::BpatV2bf16,
        BpatHeader::BpatV2f32,
    ] {
        assert!(roundtrip(h, &[]).is_empty());
    }
}

#[test]
fn v2_f32_exact_bytes() {
    let tensors = vec![TensorBytes { shape: vec![2], data: vec![1, 2, 3, 4, 5, 6, 7, 8] }];
    let bytes = encode_tensors(BpatHeader::BpatV2f32, &tensors).unwrap();
    let mut expected = BPAT_MAGIC_V2_F32.to_vec();
    expected.push(1);
    expected.extend_from_slice(&[1, 0, 0, 0]);
    expected.extend_from_slice(&[2, 0, 0, 0]);
    expected.extend_from_slice(&[1, 2, 3, 4, 5, 6, 7, 8]);
    assert_eq!(bytes, expected);
}

#[test]
fn v0_exact_bytes() {
    let tensors = vec![TensorBytes { shape: vec![1], data: vec![9; 8] }];
    let bytes = encode_tensors(BpatHeader::BpatV0, &tensors).unwrap();
    let mut expected = BPAT_MAGIC_V0.to_vec();
    expected.push(1);
    expected.extend_from_slice(&[1, 0, 0, 0, 0, 0, 0, 0]);
    expected.extend_from_slice(&[1, 0, 0, 0, 0, 0, 0, 0]);
    expected.extend_from_slice(&[9; 8]);
    assert_eq!(bytes, expected);
}

#[test]
fn v1m_checksums_are_crc32() {
    let tensors = vec![TensorBytes { shape: vec![1], data: vec![0, 0, 128, 63] }];
    let bytes = encode_tensors(BpatHeader::BpatV1M, &tensors).unwrap();
    assert_eq!(&bytes[..8], &BPAT_MAGIC_V1_MICRO[..]);
    let body = &bytes[9..9 + 12];
    let tensor_crc = u32::from_le_bytes(bytes[21..25].try_into().unwrap());
    assert_eq!(tensor_crc, crc32fast::hash(body));
    let file_crc = u32::from_le_bytes(bytes[25..29].try_into().unwrap());
    assert_eq!(file_crc, crc32fast::hash(&bytes[..25]));
    assert_eq!(bytes.len(), 29);
}

#[test]
fn magics_are_distinct_headers() {
    assert_eq!(&BPAT_MAGIC_V0, b"bpat");
    assert_eq!(&BPAT_MAGIC_V1, b"BPATv1\0\0");
    assert_eq!(&BPAT_MAGIC_V1_MICRO, b"BPATv1m\0");
    assert_eq!(&BPAT_MAGIC_V2_F16, b"BPAT\0f16");
    assert_eq!(&BPAT_MAGIC_V2_BF16, b"BPATbf16");
    assert_eq!(&BPAT_MAGIC_V2_F32, b"BPAT\0f32");
}

#[test]
fn too_many_tensors() {
    let tensors: Vec<TensorBytes> = (0..256).map(|_| TensorBytes { shape: vec![], data: vec![0; 4] }).collect();
    let e = encode_tensors(BpatHeader::BpatV2f32, &tensors).unwrap_err();
    assert_eq!(e.msg, "exceeds max tensors of 255");
    assert_eq!(e.kind, ErrorKind::InvalidArgument);
    assert_eq!(e.ctx, SerialTensorError::Unrelated);
}

#[test]
fn data_size_mismatch() {
    let tensors = vec![TensorBytes { shape: vec![3], data: vec![0; 8] }];
    let e = encode_tensors(BpatHeader::BpatV2f32, &tensors).unwrap_err();
    assert_eq!(e.msg, "tensor prod(shape)/data.size mismatch");
    assert_eq!(e.kind, ErrorKind::InvalidArgument);
    assert_eq!(e.ctx, SerialTensorError::InvalidData);
}

#[test]
fn short_file_has_no_header() {
    let e = decode_tensors(b"bpa").unwrap_err();
    assert_eq!(e.ctx, SerialTensorError::InvalidHeader);
    assert_eq!(e.msg, "header not found");
    let e = decode_tensors(b"BPATv1").unwrap_err();
    assert_eq!(e.msg, "header not found");
}

#[test]
fn unknown_magic() {
    let e = decode_tensors(b"BPATxxxx\0").unwrap_err();
    assert_eq!(e.ctx, SerialTensorError::InvalidHeader);
    assert_eq!(e.msg, "invalid magic header");
    assert_eq!(e.kind, ErrorKind::SerializationError);
}

#[test]
fn truncated_file() {
    let tensors = vec![TensorBytes { shape: vec![2], data: vec![1; 8] }];
    let bytes = encode_tensors(BpatHeader::BpatV2f32, &tensors).unwrap();
    let e = decode_tensors(&bytes[..bytes.len() - 1]).unwrap_err();
    assert_eq!(e.ctx, SerialTensorError::FailedFileIo);
    assert_eq!(e.msg, "unexpected EOF");
    let e = decode_tensors(&BPAT_MAGIC_V2_F32).unwrap_err();
    assert_eq!(e.msg, "unexpected EOF");
}

#[test]
fn corrupted_checksum() {
    let tensors = vec![TensorBytes { shape: vec![1], data: vec![1, 2, 3, 4, 5, 6, 7, 8] }];
    let mut bytes = encode_tensors(BpatHeader::BpatV1, &tensors).unwrap();
    let at = bytes.len() - 10;
    bytes[at] ^= 0xff;
    let e = decode_tensors(&bytes).unwrap_err();
    assert_eq!(e.ctx, SerialTensorError::IntegrityUnverified);
    assert_eq!(e.msg, "checksum mismatch");
}

#[test]
fn corrupted_file_checksum() {
    let tensors = vec![TensorBytes { shape: vec![1], data: vec![0; 4] }];
    let mut bytes = encode_tensors(BpatHeader::BpatV1M, &tensors).unwrap();
    let last = bytes.len() - 1;
    bytes[last] ^= 1;
    let e = decode_tensors(&bytes).unwrap_err();
    assert_eq!(e.ctx, SerialTensorError::IntegrityUnverified);
}

#[test]
fn trailing_bytes_are_ignored() {
    let tensors = vec![TensorBytes { shape: vec![1], data: vec![7, 7] }];
    let mut bytes = encode_tensors(BpatHeader::BpatV2f16, &tensors).unwrap();
    bytes.extend_from_slice(&[1, 2, 3]);
    let (h, loaded) = decode_tensors(&bytes).unwrap();
    assert_eq!(h, BpatHeader::BpatV2f16);
    assert_eq!(loaded.len(), 1);
    assert_eq!(loaded[0].data, vec![7, 7]);
}

#[test]
fn shape_product_wraps() {
    assert_eq!(shape_product(&[2, 3, 4]), 24);
    assert_eq!(shape_product(&[]), 1);
    assert_eq!(shape_product(&[0x10000, 0x10000]), 0);
    assert_eq!(shape_product(&[0x10000, 0x10001]), 0x10000);
}

#[test]
fn serial_error_text() {
    assert_eq!(SerialTensorError::IntegrityUnverified.describe(), "integrity unverified");
    assert_eq!(SerialTensorError::Unrelated.describe(), "[other]");
    assert_eq!(SerialTensorError::FailedFileIo.describe(), "failed file I/O");
    let e = encode_tensors(BpatHeader::BpatV0, &[TensorBytes { shape: vec![1], data: vec![] }]).unwrap_err();
    assert_eq!(e.describe(), "invalid argument: tensor prod(shape)/data.size mismatch, invalid data");
}
