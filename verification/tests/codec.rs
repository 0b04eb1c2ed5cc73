use infer_client::codec::{
    datatype_from_tag, datatype_size, datatype_tag, decode_scalar, encode_scalar, DataType,
    DecodeError, Scalar,
};

#[test]
fn encode_i32_is_four_little_endian_bytes() {
    assert_eq!(encode_scalar(Scalar::I32(5)), vec![5, 0, 0, 0]);
    assert_eq!(encode_scalar(Scalar::I32(0)), vec![0, 0, 0, 0]);
    assert_eq!(encode_scalar(Scalar::I32(0x0403_0201)), vec![1, 2, 3, 4]);
    assert_eq!(encode_scalar(Scalar::I32(-1)), vec![255, 255, 255, 255]);
}

#[test]
fn encode_other_widths() {
    assert_eq!(encode_scalar(Scalar::I8(-2)), vec![254]);
    assert_eq!(encode_scalar(Scalar::I16(-2)), vec![254, 255]);
    assert_eq!(encode_scalar(Scalar::I64(1)), vec![1, 0, 0, 0, 0, 0, 0, 0]);
    assert_eq!(
        encode_scalar(Scalar::I64(i64::MIN)),
        vec![0, 0, 0, 0, 0, 0, 0, 128]
    );
}

#[test]
fn decode_reads_little_endian() {
    assert_eq!(
        decode_scalar(&[5, 0, 0, 0], DataType::Int32),
        Ok(Scalar::I32(5))
    );
    assert_eq!(
        decode_scalar(&[255, 255, 255, 255], DataType::Int32),
        Ok(Scalar::I32(-1))
    );
    assert_eq!(decode_scalar(&[128], DataType::Int8), Ok(Scalar::I8(-128)));
    assert_eq!(
        decode_scalar(&[0, 128], DataType::Int16),
        Ok(Scalar::I16(i16::MIN))
    );
}

#[test]
fn round_trip_every_width() {
    let samples = vec![
        Scalar::I8(0),
        Scalar::I8(-1),
        Scalar::I8(i8::MIN),
        Scalar::I8(i8::MAX),
        Scalar::I16(1234),
        Scalar::I16(i16::MIN),
        Scalar::I16(i16::MAX),
        Scalar::I32(-7),
        Scalar::I32(i32::MIN),
        Scalar::I32(i32::MAX),
        Scalar::I64(-698_742),
        Scalar::I64(i64::MIN),
        Scalar::I64(i64::MAX),
    ];
    for s in samples {
        let bytes = encode_scalar(s);
        let t = match s {
            Scalar::I8(_) => DataType::Int8,
            Scalar::I16(_) => DataType::Int16,
            Scalar::I32(_) => DataType::Int32,
            Scalar::I64(_) => DataType::Int64,
        };
        assert_eq!(bytes.len(), datatype_size(t));
        assert_eq!(decode_scalar(&bytes, t), Ok(s));
    }
}

#[test]
fn decode_rejects_wrong_length() {
    assert_eq!(
        decode_scalar(&[1, 2, 3], DataType::Int32),
        Err(DecodeError::SizeMismatch)
    );
    assert_eq!(
        decode_scalar(&[1, 2, 3, 4, 5], DataType::Int32),
        Err(DecodeError::SizeMismatch)
    );
    assert_eq!(decode_scalar(&[], DataType::Int8), Err(DecodeError::SizeMismatch));
    assert_eq!(
        decode_scalar(&[1, 2, 3, 4], DataType::Int64),
        Err(DecodeError::SizeMismatch)
    );
}

#[test]
fn datatype_tags_match_protocol() {
    assert_eq!(datatype_tag(DataType::Int8), "INT8");
    assert_eq!(datatype_tag(DataType::Int16), "INT16");
    assert_eq!(datatype_tag(DataType::Int32), "INT32");
    assert_eq!(datatype_tag(DataType::Int64), "INT64");
}

#[test]
fn tag_round_trip_and_unknown_tag() {
    for t in [DataType::Int8, DataType::Int16, DataType::Int32, DataType::Int64] {
        assert_eq!(datatype_from_tag(&datatype_tag(t)), Ok(t));
    }
    assert_eq!(
        datatype_from_tag("FP32"),
        Err(DecodeError::UnknownDatatype)
    );
    assert_eq!(datatype_from_tag(""), Err(DecodeError::UnknownDatatype));
    assert_eq!(
        datatype_from_tag("int32"),
        Err(DecodeError::UnknownDatatype)
    );
}
