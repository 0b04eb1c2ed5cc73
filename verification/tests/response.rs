use infer_client::codec::{DataType, Scalar};
use infer_client::response::{decode_outputs, DecodeOutputsError, InferResponse};

#[test]
fn two_int32_outputs_decode_in_order() {
    let response = InferResponse {
        raw_output_contents: vec![vec![5, 0, 0, 0], vec![7, 0, 0, 0]],
    };
    let expected = vec![DataType::Int32, DataType::Int32];
    let vals = decode_outputs(&response, &expected).unwrap();
    assert_eq!(vals, vec![Scalar::I32(5), Scalar::I32(7)]);
}

#[test]
fn short_buffer_fails_with_its_index() {
    let response = InferResponse {
        raw_output_contents: vec![vec![1, 2, 3]],
    };
    let expected = vec![DataType::Int32];
    assert_eq!(
        decode_outputs(&response, &expected),
        Err(DecodeOutputsError::SizeMismatch { index: 0 })
    );
}

#[test]
fn first_offending_buffer_wins() {
    let response = InferResponse {
        raw_output_contents: vec![vec![1, 0, 0, 0], vec![2, 0], vec![9]],
    };
    let expected = vec![DataType::Int32, DataType::Int32, DataType::Int32];
    assert_eq!(
        decode_outputs(&response, &expected),
        Err(DecodeOutputsError::SizeMismatch { index: 1 })
    );
}

#[test]
fn buffer_count_must_match_expected_count() {
    let empty = InferResponse {
        raw_output_contents: vec![],
    };
    assert_eq!(
        decode_outputs(&empty, &vec![DataType::Int32]),
        Err(DecodeOutputsError::CountMismatch)
    );

    let two = InferResponse {
        raw_output_contents: vec![vec![1, 0, 0, 0], vec![2, 0, 0, 0]],
    };
    assert_eq!(
        decode_outputs(&two, &vec![DataType::Int32]),
        Err(DecodeOutputsError::CountMismatch)
    );
    assert_eq!(
        decode_outputs(&two, &vec![]),
        Err(DecodeOutputsError::CountMismatch)
    );
}

#[test]
fn empty_response_with_no_expectations_is_fine() {
    let empty = InferResponse {
        raw_output_contents: vec![],
    };
    let vals = decode_outputs(&empty, &vec![]).unwrap();
    assert_eq!(vals, vec![]);
}

#[test]
fn mixed_datatypes_decode_each_at_its_width() {
    let response = InferResponse {
        raw_output_contents: vec![vec![254], vec![1, 0], vec![255, 255, 255, 255, 255, 255, 255, 255]],
    };
    let expected = vec![DataType::Int8, DataType::Int16, DataType::Int64];
    let vals = decode_outputs(&response, &expected).unwrap();
    assert_eq!(vals, vec![Scalar::I8(-2), Scalar::I16(1), Scalar::I64(-1)]);
}
