//! Response decoder: turns the raw output buffers of a reply back into
//! typed scalars, in the order the outputs were requested.

use crate::codec::{
    decode_scalar_exact, decoded_scalar, datatype_size, lemma_scalar_round_trip, scalar_datatype,
    scalar_le_bytes, size_of_datatype, DataType, Scalar,
};
use vstd::prelude::*;

verus! {

/// A reply to an inference request: raw output byte buffers,
/// positionally aligned with the outputs the request asked for. The
/// buffers are not self-describing; shape and datatype come from the
/// model's metadata contract.
pub struct InferResponse {
    pub raw_output_contents: Vec<Vec<u8>>,
}

/// Failures while decoding a reply. Decoding is all-or-nothing: on
/// failure no partial results are handed out.
#[derive(Clone, Copy, Debug, PartialEq, Eq, Structural)]
pub enum DecodeOutputsError {
    /// The number of raw buffers differs from the number of expected
    /// datatypes.
    CountMismatch,
    /// The buffer at `index` (the lowest offending position) has a
    /// length that differs from its expected datatype's size.
    SizeMismatch { index: usize },
}

/// The byte sequences held by a sequence of buffers.
pub open spec fn raw_views(bufs: Seq<Vec<u8>>) -> Seq<Seq<u8>> {
    Seq::new(bufs.len(), |i: int| bufs[i]@)
}

/// Every buffer has exactly the size of its expected datatype.
pub open spec fn output_sizes_ok(contents: Seq<Seq<u8>>, types: Seq<DataType>) -> bool {
    forall|i: int|
        0 <= i < types.len() ==> (#[trigger] contents[i]).len() == size_of_datatype(types[i])
}

/// The scalars a well-sized reply decodes to, position by position.
pub open spec fn decoded_outputs(contents: Seq<Seq<u8>>, types: Seq<DataType>) -> Seq<Scalar> {
    Seq::new(types.len(), |i: int| decoded_scalar(contents[i], types[i]))
}

/// Decode every raw output buffer at its expected datatype. Fails with
/// `CountMismatch` whenever the buffer count differs from the expected
/// type count, and otherwise with `SizeMismatch` at the lowest position
/// whose buffer length differs from its datatype's size; on any failure
/// nothing is returned.
pub fn decode_outputs(response: &InferResponse, expected_types: &Vec<DataType>) -> (r: Result<
    Vec<Scalar>,
    DecodeOutputsError,
>)
    ensures
        ({
            let contents = raw_views(response.raw_output_contents@);
            let types = expected_types@;
            match r {
                Ok(vals) => {
                    &&& contents.len() == types.len()
                    &&& output_sizes_ok(contents, types)
                    &&& vals@ == decoded_outputs(contents, types)
                    &&& forall|i: int|
                        0 <= i < types.len() ==> scalar_datatype(#[trigger] vals@[i]) == types[i]
                },
                Err(DecodeOutputsError::CountMismatch) => contents.len() != types.len(),
                Err(DecodeOutputsError::SizeMismatch { index }) => {
                    &&& contents.len() == types.len()
                    &&& 0 <= index < types.len()
                    &&& contents[index as int].len() != size_of_datatype(types[index as int])
                    &&& forall|j: int|
                        0 <= j < index ==> (#[trigger] contents[j]).len() == size_of_datatype(
                            types[j],
                        )
                },
            }
        }),
{
    let n = expected_types.len();
    if response.raw_output_contents.len() != n {
        return Err(DecodeOutputsError::CountMismatch);
    }
    let mut out: Vec<Scalar> = Vec::new();
    let mut i: usize = 0;
    while i < n
        invariant
            n == expected_types@.len(),
            response.raw_output_contents@.len() == n,
            i <= n,
            out@.len() == i,
            forall|j: int|
                0 <= j < i ==> (#[trigger] raw_views(response.raw_output_contents@)[j]).len()
                    == size_of_datatype(expected_types@[j]),
            forall|j: int|
                0 <= j < i ==> (#[trigger] out@[j]) == decoded_scalar(
                    raw_views(response.raw_output_contents@)[j],
                    expected_types@[j],
                ),
        decreases n - i,
    {
        let buf = &response.raw_output_contents[i];
        let t = expected_types[i];
        let esize = datatype_size(t);
        if buf.len() != esize {
            return Err(DecodeOutputsError::SizeMismatch { index: i });
        }
        out.push(decode_scalar_exact(buf.as_slice(), t));
        i += 1;
    }
    proof {
        assert(out@ =~= decoded_outputs(
            raw_views(response.raw_output_contents@),
            expected_types@,
        ));
    }
    Ok(out)
}

/// Law: buffers produced by the codec, decoded at their own datatypes,
/// give back the values they encode, position by position.
pub proof fn lemma_outputs_round_trip(vals: Seq<Scalar>)
    ensures
        decoded_outputs(
            vals.map_values(|s: Scalar| scalar_le_bytes(s)),
            vals.map_values(|s: Scalar| scalar_datatype(s)),
        ) == vals,
{
    let contents = vals.map_values(|s: Scalar| scalar_le_bytes(s));
    let types = vals.map_values(|s: Scalar| scalar_datatype(s));
    assert forall|i: int| 0 <= i < types.len() implies #[trigger] decoded_outputs(
        contents,
        types,
    )[i] == vals[i] by {
        lemma_scalar_round_trip(vals[i]);
    }
    assert(decoded_outputs(contents, types) =~= vals);
}

} // verus!
