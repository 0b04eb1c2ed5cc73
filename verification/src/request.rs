//! Request builder: assembles a complete inference request from a model
//! identifier, named input tensors and requested output names, encoding
//! every input through the tensor codec.

use crate::codec::{
    encode_scalar, datatype_size, datatype_tag, scalar_le_bytes, size_of_datatype, tag_of,
    DataType, Scalar,
};
use vstd::prelude::*;

verus! {

/// A caller-supplied input tensor: its wire name, element datatype,
/// declared shape, and the typed elements themselves.
pub struct InputTensor {
    pub name: String,
    pub datatype: DataType,
    pub shape: Vec<i64>,
    pub values: Vec<Scalar>,
}

/// Wire descriptor of one input tensor. It never embeds tensor bytes:
/// the bytes travel exclusively in the request's parallel
/// `raw_input_contents` sequence, the single authoritative location.
pub struct TensorDescriptor {
    pub name: String,
    pub datatype: String,
    pub shape: Vec<i64>,
}

/// One requested output, identified by name only; the server determines
/// its shape and datatype.
pub struct OutputRequest {
    pub name: String,
}

/// A complete inference request. `raw_input_contents[i]` holds the bytes
/// of the tensor described by `inputs[i]`.
pub struct InferRequest {
    pub model_name: String,
    pub model_version: String,
    pub request_id: String,
    pub inputs: Vec<TensorDescriptor>,
    pub outputs: Vec<OutputRequest>,
    pub raw_input_contents: Vec<Vec<u8>>,
}

/// Failures while constructing a request; nothing is sent on failure.
#[derive(Clone, Copy, Debug, PartialEq, Eq, Structural)]
pub enum BuildError {
    /// No input tensors were given.
    EmptyInputs,
    /// The tensor at `index` (the lowest offending position) has an
    /// encoded length that differs from `shape product * element size`.
    ShapeMismatch { index: usize },
}

/// Number of elements a shape declares.
pub open spec fn shape_product(shape: Seq<i64>) -> int
    decreases shape.len(),
{
    if shape.len() == 0 {
        1
    } else {
        shape_product(shape.drop_last()) * shape.last()
    }
}

/// Every dimension is at least one.
pub open spec fn shape_positive(shape: Seq<i64>) -> bool {
    forall|i: int| 0 <= i < shape.len() ==> shape[i] >= 1
}

/// Concatenated little-endian encoding of a tensor's elements.
pub open spec fn values_le_bytes(vals: Seq<Scalar>) -> Seq<u8>
    decreases vals.len(),
{
    if vals.len() == 0 {
        Seq::empty()
    } else {
        values_le_bytes(vals.drop_last()) + scalar_le_bytes(vals.last())
    }
}

/// The builder accepts a tensor exactly when its encoded length equals
/// the number of elements its shape declares times the element size.
pub open spec fn tensor_well_sized(t: InputTensor) -> bool {
    values_le_bytes(t.values@).len() == shape_product(t.shape@) * size_of_datatype(t.datatype)
}

impl InferRequest {
    /// Paired-sequence invariant: one raw buffer per input descriptor,
    /// positionally aligned, and every tensor name non-empty.
    pub open spec fn wf(self) -> bool {
        &&& self.raw_input_contents@.len() == self.inputs@.len()
        &&& forall|i: int| 0 <= i < self.inputs@.len() ==> self.inputs@[i].name@.len() > 0
    }
}

proof fn lemma_shape_product_pos(shape: Seq<i64>)
    requires
        shape_positive(shape),
    ensures
        shape_product(shape) >= 1,
    decreases shape.len(),
{
    if shape.len() > 0 {
        assert(shape_positive(shape.drop_last()));
        lemma_shape_product_pos(shape.drop_last());
        assert(shape_product(shape.drop_last()) * shape.last() >= 1) by (nonlinear_arith)
            requires
                shape_product(shape.drop_last()) >= 1,
                shape.last() >= 1,
        ;
    }
}

proof fn lemma_shape_product_mono(shape: Seq<i64>, i: int)
    requires
        shape_positive(shape),
        0 <= i <= shape.len(),
    ensures
        shape_product(shape) >= shape_product(shape.take(i)),
    decreases shape.len() - i,
{
    if i == shape.len() {
        assert(shape.take(i) =~= shape);
    } else {
        assert(shape.take(i + 1).drop_last() =~= shape.take(i));
        assert(shape.take(i + 1).last() == shape[i]);
        assert(shape_positive(shape.take(i)));
        lemma_shape_product_pos(shape.take(i));
        assert(shape_product(shape.take(i + 1)) >= shape_product(shape.take(i)))
            by (nonlinear_arith)
            requires
                shape_product(shape.take(i + 1)) == shape_product(shape.take(i)) * shape[i],
                shape_product(shape.take(i)) >= 1,
                shape[i] >= 1,
        ;
        lemma_shape_product_mono(shape, i + 1);
    }
}

/// Encode a tensor's elements back to back, in order.
pub fn encode_values(vals: &Vec<Scalar>) -> (r: Vec<u8>)
    ensures
        r@ == values_le_bytes(vals@),
{
    let mut r: Vec<u8> = Vec::new();
    let mut i: usize = 0;
    while i < vals.len()
        invariant
            i <= vals.len(),
            r@ == values_le_bytes(vals@.take(i as int)),
        decreases vals.len() - i,
    {
        let mut b = encode_scalar(vals[i]);
        r.append(&mut b);
        proof {
            assert(vals@.take(i as int + 1).drop_last() =~= vals@.take(i as int));
            assert(vals@.take(i as int + 1).last() == vals@[i as int]);
        }
        i += 1;
    }
    proof {
        assert(vals@.take(vals@.len() as int) =~= vals@);
    }
    r
}

/// The number of elements a positive shape declares, or `None` when the
/// product exceeds `u64::MAX`.
fn checked_shape_elems(shape: &Vec<i64>) -> (r: Option<u64>)
    requires
        shape_positive(shape@),
    ensures
        match r {
            Some(p) => p as int == shape_product(shape@),
            None => shape_product(shape@) > u64::MAX,
        },
{
    let mut p: u64 = 1;
    let mut i: usize = 0;
    while i < shape.len()
        invariant
            shape_positive(shape@),
            i <= shape.len(),
            p as int == shape_product(shape@.take(i as int)),
        decreases shape.len() - i,
    {
        let d = shape[i];
        let du = d as u64;
        proof {
            assert(shape@.take(i as int + 1).drop_last() =~= shape@.take(i as int));
            assert(shape@.take(i as int + 1).last() == shape@[i as int]);
        }
        match p.checked_mul(du) {
            Some(np) => {
                p = np;
            },
            None => {
                proof {
                    lemma_shape_product_mono(shape@, i as int + 1);
                }
                return None;
            },
        }
        i += 1;
    }
    proof {
        assert(shape@.take(shape@.len() as int) =~= shape@);
    }
    Some(p)
}

fn clone_dims(shape: &Vec<i64>) -> (r: Vec<i64>)
    ensures
        r@ == shape@,
{
    let mut r: Vec<i64> = Vec::new();
    let mut i: usize = 0;
    while i < shape.len()
        invariant
            i <= shape.len(),
            r@ == shape@.take(i as int),
        decreases shape.len() - i,
    {
        r.push(shape[i]);
        proof {
            assert(shape@.take(i as int + 1) =~= shape@.take(i as int).push(shape@[i as int]));
        }
        i += 1;
    }
    proof {
        assert(shape@.take(shape@.len() as int) =~= shape@);
    }
    r
}

/// Assemble an inference request. Each input tensor's elements are
/// encoded through the tensor codec and appended to
/// `raw_input_contents` at the same position as the tensor's descriptor
/// in `inputs`; descriptors never embed bytes. Fails with `EmptyInputs`
/// when no input tensor is given, and with `ShapeMismatch` at the lowest
/// offending position when a tensor's encoded length differs from
/// `shape product * element size`.
pub fn build_infer_request(
    model_name: &str,
    model_version: &str,
    request_id: Option<String>,
    inputs: &Vec<InputTensor>,
    requested_outputs: &Vec<String>,
) -> (r: Result<InferRequest, BuildError>)
    requires
        model_name@.len() > 0,
        forall|i: int| 0 <= i < inputs@.len() ==> (#[trigger] inputs@[i]).name@.len() > 0,
        forall|i: int| 0 <= i < inputs@.len() ==> shape_positive((#[trigger] inputs@[i]).shape@),
    ensures
        match r {
            Ok(req) => {
                &&& inputs@.len() > 0
                &&& forall|i: int|
                    0 <= i < inputs@.len() ==> tensor_well_sized(#[trigger] inputs@[i])
                &&& req.wf()
                &&& req.model_name@ == model_name@
                &&& req.model_version@ == model_version@
                &&& req.request_id@ == (match request_id {
                    Some(id) => id@,
                    None => Seq::<char>::empty(),
                })
                &&& req.inputs@.len() == inputs@.len()
                &&& forall|i: int|
                    0 <= i < inputs@.len() ==> {
                        &&& (#[trigger] req.inputs@[i]).name@ == inputs@[i].name@
                        &&& req.inputs@[i].datatype@ == tag_of(inputs@[i].datatype)
                        &&& req.inputs@[i].shape@ == inputs@[i].shape@
                    }
                &&& req.raw_input_contents@.len() == inputs@.len()
                &&& forall|i: int|
                    0 <= i < inputs@.len() ==> (#[trigger] req.raw_input_contents@[i])@
                        == values_le_bytes(inputs@[i].values@)
                &&& req.outputs@.len() == requested_outputs@.len()
                &&& forall|i: int|
                    0 <= i < requested_outputs@.len() ==> (#[trigger] req.outputs@[i]).name@
                        == requested_outputs@[i]@
            },
            Err(BuildError::EmptyInputs) => inputs@.len() == 0,
            Err(BuildError::ShapeMismatch { index }) => {
                &&& inputs@.len() > 0
                &&& 0 <= index < inputs@.len()
                &&& !tensor_well_sized(inputs@[index as int])
                &&& forall|j: int| 0 <= j < index ==> tensor_well_sized(#[trigger] inputs@[j])
            },
        },
{
    if inputs.len() == 0 {
        return Err(BuildError::EmptyInputs);
    }
    let mut descs: Vec<TensorDescriptor> = Vec::new();
    let mut raws: Vec<Vec<u8>> = Vec::new();
    let mut i: usize = 0;
    while i < inputs.len()
        invariant
            forall|k: int| 0 <= k < inputs@.len() ==> (#[trigger] inputs@[k]).name@.len() > 0,
            forall|k: int|
                0 <= k < inputs@.len() ==> shape_positive((#[trigger] inputs@[k]).shape@),
            inputs@.len() > 0,
            i <= inputs.len(),
            descs@.len() == i,
            raws@.len() == i,
            forall|j: int| 0 <= j < i ==> tensor_well_sized(#[trigger] inputs@[j]),
            forall|j: int|
                0 <= j < i ==> {
                    &&& (#[trigger] descs@[j]).name@ == inputs@[j].name@
                    &&& descs@[j].datatype@ == tag_of(inputs@[j].datatype)
                    &&& descs@[j].shape@ == inputs@[j].shape@
                },
            forall|j: int|
                0 <= j < i ==> (#[trigger] raws@[j])@ == values_le_bytes(inputs@[j].values@),
        decreases inputs.len() - i,
    {
        let t = &inputs[i];
        let buf = encode_values(&t.values);
        let esize = datatype_size(t.datatype);
        let fits: bool = match checked_shape_elems(&t.shape) {
            Some(p) => {
                proof {
                    assert(size_of_datatype(t.datatype) <= 8);
                    assert(p as int * esize as int <= 0x8_0000_0000_0000_0000)
                        by (nonlinear_arith)
                        requires
                            0 <= p as int <= 0xffff_ffff_ffff_ffffu64 as int,
                            0 <= esize as int <= 8,
                    ;
                }
                let need: u128 = (p as u128) * (esize as u128);
                buf.len() as u128 == need
            },
            None => {
                proof {
                    assert(buf.len() <= usize::MAX);
                    assert(buf@.len() <= usize::MAX);
                    assert(usize::MAX <= u64::MAX);
                    assert(shape_product(t.shape@) * size_of_datatype(t.datatype)
                        >= shape_product(t.shape@)) by (nonlinear_arith)
                        requires
                            shape_product(t.shape@) >= 0,
                            size_of_datatype(t.datatype) >= 1,
                    ;
                }
                false
            },
        };
        if !fits {
            return Err(BuildError::ShapeMismatch { index: i });
        }
        descs.push(
            TensorDescriptor {
                name: t.name.clone(),
                datatype: datatype_tag(t.datatype),
                shape: clone_dims(&t.shape),
            },
        );
        raws.push(buf);
        i += 1;
    }
    let mut outs: Vec<OutputRequest> = Vec::new();
    let mut k: usize = 0;
    while k < requested_outputs.len()
        invariant
            k <= requested_outputs.len(),
            outs@.len() == k,
            forall|j: int|
                0 <= j < k ==> (#[trigger] outs@[j]).name@ == requested_outputs@[j]@,
        decreases requested_outputs.len() - k,
    {
        outs.push(OutputRequest { name: requested_outputs[k].clone() });
        k += 1;
    }
    let rid: String = match request_id {
        Some(id) => id,
        None => String::new(),
    };
    Ok(
        InferRequest {
            model_name: model_name.to_owned(),
            model_version: model_version.to_owned(),
            request_id: rid,
            inputs: descs,
            outputs: outs,
            raw_input_contents: raws,
        },
    )
}

} // verus!
