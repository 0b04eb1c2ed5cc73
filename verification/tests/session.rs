use infer_client::codec::{DataType, Scalar};
use infer_client::metadata::{build_metadata_request, ModelMetadata, TensorSpec};
use infer_client::response::{DecodeOutputsError, InferResponse};
use infer_client::session::{Phase, Session};

fn simple_metadata() -> ModelMetadata {
    ModelMetadata {
        name: "simple".to_owned(),
        versions: vec!["1".to_owned()],
        platform: "tensorflow_graphdef".to_owned(),
        inputs: vec![TensorSpec {
            name: "INPUT0".to_owned(),
            datatype: "INT32".to_owned(),
            shape: vec![1, 16],
        }],
        outputs: vec![TensorSpec {
            name: "OUTPUT0".to_owned(),
            datatype: "INT32".to_owned(),
            shape: vec![1, 16],
        }],
    }
}

#[test]
fn live_but_not_ready_records_both_answers() {
    let mut session = Session::new();
    session.on_live(true);
    session.on_ready(false);
    assert_eq!(session.live, Some(true));
    assert_eq!(session.ready, Some(false));
    assert_eq!(session.phase, Phase::AwaitingMetadata);
}

#[test]
fn probe_answers_do_not_disturb_each_other() {
    for live in [false, true] {
        for ready in [false, true] {
            let mut session = Session::new();
            session.on_live(live);
            assert_eq!(session.live, Some(live));
            assert_eq!(session.ready, None);
            session.on_ready(ready);
            assert_eq!(session.live, Some(live));
            assert_eq!(session.ready, Some(ready));
        }
    }
}

#[test]
fn full_session_ends_complete_with_outputs() {
    let mut session = Session::new();
    assert_eq!(session.phase, Phase::AwaitingLive);
    session.on_live(true);
    session.on_ready(true);
    session.on_metadata(simple_metadata());
    assert_eq!(session.phase, Phase::AwaitingInfer);

    let response = InferResponse {
        raw_output_contents: vec![vec![5, 0, 0, 0], vec![7, 0, 0, 0]],
    };
    let expected = vec![DataType::Int32, DataType::Int32];
    session.on_infer(&response, &expected).unwrap();
    assert_eq!(session.phase, Phase::Complete);
    assert_eq!(
        session.outputs,
        Some(vec![Scalar::I32(5), Scalar::I32(7)])
    );
    let metadata = session.metadata.unwrap();
    assert_eq!(metadata.name, "simple");
}

#[test]
fn failed_decode_completes_without_outputs() {
    let mut session = Session::new();
    session.on_live(true);
    session.on_ready(true);
    session.on_metadata(simple_metadata());

    let response = InferResponse {
        raw_output_contents: vec![vec![5, 0, 0, 0]],
    };
    let expected = vec![DataType::Int32, DataType::Int32];
    assert_eq!(
        session.on_infer(&response, &expected),
        Err(DecodeOutputsError::CountMismatch)
    );
    assert_eq!(session.phase, Phase::Complete);
    assert_eq!(session.outputs, None);
}

#[test]
fn metadata_request_carries_name_and_version() {
    let r = build_metadata_request("simple", "");
    assert_eq!(r.name, "simple");
    assert_eq!(r.version, "");
}
