use tezedge::ack::{NackInfo, NackMotive};
use tezedge::connection::{ConnectionMessage, NetworkVersion};
use tezedge::ffi::{
    Applied, ApplyBlockError, BeginConstructionError, BlockHeaderError, CallError,
    ComputePathError, ContextDataError, Errored, GetDataError, OcamlException,
    OperationProtocolDataJsonWithErrorListJson, ProtocolRpcError, TezosGenerateIdentityError,
    TezosRuntimeConfigurationError, TezosStorageInitError, ValidateOperationError,
    ValidateOperationResult,
};

#[test]
fn call_error_keeps_exception_message() {
    let e = CallError::from_ocaml(OcamlException { message: Some("boom".to_string()) });
    assert_eq!(
        e,
        CallError::FailedToCall { parsed_error_message: Some("boom".to_string()) }
    );
    let e = CallError::from_ocaml(OcamlException { message: None });
    assert_eq!(e, CallError::FailedToCall { parsed_error_message: None });
}

#[test]
fn runtime_configuration_error_defaults_to_unknown() {
    let e = TezosRuntimeConfigurationError::from_ocaml(OcamlException { message: None });
    assert_eq!(
        e,
        TezosRuntimeConfigurationError::ChangeConfigurationError {
            message: "unknown".to_string()
        }
    );
}

#[test]
fn apply_block_error_classifies_predecessor_messages() {
    let e = ApplyBlockError::from_call_error(CallError::FailedToCall {
        parsed_error_message: Some("Unknown_predecessor_context: retry".to_string()),
    });
    assert_eq!(
        e,
        ApplyBlockError::UnknownPredecessorContext {
            message: "Unknown_predecessor_context: retry".to_string()
        }
    );

    let e = ApplyBlockError::from_call_error(CallError::FailedToCall {
        parsed_error_message: Some("Predecessor_mismatch!".to_string()),
    });
    assert_eq!(
        e,
        ApplyBlockError::PredecessorMismatch { message: "Predecessor_mismatch!".to_string() }
    );

    let e = ApplyBlockError::from_call_error(CallError::FailedToCall {
        parsed_error_message: Some("anything else".to_string()),
    });
    assert_eq!(
        e,
        ApplyBlockError::FailedToApplyBlock { message: "anything else".to_string() }
    );

    let e = ApplyBlockError::from_call_error(CallError::FailedToCall {
        parsed_error_message: None,
    });
    assert_eq!(e, ApplyBlockError::FailedToApplyBlock { message: "unknown".to_string() });

    let e = ApplyBlockError::from_call_error(CallError::InvalidRequestData {
        message: "bad".to_string(),
    });
    assert_eq!(
        e,
        ApplyBlockError::InvalidRequestResponseData { message: "bad".to_string() }
    );
}

#[test]
fn begin_construction_error_classifies_predecessor_message() {
    let e = BeginConstructionError::from_call_error(CallError::FailedToCall {
        parsed_error_message: Some("Unknown_predecessor_context".to_string()),
    });
    assert_eq!(
        e,
        BeginConstructionError::UnknownPredecessorContext {
            message: "Unknown_predecessor_context".to_string()
        }
    );
    let e = BeginConstructionError::from_call_error(CallError::InvalidResponseData {
        message: "bad".to_string(),
    });
    assert_eq!(
        e,
        BeginConstructionError::InvalidRequestResponseData { message: "bad".to_string() }
    );
}

#[test]
fn validate_operation_and_rpc_errors_pass_messages_through() {
    let e = ValidateOperationError::from_call_error(CallError::FailedToCall {
        parsed_error_message: Some("m".to_string()),
    });
    assert_eq!(
        e,
        ValidateOperationError::FailedToValidateOperation { message: "m".to_string() }
    );

    let e = ProtocolRpcError::from_call_error(CallError::InvalidRequestData {
        message: "req".to_string(),
    });
    assert_eq!(e, ProtocolRpcError::InvalidRequestData { message: "req".to_string() });
    let e = ProtocolRpcError::from_call_error(CallError::InvalidResponseData {
        message: "res".to_string(),
    });
    assert_eq!(e, ProtocolRpcError::InvalidResponseData { message: "res".to_string() });

    let e = ComputePathError::from_call_error(CallError::FailedToCall {
        parsed_error_message: None,
    });
    assert_eq!(e, ComputePathError::PathError { message: "unknown".to_string() });
}

#[test]
fn remaining_bridge_errors_classify_with_message() {
    let exc = || OcamlException { message: Some("why".to_string()) };
    assert_eq!(
        TezosGenerateIdentityError::from_ocaml(exc()),
        TezosGenerateIdentityError::GenerationError { message: "why".to_string() }
    );
    assert_eq!(
        TezosStorageInitError::from_ocaml(exc()),
        TezosStorageInitError::InitializeError { message: "why".to_string() }
    );
    assert_eq!(
        GetDataError::from_ocaml(exc()),
        GetDataError::ReadError { message: "why".to_string() }
    );
    assert_eq!(
        BlockHeaderError::from_ocaml(exc()),
        BlockHeaderError::ReadError { message: "why".to_string() }
    );
    assert_eq!(
        ContextDataError::from_ocaml(exc()),
        ContextDataError::DecodeError { message: "why".to_string() }
    );
    assert_eq!(
        ValidateOperationError::from_call_error(CallError::InvalidRequestData {
            message: "bad".to_string(),
        }),
        ValidateOperationError::InvalidRequestResponseData { message: "bad".to_string() }
    );
    assert_eq!(
        ComputePathError::from_call_error(CallError::InvalidResponseData {
            message: "bad".to_string(),
        }),
        ComputePathError::InvalidRequestResponseData { message: "bad".to_string() }
    );
}

fn applied(hash: u8, data: &str) -> Applied {
    Applied { hash: vec![hash], protocol_data_json: data.to_string() }
}

fn errored(hash: u8, err: &str) -> Errored {
    Errored {
        hash: vec![hash],
        is_endorsement: None,
        protocol_data_json_with_error_json: OperationProtocolDataJsonWithErrorListJson {
            protocol_data_json: "{}".to_string(),
            error_json: err.to_string(),
        },
    }
}

#[test]
fn merge_adds_new_and_replaces_known_hashes() {
    let mut result = ValidateOperationResult::default();
    let changed = result.merge(ValidateOperationResult {
        applied: vec![applied(1, "a"), applied(2, "b")],
        refused: vec![],
        branch_refused: vec![],
        branch_delayed: vec![],
    });
    assert!(changed);
    assert_eq!(result.applied.len(), 2);

    let changed = result.merge(ValidateOperationResult {
        applied: vec![applied(2, "b2"), applied(3, "c")],
        refused: vec![errored(7, "e")],
        branch_refused: vec![],
        branch_delayed: vec![],
    });
    assert!(changed);
    assert_eq!(result.applied.len(), 3);
    assert_eq!(result.refused.len(), 1);
    let replaced = result.applied.iter().find(|a| a.hash == vec![2]).unwrap();
    assert_eq!(replaced.protocol_data_json, "b2");
}

#[test]
fn merge_of_empty_result_reports_no_change() {
    let mut result = ValidateOperationResult::default();
    result.merge(ValidateOperationResult {
        applied: vec![applied(1, "a")],
        refused: vec![],
        branch_refused: vec![],
        branch_delayed: vec![],
    });
    let changed = result.merge(ValidateOperationResult::default());
    assert!(!changed);
    assert_eq!(result.applied.len(), 1);
}

#[test]
fn merge_errored_covers_all_three_verdicts() {
    let mut result = ValidateOperationResult::default();
    let changed = result.merge(ValidateOperationResult {
        applied: vec![],
        refused: vec![errored(1, "r")],
        branch_refused: vec![errored(2, "br")],
        branch_delayed: vec![errored(3, "bd"), errored(3, "bd2")],
    });
    assert!(changed);
    assert_eq!(result.refused.len(), 1);
    assert_eq!(result.branch_refused.len(), 1);
    // The two entries for one hash collapse to the later one.
    assert_eq!(result.branch_delayed.len(), 1);
    assert_eq!(
        result.branch_delayed[0].protocol_data_json_with_error_json.error_json,
        "bd2"
    );
}

#[test]
fn nack_info_keeps_motive_and_peers() {
    let peers = vec!["host-a:9732".to_string(), "host-b:9732".to_string()];
    let nack = NackInfo::new(NackMotive::TooManyConnections, &peers);
    assert_eq!(*nack.motive(), NackMotive::TooManyConnections);
    assert_eq!(nack.potential_peers_to_connect(), &peers);
}

#[test]
fn connection_message_decodes_hex_material() {
    let versions = vec![NetworkVersion {
        chain_name: "TEZOS".to_string(),
        distributed_db_version: 0,
        p2p_version: 1,
    }];
    let msg = ConnectionMessage::new(9732, "0a0BfF", "00ff10", &vec![1, 2, 3], versions);
    assert_eq!(msg.port, 9732);
    assert_eq!(msg.public_key, vec![0x0a, 0x0b, 0xff]);
    assert_eq!(msg.proof_of_work_stamp, vec![0x00, 0xff, 0x10]);
    assert_eq!(msg.message_nonce, vec![1, 2, 3]);
    assert_eq!(msg.versions.len(), 1);
    assert_eq!(msg.versions[0].chain_name, "TEZOS");
}
