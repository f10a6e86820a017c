//! Messages and error types exchanged with the OCaml side of the node over its
//! FFI bridge, modeled as plain values, together with the rules that classify
//! bridge exceptions into the caller-facing error types and that merge
//! operation-validation results.

use vstd::prelude::*;

verus! {

/// Raw byte payload crossing the FFI boundary.
pub type RustBytes = Vec<u8>;

/// A hash value, carried as its raw bytes.
pub type Hash = Vec<u8>;

pub type ChainId = Hash;

pub type BlockHash = Hash;

pub type ContextHash = Hash;

pub type OperationHash = Hash;

pub type ProtocolHash = Hash;

pub type OperationProtocolDataJson = String;

pub type ErrorListJson = String;

pub type Json = String;

/// Genesis block information.
#[derive(Clone, Debug)]
pub struct GenesisChain {
    pub time: String,
    pub block: String,
    pub protocol: String,
}

/// Voted protocol overrides.
#[derive(Clone, Debug)]
pub struct ProtocolOverrides {
    pub forced_protocol_upgrades: Vec<(i32, String)>,
    pub voted_protocol_overrides: Vec<(String, String)>,
}

/// A patch-context key and its JSON payload.
#[derive(Clone, Debug)]
pub struct PatchContext {
    pub key: String,
    pub json: String,
}

/// Test chain information.
#[derive(Debug)]
pub struct TestChain {
    pub chain_id: RustBytes,
    pub protocol_hash: RustBytes,
    pub expiration_date: String,
}

/// Runtime settings handed to the OCaml side, changeable while running.
#[derive(Clone, Debug)]
pub struct TezosRuntimeConfiguration {
    pub log_enabled: bool,
    pub no_of_ffi_calls_treshold_for_gc: i32,
    pub debug_mode: bool,
}

/// Commit-genesis result.
#[derive(Clone, Debug)]
pub struct CommitGenesisResult {
    pub block_header_proto_json: String,
    pub block_header_proto_metadata_json: String,
    pub operations_proto_metadata_json: String,
}

/// Forking test chain data.
#[derive(Clone, Debug)]
pub struct ForkingTestchainData {
    pub forking_block_hash: BlockHash,
    pub test_chain_id: ChainId,
}

/// Init-protocol-context result.
#[derive(Clone, Debug)]
pub struct InitProtocolContextResult {
    pub supported_protocol_hashes: Vec<ProtocolHash>,
    pub genesis_commit_hash: Option<ContextHash>,
}

/// A JSON-RPC request forwarded over the bridge.
#[derive(Clone, Debug)]
pub struct JsonRpcRequest {
    pub body: Json,
    pub context_path: String,
}

/// A JSON-RPC response coming back over the bridge.
#[derive(Clone, Debug)]
pub struct JsonRpcResponse {
    pub body: Json,
}

/// The RPC services that can be addressed through the bridge.
#[derive(Clone, Copy, Debug, PartialEq, Eq, Structural)]
pub enum FfiRpcService {
    HelpersRunOperation,
    HelpersPreapplyOperations,
    HelpersPreapplyBlock,
    HelpersCurrentLevel,
    DelegatesMinimalValidTime,
    LiveBlocks,
}

/// What the OCaml runtime reports when a bridge call raises: an exception that
/// may or may not carry a printable message. This is the plain model of the
/// bridge's error value; the process edge converts into it.
#[derive(Clone, Debug)]
pub struct OcamlException {
    pub message: Option<String>,
}

/// The text that an exception contributes to an error message: its own
/// message, or `unknown` when it carried none.
pub open spec fn exception_text(message: Option<String>) -> Seq<char> {
    match message {
        Some(m) => m@,
        None => "unknown"@,
    }
}

/// A string starts with a prefix.
pub open spec fn spec_starts_with(s: Seq<char>, prefix: Seq<char>) -> bool {
    prefix.len() <= s.len() && s.subrange(0, prefix.len() as int) == prefix
}

/// Prefix test over characters.
fn starts_with(s: &str, prefix: &str) -> (r: bool)
    ensures
        r == spec_starts_with(s@, prefix@),
{
    let n = prefix.unicode_len();
    if n > s.unicode_len() {
        return false;
    }
    let mut i: usize = 0;
    while i < n
        invariant
            i <= n,
            n == prefix@.len(),
            n <= s@.len(),
            forall|j: int| 0 <= j < i ==> s@[j] == prefix@[j],
        decreases n - i,
    {
        if s.get_char(i) != prefix.get_char(i) {
            proof {
                assert(s@.subrange(0, n as int)[i as int] == s@[i as int]);
            }
            return false;
        }
        i += 1;
    }
    proof {
        assert(s@.subrange(0, n as int) =~= prefix@);
    }
    true
}

/// Failure of a bridge call, before classification by the operation that made
/// the call.
#[derive(Clone, Debug, PartialEq)]
pub enum CallError {
    FailedToCall { parsed_error_message: Option<String> },
    InvalidRequestData { message: String },
    InvalidResponseData { message: String },
}

impl CallError {
    /// A raised bridge exception always classifies as a failed call, keeping
    /// whatever message it carried.
    pub fn from_ocaml(error: OcamlException) -> (r: CallError)
        ensures
            r == (CallError::FailedToCall { parsed_error_message: error.message }),
    {
        CallError::FailedToCall { parsed_error_message: error.message }
    }
}

/// Failure to change the OCaml runtime settings.
#[derive(Clone, Debug, PartialEq)]
pub enum TezosRuntimeConfigurationError {
    ChangeConfigurationError { message: String },
}

impl TezosRuntimeConfigurationError {
    /// A raised bridge exception, with `unknown` standing in for a missing
    /// message.
    pub fn from_ocaml(error: OcamlException) -> (r: Self)
        ensures
            (r matches TezosRuntimeConfigurationError::ChangeConfigurationError { message }
                && message@ == exception_text(error.message)),
    {
        TezosRuntimeConfigurationError::ChangeConfigurationError {
            message: exception_message(error),
        }
    }
}

/// Failure to generate a node identity.
#[derive(Clone, Debug, PartialEq)]
pub enum TezosGenerateIdentityError {
    GenerationError { message: String },
    InvalidJsonError { message: String },
}

impl TezosGenerateIdentityError {
    /// A raised bridge exception classifies as a generation failure.
    pub fn from_ocaml(error: OcamlException) -> (r: Self)
        ensures
            (r matches TezosGenerateIdentityError::GenerationError { message } && message@
                == exception_text(error.message)),
    {
        TezosGenerateIdentityError::GenerationError { message: exception_message(error) }
    }
}

/// Failure to initialize the OCaml-side storage.
#[derive(Clone, Debug, PartialEq)]
pub enum TezosStorageInitError {
    InitializeError { message: String },
}

impl TezosStorageInitError {
    /// A raised bridge exception classifies as an initialization failure.
    pub fn from_ocaml(error: OcamlException) -> (r: Self)
        ensures
            (r matches TezosStorageInitError::InitializeError { message } && message@
                == exception_text(error.message)),
    {
        TezosStorageInitError::InitializeError { message: exception_message(error) }
    }
}

/// Failure to read data on the OCaml side.
#[derive(Clone, Debug, PartialEq)]
pub enum GetDataError {
    ReadError { message: String },
}

impl GetDataError {
    /// A raised bridge exception classifies as a read failure.
    pub fn from_ocaml(error: OcamlException) -> (r: Self)
        ensures
            (r matches GetDataError::ReadError { message } && message@ == exception_text(
                error.message,
            )),
    {
        GetDataError::ReadError { message: exception_message(error) }
    }
}

/// Failure to read a block header from storage.
#[derive(Debug, PartialEq)]
pub enum BlockHeaderError {
    ReadError { message: String },
    ExpectedButNotFound,
}

impl BlockHeaderError {
    /// A raised bridge exception classifies as a read failure.
    pub fn from_ocaml(error: OcamlException) -> (r: Self)
        ensures
            (r matches BlockHeaderError::ReadError { message } && message@ == exception_text(
                error.message,
            )),
    {
        BlockHeaderError::ReadError { message: exception_message(error) }
    }
}

/// Failure to resolve or decode context data.
#[derive(Debug, PartialEq)]
pub enum ContextDataError {
    DecodeError { message: String },
}

impl ContextDataError {
    /// A raised bridge exception classifies as a decode failure.
    pub fn from_ocaml(error: OcamlException) -> (r: Self)
        ensures
            (r matches ContextDataError::DecodeError { message } && message@ == exception_text(
                error.message,
            )),
    {
        ContextDataError::DecodeError { message: exception_message(error) }
    }
}

/// The exception's message, with `unknown` for a silent exception.
fn exception_message(error: OcamlException) -> (r: String)
    ensures
        r@ == exception_text(error.message),
{
    match error.message {
        Some(m) => m,
        None => "unknown".to_owned(),
    }
}

/// Failure of a block application call.
#[derive(Clone, Debug, PartialEq)]
pub enum ApplyBlockError {
    IncompleteOperations { expected: usize, actual: usize },
    FailedToApplyBlock { message: String },
    UnknownPredecessorContext { message: String },
    PredecessorMismatch { message: String },
    InvalidRequestResponseData { message: String },
}

impl ApplyBlockError {
    /// Classifies a failed bridge call: a message naming an unknown
    /// predecessor context or a predecessor mismatch selects the matching
    /// variant, any other failed call is a plain application failure, and
    /// invalid request or response data is passed through as such.
    pub fn from_call_error(error: CallError) -> (r: Self)
        ensures
            error matches CallError::FailedToCall { parsed_error_message: None } ==> (
            r matches ApplyBlockError::FailedToApplyBlock { message } && message@ == "unknown"@),
            error matches CallError::FailedToCall { parsed_error_message: Some(m) } ==> {
                if spec_starts_with(m@, "Unknown_predecessor_context"@) {
                    r == (ApplyBlockError::UnknownPredecessorContext { message: m })
                } else if spec_starts_with(m@, "Predecessor_mismatch"@) {
                    r == (ApplyBlockError::PredecessorMismatch { message: m })
                } else {
                    r == (ApplyBlockError::FailedToApplyBlock { message: m })
                }
            },
            error matches CallError::InvalidRequestData { message } ==> r == (
            ApplyBlockError::InvalidRequestResponseData { message }),
            error matches CallError::InvalidResponseData { message } ==> r == (
            ApplyBlockError::InvalidRequestResponseData { message }),
    {
        match error {
            CallError::FailedToCall { parsed_error_message } => {
                match parsed_error_message {
                    None => ApplyBlockError::FailedToApplyBlock { message: "unknown".to_owned() },
                    Some(message) => {
                        if starts_with(message.as_str(), "Unknown_predecessor_context") {
                            ApplyBlockError::UnknownPredecessorContext { message }
                        } else if starts_with(message.as_str(), "Predecessor_mismatch") {
                            ApplyBlockError::PredecessorMismatch { message }
                        } else {
                            ApplyBlockError::FailedToApplyBlock { message }
                        }
                    },
                }
            },
            CallError::InvalidRequestData { message } => {
                ApplyBlockError::InvalidRequestResponseData { message }
            },
            CallError::InvalidResponseData { message } => {
                ApplyBlockError::InvalidRequestResponseData { message }
            },
        }
    }
}

/// Failure of a begin-construction call.
#[derive(Clone, Debug, PartialEq)]
pub enum BeginConstructionError {
    FailedToBeginConstruction { message: String },
    UnknownPredecessorContext { message: String },
    InvalidRequestResponseData { message: String },
}

impl BeginConstructionError {
    /// Classifies a failed bridge call: only an unknown predecessor context is
    /// singled out; everything else fails construction or passes through as
    /// invalid data.
    pub fn from_call_error(error: CallError) -> (r: Self)
        ensures
            error matches CallError::FailedToCall { parsed_error_message: None } ==> (
            r matches BeginConstructionError::FailedToBeginConstruction { message } && message@
                == "unknown"@),
            error matches CallError::FailedToCall { parsed_error_message: Some(m) } ==> {
                if spec_starts_with(m@, "Unknown_predecessor_context"@) {
                    r == (BeginConstructionError::UnknownPredecessorContext { message: m })
                } else {
                    r == (BeginConstructionError::FailedToBeginConstruction { message: m })
                }
            },
            error matches CallError::InvalidRequestData { message } ==> r == (
            BeginConstructionError::InvalidRequestResponseData { message }),
            error matches CallError::InvalidResponseData { message } ==> r == (
            BeginConstructionError::InvalidRequestResponseData { message }),
    {
        match error {
            CallError::FailedToCall { parsed_error_message } => {
                match parsed_error_message {
                    None => BeginConstructionError::FailedToBeginConstruction {
                        message: "unknown".to_owned(),
                    },
                    Some(message) => {
                        if starts_with(message.as_str(), "Unknown_predecessor_context") {
                            BeginConstructionError::UnknownPredecessorContext { message }
                        } else {
                            BeginConstructionError::FailedToBeginConstruction { message }
                        }
                    },
                }
            },
            CallError::InvalidRequestData { message } => {
                BeginConstructionError::InvalidRequestResponseData { message }
            },
            CallError::InvalidResponseData { message } => {
                BeginConstructionError::InvalidRequestResponseData { message }
            },
        }
    }
}

/// Failure of an operation-validation call.
#[derive(Clone, Debug, PartialEq)]
pub enum ValidateOperationError {
    FailedToValidateOperation { message: String },
    InvalidRequestResponseData { message: String },
}

impl ValidateOperationError {
    /// Classifies a failed bridge call, with no message-based distinctions.
    pub fn from_call_error(error: CallError) -> (r: Self)
        ensures
            error matches CallError::FailedToCall { parsed_error_message: None } ==> (
            r matches ValidateOperationError::FailedToValidateOperation { message } && message@
                == "unknown"@),
            error matches CallError::FailedToCall { parsed_error_message: Some(m) } ==> r == (
            ValidateOperationError::FailedToValidateOperation { message: m }),
            error matches CallError::InvalidRequestData { message } ==> r == (
            ValidateOperationError::InvalidRequestResponseData { message }),
            error matches CallError::InvalidResponseData { message } ==> r == (
            ValidateOperationError::InvalidRequestResponseData { message }),
    {
        match error {
            CallError::FailedToCall { parsed_error_message } => {
                match parsed_error_message {
                    None => ValidateOperationError::FailedToValidateOperation {
                        message: "unknown".to_owned(),
                    },
                    Some(message) => ValidateOperationError::FailedToValidateOperation { message },
                }
            },
            CallError::InvalidRequestData { message } => {
                ValidateOperationError::InvalidRequestResponseData { message }
            },
            CallError::InvalidResponseData { message } => {
                ValidateOperationError::InvalidRequestResponseData { message }
            },
        }
    }
}

/// Failure of a protocol RPC call.
#[derive(Clone, Debug, PartialEq)]
pub enum ProtocolRpcError {
    FailedToCallProtocolRpc { message: String },
    InvalidRequestData { message: String },
    InvalidResponseData { message: String },
}

impl ProtocolRpcError {
    /// Classifies a failed bridge call, keeping the request/response
    /// distinction of the underlying call error.
    pub fn from_call_error(error: CallError) -> (r: Self)
        ensures
            error matches CallError::FailedToCall { parsed_error_message: None } ==> (
            r matches ProtocolRpcError::FailedToCallProtocolRpc { message } && message@
                == "unknown"@),
            error matches CallError::FailedToCall { parsed_error_message: Some(m) } ==> r == (
            ProtocolRpcError::FailedToCallProtocolRpc { message: m }),
            error matches CallError::InvalidRequestData { message } ==> r == (
            ProtocolRpcError::InvalidRequestData { message }),
            error matches CallError::InvalidResponseData { message } ==> r == (
            ProtocolRpcError::InvalidResponseData { message }),
    {
        match error {
            CallError::FailedToCall { parsed_error_message } => {
                match parsed_error_message {
                    None => ProtocolRpcError::FailedToCallProtocolRpc {
                        message: "unknown".to_owned(),
                    },
                    Some(message) => ProtocolRpcError::FailedToCallProtocolRpc { message },
                }
            },
            CallError::InvalidRequestData { message } => {
                ProtocolRpcError::InvalidRequestData { message }
            },
            CallError::InvalidResponseData { message } => {
                ProtocolRpcError::InvalidResponseData { message }
            },
        }
    }
}

/// Failure of an operations-path computation call.
#[derive(Clone, Debug, PartialEq)]
pub enum ComputePathError {
    PathError { message: String },
    InvalidRequestResponseData { message: String },
}

impl ComputePathError {
    /// Classifies a failed bridge call, with no message-based distinctions.
    pub fn from_call_error(error: CallError) -> (r: Self)
        ensures
            error matches CallError::FailedToCall { parsed_error_message: None } ==> (
            r matches ComputePathError::PathError { message } && message@ == "unknown"@),
            error matches CallError::FailedToCall { parsed_error_message: Some(m) } ==> r == (
            ComputePathError::PathError { message: m }),
            error matches CallError::InvalidRequestData { message } ==> r == (
            ComputePathError::InvalidRequestResponseData { message }),
            error matches CallError::InvalidResponseData { message } ==> r == (
            ComputePathError::InvalidRequestResponseData { message }),
    {
        match error {
            CallError::FailedToCall { parsed_error_message } => {
                match parsed_error_message {
                    None => ComputePathError::PathError { message: "unknown".to_owned() },
                    Some(message) => ComputePathError::PathError { message },
                }
            },
            CallError::InvalidRequestData { message } => {
                ComputePathError::InvalidRequestResponseData { message }
            },
            CallError::InvalidResponseData { message } => {
                ComputePathError::InvalidRequestResponseData { message }
            },
        }
    }
}

/// Protocol data of an operation together with the error list its validation
/// produced, both as JSON text.
#[derive(Clone, Debug, PartialEq)]
pub struct OperationProtocolDataJsonWithErrorListJson {
    pub protocol_data_json: OperationProtocolDataJson,
    pub error_json: ErrorListJson,
}

/// An operation that validation applied.
#[derive(Clone, Debug, PartialEq)]
pub struct Applied {
    pub hash: OperationHash,
    pub protocol_data_json: OperationProtocolDataJson,
}

/// An operation that validation refused or delayed.
#[derive(Clone, Debug, PartialEq)]
pub struct Errored {
    pub hash: OperationHash,
    pub is_endorsement: Option<bool>,
    pub protocol_data_json_with_error_json: OperationProtocolDataJsonWithErrorListJson,
}

/// Byte-wise equality of two hashes.
fn bytes_eq(a: &Vec<u8>, b: &Vec<u8>) -> (r: bool)
    ensures
        r == (a@ == b@),
{
    if a.len() != b.len() {
        return false;
    }
    let mut i: usize = 0;
    while i < a.len()
        invariant
            a@.len() == b@.len(),
            i <= a@.len(),
            forall|j: int| 0 <= j < i ==> a@[j] == b@[j],
        decreases a@.len() - i,
    {
        if a[i] != b[i] {
            return false;
        }
        i += 1;
    }
    proof {
        assert(a@ =~= b@);
    }
    true
}

/// One new applied entry folded in: it replaces the first entry with its hash,
/// or joins the end of the list when its hash is new.
pub open spec fn upsert_applied(s: Seq<Applied>, na: Applied) -> Seq<Applied>
    decreases s.len(),
{
    if s.len() == 0 {
        seq![na]
    } else if s.first().hash@ == na.hash@ {
        seq![na] + s.drop_first()
    } else {
        seq![s.first()] + upsert_applied(s.drop_first(), na)
    }
}

/// A whole list of new applied entries folded in, in order.
pub open spec fn merge_applied_seq(s: Seq<Applied>, new_items: Seq<Applied>) -> Seq<Applied>
    decreases new_items.len(),
{
    if new_items.len() == 0 {
        s
    } else {
        merge_applied_seq(upsert_applied(s, new_items.first()), new_items.drop_first())
    }
}

proof fn lemma_upsert_applied_found(s: Seq<Applied>, na: Applied, i: int)
    requires
        0 <= i < s.len(),
        s[i].hash@ == na.hash@,
        forall|j: int| 0 <= j < i ==> s[j].hash@ != na.hash@,
    ensures
        upsert_applied(s, na) == s.update(i, na),
    decreases s.len(),
{
    if i == 0 {
        assert(upsert_applied(s, na) =~= s.update(0, na));
    } else {
        assert(s[0].hash@ != na.hash@);
        assert forall|j: int| 0 <= j < i - 1 implies s.drop_first()[j].hash@ != na.hash@ by {
            assert(s.drop_first()[j] == s[j + 1]);
        }
        lemma_upsert_applied_found(s.drop_first(), na, i - 1);
        assert(upsert_applied(s, na) =~= s.update(i, na));
    }
}

proof fn lemma_upsert_applied_absent(s: Seq<Applied>, na: Applied)
    requires
        forall|j: int| 0 <= j < s.len() ==> s[j].hash@ != na.hash@,
    ensures
        upsert_applied(s, na) == s.push(na),
    decreases s.len(),
{
    if s.len() == 0 {
        assert(upsert_applied(s, na) =~= s.push(na));
    } else {
        assert forall|j: int| 0 <= j < s.drop_first().len() implies s.drop_first()[j].hash@
            != na.hash@ by {
            assert(s.drop_first()[j] == s[j + 1]);
        }
        lemma_upsert_applied_absent(s.drop_first(), na);
        assert(upsert_applied(s, na) =~= s.push(na));
    }
}

/// Folds one applied entry into the list as `upsert_applied` describes.
fn upsert_applied_exec(items: &mut Vec<Applied>, na: Applied)
    ensures
        final(items)@ == upsert_applied(old(items)@, na),
{
    let mut i: usize = 0;
    while i < items.len()
        invariant
            i <= items@.len(),
            items@ == old(items)@,
            forall|j: int| 0 <= j < i ==> items@[j].hash@ != na.hash@,
        decreases items@.len() - i,
    {
        if bytes_eq(&items[i].hash, &na.hash) {
            proof {
                lemma_upsert_applied_found(items@, na, i as int);
            }
            items[i] = na;
            return ;
        }
        i += 1;
    }
    proof {
        lemma_upsert_applied_absent(items@, na);
    }
    items.push(na);
}

/// One new errored entry folded in: it replaces the first entry with its hash,
/// or joins the end of the list when its hash is new.
pub open spec fn upsert_errored(s: Seq<Errored>, na: Errored) -> Seq<Errored>
    decreases s.len(),
{
    if s.len() == 0 {
        seq![na]
    } else if s.first().hash@ == na.hash@ {
        seq![na] + s.drop_first()
    } else {
        seq![s.first()] + upsert_errored(s.drop_first(), na)
    }
}

/// A whole list of new errored entries folded in, in order.
pub open spec fn merge_errored_seq(s: Seq<Errored>, new_items: Seq<Errored>) -> Seq<Errored>
    decreases new_items.len(),
{
    if new_items.len() == 0 {
        s
    } else {
        merge_errored_seq(upsert_errored(s, new_items.first()), new_items.drop_first())
    }
}

proof fn lemma_upsert_errored_found(s: Seq<Errored>, na: Errored, i: int)
    requires
        0 <= i < s.len(),
        s[i].hash@ == na.hash@,
        forall|j: int| 0 <= j < i ==> s[j].hash@ != na.hash@,
    ensures
        upsert_errored(s, na) == s.update(i, na),
    decreases s.len(),
{
    if i == 0 {
        assert(upsert_errored(s, na) =~= s.update(0, na));
    } else {
        assert(s[0].hash@ != na.hash@);
        assert forall|j: int| 0 <= j < i - 1 implies s.drop_first()[j].hash@ != na.hash@ by {
            assert(s.drop_first()[j] == s[j + 1]);
        }
        lemma_upsert_errored_found(s.drop_first(), na, i - 1);
        assert(upsert_errored(s, na) =~= s.update(i, na));
    }
}

proof fn lemma_upsert_errored_absent(s: Seq<Errored>, na: Errored)
    requires
        forall|j: int| 0 <= j < s.len() ==> s[j].hash@ != na.hash@,
    ensures
        upsert_errored(s, na) == s.push(na),
    decreases s.len(),
{
    if s.len() == 0 {
        assert(upsert_errored(s, na) =~= s.push(na));
    } else {
        assert forall|j: int| 0 <= j < s.drop_first().len() implies s.drop_first()[j].hash@
            != na.hash@ by {
            assert(s.drop_first()[j] == s[j + 1]);
        }
        lemma_upsert_errored_absent(s.drop_first(), na);
        assert(upsert_errored(s, na) =~= s.push(na));
    }
}

/// Folds one errored entry into the list as `upsert_errored` describes.
fn upsert_errored_exec(items: &mut Vec<Errored>, na: Errored)
    ensures
        final(items)@ == upsert_errored(old(items)@, na),
{
    let mut i: usize = 0;
    while i < items.len()
        invariant
            i <= items@.len(),
            items@ == old(items)@,
            forall|j: int| 0 <= j < i ==> items@[j].hash@ != na.hash@,
        decreases items@.len() - i,
    {
        if bytes_eq(&items[i].hash, &na.hash) {
            proof {
                lemma_upsert_errored_found(items@, na, i as int);
            }
            items[i] = na;
            return ;
        }
        i += 1;
    }
    proof {
        lemma_upsert_errored_absent(items@, na);
    }
    items.push(na);
}

/// Folds a list of new errored entries into an existing one, keyed by
/// operation hash, and reports whether there was anything to fold.
fn merge_errored_into(old_items: &mut Vec<Errored>, new_items: Vec<Errored>) -> (changed: bool)
    ensures
        final(old_items)@ == merge_errored_seq(old(old_items)@, new_items@),
        changed == (new_items@.len() > 0),
{
    let changed = new_items.len() > 0;
    let mut rest = new_items;
    while rest.len() > 0
        invariant
            merge_errored_seq(old_items@, rest@) == merge_errored_seq(
                old(old_items)@,
                new_items@,
            ),
        decreases rest@.len(),
    {
        let ghost pre = rest@;
        let na = rest.remove(0);
        proof {
            assert(pre.remove(0) =~= pre.drop_first());
            assert(na == pre.first());
        }
        upsert_errored_exec(old_items, na);
    }
    changed
}

/// The outcome of validating a batch of operations, split by verdict. Merging
/// folds a newer outcome in, keyed by operation hash.
#[derive(Debug, PartialEq)]
pub struct ValidateOperationResult {
    pub applied: Vec<Applied>,
    pub refused: Vec<Errored>,
    pub branch_refused: Vec<Errored>,
    pub branch_delayed: Vec<Errored>,
}

impl Default for ValidateOperationResult {
    /// An empty outcome.
    fn default() -> (r: Self)
        ensures
            r.applied@ == Seq::<Applied>::empty(),
            r.refused@ == Seq::<Errored>::empty(),
            r.branch_refused@ == Seq::<Errored>::empty(),
            r.branch_delayed@ == Seq::<Errored>::empty(),
    {
        ValidateOperationResult {
            applied: Vec::new(),
            refused: Vec::new(),
            branch_refused: Vec::new(),
            branch_delayed: Vec::new(),
        }
    }
}

impl ValidateOperationResult {
    /// Merges a newer outcome into this one, verdict by verdict, and reports
    /// whether anything was folded in.
    pub fn merge(&mut self, new_result: ValidateOperationResult) -> (changed: bool)
        ensures
            final(self).applied@ == merge_applied_seq(old(self).applied@, new_result.applied@),
            final(self).refused@ == merge_errored_seq(old(self).refused@, new_result.refused@),
            final(self).branch_refused@ == merge_errored_seq(
                old(self).branch_refused@,
                new_result.branch_refused@,
            ),
            final(self).branch_delayed@ == merge_errored_seq(
                old(self).branch_delayed@,
                new_result.branch_delayed@,
            ),
            changed == (new_result.applied@.len() > 0 || new_result.refused@.len() > 0
                || new_result.branch_refused@.len() > 0 || new_result.branch_delayed@.len() > 0),
    {
        let ValidateOperationResult { applied, refused, branch_refused, branch_delayed } =
            new_result;
        let c1 = self.merge_applied(applied);
        let c2 = self.merge_refused(refused);
        let c3 = self.merge_branch_refused(branch_refused);
        let c4 = self.merge_branch_delayed(branch_delayed);
        c1 || c2 || c3 || c4
    }

    /// Folds new applied entries in, keyed by operation hash.
    fn merge_applied(&mut self, new_items: Vec<Applied>) -> (changed: bool)
        ensures
            final(self).applied@ == merge_applied_seq(old(self).applied@, new_items@),
            final(self).refused@ == old(self).refused@,
            final(self).branch_refused@ == old(self).branch_refused@,
            final(self).branch_delayed@ == old(self).branch_delayed@,
            changed == (new_items@.len() > 0),
    {
        let changed = new_items.len() > 0;
        let mut rest = new_items;
        while rest.len() > 0
            invariant
                merge_applied_seq(self.applied@, rest@) == merge_applied_seq(
                    old(self).applied@,
                    new_items@,
                ),
                self.refused@ == old(self).refused@,
                self.branch_refused@ == old(self).branch_refused@,
                self.branch_delayed@ == old(self).branch_delayed@,
            decreases rest@.len(),
        {
            let ghost pre = rest@;
            let na = rest.remove(0);
            proof {
                assert(pre.remove(0) =~= pre.drop_first());
                assert(na == pre.first());
            }
            upsert_applied_exec(&mut self.applied, na);
        }
        changed
    }

    /// Folds new refused entries in, keyed by operation hash.
    fn merge_refused(&mut self, new_items: Vec<Errored>) -> (changed: bool)
        ensures
            final(self).refused@ == merge_errored_seq(old(self).refused@, new_items@),
            final(self).applied@ == old(self).applied@,
            final(self).branch_refused@ == old(self).branch_refused@,
            final(self).branch_delayed@ == old(self).branch_delayed@,
            changed == (new_items@.len() > 0),
    {
        merge_errored_into(&mut self.refused, new_items)
    }

    /// Folds new branch-refused entries in, keyed by operation hash.
    fn merge_branch_refused(&mut self, new_items: Vec<Errored>) -> (changed: bool)
        ensures
            final(self).branch_refused@ == merge_errored_seq(
                old(self).branch_refused@,
                new_items@,
            ),
            final(self).applied@ == old(self).applied@,
            final(self).refused@ == old(self).refused@,
            final(self).branch_delayed@ == old(self).branch_delayed@,
            changed == (new_items@.len() > 0),
    {
        merge_errored_into(&mut self.branch_refused, new_items)
    }

    /// Folds new branch-delayed entries in, keyed by operation hash.
    fn merge_branch_delayed(&mut self, new_items: Vec<Errored>) -> (changed: bool)
        ensures
            final(self).branch_delayed@ == merge_errored_seq(
                old(self).branch_delayed@,
                new_items@,
            ),
            final(self).applied@ == old(self).applied@,
            final(self).refused@ == old(self).refused@,
            final(self).branch_refused@ == old(self).branch_refused@,
            changed == (new_items@.len() > 0),
    {
        merge_errored_into(&mut self.branch_delayed, new_items)
    }
}

} // verus!
