//! The messages and records that the node reads, keeps and answers with.
use crate::crypto::same_bytes;
use vstd::prelude::*;

verus! {

/// The number of a block of the chain.
pub type BlockNumber = u32;

/// A 256-bit hash.
pub type H256 = [u8; 32];

/// An sr25519 public key.
pub type PublicKey = [u8; 32];

/// An account of the chain.
pub type AccountId = [u8; 32];

/// Who vouches for what runs in the enclave.
#[derive(Clone, Copy, Debug, PartialEq, Eq, Structural)]
pub enum AttestationProvider {
    Root,
    Ias,
}

/// What a signature of the node is made for; it is signed with the content.
#[derive(Clone, Copy, Debug, PartialEq, Eq, Structural)]
pub enum SignedContentType {
    EndpointInfo,
    MasterKeyApply,
}

/// How far the node is synchronised.
#[derive(Clone, Copy, Debug, PartialEq, Eq, Structural)]
pub struct SyncedTo {
    pub synced_to: BlockNumber,
}

/// Whether the server for outside clients runs.
#[derive(Clone, Copy, Debug, PartialEq, Eq, Structural)]
pub enum ExternalServerState {
    Closed,
    Serving,
}

/// A remote attestation as it travels with a message.
#[derive(Debug)]
pub struct Attestation {
    pub version: i32,
    /// The provider, as JSON text.
    pub provider: String,
    /// Kept for older peers; always absent.
    pub payload: Option<Vec<u8>>,
    /// The encoded report.
    pub encoded_report: Vec<u8>,
    /// When the report was created, in seconds of the Unix epoch.
    pub timestamp: u64,
}

/// What an [`Attestation`] says.
pub struct AttestationView {
    pub version: i32,
    pub provider: Seq<char>,
    pub payload: Option<Seq<u8>>,
    pub encoded_report: Seq<u8>,
    pub timestamp: u64,
}

impl View for Attestation {
    type V = AttestationView;

    open spec fn view(&self) -> AttestationView {
        AttestationView {
            version: self.version,
            provider: self.provider@,
            payload: match self.payload {
                Some(p) => Some(p@),
                None => None,
            },
            encoded_report: self.encoded_report@,
            timestamp: self.timestamp,
        }
    }
}

impl Clone for Attestation {
    fn clone(&self) -> (r: Self)
        ensures
            r@ == self@,
    {
        let payload: Option<Vec<u8>> = match &self.payload {
            Some(p) => {
                let q: Vec<u8> = p.clone();
                assert(q@ =~= p@);
                Some(q)
            },
            None => None,
        };
        let encoded_report: Vec<u8> = self.encoded_report.clone();
        assert(encoded_report@ =~= self.encoded_report@);
        Attestation {
            version: self.version,
            provider: self.provider.clone(),
            payload,
            encoded_report,
            timestamp: self.timestamp,
        }
    }
}

/// The view of an optional attestation.
pub open spec fn attestation_view(a: Option<Attestation>) -> Option<AttestationView> {
    match a {
        Some(a) => Some(a@),
        None => None,
    }
}

/// A copy of an optional attestation.
pub(crate) fn clone_attestation(a: &Option<Attestation>) -> (r: Option<Attestation>)
    ensures
        attestation_view(r) == attestation_view(*a),
{
    match a {
        Some(a) => Some(a.clone()),
        None => None,
    }
}

/// A decoded attestation report: what the attestation service signed, its signature and the
/// certificate the signature is checked with.
#[derive(Debug)]
pub struct AttestationReport {
    pub ra_report: Vec<u8>,
    pub signature: Vec<u8>,
    pub raw_signing_cert: Vec<u8>,
}

/// What an [`AttestationReport`] says.
pub struct ReportView {
    pub ra_report: Seq<u8>,
    pub signature: Seq<u8>,
    pub raw_signing_cert: Seq<u8>,
}

impl View for AttestationReport {
    type V = ReportView;

    open spec fn view(&self) -> ReportView {
        ReportView {
            ra_report: self.ra_report@,
            signature: self.signature@,
            raw_signing_cert: self.raw_signing_cert@,
        }
    }
}

/// The view of an optional report.
pub open spec fn report_view(r: Option<AttestationReport>) -> Option<ReportView> {
    match r {
        Some(r) => Some(r@),
        None => None,
    }
}

/// What a node asks another node to answer before it hands its key over.
#[derive(Debug)]
pub struct HandoverChallenge {
    pub sgx_target_info: Vec<u8>,
    pub block_number: BlockNumber,
    pub now: u64,
    pub dev_mode: bool,
    pub nonce: [u8; 32],
}

/// What a [`HandoverChallenge`] says.
pub struct ChallengeView {
    pub sgx_target_info: Seq<u8>,
    pub block_number: BlockNumber,
    pub now: u64,
    pub dev_mode: bool,
    pub nonce: Seq<u8>,
}

impl View for HandoverChallenge {
    type V = ChallengeView;

    open spec fn view(&self) -> ChallengeView {
        ChallengeView {
            sgx_target_info: self.sgx_target_info@,
            block_number: self.block_number,
            now: self.now,
            dev_mode: self.dev_mode,
            nonce: self.nonce@,
        }
    }
}

impl Clone for HandoverChallenge {
    fn clone(&self) -> (r: Self)
        ensures
            r@ == self@,
    {
        let sgx_target_info: Vec<u8> = self.sgx_target_info.clone();
        assert(sgx_target_info@ =~= self.sgx_target_info@);
        HandoverChallenge {
            sgx_target_info,
            block_number: self.block_number,
            now: self.now,
            dev_mode: self.dev_mode,
            nonce: self.nonce,
        }
    }
}

impl PartialEq for HandoverChallenge {
    fn eq(&self, other: &Self) -> (r: bool) {
        same_bytes(self.sgx_target_info.as_slice(), other.sgx_target_info.as_slice())
            && self.block_number == other.block_number && self.now == other.now && self.dev_mode
            == other.dev_mode && same_bytes(self.nonce.as_slice(), other.nonce.as_slice())
    }
}

impl vstd::std_specs::cmp::PartialEqSpecImpl for HandoverChallenge {
    open spec fn obeys_eq_spec() -> bool {
        true
    }

    open spec fn eq_spec(&self, other: &Self) -> bool {
        self@ == other@
    }
}

/// The answer to a challenge: the challenge, the local report made for its author, and the key
/// that the handed over secret is to be encrypted for.
#[derive(Debug)]
pub struct ChallengeHandlerInfo {
    pub challenge: HandoverChallenge,
    pub sgx_local_report: Vec<u8>,
    pub ecdh_pubkey: [u8; 32],
}

/// What a [`ChallengeHandlerInfo`] says.
pub struct HandlerView {
    pub challenge: ChallengeView,
    pub sgx_local_report: Seq<u8>,
    pub ecdh_pubkey: Seq<u8>,
}

impl View for ChallengeHandlerInfo {
    type V = HandlerView;

    open spec fn view(&self) -> HandlerView {
        HandlerView {
            challenge: self.challenge@,
            sgx_local_report: self.sgx_local_report@,
            ecdh_pubkey: self.ecdh_pubkey@,
        }
    }
}

/// A secret encrypted for one receiver.
#[derive(Debug)]
pub struct EncryptedKey {
    pub ecdh_pubkey: [u8; 32],
    pub encrypted_key: Vec<u8>,
    pub iv: [u8; 12],
}

/// What an [`EncryptedKey`] says.
pub struct EncryptedKeyView {
    pub ecdh_pubkey: Seq<u8>,
    pub encrypted_key: Seq<u8>,
    pub iv: Seq<u8>,
}

impl View for EncryptedKey {
    type V = EncryptedKeyView;

    open spec fn view(&self) -> EncryptedKeyView {
        EncryptedKeyView {
            ecdh_pubkey: self.ecdh_pubkey@,
            encrypted_key: self.encrypted_key@,
            iv: self.iv@,
        }
    }
}

/// The encrypted identity of a node, with the chain and the mode that it belongs to.
#[derive(Debug)]
pub struct EncryptedWorkerKey {
    pub genesis_block_hash: H256,
    pub dev_mode: bool,
    pub encrypted_key: EncryptedKey,
}

/// What an [`EncryptedWorkerKey`] says.
pub struct WorkerKeyView {
    pub genesis_block_hash: Seq<u8>,
    pub dev_mode: bool,
    pub encrypted_key: EncryptedKeyView,
}

impl View for EncryptedWorkerKey {
    type V = WorkerKeyView;

    open spec fn view(&self) -> WorkerKeyView {
        WorkerKeyView {
            genesis_block_hash: self.genesis_block_hash@,
            dev_mode: self.dev_mode,
            encrypted_key: self.encrypted_key@,
        }
    }
}

/// What a node registers itself on the chain with.
#[derive(Debug)]
pub struct WorkerRegistrationInfo {
    pub version: u32,
    pub machine_id: Vec<u8>,
    pub pubkey: PublicKey,
    pub ecdh_pubkey: [u8; 32],
    pub genesis_block_hash: H256,
    pub features: Vec<u32>,
    pub operator: Option<AccountId>,
    /// The index of the role among the roles of the chain.
    pub role: u8,
}

/// What a [`WorkerRegistrationInfo`] says.
pub struct RegistrationView {
    pub version: u32,
    pub machine_id: Seq<u8>,
    pub pubkey: Seq<u8>,
    pub ecdh_pubkey: Seq<u8>,
    pub genesis_block_hash: Seq<u8>,
    pub features: Seq<u32>,
    pub operator: Option<Seq<u8>>,
    pub role: u8,
}

/// The view of an optional account.
pub open spec fn account_view(a: Option<AccountId>) -> Option<Seq<u8>> {
    match a {
        Some(a) => Some(a@),
        None => None,
    }
}

impl View for WorkerRegistrationInfo {
    type V = RegistrationView;

    open spec fn view(&self) -> RegistrationView {
        RegistrationView {
            version: self.version,
            machine_id: self.machine_id@,
            pubkey: self.pubkey@,
            ecdh_pubkey: self.ecdh_pubkey@,
            genesis_block_hash: self.genesis_block_hash@,
            features: self.features@,
            operator: account_view(self.operator),
            role: self.role,
        }
    }
}

impl Clone for WorkerRegistrationInfo {
    fn clone(&self) -> (r: Self)
        ensures
            r@ == self@,
    {
        let machine_id: Vec<u8> = self.machine_id.clone();
        assert(machine_id@ =~= self.machine_id@);
        let features: Vec<u32> = self.features.clone();
        assert(features@ =~= self.features@);
        WorkerRegistrationInfo {
            version: self.version,
            machine_id,
            pubkey: self.pubkey,
            ecdh_pubkey: self.ecdh_pubkey,
            genesis_block_hash: self.genesis_block_hash,
            features,
            operator: self.operator,
            role: self.role,
        }
    }
}

/// The answer to the initialisation of the runtime, kept to be given again.
#[derive(Debug)]
pub struct InitRuntimeResponse {
    pub runtime_info: WorkerRegistrationInfo,
    /// The encoding of `runtime_info`, which is what gets attested.
    pub encoded_runtime_info: Vec<u8>,
    pub genesis_block_hash: H256,
    pub public_key: PublicKey,
    pub ecdh_public_key: [u8; 32],
    pub attestation: Option<Attestation>,
}

/// What an [`InitRuntimeResponse`] says.
pub struct RuntimeResponseView {
    pub runtime_info: RegistrationView,
    pub encoded_runtime_info: Seq<u8>,
    pub genesis_block_hash: Seq<u8>,
    pub public_key: Seq<u8>,
    pub ecdh_public_key: Seq<u8>,
    pub attestation: Option<AttestationView>,
}

impl View for InitRuntimeResponse {
    type V = RuntimeResponseView;

    open spec fn view(&self) -> RuntimeResponseView {
        RuntimeResponseView {
            runtime_info: self.runtime_info@,
            encoded_runtime_info: self.encoded_runtime_info@,
            genesis_block_hash: self.genesis_block_hash@,
            public_key: self.public_key@,
            ecdh_public_key: self.ecdh_public_key@,
            attestation: attestation_view(self.attestation),
        }
    }
}

impl Clone for InitRuntimeResponse {
    fn clone(&self) -> (r: Self)
        ensures
            r@ == self@,
    {
        let encoded_runtime_info: Vec<u8> = self.encoded_runtime_info.clone();
        assert(encoded_runtime_info@ =~= self.encoded_runtime_info@);
        InitRuntimeResponse {
            runtime_info: self.runtime_info.clone(),
            encoded_runtime_info,
            genesis_block_hash: self.genesis_block_hash,
            public_key: self.public_key,
            ecdh_public_key: self.ecdh_public_key,
            attestation: clone_attestation(&self.attestation),
        }
    }
}

/// Where a node can be reached, as it signs it.
#[derive(Debug)]
pub struct WorkerEndpointPayload {
    pub pubkey: PublicKey,
    pub endpoint: Option<String>,
    /// The time of the block at which it was signed, in milliseconds.
    pub signing_time: u64,
}

/// What a [`WorkerEndpointPayload`] says.
pub struct EndpointPayloadView {
    pub pubkey: Seq<u8>,
    pub endpoint: Option<Seq<char>>,
    pub signing_time: u64,
}

/// The view of an optional text.
pub open spec fn text_view(s: Option<String>) -> Option<Seq<char>> {
    match s {
        Some(s) => Some(s@),
        None => None,
    }
}

/// A copy of an optional text.
pub(crate) fn clone_text(s: &Option<String>) -> (r: Option<String>)
    ensures
        r == *s,
{
    match s {
        Some(s) => Some(s.clone()),
        None => None,
    }
}

impl View for WorkerEndpointPayload {
    type V = EndpointPayloadView;

    open spec fn view(&self) -> EndpointPayloadView {
        EndpointPayloadView {
            pubkey: self.pubkey@,
            endpoint: text_view(self.endpoint),
            signing_time: self.signing_time,
        }
    }
}

impl Clone for WorkerEndpointPayload {
    fn clone(&self) -> (r: Self)
        ensures
            r@ == self@,
    {
        WorkerEndpointPayload {
            pubkey: self.pubkey,
            endpoint: clone_text(&self.endpoint),
            signing_time: self.signing_time,
        }
    }
}

/// The endpoint of a node with the signature on it; both are absent before one is set.
#[derive(Debug)]
pub struct GetEndpointResponse {
    pub payload: Option<WorkerEndpointPayload>,
    pub signature: Option<Vec<u8>>,
}

/// What a [`GetEndpointResponse`] says.
pub struct EndpointResponseView {
    pub payload: Option<EndpointPayloadView>,
    pub signature: Option<Seq<u8>>,
}

impl View for GetEndpointResponse {
    type V = EndpointResponseView;

    open spec fn view(&self) -> EndpointResponseView {
        EndpointResponseView {
            payload: match self.payload {
                Some(p) => Some(p@),
                None => None,
            },
            signature: match self.signature {
                Some(s) => Some(s@),
                None => None,
            },
        }
    }
}

impl Clone for GetEndpointResponse {
    fn clone(&self) -> (r: Self)
        ensures
            r@ == self@,
    {
        let payload: Option<WorkerEndpointPayload> = match &self.payload {
            Some(p) => Some(p.clone()),
            None => None,
        };
        let signature: Option<Vec<u8>> = match &self.signature {
            Some(s) => {
                let t: Vec<u8> = s.clone();
                assert(t@ =~= s@);
                Some(t)
            },
            None => None,
        };
        GetEndpointResponse { payload, signature }
    }
}

/// The request of a node for the master key, as it signs it.
#[derive(Debug)]
pub struct MasterKeyApplyPayload {
    pub pubkey: PublicKey,
    pub ecdh_pubkey: [u8; 32],
    /// The time of the block at which it was signed, in milliseconds.
    pub signing_time: u64,
}

/// What a [`MasterKeyApplyPayload`] says.
pub struct MasterKeyApplyView {
    pub pubkey: Seq<u8>,
    pub ecdh_pubkey: Seq<u8>,
    pub signing_time: u64,
}

impl View for MasterKeyApplyPayload {
    type V = MasterKeyApplyView;

    open spec fn view(&self) -> MasterKeyApplyView {
        MasterKeyApplyView {
            pubkey: self.pubkey@,
            ecdh_pubkey: self.ecdh_pubkey@,
            signing_time: self.signing_time,
        }
    }
}

/// A request for the master key with the signature on it.
#[derive(Debug)]
pub struct GetMasterKeyApplyResponse {
    pub payload: MasterKeyApplyPayload,
    pub signature: Vec<u8>,
}

/// The answer of the receiving node to a challenge.
#[derive(Debug)]
pub struct HandoverChallengeResponse {
    pub handler: ChallengeHandlerInfo,
    pub attestation: Option<Attestation>,
}

/// The handed over key with the report that vouches for it.
#[derive(Debug)]
pub struct HandoverWorkerKey {
    pub worker_key: EncryptedWorkerKey,
    pub attestation: Option<Attestation>,
}

/// A text sent to measure the round trip, and sent back.
#[derive(Debug, PartialEq, Eq)]
pub struct EchoMessage {
    pub echo_msg: Vec<u8>,
}

} // verus!
