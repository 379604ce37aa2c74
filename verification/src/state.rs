//! The state of a node and the requests that only read it or change one part of it.
use crate::crypto::{hex_encode, hex_text, IdentityKey};
use crate::error::{app_err, app_error, error_message, CesealServiceError, Error};
use crate::types::{
    text_view, AttestationProvider, BlockNumber, ExternalServerState,
    GetEndpointResponse, HandoverChallenge, H256, InitRuntimeResponse,
};
use vstd::prelude::*;

verus! {

/// What the node was started with.
#[derive(Debug)]
pub struct InitArgs {
    pub version: String,
    pub git_revision: String,
    /// 0 in normal operation, 1 without message handling, 2 and above without proofs as well.
    pub safe_mode_level: u8,
    pub enable_checkpoint: bool,
    /// The least number of seconds between two checkpoints.
    pub checkpoint_interval: u64,
    /// How long one try to create an attestation report may take, in milliseconds.
    pub ra_timeout_ms: u64,
    /// How often the creation of an attestation report is tried again.
    pub ra_max_retries: u32,
    /// The index of the role among the roles of the chain.
    pub role: u8,
    pub storage_path: String,
}

/// Nothing was set when the node was started.
pub open spec fn blank_args(a: InitArgs) -> bool {
    &&& a.version@ == Seq::<char>::empty()
    &&& a.git_revision@ == Seq::<char>::empty()
    &&& a.safe_mode_level == 0
    &&& !a.enable_checkpoint
    &&& a.checkpoint_interval == 0
    &&& a.ra_timeout_ms == 0
    &&& a.ra_max_retries == 0
    &&& a.role == 0
    &&& a.storage_path@ == Seq::<char>::empty()
}

impl Default for InitArgs {
    fn default() -> (r: Self)
        ensures
            blank_args(r),
    {
        InitArgs {
            version: String::new(),
            git_revision: String::new(),
            safe_mode_level: 0,
            enable_checkpoint: false,
            checkpoint_interval: 0,
            ra_timeout_ms: 0,
            ra_max_retries: 0,
            role: 0,
            storage_path: String::new(),
        }
    }
}

/// What is read of the storage of the chain.
#[derive(Clone, Copy, Debug)]
pub struct ChainStorage {
    /// The root of the state.
    pub root: H256,
    /// The time of the last block, in milliseconds.
    pub timestamp_now: u64,
}

/// How far headers and blocks have been taken in.
#[derive(Clone, Copy, Debug, PartialEq, Eq, Structural)]
pub struct Counters {
    pub next_header_number: BlockNumber,
    pub next_block_number: BlockNumber,
}

/// What is read of the synchroniser.
#[derive(Clone, Copy, Debug, PartialEq, Eq, Structural)]
pub struct Synchronizer {
    pub counters: Counters,
    /// Whether the state was checked against a validated header.
    pub state_validated: bool,
}

/// The part of the state that follows the chain.
#[derive(Clone, Copy, Debug)]
pub struct RuntimeState {
    /// How many messages wait to be sent to the chain.
    pub pending_messages: u64,
    pub storage_synchronizer: Synchronizer,
    pub chain_storage: ChainStorage,
    pub genesis_block_hash: H256,
}

/// The part of the state that acts for the worker.
pub struct System {
    pub identity_key: IdentityKey,
    pub ecdh_public_key: [u8; 32],
    /// The time of the block being handled, in milliseconds.
    pub now_ms: u64,
    /// The block that the state was started from.
    pub genesis_block: BlockNumber,
    /// Whether the chain knows the identity key as that of a worker.
    pub registered: bool,
}

/// A running server for outside clients, by its handle.
#[derive(Clone, Copy, Debug, PartialEq, Eq, Structural)]
pub struct ExternalServerStub {
    pub handle: u64,
}

/// The state of a node.
#[non_exhaustive]
pub struct Ceseal<Platform> {
    pub platform: Platform,
    pub args: InitArgs,
    pub dev_mode: bool,
    pub attestation_provider: Option<AttestationProvider>,
    pub machine_id: Vec<u8>,
    /// The answer to the initialisation, with the last attestation of it.
    pub runtime_info: Option<InitRuntimeResponse>,
    pub runtime_state: Option<RuntimeState>,
    pub system: Option<System>,
    pub endpoint: Option<String>,
    pub signed_endpoint: Option<GetEndpointResponse>,
    /// The secret that a handed over key is decrypted with.
    pub handover_ecdh_key: Option<Vec<u8>>,
    /// The challenge that was given out last and not answered yet.
    pub handover_last_challenge: Option<HandoverChallenge>,
    /// Whether the state of the chain may still be set from outside.
    pub can_load_chain_state: bool,
    /// Whether the identity key was made by this node.
    pub trusted_sk: bool,
    /// Whether a copy of this state is being advanced.
    pub rcu_dispatching: bool,
    pub external_server_stub: Option<ExternalServerStub>,
}

/// A node on `platform` that was not started with anything yet and has done nothing.
pub open spec fn fresh_node<P>(c: Ceseal<P>, platform: P) -> bool {
    &&& c.platform == platform
    &&& blank_args(c.args)
    &&& c.machine_id@ == Seq::<u8>::empty()
    &&& !c.dev_mode
    &&& c.attestation_provider is None
    &&& c.runtime_info is None
    &&& c.runtime_state is None
    &&& c.system is None
    &&& c.endpoint is None
    &&& c.signed_endpoint is None
    &&& c.handover_ecdh_key is None
    &&& c.handover_last_challenge is None
    &&& !c.can_load_chain_state
    &&& !c.trusted_sk
    &&& !c.rcu_dispatching
    &&& c.external_server_stub is None
}

/// The error of a request that needs the runtime before it was initialised.
pub open spec fn not_initialized() -> crate::error::ServiceErrorView {
    app_error("Runtime not initialized"@)
}

/// The block that was handled last, and the time of the chain.
pub open spec fn current_block_of(s: RuntimeState) -> (BlockNumber, u64) {
    let next = s.storage_synchronizer.counters.next_block_number;
    (
        if next == 0 {
            0
        } else {
            (next - 1) as u32
        },
        s.chain_storage.timestamp_now,
    )
}

/// A general report on the node.
#[derive(Debug)]
pub struct CesealInfo<SystemInfo, MemoryUsage> {
    pub initialized: bool,
    pub genesis_block_hash: Option<String>,
    pub headernum: BlockNumber,
    pub blocknum: BlockNumber,
    pub state_root: String,
    pub dev_mode: bool,
    pub pending_messages: u64,
    pub version: String,
    pub git_revision: String,
    pub memory_usage: Option<MemoryUsage>,
    pub system: Option<SystemInfo>,
    pub can_load_chain_state: bool,
    pub safe_mode_level: u32,
    pub current_block_time: u64,
    pub external_server_state: ExternalServerState,
}

/// The part of the report that depends on the state of the chain.
pub open spec fn reports_chain<S, M>(info: CesealInfo<S, M>, state: Option<RuntimeState>) -> bool {
    match state {
        Some(s) => {
            &&& info.initialized
            &&& text_view(info.genesis_block_hash) == Some(hex_text(s.genesis_block_hash@))
            &&& info.headernum == s.storage_synchronizer.counters.next_header_number
            &&& info.blocknum == s.storage_synchronizer.counters.next_block_number
            &&& info.state_root@ == hex_text(s.chain_storage.root@)
            &&& info.pending_messages == s.pending_messages
        },
        None => {
            &&& !info.initialized
            &&& info.genesis_block_hash is None
            &&& info.headernum == 0
            &&& info.blocknum == 0
            &&& info.state_root@ == Seq::<char>::empty()
            &&& info.pending_messages == 0
        },
    }
}

/// The time of the current block as it is reported: in normal operation that of the block being
/// handled, without message handling that of the chain, else none.
pub open spec fn reported_block_time<P>(c: Ceseal<P>) -> u64 {
    if c.args.safe_mode_level == 0 {
        match c.system {
            Some(s) => s.now_ms,
            None => 0,
        }
    } else if c.args.safe_mode_level == 1 {
        match c.runtime_state {
            Some(s) => s.chain_storage.timestamp_now,
            None => 0,
        }
    } else {
        0
    }
}

/// The general report on a node, with the report of the system, just where the node has one, and
/// that of the platform.
pub open spec fn info_given<P, S, M>(
    c: Ceseal<P>,
    system_info: Option<S>,
    memory_usage: M,
    r: CesealInfo<S, M>,
) -> bool {
    &&& reports_chain(r, c.runtime_state)
    &&& r.dev_mode == c.dev_mode
    &&& r.version == c.args.version
    &&& r.git_revision == c.args.git_revision
    &&& r.memory_usage == Some(memory_usage)
    &&& r.system == (if c.system is Some {
        system_info
    } else {
        None
    })
    &&& r.can_load_chain_state == c.can_load_chain_state
    &&& r.safe_mode_level == c.args.safe_mode_level
    &&& r.current_block_time == reported_block_time(c)
    &&& r.external_server_state == (if c.external_server_stub is Some {
        ExternalServerState::Serving
    } else {
        ExternalServerState::Closed
    })
}

/// Which values of the chain are admitted with their proof: only a node that drops proofs while
/// it follows the chain takes any.
pub open spec fn proof_admitted<P>(
    c: Ceseal<P>,
    offered: Vec<Vec<u8>>,
    r: Result<Vec<Vec<u8>>, CesealServiceError>,
) -> bool {
    if c.args.safe_mode_level < 2 {
        r matches Err(e) && e@ == app_error(
            "Can not load storage proof when safe_mode_level < 2"@,
        )
    } else if c.runtime_state is None {
        r matches Err(e) && e@ == not_initialized()
    } else {
        r == Ok::<Vec<Vec<u8>>, CesealServiceError>(offered)
    }
}

/// What follows a command for the server for outside clients. A server that is to be shut down
/// is forgotten at once.
pub open spec fn external_server_operated<P>(
    pre: Ceseal<P>,
    cmd: ExternalServerCmd,
    post: Ceseal<P>,
    r: Result<ExternalServerAction, Error>,
) -> bool {
    match cmd {
        ExternalServerCmd::Start => {
            &&& r == Ok::<ExternalServerAction, Error>(ExternalServerAction::Start)
            &&& post == pre
        },
        ExternalServerCmd::Shutdown => {
            &&& r == (match pre.external_server_stub {
                Some(stub) => Ok(ExternalServerAction::Shutdown(stub)),
                None => Err(Error::ExternalServerAlreadyClosed),
            })
            &&& post == (Ceseal { external_server_stub: None, ..pre })
        },
    }
}

/// The node after it was started with the given arguments.
pub open spec fn node_started<P>(
    pre: Ceseal<P>,
    args: InitArgs,
    machine_id: Vec<u8>,
    can_load_chain_state: bool,
    post: Ceseal<P>,
) -> bool {
    post == (Ceseal { args, machine_id, can_load_chain_state, ..pre })
}

/// The node after it took over what the chain, the queues and the system are like.
pub open spec fn node_refreshed<P>(
    pre: Ceseal<P>,
    chain_storage: ChainStorage,
    storage_synchronizer: Synchronizer,
    pending_messages: u64,
    now_ms: u64,
    registered: bool,
    post: Ceseal<P>,
) -> bool {
    post == (Ceseal {
        runtime_state: match pre.runtime_state {
            Some(s) => Some(
                RuntimeState { chain_storage, storage_synchronizer, pending_messages, ..s },
            ),
            None => None,
        },
        system: match pre.system {
            Some(s) => Some(System { now_ms, registered, ..s }),
            None => None,
        },
        ..pre
    })
}

/// The messages that are given, of those that wait.
pub open spec fn egress_given<P, Group>(c: Ceseal<P>, grouped: Vec<Group>, r: Vec<Group>) -> bool {
    &&& c.runtime_state is Some ==> r == grouped
    &&& c.runtime_state is None ==> r@ == Seq::<Group>::empty()
}

/// A checkpoint is due, `elapsed_secs` after the last one.
pub open spec fn checkpoint_due<P>(c: Ceseal<P>, elapsed_secs: u64) -> bool {
    c.args.enable_checkpoint && elapsed_secs >= c.args.checkpoint_interval
}

/// What is to be done before the process ends.
pub open spec fn stop_planned<P>(c: Ceseal<P>, remove_checkpoints: bool, r: StopPlan) -> bool {
    r.remove_checkpoints_in == (if remove_checkpoints {
        Some(c.args.storage_path)
    } else {
        None
    })
}

/// How the outcome of starting the server for outside clients is noted.
pub open spec fn external_server_start_noted<P>(
    pre: Ceseal<P>,
    outcome: Result<ExternalServerStub, String>,
    post: Ceseal<P>,
    r: Result<(), Error>,
) -> bool {
    match outcome {
        Ok(stub) => r is Ok && post == (Ceseal { external_server_stub: Some(stub), ..pre }),
        Err(text) => post == pre && (r matches Err(e) && error_message(e) == text@),
    }
}

/// What the server for outside clients is told to do.
#[derive(Clone, Copy, Debug, PartialEq, Eq, Structural)]
pub enum ExternalServerCmd {
    Start,
    Shutdown,
}

/// What is to be done with the server for outside clients.
#[derive(Clone, Copy, Debug, PartialEq, Eq, Structural)]
pub enum ExternalServerAction {
    Start,
    /// Tell the server to stop, and wait until it has.
    Shutdown(ExternalServerStub),
}

/// What is to be done before the process ends.
#[derive(Debug)]
pub struct StopPlan {
    /// The directory whose checkpoints are to be removed.
    pub remove_checkpoints_in: Option<String>,
}

impl<Platform> Ceseal<Platform> {
    /// A node that has not been initialised.
    pub fn new(platform: Platform) -> (r: Self)
        ensures
            fresh_node(r, platform),
    {
        Ceseal {
            platform,
            args: InitArgs::default(),
            dev_mode: false,
            attestation_provider: None,
            machine_id: Vec::new(),
            runtime_info: None,
            runtime_state: None,
            system: None,
            endpoint: None,
            signed_endpoint: None,
            handover_ecdh_key: None,
            handover_last_challenge: None,
            can_load_chain_state: false,
            trusted_sk: false,
            rcu_dispatching: false,
            external_server_stub: None,
        }
    }

    /// Sets what the node was started with, the machine that it runs on, and whether the state of
    /// the chain may be set from outside.
    pub fn init(&mut self, args: InitArgs, machine_id: Vec<u8>, can_load_chain_state: bool)
        ensures
            node_started(*old(self), args, machine_id, can_load_chain_state, *final(self)),
    {
        self.args = args;
        self.machine_id = machine_id;
        self.can_load_chain_state = can_load_chain_state;
    }

    /// Takes over what the chain, the queues and the system are like by now.
    pub fn refresh(
        &mut self,
        chain_storage: ChainStorage,
        storage_synchronizer: Synchronizer,
        pending_messages: u64,
        now_ms: u64,
        registered: bool,
    )
        ensures
            node_refreshed(
                *old(self),
                chain_storage,
                storage_synchronizer,
                pending_messages,
                now_ms,
                registered,
                *final(self),
            ),
    {
        match self.runtime_state() {
            Ok(state) => {
                state.chain_storage = chain_storage;
                state.storage_synchronizer = storage_synchronizer;
                state.pending_messages = pending_messages;
            },
            Err(_) => {},
        }
        match self.system() {
            Ok(system) => {
                system.now_ms = now_ms;
                system.registered = registered;
            },
            Err(_) => {},
        }
    }

    /// The part of the state that follows the chain, once the runtime is initialised.
    pub fn runtime_state(&mut self) -> (r: Result<&mut RuntimeState, CesealServiceError>)
        ensures
            match r {
                Ok(s) => {
                    &&& old(self).runtime_state == Some(*s)
                    &&& *final(self) == (Ceseal { runtime_state: Some(*final(s)), ..*old(self) })
                },
                Err(e) => {
                    &&& old(self).runtime_state is None
                    &&& e@ == not_initialized()
                    &&& *final(self) == *old(self)
                },
            },
    {
        match self.runtime_state.as_mut() {
            Some(s) => Ok(s),
            None => Err(app_err("Runtime not initialized")),
        }
    }

    /// The part of the state that acts for the worker, once the runtime is initialised.
    pub fn system(&mut self) -> (r: Result<&mut System, CesealServiceError>)
        ensures
            match r {
                Ok(s) => {
                    &&& old(self).system == Some(*s)
                    &&& *final(self) == (Ceseal { system: Some(*final(s)), ..*old(self) })
                },
                Err(e) => {
                    &&& old(self).system is None
                    &&& e@ == not_initialized()
                    &&& *final(self) == *old(self)
                },
            },
    {
        match self.system.as_mut() {
            Some(s) => Ok(s),
            None => Err(app_err("Runtime not initialized")),
        }
    }

    /// The number of the block that was handled last, and the time of the chain in milliseconds.
    pub fn current_block(&self) -> (r: Result<(BlockNumber, u64), CesealServiceError>)
        ensures
            match r {
                Ok(b) => self.runtime_state matches Some(s) && b == current_block_of(s),
                Err(e) => self.runtime_state is None && e@ == not_initialized(),
            },
    {
        match &self.runtime_state {
            Some(s) => {
                let next: u32 = s.storage_synchronizer.counters.next_block_number;
                let block: u32 = if next == 0 {
                    0
                } else {
                    next - 1
                };
                Ok((block, s.chain_storage.timestamp_now))
            },
            None => Err(app_err("Runtime not initialized")),
        }
    }

    /// A general report on the node. `system_info` is the report of the system, which is there
    /// where the node has one, and `memory_usage` that of the platform.
    pub fn get_info<SystemInfo, MemoryUsage>(
        &self,
        system_info: Option<SystemInfo>,
        memory_usage: MemoryUsage,
    ) -> (r: CesealInfo<SystemInfo, MemoryUsage>)
        requires
            self.system is Some ==> system_info is Some,
        ensures
            info_given(*self, system_info, memory_usage, r),
    {
        let initialized: bool = self.runtime_state.is_some();
        let mut genesis_block_hash: Option<String> = None;
        let mut state_root: String = String::new();
        let mut pending_messages: u64 = 0;
        let mut counters: Counters = Counters { next_header_number: 0, next_block_number: 0 };
        match &self.runtime_state {
            Some(s) => {
                genesis_block_hash = Some(hex_encode(s.genesis_block_hash.as_slice()));
                state_root = hex_encode(s.chain_storage.root.as_slice());
                pending_messages = s.pending_messages;
                counters = s.storage_synchronizer.counters;
            },
            None => {},
        }
        let system: Option<SystemInfo> = match &self.system {
            Some(_) => system_info,
            None => None,
        };
        let current_block_time: u64 = if self.args.safe_mode_level == 0 {
            match &self.system {
                Some(s) => s.now_ms,
                None => 0,
            }
        } else if self.args.safe_mode_level == 1 {
            match &self.runtime_state {
                Some(s) => s.chain_storage.timestamp_now,
                None => 0,
            }
        } else {
            0
        };
        let external_server_state: ExternalServerState = if self.external_server_stub.is_some() {
            ExternalServerState::Serving
        } else {
            ExternalServerState::Closed
        };
        CesealInfo {
            initialized,
            genesis_block_hash,
            headernum: counters.next_header_number,
            blocknum: counters.next_block_number,
            state_root,
            dev_mode: self.dev_mode,
            pending_messages,
            version: self.args.version.clone(),
            git_revision: self.args.git_revision.clone(),
            memory_usage: Some(memory_usage),
            system,
            can_load_chain_state: self.can_load_chain_state,
            safe_mode_level: self.args.safe_mode_level as u32,
            current_block_time,
            external_server_state,
        }
    }

    /// The messages that wait to be sent to the chain, as `grouped` by their senders; there are
    /// none before the runtime is initialised.
    pub fn get_egress_messages<Group>(&self, grouped: Vec<Group>) -> (r: Vec<Group>)
        ensures
            egress_given(*self, grouped, r),
    {
        match &self.runtime_state {
            Some(_) => grouped,
            None => Vec::new(),
        }
    }

    /// Whether a checkpoint is due, `elapsed_secs` after the last one.
    pub fn maybe_take_checkpoint(&self, elapsed_secs: u64) -> (r: bool)
        ensures
            r == checkpoint_due(*self, elapsed_secs),
    {
        if !self.args.enable_checkpoint {
            return false;
        }
        if elapsed_secs < self.args.checkpoint_interval {
            return false;
        }
        true
    }

    /// Admits values of the chain with their proof, which are handed back to be put into the
    /// storage.
    pub fn load_storage_proof(&self, proof: Vec<Vec<u8>>) -> (r: Result<
        Vec<Vec<u8>>,
        CesealServiceError,
    >)
        ensures
            proof_admitted(*self, proof, r),
    {
        if self.args.safe_mode_level < 2 {
            return Err(app_err("Can not load storage proof when safe_mode_level < 2"));
        }
        match &self.runtime_state {
            Some(_) => Ok(proof),
            None => Err(app_err("Runtime not initialized")),
        }
    }

    /// What is to be done before the process ends.
    pub fn stop(&self, remove_checkpoints: bool) -> (r: StopPlan)
        ensures
            stop_planned(*self, remove_checkpoints, r),
    {
        StopPlan {
            remove_checkpoints_in: if remove_checkpoints {
                Some(self.args.storage_path.clone())
            } else {
                None
            },
        }
    }

    /// Decides on a command for the server for outside clients.
    pub fn operate_external_server(&mut self, cmd: ExternalServerCmd) -> (r: Result<
        ExternalServerAction,
        Error,
    >)
        ensures
            external_server_operated(*old(self), cmd, *final(self), r),
    {
        match cmd {
            ExternalServerCmd::Start => Ok(ExternalServerAction::Start),
            ExternalServerCmd::Shutdown => match self.external_server_stub.take() {
                Some(stub) => Ok(ExternalServerAction::Shutdown(stub)),
                None => Err(Error::ExternalServerAlreadyClosed),
            },
        }
    }

    /// Takes note of the outcome of starting the server for outside clients.
    pub fn external_server_started(&mut self, outcome: Result<ExternalServerStub, String>) -> (r:
        Result<(), Error>)
        ensures
            external_server_start_noted(*old(self), outcome, *final(self), r),
    {
        match outcome {
            Ok(stub) => {
                self.external_server_stub = Some(stub);
                Ok(())
            },
            Err(text) => Err(Error::Anyhow(text)),
        }
    }
}

} // verus!
