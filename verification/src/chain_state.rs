//! Setting the state of the chain from outside, instead of following the chain from its start.
use crate::blocks::headers_begun;
use crate::error::{error_message, CesealServiceError, Error};
use crate::state::{Ceseal, ChainStorage, RuntimeState, Synchronizer, System};
use crate::types::{BlockNumber, PublicKey};
use vstd::prelude::*;

verus! {

/// The state of `block` waits to be read, for whether it knows the worker with `public_key`.
#[derive(Clone, Copy, Debug)]
#[non_exhaustive]
pub struct StateToRead {
    pub block: BlockNumber,
    pub public_key: PublicKey,
}

/// The state of `block` is fit; the synchroniser waits to be set to it.
#[derive(Clone, Copy, Debug)]
#[non_exhaustive]
pub struct StateToAssume {
    pub block: BlockNumber,
}

/// The decimal digit of `d`.
pub open spec fn digit(d: nat) -> char {
    ('0' as int + d) as char
}

/// The number in decimal, without leading zeros.
pub open spec fn decimal(n: nat) -> Seq<char>
    decreases n,
{
    if n < 10 {
        seq![digit(n)]
    } else {
        decimal(n / 10).push(digit(n % 10))
    }
}

fn digit_text(d: u32) -> (r: &'static str)
    requires
        d < 10,
    ensures
        r@ == seq![digit(d as nat)],
{
    proof {
        reveal_strlit("0");
        reveal_strlit("1");
        reveal_strlit("2");
        reveal_strlit("3");
        reveal_strlit("4");
        reveal_strlit("5");
        reveal_strlit("6");
        reveal_strlit("7");
        reveal_strlit("8");
        reveal_strlit("9");
    }
    let r: &'static str = match d {
        0 => "0",
        1 => "1",
        2 => "2",
        3 => "3",
        4 => "4",
        5 => "5",
        6 => "6",
        7 => "7",
        8 => "8",
        _ => "9",
    };
    assert(r@ =~= seq![digit(d as nat)]);
    r
}

fn decimal_text(n: u32) -> (r: String)
    ensures
        r@ == decimal(n as nat),
    decreases n,
{
    if n < 10 {
        digit_text(n).to_string()
    } else {
        let front: String = decimal_text(n / 10);
        let r: String = front.concat(digit_text(n % 10));
        assert(r@ =~= decimal(n as nat));
        r
    }
}

fn bail(text: &str) -> (r: Error)
    ensures
        error_message(r) == text@,
{
    Error::Anyhow(text.to_string())
}

/// Whether the state of `block` may be set, and what is read of it first.
pub open spec fn load_admitted<P>(
    c: Ceseal<P>,
    block: BlockNumber,
    r: Result<StateToRead, Error>,
) -> bool {
    if !c.can_load_chain_state {
        r matches Err(e) && error_message(e) == "Can not load chain state"@
    } else if block == 0 {
        r matches Err(e) && error_message(e) == "Can not load chain state from block 0"@
    } else {
        match (c.system, c.runtime_state) {
            (None, _) => r matches Err(e) && error_message(e) == "System is uninitialized"@,
            (Some(_), None) => r matches Err(e) && error_message(e)
                == "Runtime is uninitialized"@,
            (Some(s), Some(_)) => r matches Ok(p) && p.block == block && p.public_key@
                == s.identity_key.public_bytes(),
        }
    }
}

/// A state that knows the worker already is not set.
pub open spec fn state_read(
    p: StateToRead,
    worker_registered: bool,
    r: Result<StateToAssume, Error>,
) -> bool {
    if worker_registered {
        r matches Err(e) && error_message(e)
            == "Failed to load state: the worker is already registered at block "@ + decimal(
            p.block as nat,
        )
    } else {
        r == Ok::<StateToAssume, Error>(StateToAssume { block: p.block })
    }
}

/// The node after the state of `block` was set.
pub open spec fn with_chain_state<P>(
    c: Ceseal<P>,
    s: System,
    state: RuntimeState,
    block: BlockNumber,
    chain_storage: ChainStorage,
    synchronizer: Synchronizer,
) -> Ceseal<P> {
    Ceseal {
        system: Some(System { genesis_block: block, ..s }),
        runtime_state: Some(
            RuntimeState { chain_storage, storage_synchronizer: synchronizer, ..state },
        ),
        can_load_chain_state: false,
        ..c
    }
}

/// What follows once the synchroniser was set to the block, or was not.
pub open spec fn state_assumed<P>(
    pre: Ceseal<P>,
    p: StateToAssume,
    chain_storage: ChainStorage,
    outcome: Result<Synchronizer, String>,
    post: Ceseal<P>,
    r: Result<(), Error>,
) -> bool {
    match (pre.system, pre.runtime_state, outcome) {
        (None, _, _) => {
            &&& post == pre
            &&& r matches Err(e) && error_message(e) == "System is uninitialized"@
        },
        (Some(_), None, _) => {
            &&& post == pre
            &&& r matches Err(e) && error_message(e) == "Runtime is uninitialized"@
        },
        (Some(_), Some(_), Err(_)) => {
            &&& post == pre
            &&& r matches Err(e) && error_message(e) == "Failed to set synchronizer state"@
        },
        (Some(s), Some(state), Ok(synchronizer)) => {
            &&& r is Ok
            &&& post == with_chain_state(pre, s, state, p.block, chain_storage, synchronizer)
        },
    }
}

impl<Platform> Ceseal<Platform> {
    /// Begins to set the state of the chain at `block`.
    pub fn load_chain_state(&self, block: BlockNumber) -> (r: Result<StateToRead, Error>)
        ensures
            load_admitted(*self, block, r),
    {
        if !self.can_load_chain_state {
            return Err(bail("Can not load chain state"));
        }
        if block == 0 {
            return Err(bail("Can not load chain state from block 0"));
        }
        let public_key: PublicKey = match &self.system {
            Some(s) => s.identity_key.public(),
            None => {
                return Err(bail("System is uninitialized"));
            },
        };
        if self.runtime_state.is_none() {
            return Err(bail("Runtime is uninitialized"));
        }
        Ok(StateToRead { block, public_key })
    }

    /// Goes on with whether the worker is registered in the state.
    pub fn chain_state_read(&self, p: StateToRead, worker_registered: bool) -> (r: Result<
        StateToAssume,
        Error,
    >)
        ensures
            state_read(p, worker_registered, r),
    {
        if worker_registered {
            let message: String =
                "Failed to load state: the worker is already registered at block ".to_string().concat(
                decimal_text(p.block).as_str(),
            );
            return Err(Error::Anyhow(message));
        }
        Ok(StateToAssume { block: p.block })
    }

    /// Ends setting the state, with what the synchroniser is like at the block, or the text of
    /// the error, which is not passed on.
    pub fn chain_state_assumed(
        &mut self,
        p: StateToAssume,
        chain_storage: ChainStorage,
        outcome: Result<Synchronizer, String>,
    ) -> (r: Result<(), Error>)
        ensures
            state_assumed(*old(self), p, chain_storage, outcome, *final(self), r),
    {
        if self.system.is_none() {
            return Err(bail("System is uninitialized"));
        }
        if self.runtime_state.is_none() {
            return Err(bail("Runtime is uninitialized"));
        }
        let synchronizer: Synchronizer = match outcome {
            Ok(s) => s,
            Err(_) => {
                return Err(bail("Failed to set synchronizer state"));
            },
        };
        match self.runtime_state() {
            Ok(state) => {
                state.storage_synchronizer = synchronizer;
                state.chain_storage = chain_storage;
            },
            Err(_) => {},
        }
        match self.system() {
            Ok(system) => {
                system.genesis_block = p.block;
            },
            Err(_) => {},
        }
        self.can_load_chain_state = false;
        Ok(())
    }
}

/// The state of the chain is set at most once.
pub proof fn law_state_is_set_once<P>(
    pre: Ceseal<P>,
    p: StateToAssume,
    chain_storage: ChainStorage,
    synchronizer: Synchronizer,
    post: Ceseal<P>,
    block: BlockNumber,
    again: Result<StateToRead, Error>,
)
    requires
        state_assumed(pre, p, chain_storage, Ok(synchronizer), post, Ok(())),
        load_admitted(post, block, again),
    ensures
        again matches Err(e) && error_message(e) == "Can not load chain state"@,
{
}

/// Once headers were asked to be taken in, the state of the chain cannot be set.
pub proof fn law_state_is_not_set_after_headers<P>(
    pre: Ceseal<P>,
    post: Ceseal<P>,
    synced: Result<(), CesealServiceError>,
    block: BlockNumber,
    r: Result<StateToRead, Error>,
)
    requires
        headers_begun(pre, post, synced),
        load_admitted(post, block, r),
    ensures
        r matches Err(e) && error_message(e) == "Can not load chain state"@,
{
}

/// A refused attempt to set the state leaves everything as it was.
pub proof fn law_refused_state_changes_nothing<P>(
    pre: Ceseal<P>,
    p: StateToAssume,
    chain_storage: ChainStorage,
    outcome: Result<Synchronizer, String>,
    post: Ceseal<P>,
    e: Error,
)
    requires
        state_assumed(pre, p, chain_storage, outcome, post, Err(e)),
    ensures
        post == pre,
{
}

} // verus!
