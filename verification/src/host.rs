//! What a contract sees of the ledger that runs it.
use vstd::prelude::*;

use crate::list::list_contains;
use crate::table::Key;

verus! {

/// An account or a contract. The ledger gives each one a number; nothing but
/// the identity of two addresses is ever read from it.
#[derive(Clone, Copy, Debug, PartialEq, Eq, Hash, Structural)]
pub struct Address {
    pub id: u64,
}

impl View for Address {
    type V = Address;

    open spec fn view(&self) -> Address {
        *self
    }
}

impl Key for Address {
    fn same(&self, other: &Self) -> (equal: bool) {
        *self == *other
    }
}

/// The circumstances of one invocation: when it runs, which contract it runs
/// in, and who has authorised it.
#[derive(Clone, Debug)]
pub struct Env {
    /// Ledger time in seconds.
    pub timestamp: u64,
    /// The contract that is being invoked.
    pub contract: Address,
    /// Addresses whose authorisation the ledger has verified for this invocation.
    pub signers: Vec<Address>,
}

impl Env {
    /// Whether the address has authorised the invocation.
    pub open spec fn authorized(self, address: Address) -> bool {
        self.signers@.contains(address)
    }

    /// An invocation of `contract` at `timestamp`, authorised by `signers`.
    pub fn new(timestamp: u64, contract: Address, signers: Vec<Address>) -> (env: Env)
        ensures
            env.timestamp == timestamp,
            env.contract == contract,
            env.signers == signers,
    {
        Env { timestamp, contract, signers }
    }

    /// Whether the address has authorised the invocation.
    pub fn is_authorized(&self, address: Address) -> (yes: bool)
        ensures
            yes == self.authorized(address),
    {
        list_contains(&self.signers, &address)
    }
}

} // verus!
