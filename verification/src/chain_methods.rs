//! Convenience methods over chains: building one straight from a hook,
//! giving it a policy, and queueing it into a batch.

use vstd::prelude::*;

use crate::MsgType;
use crate::batch::Batch;
use crate::chain::{Chain, Hook, Policy};
use crate::table::Table;

verus! {

/// Helper methods over [`Chain`].
pub trait ChainMethods: Sized {
    /// Whether the value may be queued into the batch.
    spec fn spec_addable(&self, batch: &Batch) -> bool;

    /// A base chain attached to `hook` over `table`, named after the hook,
    /// at priority zero.
    fn from_hook(hook: Hook, table: &Table) -> Self;

    /// Gives the chain a default policy.
    fn verdict(self, policy: Policy) -> Self;

    /// Queues the chain for addition and hands it back.
    fn add_to_batch(self, batch: &mut Batch) -> (r: Self)
        requires
            old(batch).wf(),
            self.spec_addable(old(batch)),
        ensures
            final(batch).wf(),
            final(batch).num_objects() == old(batch).num_objects() + 1,
    ;
}

impl ChainMethods for Chain {
    open spec fn spec_addable(&self, batch: &Batch) -> bool {
        &&& self@.wf()
        &&& batch.num_objects() + 3 <= u32::MAX
    }

    fn from_hook(hook: Hook, table: &Table) -> Self {
        let chain_name = match hook {
            Hook::PreRouting => "prerouting",
            Hook::Out => "out",
            Hook::PostRouting => "postrouting",
            Hook::Forward => "forward",
            Hook::In => "in",
        };
        let mut chain = Chain::new(chain_name, table);
        chain.attach_hook(hook, 0);
        chain
    }

    fn verdict(self, policy: Policy) -> Self {
        let mut chain = self;
        chain.set_policy(policy);
        chain
    }

    fn add_to_batch(self, batch: &mut Batch) -> (r: Self) {
        batch.add(&self, MsgType::Add);
        self
    }
}

} // verus!
