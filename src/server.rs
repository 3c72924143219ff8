//! The state that the service shares between its calls.
use vstd::prelude::*;
use crate::engine::NodeHandle;
use crate::registry::Registry;

verus! {

/// The service: the registry of every node it has started.
pub struct MyWallet {
    pub nodes: Registry<NodeHandle>,
}

impl MyWallet {
    pub open spec fn wf(&self) -> bool {
        self.nodes.wf()
    }

    /// A service that has started no node yet.
    pub fn new() -> (r: MyWallet)
        ensures
            r.wf(),
            r.nodes@ == Map::<Seq<char>, NodeHandle>::empty(),
    {
        MyWallet { nodes: Registry::new() }
    }

    /// A handle on the node published under `key`, if any; the registry is
    /// not held while the caller uses it.
    pub fn node(&self, key: &String) -> (r: Option<NodeHandle>)
        requires
            self.wf(),
        ensures
            r.is_some() == self.nodes@.contains_key(key@),
            r.is_some() ==> r == Some(self.nodes@[key@]),
    {
        match self.nodes.lookup(key) {
            None => None,
            Some(h) => Some(h.share()),
        }
    }
}

} // verus!
