//! Identifiers of invocations and of runtime workers.

use vstd::prelude::*;
use vstd::std_specs::cmp::PartialEqSpecImpl;

verus! {

/// The identifier of one inbound invocation. Two identifiers are the same
/// when their strings are.
#[derive(Debug, Eq, Hash)]
pub struct AWSRequestId(pub String);

impl View for AWSRequestId {
    type V = Seq<char>;

    open spec fn view(&self) -> Seq<char> {
        self.0@
    }
}

impl Clone for AWSRequestId {
    fn clone(&self) -> (res: Self)
        ensures
            res == *self,
    {
        AWSRequestId(self.0.clone())
    }
}

impl PartialEq for AWSRequestId {
    fn eq(&self, other: &Self) -> (res: bool) {
        self.0 == other.0
    }
}

impl PartialEqSpecImpl for AWSRequestId {
    open spec fn obeys_eq_spec() -> bool {
        true
    }

    open spec fn eq_spec(&self, other: &Self) -> bool {
        self@ == other@
    }
}

/// The identifier of a runtime worker: the process id of the worker, written
/// as a string.
#[derive(Debug, Eq, Hash)]
pub struct RuntimeId(pub String);

impl View for RuntimeId {
    type V = Seq<char>;

    open spec fn view(&self) -> Seq<char> {
        self.0@
    }
}

impl Clone for RuntimeId {
    fn clone(&self) -> (res: Self)
        ensures
            res == *self,
    {
        RuntimeId(self.0.clone())
    }
}

impl PartialEq for RuntimeId {
    fn eq(&self, other: &Self) -> (res: bool) {
        self.0 == other.0
    }
}

impl PartialEqSpecImpl for RuntimeId {
    open spec fn obeys_eq_spec() -> bool {
        true
    }

    open spec fn eq_spec(&self, other: &Self) -> bool {
        self@ == other@
    }
}

} // verus!
