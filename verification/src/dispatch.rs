//! Server-side routing of inbound calls.
//!
//! A receiver's dispatch logic is the same for every interface: check that
//! initialization has completed, find the handler registered for the method
//! identifier of the message, and fail with the right taxonomy kind when
//! either step fails. `MethodRouter` is that shared skeleton, verified once.

use vstd::prelude::*;
use vstd::string::*;
use crate::common::Message;
use crate::error::{RpcError, RpcResult};

verus! {

/// True iff some registered method name reads as `m`.
pub open spec fn has_method(methods: Seq<String>, m: Seq<char>) -> bool {
    exists|i: int| 0 <= i < methods.len() && methods[i]@ == m
}

/// The routing state of a receiver: whether its initialization has completed
/// and which method identifiers have registered handlers.
#[derive(Debug, Clone)]
pub struct MethodRouter {
    /// Set once the receiver has finished its own initialization.
    pub initialized: bool,
    /// Method identifiers with a registered handler, in registration order.
    pub methods: Vec<String>,
}

impl MethodRouter {
    /// An empty router: not yet initialized, no handlers registered.
    pub fn new() -> (r: MethodRouter)
        ensures
            !r.initialized,
            r.methods@.len() == 0,
    {
        MethodRouter { initialized: false, methods: Vec::new() }
    }

    /// Registers a handler for one method identifier.
    pub fn register(&mut self, method: String)
        ensures
            final(self).initialized == old(self).initialized,
            final(self).methods@ == old(self).methods@.push(method),
    {
        self.methods.push(method);
    }

    /// Marks initialization as complete; dispatch is refused before this.
    pub fn set_initialized(&mut self)
        ensures
            final(self).initialized,
            final(self).methods@ == old(self).methods@,
    {
        self.initialized = true;
    }

    /// Routes one inbound message: before initialization every dispatch fails
    /// with `NotInitialized`; an unregistered method fails with
    /// `MethodNotHandled`; otherwise the index of the first matching handler
    /// is returned.
    pub fn route(&self, msg: &Message) -> (r: RpcResult<usize>)
        ensures
            !self.initialized ==> (r matches Err(e) && e matches RpcError::NotInitialized(_)),
            self.initialized && !has_method(self.methods@, msg.method@) ==> (r matches Err(e)
                && e matches RpcError::MethodNotHandled(m) && m@ == msg.method@),
            self.initialized && has_method(self.methods@, msg.method@) ==> (r matches Ok(i)
                && 0 <= i < self.methods@.len() && self.methods@[i as int]@ == msg.method@
                && (forall|j: int| 0 <= j < i ==> self.methods@[j]@ != msg.method@)),
    {
        if !self.initialized {
            return Err(
                RpcError::NotInitialized(String::from_str("dispatch before initialization")),
            );
        }
        let n = self.methods.len();
        let mut i: usize = 0;
        while i < n
            invariant
                self.initialized,
                n == self.methods@.len(),
                i <= n,
                forall|j: int| 0 <= j < i ==> self.methods@[j]@ != msg.method@,
            decreases n - i,
        {
            if self.methods[i] == msg.method {
                return Ok(i);
            }
            i = i + 1;
        }
        Err(RpcError::MethodNotHandled(msg.method.clone()))
    }
}

} // verus!
