//! Handlers of messages from the page, registered per instance on a
//! thread.

use vstd::prelude::*;
use crate::instance::Instance;

verus! {

/// The instances whose handlers are to be unregistered before the thread's
/// loop ends: all those registered on the thread, in the order they were
/// registered; the thread's record is left empty.
pub fn unregister_handlers(registered: &mut Vec<Instance>) -> (to_unregister: Vec<Instance>)
    ensures
        to_unregister@ == old(registered)@,
        final(registered)@.len() == 0,
{
    let mut out: Vec<Instance> = Vec::new();
    std::mem::swap(&mut out, registered);
    out
}

} // verus!
