//! The one way in which a guarded access can fail.

use crate::thread_id::ThreadId;
use vstd::prelude::*;
use vstd::string::StringExecFns;

verus! {

/// A thread other than the owner asked for a bound value.
///
/// There is no way to recover the access: the embedding program ends the
/// offending call with [`WrongThreadAccess::message`].
#[derive(Debug, Clone, Copy, PartialEq, Eq, Structural)]
pub struct WrongThreadAccess {
    /// The thread that asked.
    pub caller: ThreadId,
    /// The thread that the value belongs to.
    pub owner: ThreadId,
}

impl WrongThreadAccess {
    /// The text of the diagnostic for a payload whose type is called
    /// `payload_type`: the type, the thread that asked and the thread that
    /// owns the value, in this order.
    pub open spec fn text(&self, payload_type: Seq<char>) -> Seq<char> {
        "cannot use "@ + payload_type + " on thread "@ + self.caller.text()
            + " since it belongs to thread "@ + self.owner.text()
    }

    /// The diagnostic that ends the offending call.
    pub fn message(&self, payload_type: &str) -> (s: String)
        ensures
            s@ == self.text(payload_type@),
    {
        let mut s = String::from_str("cannot use ");
        s.append(payload_type);
        s.append(" on thread ");
        s.append(self.caller.debug_string().as_str());
        s.append(" since it belongs to thread ");
        s.append(self.owner.debug_string().as_str());
        s
    }
}

} // verus!
