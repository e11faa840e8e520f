//! The identity of a thread, as a plain comparable token.

use crate::text::{decimal, law_decimal_is_injective, push_decimal};
use vstd::prelude::*;
use vstd::string::StringExecFns;

verus! {

/// Identifies one thread of the process.
///
/// Two tokens are equal exactly when they name the same thread. The embedding
/// program gives every thread one number and keeps it for the thread's life;
/// nothing here orders or hashes tokens to reach a decision.
#[derive(Clone, Copy, PartialEq, Eq, Structural, Debug, Hash)]
pub struct ThreadId(u64);

impl ThreadId {
    /// The number that this token carries.
    pub closed spec fn number(self) -> u64 {
        self.0
    }

    /// The diagnostic text of the token: `ThreadId(`, the number in decimal,
    /// and `)`. The derived `Debug` form is the same text.
    pub open spec fn text(self) -> Seq<char> {
        "ThreadId("@ + decimal(self.number() as nat) + ")"@
    }

    /// The token for the thread with the given number.
    pub fn new(number: u64) -> (id: ThreadId)
        ensures
            id.number() == number,
    {
        ThreadId(number)
    }

    /// The number given at construction.
    pub fn as_u64(self) -> (n: u64)
        ensures
            n == self.number(),
    {
        self.0
    }

    /// Writes the token as diagnostics show it.
    pub fn debug_string(self) -> (s: String)
        ensures
            s@ == self.text(),
    {
        let mut s = String::from_str("ThreadId(");
        push_decimal(&mut s, self.0);
        s.append(")");
        s
    }
}

/// Tokens are equal exactly when their numbers are: a token is its number and
/// nothing else.
pub proof fn law_thread_id_is_its_number(a: ThreadId, b: ThreadId)
    ensures
        a == b <==> a.number() == b.number(),
{
}

/// The diagnostic text names one thread: tokens with the same text are the
/// same token.
pub proof fn law_text_names_one_thread(a: ThreadId, b: ThreadId)
    requires
        a.text() == b.text(),
    ensures
        a == b,
{
    let head = "ThreadId("@;
    let tail = ")"@;
    let da = decimal(a.number() as nat);
    let db = decimal(b.number() as nat);
    assert(a.text().len() == head.len() + da.len() + tail.len());
    assert(b.text().len() == head.len() + db.len() + tail.len());
    assert(da =~= a.text().subrange(head.len() as int, (head.len() + da.len()) as int));
    assert(db =~= b.text().subrange(head.len() as int, (head.len() + db.len()) as int));
    law_decimal_is_injective(a.number() as nat, b.number() as nat);
}

} // verus!
