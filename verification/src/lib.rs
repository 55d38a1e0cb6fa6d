//! Builder and multiplexing core of a ReQL (RethinkDB query language) client:
//! a verified model of query terms, their construction algebra, their exact
//! wire serialization, and the token-multiplexed session state machine.

pub mod args;
pub mod cmd;
pub mod datetime;
pub mod err;
pub mod json;
pub mod laws;
pub mod options;
pub mod proto;
pub mod session;
pub mod tools;
pub mod types;

pub use cmd::r;
pub use datetime::DateTime;
pub use err::{Driver, Error};
pub use json::Json;
pub use proto::{Command, Datum, Func, Payload, QueryKind, TermKind};
pub use session::{Connection, ServerInfo, Session};

use vstd::prelude::*;

verus! {

/// A fresh-variable-id generator for anonymous function parameters.
///
/// Every bound variable drawn from one generator is unique: the counter
/// only moves forward and each id is handed out once.
pub struct VarIdGen {
    next: u64,
}

impl VarIdGen {
    pub closed spec fn spec_next(&self) -> u64 {
        self.next
    }

    pub fn new() -> (g: VarIdGen)
        ensures
            g.spec_next() == 1u64,
    {
        VarIdGen { next: 1 }
    }
}

/// Draw the next fresh variable id from a generator.
///
/// The bound keeps every id representable as a wire number.
pub fn var_counter(gen: &mut VarIdGen) -> (id: u64)
    requires
        old(gen).spec_next() < 0x7fff_ffff_ffff_ffff,
    ensures
        id == old(gen).spec_next(),
        final(gen).spec_next() == old(gen).spec_next() + 1,
{
    let id = gen.next;
    gen.next = gen.next + 1;
    id
}

/// Read the counter without advancing it.
pub fn current_counter(gen: &VarIdGen) -> (id: u64)
    ensures
        id == gen.spec_next(),
{
    gen.next
}

} // verus!
