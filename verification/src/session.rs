//! The multiplexed connection layer: one physical stream shared by many
//! logical queries, routed by integer tokens, with broken and
//! changefeed-lock state.
//!
//! This module holds the state machine alone: what `connection`, drop and
//! close decide, and which wire payloads the administrative round-trips
//! send. Performing the I/O — writing payloads, reading and routing
//! responses — is the caller's part; the response reader must call
//! [`Session::mark_broken`] on an unrecoverable failure.
//!
//! Every transition takes the state through one exclusive reference, so the
//! broken and changefeed checks and the step they guard form a single
//! atomic unit; a caller that shares a session across tasks puts it behind
//! its own lock and keeps that atomicity.

use crate::err::{Driver, Error};
use crate::proto::{Payload, QueryKind};
use crate::json::{jview, jview_fields, jview_seq, lemma_jview_fields_index, lemma_jview_fields_len, lemma_jview_seq_index, lemma_jview_seq_len, Json, JsonV};
use crate::proto::{Command, CommandV, Datum, DatumV};
use vstd::prelude::*;

verus! {

broadcast use vstd::std_specs::vec::group_vec_axioms, vstd::seq::group_seq_axioms;

/// One physical connection's shared state: the default-database name, the
/// token bookkeeping of the response-routing map, a monotonic token counter,
/// and the broken and changefeed-lock flags.
pub struct Session {
    db: String,
    next_token: u64,
    tokens: Vec<u64>,
    broken: bool,
    change_feed: bool,
}

/// A lightweight handle for one logical query: its token and a closed flag.
pub struct Connection {
    token: u64,
    closed: bool,
}

/// Map hygiene carries over between states with the same tokens and counter.
proof fn lemma_wf_transfer(a: Session, b: Session)
    requires
        a.wf(),
        b.spec_tokens() == a.spec_tokens(),
        b.spec_next_token() == a.spec_next_token(),
    ensures
        b.wf(),
{
    assert forall|i: int| 0 <= i < b.spec_tokens().len() implies #[trigger] b.spec_tokens()[i]
        < b.spec_next_token() by {
        assert(a.spec_tokens()[i] < a.spec_next_token());
    }
    assert forall|i: int, j: int| 0 <= i < j < b.spec_tokens().len() implies b.spec_tokens()[i]
        != b.spec_tokens()[j] by {
        assert(a.spec_tokens()[i] != a.spec_tokens()[j]);
    }
}

/// Two distinct positions of a hygienic token map hold distinct tokens.
proof fn lemma_wf_distinct(s: Session, i: int, j: int)
    requires
        s.wf(),
        0 <= i < j < s.spec_tokens().len(),
    ensures
        s.spec_tokens()[i] != s.spec_tokens()[j],
{
}

impl Connection {
    /// The token this connection's responses are routed by.
    pub fn token(&self) -> (t: u64)
        ensures
            t == self.spec_token(),
    {
        self.token
    }

    pub closed spec fn spec_token(&self) -> u64 {
        self.token
    }

    pub closed spec fn spec_closed(&self) -> bool {
        self.closed
    }

    /// Whether this connection was closed.
    pub fn closed(&self) -> (c: bool)
        ensures
            c == self.spec_closed(),
    {
        self.closed
    }

    /// Record that this connection was closed.
    pub fn set_closed(&mut self, closed: bool)
        ensures
            final(self).spec_closed() == closed,
            final(self).spec_token() == old(self).spec_token(),
    {
        self.closed = closed;
    }
}

impl Session {
    pub closed spec fn spec_db(&self) -> Seq<char> {
        self.db@
    }

    pub closed spec fn spec_next_token(&self) -> u64 {
        self.next_token
    }

    pub closed spec fn spec_tokens(&self) -> Seq<u64> {
        self.tokens@
    }

    pub closed spec fn spec_broken(&self) -> bool {
        self.broken
    }

    pub closed spec fn spec_change_feed(&self) -> bool {
        self.change_feed
    }

    /// Whether a token is registered in the response-routing map.
    pub open spec fn spec_registered(&self, t: u64) -> bool {
        self.spec_tokens().contains(t)
    }

    /// The map hygiene invariant: every registered token was handed out
    /// (it lies below the counter) and no token is registered twice.
    pub open spec fn wf(&self) -> bool {
        &&& forall|i: int|
            0 <= i < self.spec_tokens().len() ==> #[trigger] self.spec_tokens()[i]
                < self.spec_next_token()
        &&& forall|i: int, j: int|
            0 <= i < j < self.spec_tokens().len() ==> self.spec_tokens()[i]
                != self.spec_tokens()[j]
    }

    /// A fresh session around one physical stream, with the given default
    /// database, no registered tokens, and both flags clear.
    pub fn new(db: String) -> (r: Session)
        ensures
            r.wf(),
            r.spec_db() == db@,
            r.spec_next_token() == 1u64,
            r.spec_tokens() == Seq::<u64>::empty(),
            !r.spec_broken(),
            !r.spec_change_feed(),
    {
        Session { db, next_token: 1, tokens: Vec::new(), broken: false, change_feed: false }
    }

    /// Change the default database of this session.
    pub fn use_(&mut self, db_name: String)
        ensures
            final(self).spec_db() == db_name@,
            final(self).spec_next_token() == old(self).spec_next_token(),
            final(self).spec_tokens() == old(self).spec_tokens(),
            final(self).spec_broken() == old(self).spec_broken(),
            final(self).spec_change_feed() == old(self).spec_change_feed(),
            old(self).wf() ==> final(self).wf(),
    {
        self.db = db_name;
        proof {
            if old(self).wf() {
                lemma_wf_transfer(*old(self), *self);
            }
        }
    }

    /// The current default database.
    pub fn db(&self) -> (r: String)
        ensures
            r@ == self.spec_db(),
    {
        self.db.clone()
    }

    /// Whether the session is broken; a broken session cannot heal and
    /// every later operation on it fails fast.
    pub fn is_broken(&self) -> (r: bool)
        ensures
            r == self.spec_broken(),
    {
        self.broken
    }

    /// Mark the session broken. The response reader calls this on an
    /// unrecoverable failure of the stream.
    pub fn mark_broken(&mut self)
        ensures
            final(self).spec_broken(),
            final(self).spec_db() == old(self).spec_db(),
            final(self).spec_next_token() == old(self).spec_next_token(),
            final(self).spec_tokens() == old(self).spec_tokens(),
            final(self).spec_change_feed() == old(self).spec_change_feed(),
            old(self).wf() ==> final(self).wf(),
    {
        self.broken = true;
        proof {
            if old(self).wf() {
                lemma_wf_transfer(*old(self), *self);
            }
        }
    }

    /// Whether an active changefeed holds the session's lock.
    pub fn is_change_feed(&self) -> (r: bool)
        ensures
            r == self.spec_change_feed(),
    {
        self.change_feed
    }

    /// Take the changefeed lock.
    pub fn mark_change_feed(&mut self)
        ensures
            final(self).spec_change_feed(),
            final(self).spec_db() == old(self).spec_db(),
            final(self).spec_next_token() == old(self).spec_next_token(),
            final(self).spec_tokens() == old(self).spec_tokens(),
            final(self).spec_broken() == old(self).spec_broken(),
            old(self).wf() ==> final(self).wf(),
    {
        self.change_feed = true;
        proof {
            if old(self).wf() {
                lemma_wf_transfer(*old(self), *self);
            }
        }
    }

    /// Release the changefeed lock.
    pub fn unmark_change_feed(&mut self)
        ensures
            !final(self).spec_change_feed(),
            final(self).spec_db() == old(self).spec_db(),
            final(self).spec_next_token() == old(self).spec_next_token(),
            final(self).spec_tokens() == old(self).spec_tokens(),
            final(self).spec_broken() == old(self).spec_broken(),
            old(self).wf() ==> final(self).wf(),
    {
        self.change_feed = false;
        proof {
            if old(self).wf() {
                lemma_wf_transfer(*old(self), *self);
            }
        }
    }

    /// How many tokens are registered.
    pub fn token_count(&self) -> (n: usize)
        ensures
            n == self.spec_tokens().len(),
    {
        self.tokens.len()
    }

    /// Whether a token is registered in the response-routing map.
    pub fn is_registered(&self, t: u64) -> (r: bool)
        ensures
            r == self.spec_registered(t),
    {
        let n = self.tokens.len();
        let mut k: usize = 0;
        while k < n
            invariant
                k <= n,
                n == self.spec_tokens().len(),
                forall|i: int| 0 <= i < k ==> self.spec_tokens()[i] != t,
            decreases n - k,
        {
            if self.tokens[k] == t {
                return true;
            }
            k = k + 1;
        }
        false
    }

    /// Open a new logical query context.
    ///
    /// Fails fast on a broken session and while a changefeed holds the
    /// lock; otherwise allocates the next token, registers it, and returns
    /// a connection bound to it. When the counter reaches its last value
    /// the session is marked broken instead: tokens must never repeat
    /// while any channel may still be registered under an old value.
    pub fn connection(&mut self) -> (r: Result<Connection, Error>)
        ensures
            ({
                let s0 = *old(self);
                let s1 = *final(self);
                &&& s0.spec_broken() ==> (r matches Result::Err(e) && e@ == crate::err::ErrorV::Driver(crate::err::DriverV::ConnectionBroken) && s1 == s0)
                &&& !s0.spec_broken() && s0.spec_change_feed() ==> (r matches Result::Err(e) && e@ == crate::err::ErrorV::Driver(crate::err::DriverV::ConnectionLocked) && s1 == s0)
                &&& !s0.spec_broken() && !s0.spec_change_feed() && s0.spec_next_token() == u64::MAX ==> (r matches Result::Err(e) && e@ == crate::err::ErrorV::Driver(crate::err::DriverV::TokenExhausted) && s1.spec_broken() && s1.spec_tokens() == s0.spec_tokens() && s1.spec_next_token() == s0.spec_next_token() && s1.spec_db() == s0.spec_db() && s1.spec_change_feed() == s0.spec_change_feed())
                &&& !s0.spec_broken() && !s0.spec_change_feed() && s0.spec_next_token() != u64::MAX ==> (r matches Result::Ok(c) && c.spec_token() == s0.spec_next_token() && !c.spec_closed() && s1.spec_tokens() == s0.spec_tokens().push(c.spec_token()) && s1.spec_next_token() == s0.spec_next_token() + 1 && !s1.spec_broken() && !s1.spec_change_feed() && s1.spec_db() == s0.spec_db() && (s0.wf() ==> !s0.spec_registered(c.spec_token())))
                &&& s0.wf() ==> s1.wf()
            }),
    {
        if self.broken {
            return Result::Err(Error::Driver(Driver::ConnectionBroken));
        }
        if self.change_feed {
            return Result::Err(Error::Driver(Driver::ConnectionLocked));
        }
        if self.next_token == u64::MAX {
            self.broken = true;
            return Result::Err(Error::Driver(Driver::TokenExhausted));
        }
        let token = self.next_token;
        self.next_token = self.next_token + 1;
        self.tokens.push(token);
        proof {
            if old(self).wf() {
                if old(self).spec_tokens().contains(token) {
                    let i = choose|i: int|
                        0 <= i < old(self).spec_tokens().len() && old(self).spec_tokens()[i]
                            == token;
                    assert(old(self).spec_tokens()[i] < token);
                }
            }
        }
        Result::Ok(Connection { token, closed: false })
    }

    /// Tear one logical query context down: unregister its token, and clear
    /// the changefeed lock if it is held (a changefeed owns the lock for its
    /// whole lifetime, released only on teardown).
    pub fn drop_connection(&mut self, conn: Connection)
        ensures
            ({
                let s0 = *old(self);
                let s1 = *final(self);
                &&& !s1.spec_change_feed()
                &&& s1.spec_db() == s0.spec_db()
                &&& s1.spec_next_token() == s0.spec_next_token()
                &&& s1.spec_broken() == s0.spec_broken()
                &&& s0.wf() ==> s1.wf()
                &&& s0.wf() ==> !s1.spec_registered(conn.spec_token())
                &&& forall|t: u64| t != conn.spec_token() ==> (s1.spec_registered(t) <==> s0.spec_registered(t))
                &&& s0.spec_registered(conn.spec_token()) ==> s1.spec_tokens().len() == s0.spec_tokens().len() - 1
                &&& !s0.spec_registered(conn.spec_token()) ==> s1.spec_tokens() == s0.spec_tokens()
            }),
    {
        let ghost old_tokens = self.tokens@;
        let n = self.tokens.len();
        let mut k: usize = 0;
        let mut found: bool = false;
        while k < n && !found
            invariant
                k <= n,
                n == old_tokens.len(),
                self.tokens@ == old_tokens,
                !found ==> forall|i: int| 0 <= i < k ==> old_tokens[i] != conn.spec_token(),
                found ==> k < n && old_tokens[k as int] == conn.spec_token() && forall|i: int|
                    0 <= i < k ==> old_tokens[i] != conn.spec_token(),
                self.db@ == old(self).spec_db(),
                self.next_token == old(self).spec_next_token(),
                self.broken == old(self).spec_broken(),
                self.change_feed == old(self).spec_change_feed(),
            decreases n - k + (if found { 0int } else { 1int }),
        {
            if self.tokens[k] == conn.token {
                found = true;
            } else {
                k = k + 1;
            }
        }
        if found {
            self.tokens.remove(k);
            proof {
                assert(self.tokens@ == old_tokens.remove(k as int));
                assert forall|t: u64|
                    t != conn.spec_token() implies (self.tokens@.contains(t) <==> old_tokens.contains(
                    t,
                )) by {
                    if old_tokens.contains(t) {
                        let i = choose|i: int|
                            0 <= i < old_tokens.len() && old_tokens[i] == t;
                        if i < k {
                            assert(self.tokens@[i] == t);
                        } else if i > k {
                            assert(self.tokens@[i - 1] == t);
                        }
                    }
                    if self.tokens@.contains(t) {
                        let i = choose|i: int|
                            0 <= i < self.tokens@.len() && self.tokens@[i] == t;
                        if i < k {
                            assert(old_tokens[i] == t);
                        } else {
                            assert(old_tokens[i + 1] == t);
                        }
                    }
                }
                if old(self).wf() {
                    assert forall|i: int|
                        0 <= i < self.tokens@.len() implies #[trigger] self.tokens@[i]
                        != conn.spec_token() by {
                        if i < k {
                            assert(self.tokens@[i] == old_tokens[i]);
                            lemma_wf_distinct(*old(self), i, k as int);
                        } else {
                            assert(self.tokens@[i] == old_tokens[i + 1]);
                            lemma_wf_distinct(*old(self), k as int, i + 1);
                        }
                    }
                    assert forall|i: int, j: int|
                        0 <= i < j < self.tokens@.len() implies self.tokens@[i] != self.tokens@[j] by {
                        let oi: int = if i < k { i } else { i + 1 };
                        let oj: int = if j < k { j } else { j + 1 };
                        assert(self.tokens@[i] == old_tokens[oi]);
                        assert(self.tokens@[j] == old_tokens[oj]);
                        lemma_wf_distinct(*old(self), oi, oj);
                    }
                }
            }
        } else {
            proof {
                if old_tokens.contains(conn.spec_token()) {
                    let i = choose|i: int|
                        0 <= i < old_tokens.len() && old_tokens[i] == conn.spec_token();
                    assert(old_tokens[i] != conn.spec_token());
                }
            }
        }
        self.change_feed = false;
        proof {
            if old(self).wf() {
                assert forall|i: int|
                    0 <= i < self.spec_tokens().len() implies #[trigger] self.spec_tokens()[i]
                    < self.spec_next_token() by {
                    if found {
                        let oi: int = if i < k { i } else { i + 1 };
                        assert(self.spec_tokens()[i] == old_tokens[oi]);
                        assert(old_tokens[oi] < old(self).spec_next_token());
                    } else {
                        assert(old_tokens[i] < old(self).spec_next_token());
                    }
                }
            }
        }
    }

    /// Begin one logical query for a term: acquire a connection and, for a
    /// changefeed term, take the changefeed lock for the connection's
    /// lifetime.
    pub fn start_query(&mut self, change_feed: bool) -> (r: Result<Connection, Error>)
        ensures
            ({
                let s0 = *old(self);
                let s1 = *final(self);
                &&& r is Ok ==> !s0.spec_broken() && !s0.spec_change_feed()
                &&& r is Ok ==> s1.spec_change_feed() == change_feed
                &&& r is Ok ==> r->Ok_0.spec_token() == s0.spec_next_token() && s1.spec_tokens() == s0.spec_tokens().push(r->Ok_0.spec_token())
                &&& r is Ok ==> !s1.spec_broken() && s1.spec_db() == s0.spec_db() && s1.spec_next_token() == s0.spec_next_token() + 1
                &&& r is Err ==> s1.spec_tokens() == s0.spec_tokens() && s1.spec_change_feed() == s0.spec_change_feed()
                &&& s0.spec_broken() ==> (r matches Result::Err(e) && e@ == crate::err::ErrorV::Driver(crate::err::DriverV::ConnectionBroken))
                &&& !s0.spec_broken() && s0.spec_change_feed() ==> (r matches Result::Err(e) && e@ == crate::err::ErrorV::Driver(crate::err::DriverV::ConnectionLocked))
                &&& !s0.spec_broken() && !s0.spec_change_feed() && s0.spec_next_token() != u64::MAX ==> r is Ok
                &&& !s0.spec_broken() && !s0.spec_change_feed() && s0.spec_next_token() == u64::MAX ==> (r matches Result::Err(e) && e@ == crate::err::ErrorV::Driver(crate::err::DriverV::TokenExhausted) && s1.spec_broken())
                &&& s0.wf() ==> s1.wf()
            }),
    {
        match self.connection() {
            Result::Ok(c) => {
                if change_feed {
                    self.mark_change_feed();
                }
                Result::Ok(c)
            },
            Result::Err(e) => Result::Err(e),
        }
    }

    /// Decide what closing a connection does. For an ordinary connection it
    /// is a no-op: its queries are already complete. For a changefeed it
    /// marks the connection closed and hands back the stop payload the
    /// caller must send — with an explicit `{"noreply": false}` argument
    /// unless the caller asked to wait for in-flight no-reply writes first.
    ///
    /// The changefeed lock stays held: the caller releases it with
    /// [`Session::unmark_change_feed`] once the stop round-trip succeeded;
    /// if the round-trip fails, the lock is released only when the
    /// connection is dropped.
    pub fn close_connection(&self, conn: &mut Connection, noreply_wait: bool) -> (r: Option<
        Payload,
    >)
        ensures
            !self.spec_change_feed() ==> r is None && *final(conn) == *old(conn),
            self.spec_change_feed() ==> {
                &&& final(conn).spec_closed()
                &&& final(conn).spec_token() == old(conn).spec_token()
                &&& (r matches Option::Some(p) && p.query_type == QueryKind::Stop && (
                noreply_wait ==> p.term is None) && (!noreply_wait ==> (
                p.term matches Option::Some(t) && t@ == CommandV::spec_datum_term(
                    Result::Ok(
                        DatumV::Object(seq![("noreply"@, DatumV::Bool(false))]),
                    ),
                ))) && p.opts@ == DatumV::Object(Seq::<(Seq<char>, DatumV)>::empty()))
            },
    {
        if !self.change_feed {
            return Option::None;
        }
        conn.set_closed(true);
        let term: Option<Command> = if noreply_wait {
            Option::None
        } else {
            let mut fields: Vec<(String, Datum)> = Vec::new();
            fields.push((
                <String as vstd::string::StringExecFns>::from_str("noreply"),
                Datum::Bool(false),
            ));
            proof {
                assert(fields@.drop_last() =~= Seq::<(String, Datum)>::empty());
                assert(crate::proto::dview_fields(fields@.drop_last()) =~= Seq::<(
                    Seq<char>,
                    DatumV,
                )>::empty());
                assert(fields@.len() == 1);
                assert(fields@.last().0@ == "noreply"@);
                assert(crate::proto::dview(fields@.last().1) == DatumV::Bool(false));
                assert(crate::proto::dview_fields(fields@) =~= seq![
                    ("noreply"@, DatumV::Bool(false)),
                ]);
            }
            Option::Some(Command::from_json(Datum::Object(fields)))
        };
        let opts = Datum::Object(Vec::new());
        proof {
            assert(opts@ == DatumV::Object(crate::proto::dview_fields(Seq::empty())));
            assert(crate::proto::dview_fields(Seq::<(String, Datum)>::empty()) =~= Seq::<(
                Seq<char>,
                DatumV,
            )>::empty());
        }
        Option::Some(Payload { query_type: QueryKind::Stop, term, opts })
    }

}

/// The payload of the administrative round-trip that waits until previous
/// no-reply queries were processed.
pub fn noreply_wait_payload() -> (r: Payload)
    ensures
        r.query_type == QueryKind::NoreplyWait,
        r.term is None,
        r.opts@ == DatumV::Object(Seq::<(Seq<char>, DatumV)>::empty()),
{
    let opts = Datum::Object(Vec::new());
    proof {
        assert(crate::proto::dview_fields(Seq::<(String, Datum)>::empty()) =~= Seq::<(
            Seq<char>,
            DatumV,
        )>::empty());
    }
    Payload { query_type: QueryKind::NoreplyWait, term: Option::None, opts }
}

/// The payload of the administrative round-trip that asks for server
/// information.
pub fn server_info_payload() -> (r: Payload)
    ensures
        r.query_type == QueryKind::ServerInfo,
        r.term is None,
        r.opts@ == DatumV::Object(Seq::<(Seq<char>, DatumV)>::empty()),
{
    let opts = Datum::Object(Vec::new());
    proof {
        assert(crate::proto::dview_fields(Seq::<(String, Datum)>::empty()) =~= Seq::<(
            Seq<char>,
            DatumV,
        )>::empty());
    }
    Payload { query_type: QueryKind::ServerInfo, term: Option::None, opts }
}

/// What the server reports about itself.
#[derive(Debug, Clone, PartialEq)]
pub struct ServerInfo {
    pub id: String,
    pub proxy: bool,
    pub name: Option<String>,
}

/// The first value under a key of a JSON object, from index `i` on.
pub open spec fn obj_lookup_from(fields: Seq<(Seq<char>, JsonV)>, key: Seq<char>, i: int) -> Option<
    JsonV,
>
    decreases fields.len() - i,
{
    if i < 0 || i >= fields.len() {
        Option::None
    } else if fields[i].0 == key {
        Option::Some(fields[i].1)
    } else {
        obj_lookup_from(fields, key, i + 1)
    }
}

/// Whether one JSON value is a well-formed server-info object: an object
/// whose `id` is a string, whose `proxy` is a boolean, and whose `name`, if
/// present, is a string or null.
pub open spec fn server_info_ok(j: JsonV) -> bool {
    &&& j is Obj
    &&& obj_lookup_from(j->Obj_0, "id"@, 0) matches Option::Some(JsonV::Str(_))
    &&& obj_lookup_from(j->Obj_0, "proxy"@, 0) matches Option::Some(JsonV::Bool(_))
    &&& match obj_lookup_from(j->Obj_0, "name"@, 0) {
        Option::None => true,
        Option::Some(JsonV::Null) => true,
        Option::Some(JsonV::Str(_)) => true,
        _ => false,
    }
}

/// The server info a well-formed object parses to.
pub open spec fn spec_server_info(j: JsonV) -> (Seq<char>, bool, Option<Seq<char>>) {
    (
        obj_lookup_from(j->Obj_0, "id"@, 0)->Some_0->Str_0,
        obj_lookup_from(j->Obj_0, "proxy"@, 0)->Some_0->Bool_0,
        match obj_lookup_from(j->Obj_0, "name"@, 0) {
            Option::Some(JsonV::Str(s)) => Option::Some(s),
            _ => Option::<Seq<char>>::None,
        },
    )
}

/// Find the first field with the given key.
#[verifier::loop_isolation(false)]
pub(crate) fn obj_find(fields: &Vec<(String, Json)>, key: &str) -> (r: Option<usize>)
    ensures
        ({
            let fields_v = jview_fields(fields@);
            match r {
                Option::Some(k) => k < fields@.len() && obj_lookup_from(fields_v, key@, 0)
                    == Option::Some(jview(fields@[k as int].1)),
                Option::None => obj_lookup_from(fields_v, key@, 0) is None,
            }
        }),
{
    let ghost fields_v = jview_fields(fields@);
    proof {
        lemma_jview_fields_len(fields@);
    }
    let key_owned = key.to_owned();
    let n = fields.len();
    let mut k: usize = 0;
    while k < n
        invariant
            k <= n,
            obj_lookup_from(fields_v, key@, 0) == obj_lookup_from(fields_v, key@, k as int),
        decreases n - k,
    {
        proof {
            lemma_jview_fields_index(fields@, k as int);
        }
        if fields[k].0 == key_owned {
            return Option::Some(k);
        }
        k = k + 1;
    }
    Option::None
}

/// Parse one server-info object, as the response of the server-information
/// round-trip carries it.
pub fn parse_server_info(j: &Json) -> (r: Result<ServerInfo, Error>)
    ensures
        server_info_ok(j@) <==> r is Ok,
        r matches Result::Ok(info) ==> ({
            let (id, proxy, name) = spec_server_info(j@);
            &&& info.id@ == id
            &&& info.proxy == proxy
            &&& match (info.name, name) {
                (Option::Some(a), Option::Some(b)) => a@ == b,
                (Option::None, Option::None) => true,
                _ => false,
            }
        }),
{
    let fields = match j {
        Json::Obj(fields) => fields,
        _ => {
            return Result::Err(
                Error::Driver(Driver::Other("server info is not an object".to_owned())),
            );
        },
    };
    proof {
        assert(j@ == JsonV::Obj(jview_fields(fields@)));
    }
    let id = match obj_find(fields, "id") {
        Option::Some(k) => {
            match &fields[k].1 {
                Json::Str(s) => s.clone(),
                _ => {
                    return Result::Err(
                        Error::Driver(Driver::Other("server info id is not a string".to_owned())),
                    );
                },
            }
        },
        Option::None => {
            return Result::Err(
                Error::Driver(Driver::Other("server info has no id".to_owned())),
            );
        },
    };
    let proxy = match obj_find(fields, "proxy") {
        Option::Some(k) => {
            match &fields[k].1 {
                Json::Bool(b) => *b,
                _ => {
                    return Result::Err(
                        Error::Driver(
                            Driver::Other("server info proxy is not a boolean".to_owned()),
                        ),
                    );
                },
            }
        },
        Option::None => {
            return Result::Err(
                Error::Driver(Driver::Other("server info has no proxy flag".to_owned())),
            );
        },
    };
    let name = match obj_find(fields, "name") {
        Option::Some(k) => {
            match &fields[k].1 {
                Json::Str(s) => Option::Some(s.clone()),
                Json::Null => Option::None,
                _ => {
                    return Result::Err(
                        Error::Driver(
                            Driver::Other("server info name is not a string".to_owned()),
                        ),
                    );
                },
            }
        },
        Option::None => Option::None,
    };
    Result::Ok(ServerInfo { id, proxy, name })
}

/// Whether every element of a response body, from index `i` on, is a
/// well-formed server-info object.
pub open spec fn infos_ok_from(items: Seq<JsonV>, i: int) -> bool
    decreases items.len() - i,
{
    if i < 0 || i >= items.len() {
        true
    } else {
        server_info_ok(items[i]) && infos_ok_from(items, i + 1)
    }
}

/// Parse the body of a server-information response: an array of server-info
/// objects, each of which must parse; the last element is the result, and
/// an empty array is an error.
pub fn parse_server_info_response(j: &Json) -> (r: Result<ServerInfo, Error>)
    ensures
        r is Ok <==> j@ is Arr && j@->Arr_0.len() > 0 && infos_ok_from(j@->Arr_0, 0),
        j@ is Arr && j@->Arr_0.len() == 0 ==> (r matches Result::Err(e) && e@
            == crate::err::ErrorV::Driver(crate::err::DriverV::Other("server info is empty"@))),
        r matches Result::Ok(info) ==> ({
            let (id, proxy, name) = spec_server_info(j@->Arr_0.last());
            &&& info.id@ == id
            &&& info.proxy == proxy
            &&& match (info.name, name) {
                (Option::Some(a), Option::Some(b)) => a@ == b,
                (Option::None, Option::None) => true,
                _ => false,
            }
        }),
{
    let items = match j {
        Json::Arr(items) => items,
        _ => {
            return Result::Err(
                Error::Driver(Driver::Other("server info response is not an array".to_owned())),
            );
        },
    };
    proof {
        assert(j@ == JsonV::Arr(jview_seq(items@)));
        lemma_jview_seq_len(items@);
    }
    if items.len() == 0 {
        return Result::Err(Error::Driver(Driver::Other("server info is empty".to_owned())));
    }
    let ghost items_v = jview_seq(items@);
    let n = items.len();
    let mut k: usize = 0;
    let mut last: Option<ServerInfo> = Option::None;
    while k < n
        invariant
            k <= n,
            n == items@.len(),
            items_v == jview_seq(items@),
            items_v.len() == n,
            j@ == JsonV::Arr(items_v),
            infos_ok_from(items_v, 0) == infos_ok_from(items_v, k as int),
            k > 0 ==> ({
                let (id, proxy, name) = spec_server_info(items_v[k - 1]);
                match last {
                    Option::Some(info) => info.id@ == id && info.proxy == proxy && match (
                        info.name,
                        name,
                    ) {
                        (Option::Some(a), Option::Some(b)) => a@ == b,
                        (Option::None, Option::None) => true,
                        _ => false,
                    },
                    Option::None => false,
                }
            }),
        decreases n - k,
    {
        proof {
            lemma_jview_seq_index(items@, k as int);
        }
        match parse_server_info(&items[k]) {
            Result::Ok(info) => {
                last = Option::Some(info);
            },
            Result::Err(e) => {
                proof {
                    assert(!infos_ok_from(items_v, k as int));
                    assert(j@->Arr_0 == items_v);
                }
                return Result::Err(e);
            },
        }
        k = k + 1;
    }
    proof {
        lemma_jview_seq_index(items@, n as int - 1);
        assert(infos_ok_from(items_v, n as int));
        assert(items_v.last() == jview(items@[n as int - 1]));
    }
    match last {
        Option::Some(info) => Result::Ok(info),
        Option::None => vstd::pervasive::unreached(),
    }
}

} // verus!
