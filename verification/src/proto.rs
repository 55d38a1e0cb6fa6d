//! The query term model: values, terms, and their exact wire serialization.

use crate::err::{Error, ErrorV};
use crate::json::{jview, jview_fields, jview_seq, lemma_jview_fields_index, lemma_jview_fields_len, lemma_jview_seq_index, lemma_jview_seq_len, Json, JsonV};
use vstd::prelude::*;

verus! {

broadcast use vstd::std_specs::vec::group_vec_axioms, vstd::seq::group_seq_axioms;

/// The operation kinds of the protocol's fixed term-type enumeration that
/// this library builds, each with its wire code (see [`TermKind::code`]).
#[derive(Clone, Copy, PartialEq, Eq, Structural, Debug)]
pub enum TermKind {
    Datum,
    MakeArray,
    Var,
    Error,
    ImplicitVar,
    Db,
    Table,
    Get,
    GetAll,
    Eq,
    Ne,
    Lt,
    Le,
    Gt,
    Ge,
    Not,
    Add,
    Sub,
    Mul,
    Div,
    Mod,
    Floor,
    Ceil,
    Round,
    GetField,
    Bracket,
    HasFields,
    Pluck,
    Without,
    Merge,
    Between,
    Slice,
    Reduce,
    Fold,
    Filter,
    OrderBy,
    Distinct,
    Count,
    Union,
    Nth,
    Skip,
    Limit,
    Update,
    Delete,
    Replace,
    Insert,
    DbCreate,
    DbDrop,
    DbList,
    TableCreate,
    TableDrop,
    TableList,
    IndexCreate,
    IndexDrop,
    IndexList,
    IndexStatus,
    IndexWait,
    IndexRename,
    Funcall,
    Branch,
    Or,
    And,
    ForEach,
    Func,
    Asc,
    Desc,
    Info,
    Default,
    Group,
    Sum,
    Avg,
    Min,
    Max,
    Random,
    Changes,
    Args,
    Minval,
    Maxval,
    Sync,
    Grant,
    Point,
    Circle,
    Distance,
    GetNearest,
    Wait,
    Now,
}

impl TermKind {
    /// The integer wire code of this operation kind.
    pub open spec fn code_spec(self) -> int {
        match self {
            TermKind::Datum => 1,
            TermKind::MakeArray => 2,
            TermKind::Var => 10,
            TermKind::Error => 12,
            TermKind::ImplicitVar => 13,
            TermKind::Db => 14,
            TermKind::Table => 15,
            TermKind::Get => 16,
            TermKind::GetAll => 78,
            TermKind::Eq => 17,
            TermKind::Ne => 18,
            TermKind::Lt => 19,
            TermKind::Le => 20,
            TermKind::Gt => 21,
            TermKind::Ge => 22,
            TermKind::Not => 23,
            TermKind::Add => 24,
            TermKind::Sub => 25,
            TermKind::Mul => 26,
            TermKind::Div => 27,
            TermKind::Mod => 28,
            TermKind::Floor => 183,
            TermKind::Ceil => 184,
            TermKind::Round => 185,
            TermKind::GetField => 31,
            TermKind::Bracket => 170,
            TermKind::HasFields => 32,
            TermKind::Pluck => 33,
            TermKind::Without => 34,
            TermKind::Merge => 35,
            TermKind::Between => 182,
            TermKind::Slice => 30,
            TermKind::Reduce => 37,
            TermKind::Fold => 187,
            TermKind::Filter => 39,
            TermKind::OrderBy => 41,
            TermKind::Distinct => 42,
            TermKind::Count => 43,
            TermKind::Union => 44,
            TermKind::Nth => 45,
            TermKind::Skip => 70,
            TermKind::Limit => 71,
            TermKind::Update => 53,
            TermKind::Delete => 54,
            TermKind::Replace => 55,
            TermKind::Insert => 56,
            TermKind::DbCreate => 57,
            TermKind::DbDrop => 58,
            TermKind::DbList => 59,
            TermKind::TableCreate => 60,
            TermKind::TableDrop => 61,
            TermKind::TableList => 62,
            TermKind::IndexCreate => 75,
            TermKind::IndexDrop => 76,
            TermKind::IndexList => 77,
            TermKind::IndexStatus => 139,
            TermKind::IndexWait => 140,
            TermKind::IndexRename => 156,
            TermKind::Funcall => 64,
            TermKind::Branch => 65,
            TermKind::Or => 66,
            TermKind::And => 67,
            TermKind::ForEach => 68,
            TermKind::Func => 69,
            TermKind::Asc => 73,
            TermKind::Desc => 74,
            TermKind::Info => 79,
            TermKind::Default => 92,
            TermKind::Group => 144,
            TermKind::Sum => 145,
            TermKind::Avg => 146,
            TermKind::Min => 147,
            TermKind::Max => 148,
            TermKind::Random => 151,
            TermKind::Changes => 152,
            TermKind::Args => 154,
            TermKind::Minval => 180,
            TermKind::Maxval => 181,
            TermKind::Sync => 138,
            TermKind::Grant => 188,
            TermKind::Point => 159,
            TermKind::Circle => 165,
            TermKind::Distance => 162,
            TermKind::GetNearest => 168,
            TermKind::Wait => 177,
            TermKind::Now => 103,
        }
    }

    /// The integer wire code of this operation kind, as sent on the wire.
    pub fn code(self) -> (c: i64)
        ensures
            c as int == self.code_spec(),
    {
        match self {
            TermKind::Datum => 1,
            TermKind::MakeArray => 2,
            TermKind::Var => 10,
            TermKind::Error => 12,
            TermKind::ImplicitVar => 13,
            TermKind::Db => 14,
            TermKind::Table => 15,
            TermKind::Get => 16,
            TermKind::GetAll => 78,
            TermKind::Eq => 17,
            TermKind::Ne => 18,
            TermKind::Lt => 19,
            TermKind::Le => 20,
            TermKind::Gt => 21,
            TermKind::Ge => 22,
            TermKind::Not => 23,
            TermKind::Add => 24,
            TermKind::Sub => 25,
            TermKind::Mul => 26,
            TermKind::Div => 27,
            TermKind::Mod => 28,
            TermKind::Floor => 183,
            TermKind::Ceil => 184,
            TermKind::Round => 185,
            TermKind::GetField => 31,
            TermKind::Bracket => 170,
            TermKind::HasFields => 32,
            TermKind::Pluck => 33,
            TermKind::Without => 34,
            TermKind::Merge => 35,
            TermKind::Between => 182,
            TermKind::Slice => 30,
            TermKind::Reduce => 37,
            TermKind::Fold => 187,
            TermKind::Filter => 39,
            TermKind::OrderBy => 41,
            TermKind::Distinct => 42,
            TermKind::Count => 43,
            TermKind::Union => 44,
            TermKind::Nth => 45,
            TermKind::Skip => 70,
            TermKind::Limit => 71,
            TermKind::Update => 53,
            TermKind::Delete => 54,
            TermKind::Replace => 55,
            TermKind::Insert => 56,
            TermKind::DbCreate => 57,
            TermKind::DbDrop => 58,
            TermKind::DbList => 59,
            TermKind::TableCreate => 60,
            TermKind::TableDrop => 61,
            TermKind::TableList => 62,
            TermKind::IndexCreate => 75,
            TermKind::IndexDrop => 76,
            TermKind::IndexList => 77,
            TermKind::IndexStatus => 139,
            TermKind::IndexWait => 140,
            TermKind::IndexRename => 156,
            TermKind::Funcall => 64,
            TermKind::Branch => 65,
            TermKind::Or => 66,
            TermKind::And => 67,
            TermKind::ForEach => 68,
            TermKind::Func => 69,
            TermKind::Asc => 73,
            TermKind::Desc => 74,
            TermKind::Info => 79,
            TermKind::Default => 92,
            TermKind::Group => 144,
            TermKind::Sum => 145,
            TermKind::Avg => 146,
            TermKind::Min => 147,
            TermKind::Max => 148,
            TermKind::Random => 151,
            TermKind::Changes => 152,
            TermKind::Args => 154,
            TermKind::Minval => 180,
            TermKind::Maxval => 181,
            TermKind::Sync => 138,
            TermKind::Grant => 188,
            TermKind::Point => 159,
            TermKind::Circle => 165,
            TermKind::Distance => 162,
            TermKind::GetNearest => 168,
            TermKind::Wait => 177,
            TermKind::Now => 103,
        }
    }
}

/// A JSON-compatible literal value, possibly holding an embedded term.
#[derive(Debug)]
pub enum Datum {
    Null,
    Bool(bool),
    /// A number; the verified model carries the signed 64-bit integers, and
    /// values outside them fail conversion at the rim.
    Number(i64),
    String(String),
    Array(Vec<Datum>),
    /// A string-keyed object; entries keep their insertion order on the
    /// wire, and construction through the command layer keeps keys unique.
    Object(Vec<(String, Datum)>),
    /// An already-decoded generic JSON value, serialized verbatim
    /// (in particular, an array inside it gets no make-array prefix).
    Value(Json),
    /// An embedded sub-term, so values and sub-queries can mix freely.
    Command(Box<Command>),
}

/// Mathematical model of a [`Datum`].
pub enum DatumV {
    Null,
    Bool(bool),
    Number(int),
    Str(Seq<char>),
    Array(Seq<DatumV>),
    Object(Seq<(Seq<char>, DatumV)>),
    Value(JsonV),
    Command(Box<CommandV>),
}

/// A query term: one operation or literal of the query language.
#[derive(Debug)]
pub enum Command {
    /// A one-level indirection wrapping another term; every operation treats
    /// it transparently, so boxed terms compose uniformly with direct ones.
    Boxed(Box<Command>),
    /// A direct node.
    Data {
        /// The operation kind.
        typ: TermKind,
        /// The literal payload; meaningful only when `typ` is the datum kind.
        /// A failed conversion is carried here and surfaces at serialization.
        datum: Option<Result<Datum, Error>>,
        /// The ordered child terms; order is positional argument order.
        args: Vec<Command>,
        /// The trailing options object, if any.
        opts: Option<Result<Datum, Error>>,
        /// Whether this term is (or chains from) a changefeed.
        change_feed: bool,
    },
}

/// Mathematical model of a [`Command`].
pub enum CommandV {
    Boxed(Box<CommandV>),
    Data {
        typ: TermKind,
        datum: Option<Result<DatumV, ErrorV>>,
        args: Seq<CommandV>,
        opts: Option<Result<DatumV, ErrorV>>,
        change_feed: bool,
    },
}

pub open spec fn dres_view(r: Option<Result<Datum, Error>>) -> Option<Result<DatumV, ErrorV>>
    decreases r,
{
    match r {
        Option::None => Option::None,
        Option::Some(Result::Ok(d)) => Option::Some(Result::Ok(dview(d))),
        Option::Some(Result::Err(e)) => Option::Some(Result::Err(e@)),
    }
}

pub open spec fn dview(d: Datum) -> DatumV
    decreases d,
{
    match d {
        Datum::Null => DatumV::Null,
        Datum::Bool(b) => DatumV::Bool(b),
        Datum::Number(n) => DatumV::Number(n as int),
        Datum::String(s) => DatumV::Str(s@),
        Datum::Array(items) => DatumV::Array(dview_seq(items@)),
        Datum::Object(fields) => DatumV::Object(dview_fields(fields@)),
        Datum::Value(j) => DatumV::Value(jview(j)),
        Datum::Command(c) => DatumV::Command(Box::new(cview(*c))),
    }
}

pub open spec fn dview_seq(s: Seq<Datum>) -> Seq<DatumV>
    decreases s,
{
    if s.len() == 0 {
        Seq::empty()
    } else {
        dview_seq(s.drop_last()).push(dview(s.last()))
    }
}

pub open spec fn dview_fields(s: Seq<(String, Datum)>) -> Seq<(Seq<char>, DatumV)>
    decreases s,
{
    if s.len() == 0 {
        Seq::empty()
    } else {
        dview_fields(s.drop_last()).push((s.last().0@, dview(s.last().1)))
    }
}

pub open spec fn cview(c: Command) -> CommandV
    decreases c,
{
    match c {
        Command::Boxed(b) => CommandV::Boxed(Box::new(cview(*b))),
        Command::Data { typ, datum, args, opts, change_feed } => CommandV::Data {
            typ,
            datum: dres_view(datum),
            args: cview_seq(args@),
            opts: dres_view(opts),
            change_feed,
        },
    }
}

pub open spec fn cview_seq(s: Seq<Command>) -> Seq<CommandV>
    decreases s,
{
    if s.len() == 0 {
        Seq::empty()
    } else {
        cview_seq(s.drop_last()).push(cview(s.last()))
    }
}

impl View for Datum {
    type V = DatumV;

    open spec fn view(&self) -> DatumV {
        dview(*self)
    }
}

impl View for Command {
    type V = CommandV;

    open spec fn view(&self) -> CommandV {
        cview(*self)
    }
}

pub proof fn lemma_cview_seq_len(s: Seq<Command>)
    ensures
        cview_seq(s).len() == s.len(),
    decreases s.len(),
{
    if s.len() > 0 {
        lemma_cview_seq_len(s.drop_last());
    }
}

pub broadcast proof fn lemma_cview_seq_index(s: Seq<Command>, i: int)
    requires
        0 <= i < s.len(),
    ensures
        cview_seq(s).len() == s.len(),
        #[trigger] cview_seq(s)[i] == cview(s[i]),
    decreases s.len(),
{
    lemma_cview_seq_len(s);
    if s.len() > 0 && i < s.len() - 1 {
        lemma_cview_seq_index(s.drop_last(), i);
    }
}

pub proof fn lemma_dview_seq_len(s: Seq<Datum>)
    ensures
        dview_seq(s).len() == s.len(),
    decreases s.len(),
{
    if s.len() > 0 {
        lemma_dview_seq_len(s.drop_last());
    }
}

pub broadcast proof fn lemma_dview_seq_index(s: Seq<Datum>, i: int)
    requires
        0 <= i < s.len(),
    ensures
        dview_seq(s).len() == s.len(),
        #[trigger] dview_seq(s)[i] == dview(s[i]),
    decreases s.len(),
{
    lemma_dview_seq_len(s);
    if s.len() > 0 && i < s.len() - 1 {
        lemma_dview_seq_index(s.drop_last(), i);
    }
}

pub proof fn lemma_dview_fields_len(s: Seq<(String, Datum)>)
    ensures
        dview_fields(s).len() == s.len(),
    decreases s.len(),
{
    if s.len() > 0 {
        lemma_dview_fields_len(s.drop_last());
    }
}

pub broadcast proof fn lemma_dview_fields_index(s: Seq<(String, Datum)>, i: int)
    requires
        0 <= i < s.len(),
    ensures
        dview_fields(s).len() == s.len(),
        #[trigger] dview_fields(s)[i] == (s[i].0@, dview(s[i].1)),
    decreases s.len(),
{
    lemma_dview_fields_len(s);
    if s.len() > 0 && i < s.len() - 1 {
        lemma_dview_fields_index(s.drop_last(), i);
    }
}

impl CommandV {
    /// The operation kind, resolved through any indirection.
    pub open spec fn typ(self) -> TermKind
        decreases self,
    {
        match self {
            CommandV::Boxed(b) => b.typ(),
            CommandV::Data { typ, .. } => typ,
        }
    }

    /// The ordered children, resolved through any indirection.
    pub open spec fn args(self) -> Seq<CommandV>
        decreases self,
    {
        match self {
            CommandV::Boxed(b) => b.args(),
            CommandV::Data { args, .. } => args,
        }
    }

    /// The literal payload, resolved through any indirection.
    pub open spec fn datum(self) -> Option<Result<DatumV, ErrorV>>
        decreases self,
    {
        match self {
            CommandV::Boxed(b) => b.datum(),
            CommandV::Data { datum, .. } => datum,
        }
    }

    /// The options slot, resolved through any indirection.
    pub open spec fn opts(self) -> Option<Result<DatumV, ErrorV>>
        decreases self,
    {
        match self {
            CommandV::Boxed(b) => b.opts(),
            CommandV::Data { opts, .. } => opts,
        }
    }

    /// The changefeed marker, resolved through any indirection.
    pub open spec fn change_feed(self) -> bool
        decreases self,
    {
        match self {
            CommandV::Boxed(b) => b.change_feed(),
            CommandV::Data { change_feed, .. } => change_feed,
        }
    }

    /// The same term with the changefeed marker set to `v`.
    pub open spec fn with_change_feed(self, v: bool) -> CommandV
        decreases self,
    {
        match self {
            CommandV::Boxed(b) => CommandV::Boxed(Box::new(b.with_change_feed(v))),
            CommandV::Data { typ, datum, args, opts, change_feed } => CommandV::Data {
                typ,
                datum,
                args,
                opts,
                change_feed: v,
            },
        }
    }

    /// The same term with `a` appended at the back of the children.
    pub open spec fn push_arg(self, a: CommandV) -> CommandV
        decreases self,
    {
        match self {
            CommandV::Boxed(b) => CommandV::Boxed(Box::new(b.push_arg(a))),
            CommandV::Data { typ, datum, args, opts, change_feed } => CommandV::Data {
                typ,
                datum,
                args: args.push(a),
                opts,
                change_feed,
            },
        }
    }

    /// The same term with `a` prepended as the first child.
    pub open spec fn prepend_arg(self, a: CommandV) -> CommandV
        decreases self,
    {
        match self {
            CommandV::Boxed(b) => CommandV::Boxed(Box::new(b.prepend_arg(a))),
            CommandV::Data { typ, datum, args, opts, change_feed } => CommandV::Data {
                typ,
                datum,
                args: seq![a] + args,
                opts,
                change_feed,
            },
        }
    }

    /// The same term with the options slot set.
    pub open spec fn with_opts_slot(self, o: Result<DatumV, ErrorV>) -> CommandV
        decreases self,
    {
        match self {
            CommandV::Boxed(b) => CommandV::Boxed(Box::new(b.with_opts_slot(o))),
            CommandV::Data { typ, datum, args, opts, change_feed } => CommandV::Data {
                typ,
                datum,
                args,
                opts: Option::Some(o),
                change_feed,
            },
        }
    }

    /// What `with_parent` builds: the parent becomes the first child and the
    /// changefeed marker is the disjunction of both markers.
    pub open spec fn spec_with_parent(self, parent: CommandV) -> CommandV {
        self.with_change_feed(self.change_feed() || parent.change_feed()).prepend_arg(parent)
    }

    /// A term of the datum kind holding the given literal slot.
    pub open spec fn spec_datum_term(r: Result<DatumV, ErrorV>) -> CommandV {
        CommandV::Data {
            typ: TermKind::Datum,
            datum: Option::Some(r),
            args: Seq::empty(),
            opts: Option::None,
            change_feed: false,
        }
    }

    /// Whether this term is a literal null: the "omit this optional
    /// argument" test of the argument layer.
    pub open spec fn spec_is_null(self) -> bool {
        self.typ() == TermKind::Datum && self.datum() == Option::Some(
            Result::<DatumV, ErrorV>::Ok(DatumV::Null),
        )
    }
}

/// A datum models to the null value exactly when it is the null variant.
pub proof fn lemma_dview_null(d: Datum)
    ensures
        (dview(d) == DatumV::Null) <==> (d is Null),
{
    match d {
        Datum::Null => {},
        Datum::Bool(_) => {},
        Datum::Number(_) => {},
        Datum::String(_) => {},
        Datum::Array(_) => {},
        Datum::Object(_) => {},
        Datum::Value(j) => {
            match j {
                crate::json::Json::Null => {
                    assert(dview(d) == DatumV::Value(crate::json::JsonV::Null));
                },
                crate::json::Json::Bool(_) => {},
                crate::json::Json::Int(_) => {},
                crate::json::Json::Fixed(_, _) => {},
                crate::json::Json::Str(_) => {},
                crate::json::Json::Arr(_) => {},
                crate::json::Json::Obj(_) => {},
            }
        },
        Datum::Command(_) => {},
    }
}

impl Command {
    /// An empty node of the given operation kind.
    pub fn new(typ: TermKind) -> (r: Command)
        ensures
            r@ == (CommandV::Data {
                typ,
                datum: Option::None,
                args: Seq::<CommandV>::empty(),
                opts: Option::None,
                change_feed: false,
            }),
    {
        let args: Vec<Command> = Vec::new();
        let r = Command::Data { typ, datum: Option::None, args, opts: Option::None, change_feed: false };
        proof {
            assert(cview_seq(Seq::<Command>::empty()) =~= Seq::<CommandV>::empty());
            assert(r@ is Data);
            assert(r@->Data_typ == typ);
            assert(r@->Data_datum == dres_view(Option::<Result<Datum, Error>>::None));
            assert(r@->Data_datum == Option::<Result<DatumV, ErrorV>>::None);
            assert(r@->Data_args =~= Seq::<CommandV>::empty());
            assert(r@->Data_opts == Option::<Result<DatumV, ErrorV>>::None);
            assert(r@->Data_change_feed == false);
        }
        r
    }

    /// A literal term carrying the given conversion result; a failure is
    /// stored, not raised, and surfaces at serialization.
    pub fn from_result(res: Result<Datum, Error>) -> (r: Command)
        ensures
            r@ == CommandV::spec_datum_term(
                match res {
                    Result::Ok(d) => Result::Ok(d@),
                    Result::Err(e) => Result::Err(e@),
                },
            ),
    {
        let ghost res_v = match &res {
            Result::Ok(d) => Result::<DatumV, ErrorV>::Ok(d@),
            Result::Err(e) => Result::<DatumV, ErrorV>::Err(e@),
        };
        let args: Vec<Command> = Vec::new();
        let r = Command::Data {
            typ: TermKind::Datum,
            datum: Option::Some(res),
            args,
            opts: Option::None,
            change_feed: false,
        };
        proof {
            assert(cview_seq(Seq::<Command>::empty()) =~= Seq::<CommandV>::empty());
            assert(r@->Data_datum == dres_view(Option::Some(res)));
            assert(dres_view(Option::Some(res)) == Option::Some(res_v));
            assert(r@->Data_args =~= Seq::<CommandV>::empty());
            assert(r@->Data_opts == dres_view(Option::<Result<Datum, Error>>::None));
            assert(r@ == CommandV::spec_datum_term(res_v));
        }
        r
    }

    /// A literal term for a value already converted to a [`Datum`].
    pub fn from_json(d: Datum) -> (r: Command)
        ensures
            r@ == CommandV::spec_datum_term(Result::Ok(d@)),
    {
        Command::from_result(Result::Ok(d))
    }

    /// A variable-reference term for the bound variable `id`.
    pub fn var(id: u64) -> (r: Command)
        requires
            id <= i64::MAX as u64,
        ensures
            r@ == (CommandV::Data {
                typ: TermKind::Var,
                datum: Option::None,
                args: seq![
                    CommandV::spec_datum_term(Result::Ok(DatumV::Number(id as int)))
                ],
                opts: Option::None,
                change_feed: false,
            }),
    {
        let index = Command::from_json(Datum::Number(id as i64));
        let r = Command::new(TermKind::Var).with_arg(index);
        proof {
            assert(r@.args() =~= seq![
                CommandV::spec_datum_term(Result::Ok(DatumV::Number(id as int)))
            ]);
        }
        r
    }

    /// Append `arg` at the back of the children, in call order.
    pub fn with_arg(self, arg: Command) -> (r: Command)
        ensures
            r@ == self@.push_arg(arg@),
        decreases self,
    {
        match self {
            Command::Boxed(b) => Command::Boxed(Box::new((*b).with_arg(arg))),
            Command::Data { typ, datum, mut args, opts, change_feed } => {
                let ghost old_args = args@;
                args.push(arg);
                let r = Command::Data { typ, datum, args, opts, change_feed };
                proof {
                    assert(cview_seq(old_args.push(arg)) =~= cview_seq(old_args).push(arg@)) by {
                        assert(old_args.push(arg).drop_last() =~= old_args);
                    }
                }
                r
            },
        }
    }

    /// Prepend `parent` as the first child (the receiver of a chained call
    /// becomes the first positional argument) and OR-combine the changefeed
    /// marker of both terms.
    pub fn with_parent(self, parent: Command) -> (r: Command)
        ensures
            r@ == self@.spec_with_parent(parent@),
    {
        let cf = self.change_feed() || parent.change_feed();
        let s = self.set_change_feed(cf);
        s.prepend_arg_cmd(parent)
    }

    fn prepend_arg_cmd(self, arg: Command) -> (r: Command)
        ensures
            r@ == self@.prepend_arg(arg@),
        decreases self,
    {
        match self {
            Command::Boxed(b) => {
                let ghost self_v = CommandV::Boxed(Box::new(cview(*b)));
                proof {
                    assert(self@ == self_v);
                }
                let inner = (*b).prepend_arg_cmd(arg);
                let r = Command::Boxed(Box::new(inner));
                proof {
                    assert(r@ == CommandV::Boxed(Box::new(inner@)));
                    assert(self_v.prepend_arg(arg@) == CommandV::Boxed(
                        Box::new(cview(*b).prepend_arg(arg@)),
                    ));
                    assert(inner@ == cview(*b).prepend_arg(arg@));
                    assert(r@ == self_v.prepend_arg(arg@));
                    assert(r@ == self@.prepend_arg(arg@));
                }
                r
            },
            Command::Data { typ, datum, mut args, opts, change_feed } => {
                let ghost old_args = args@;
                let ghost arg_v = arg@;
                args.insert(0, arg);
                let r = Command::Data { typ, datum, args, opts, change_feed };
                proof {
                    assert(args@ =~= seq![arg] + old_args);
                    lemma_cview_seq_len(old_args);
                    lemma_cview_seq_len(seq![arg] + old_args);
                    assert forall|i: int| 0 <= i < old_args.len() + 1 implies #[trigger] cview_seq(
                        seq![arg] + old_args,
                    )[i] == (seq![arg_v] + cview_seq(old_args))[i] by {
                        lemma_cview_seq_index(seq![arg] + old_args, i);
                        if i > 0 {
                            lemma_cview_seq_index(old_args, i - 1);
                        }
                    }
                    assert(cview_seq(seq![arg] + old_args) =~= seq![arg_v] + cview_seq(old_args));
                }
                r
            },
        }
    }

    /// The operation kind of this term.
    pub fn typ(&self) -> (t: TermKind)
        ensures
            t == self@.typ(),
        decreases *self,
    {
        match self {
            Command::Boxed(b) => b.typ(),
            Command::Data { typ, .. } => *typ,
        }
    }

    /// Whether this term is (or chains from) a changefeed.
    pub fn change_feed(&self) -> (cf: bool)
        ensures
            cf == self@.change_feed(),
        decreases *self,
    {
        match self {
            Command::Boxed(b) => b.change_feed(),
            Command::Data { change_feed, .. } => *change_feed,
        }
    }

    fn set_change_feed(self, v: bool) -> (r: Command)
        ensures
            r@ == self@.with_change_feed(v),
        decreases self,
    {
        match self {
            Command::Boxed(b) => Command::Boxed(Box::new((*b).set_change_feed(v))),
            Command::Data { typ, datum, args, opts, change_feed } => Command::Data {
                typ,
                datum,
                args,
                opts,
                change_feed: v,
            },
        }
    }

    /// Mark this term as a changefeed; chaining keeps the mark.
    pub fn mark_change_feed(self) -> (r: Command)
        ensures
            r@ == self@.with_change_feed(true),
    {
        self.set_change_feed(true)
    }

    /// Whether this term is a literal null (or the unit value), which the
    /// argument layer omits instead of serializing.
    pub fn is_null_json(&self) -> (r: bool)
        ensures
            r == self@.spec_is_null(),
        decreases *self,
    {
        match self {
            Command::Boxed(b) => {
                let r = b.is_null_json();
                proof {
                    assert(self@.typ() == cview(**b).typ());
                    assert(self@.datum() == cview(**b).datum());
                }
                r
            },
            Command::Data { typ, datum, .. } => {
                if *typ != TermKind::Datum {
                    return false;
                }
                match datum {
                    Option::Some(Result::Ok(d)) => {
                        let r = match d {
                            Datum::Null => true,
                            _ => false,
                        };
                        proof {
                            lemma_dview_null(*d);
                            assert(self@.datum() == dres_view(*datum));
                            assert(dres_view(*datum) == Option::Some(Result::<DatumV,
                                ErrorV>::Ok(dview(*d))));
                        }
                        r
                    },
                    Option::Some(Result::Err(_)) => {
                        proof {
                            assert(self@.datum() == dres_view(*datum));
                        }
                        false
                    },
                    Option::None => {
                        proof {
                            assert(self@.datum() == dres_view(*datum));
                        }
                        false
                    },
                }
            },
        }
    }

    fn set_opts_slot(self, o: Result<Datum, Error>) -> (r: Command)
        ensures
            r@ == self@.with_opts_slot(
                match o {
                    Result::Ok(d) => Result::Ok(d@),
                    Result::Err(e) => Result::Err(e@),
                },
            ),
        decreases self,
    {
        match self {
            Command::Boxed(b) => {
                let ghost self_v = CommandV::Boxed(Box::new(cview(*b)));
                let ghost o_v = match &o {
                    Result::Ok(d) => Result::<DatumV, ErrorV>::Ok(d@),
                    Result::Err(e) => Result::<DatumV, ErrorV>::Err(e@),
                };
                let inner = (*b).set_opts_slot(o);
                let r = Command::Boxed(Box::new(inner));
                proof {
                    assert(r@ == CommandV::Boxed(Box::new(inner@)));
                    assert(self_v.with_opts_slot(o_v) == CommandV::Boxed(
                        Box::new(cview(*b).with_opts_slot(o_v)),
                    ));
                }
                r
            },
            Command::Data { typ, datum, args, opts, change_feed } => {
                let r = Command::Data { typ, datum, args, opts: Option::Some(o), change_feed };
                proof {
                    assert(r@->Data_opts == dres_view(Option::Some(o)));
                }
                r
            },
        }
    }

    /// Attach an options object, handed over as a term: a literal datum is
    /// stored directly, any other term is stored as an embedded-term datum,
    /// so option values that are themselves queries are legal.
    pub fn with_opts(self, opts: Command) -> (r: Command)
        ensures
            r@ == self@.with_opts_slot(spec_opts_datum(opts@)),
    {
        let ghost opts_v = opts@;
        let (unwrapped, was_boxed): (Command, bool) = match opts {
            Command::Boxed(b) => (*b, true),
            direct => (direct, false),
        };
        let ghost unwrapped_v = unwrapped@;
        proof {
            if was_boxed {
                assert(opts_v == CommandV::Boxed(Box::new(unwrapped_v)));
            } else {
                assert(opts_v == unwrapped_v);
            }
        }
        match unwrapped {
            Command::Data { typ, datum, args, opts: oslot, change_feed } => {
                let is_literal = typ == TermKind::Datum && match &datum {
                    Option::Some(_) => true,
                    Option::None => false,
                };
                if is_literal {
                    let d = match datum {
                        Option::Some(d) => d,
                        Option::None => Result::Ok(Datum::Null),
                    };
                    let ghost d_v = match &d {
                        Result::Ok(x) => Result::<DatumV, ErrorV>::Ok(x@),
                        Result::Err(e) => Result::<DatumV, ErrorV>::Err(e@),
                    };
                    proof {
                        assert(unwrapped_v->Data_datum == dres_view(Option::Some(d)));
                        assert(spec_opts_datum(opts_v) == d_v);
                    }
                    self.set_opts_slot(d)
                } else {
                    let rebuilt = Command::Data { typ, datum, args, opts: oslot, change_feed };
                    proof {
                        assert(rebuilt@ == unwrapped_v);
                        if typ == TermKind::Datum {
                            assert(unwrapped_v->Data_datum == dres_view(
                                Option::<Result<Datum, Error>>::None,
                            ));
                        }
                        assert(spec_opts_datum(opts_v) == Result::<DatumV, ErrorV>::Ok(
                            DatumV::Command(Box::new(unwrapped_v)),
                        ));
                    }
                    self.set_opts_slot(Result::Ok(Datum::Command(Box::new(rebuilt))))
                }
            },
            nested => {
                let ghost nested_v = nested@;
                proof {
                    assert(nested_v == unwrapped_v);
                    assert(spec_opts_datum(opts_v) == Result::<DatumV, ErrorV>::Ok(
                        DatumV::Command(Box::new(unwrapped_v)),
                    ));
                }
                self.set_opts_slot(Result::Ok(Datum::Command(Box::new(nested))))
            },
        }
    }
}

/// What the options slot stores for a term handed to `with_opts`: the datum
/// of a literal term, or the whole term embedded as a datum.
pub open spec fn spec_opts_datum(opts: CommandV) -> Result<DatumV, ErrorV> {
    match opts {
        CommandV::Data { typ: TermKind::Datum, datum: Option::Some(d), .. } => d,
        CommandV::Boxed(b) => match *b {
            CommandV::Data { typ: TermKind::Datum, datum: Option::Some(d), .. } => d,
            inner => Result::Ok(DatumV::Command(Box::new(inner))),
        },
        other => Result::Ok(DatumV::Command(Box::new(other))),
    }
}

impl Datum {
    /// Embed this value as a literal term.
    pub fn into_command(self) -> (r: Command)
        ensures
            r@ == CommandV::spec_datum_term(Result::Ok(self@)),
    {
        Command::from_json(self)
    }
}

/// The exact JSON value a datum serializes to: a literal serializes as bare
/// JSON, except that an array gets the make-array prefix so that the server
/// cannot mistake it for positional arguments.
pub open spec fn wire_datum(d: DatumV) -> JsonV
    decreases d,
{
    match d {
        DatumV::Null => JsonV::Null,
        DatumV::Bool(b) => JsonV::Bool(b),
        DatumV::Number(n) => JsonV::Int(n),
        DatumV::Str(s) => JsonV::Str(s),
        DatumV::Array(items) => JsonV::Arr(
            seq![JsonV::Int(TermKind::MakeArray.code_spec()), JsonV::Arr(wire_datums(items))],
        ),
        DatumV::Object(fields) => JsonV::Obj(wire_fields(fields)),
        DatumV::Value(j) => j,
        DatumV::Command(c) => wire_cmd(*c),
    }
}

pub open spec fn wire_datums(s: Seq<DatumV>) -> Seq<JsonV>
    decreases s,
{
    if s.len() == 0 {
        Seq::empty()
    } else {
        wire_datums(s.drop_last()).push(wire_datum(s.last()))
    }
}

pub open spec fn wire_fields(s: Seq<(Seq<char>, DatumV)>) -> Seq<(Seq<char>, JsonV)>
    decreases s,
{
    if s.len() == 0 {
        Seq::empty()
    } else {
        wire_fields(s.drop_last()).push((s.last().0, wire_datum(s.last().1)))
    }
}

/// The exact JSON value a term serializes to: a literal node serializes as
/// its datum, any other node as `[kind]`, `[kind, children]` or
/// `[kind, children, options]`; children are omitted only when both children
/// and options are absent.
pub open spec fn wire_cmd(c: CommandV) -> JsonV
    decreases c,
{
    match c {
        CommandV::Boxed(b) => wire_cmd(*b),
        CommandV::Data { typ, datum, args, opts, .. } => {
            if typ == TermKind::Datum {
                match datum {
                    Option::Some(Result::Ok(d)) => wire_datum(d),
                    _ => JsonV::Null,
                }
            } else {
                let code = JsonV::Int(typ.code_spec());
                match opts {
                    Option::Some(Result::Ok(o)) => JsonV::Arr(
                        seq![code, JsonV::Arr(wire_cmds(args)), wire_datum(o)],
                    ),
                    _ => if args.len() == 0 {
                        JsonV::Arr(seq![code])
                    } else {
                        JsonV::Arr(seq![code, JsonV::Arr(wire_cmds(args))])
                    },
                }
            }
        },
    }
}

pub open spec fn wire_cmds(s: Seq<CommandV>) -> Seq<JsonV>
    decreases s,
{
    if s.len() == 0 {
        Seq::empty()
    } else {
        wire_cmds(s.drop_last()).push(wire_cmd(s.last()))
    }
}

/// Whether serialization of this datum succeeds: no carried conversion
/// failure anywhere inside.
pub open spec fn datum_ok(d: DatumV) -> bool
    decreases d, 0int,
{
    match d {
        DatumV::Array(items) => datums_ok_from(items, 0),
        DatumV::Object(fields) => fields_ok_from(fields, 0),
        DatumV::Command(c) => cmd_ok(*c),
        _ => true,
    }
}

pub open spec fn datums_ok_from(s: Seq<DatumV>, i: int) -> bool
    decreases s, s.len() - i,
{
    if i < 0 || i >= s.len() {
        true
    } else {
        datum_ok(s[i]) && datums_ok_from(s, i + 1)
    }
}

pub open spec fn fields_ok_from(s: Seq<(Seq<char>, DatumV)>, i: int) -> bool
    decreases s, s.len() - i,
{
    if i < 0 || i >= s.len() {
        true
    } else {
        datum_ok(s[i].1) && fields_ok_from(s, i + 1)
    }
}

/// Whether serialization of this term succeeds. A literal node fails on a
/// carried failure; any other node fails on a failed options slot or a
/// failing child, and its own literal slot is ignored.
pub open spec fn cmd_ok(c: CommandV) -> bool
    decreases c, 0int,
{
    match c {
        CommandV::Boxed(b) => cmd_ok(*b),
        CommandV::Data { typ, datum, args, opts, .. } => {
            if typ == TermKind::Datum {
                match datum {
                    Option::Some(Result::Err(_)) => false,
                    Option::Some(Result::Ok(d)) => datum_ok(d),
                    Option::None => true,
                }
            } else {
                match opts {
                    Option::Some(Result::Err(_)) => false,
                    Option::Some(Result::Ok(o)) => cmds_ok_from(args, 0) && datum_ok(o),
                    Option::None => cmds_ok_from(args, 0),
                }
            }
        },
    }
}

pub open spec fn cmds_ok_from(s: Seq<CommandV>, i: int) -> bool
    decreases s, s.len() - i,
{
    if i < 0 || i >= s.len() {
        true
    } else {
        cmd_ok(s[i]) && cmds_ok_from(s, i + 1)
    }
}

/// The first carried failure serialization meets, in traversal order: the
/// options slot of a node is checked before its children, and a literal
/// options object is serialized after the children.
pub open spec fn cmd_err(c: CommandV) -> ErrorV
    decreases c, 0int,
{
    match c {
        CommandV::Boxed(b) => cmd_err(*b),
        CommandV::Data { typ, datum, args, opts, .. } => {
            if typ == TermKind::Datum {
                match datum {
                    Option::Some(Result::Err(e)) => e,
                    Option::Some(Result::Ok(d)) => datum_err(d),
                    Option::None => vstd::pervasive::arbitrary(),
                }
            } else {
                match opts {
                    Option::Some(Result::Err(e)) => e,
                    Option::Some(Result::Ok(o)) => if !cmds_ok_from(args, 0) {
                        cmds_err_from(args, 0)
                    } else {
                        datum_err(o)
                    },
                    Option::None => cmds_err_from(args, 0),
                }
            }
        },
    }
}

pub open spec fn datum_err(d: DatumV) -> ErrorV
    decreases d, 0int,
{
    match d {
        DatumV::Array(items) => datums_err_from(items, 0),
        DatumV::Object(fields) => fields_err_from(fields, 0),
        DatumV::Command(c) => cmd_err(*c),
        _ => vstd::pervasive::arbitrary(),
    }
}

pub open spec fn cmds_err_from(s: Seq<CommandV>, i: int) -> ErrorV
    decreases s, s.len() - i,
{
    if i < 0 || i >= s.len() {
        vstd::pervasive::arbitrary()
    } else if !cmd_ok(s[i]) {
        cmd_err(s[i])
    } else {
        cmds_err_from(s, i + 1)
    }
}

pub open spec fn datums_err_from(s: Seq<DatumV>, i: int) -> ErrorV
    decreases s, s.len() - i,
{
    if i < 0 || i >= s.len() {
        vstd::pervasive::arbitrary()
    } else if !datum_ok(s[i]) {
        datum_err(s[i])
    } else {
        datums_err_from(s, i + 1)
    }
}

pub open spec fn fields_err_from(s: Seq<(Seq<char>, DatumV)>, i: int) -> ErrorV
    decreases s, s.len() - i,
{
    if i < 0 || i >= s.len() {
        vstd::pervasive::arbitrary()
    } else if !datum_ok(s[i].1) {
        datum_err(s[i].1)
    } else {
        fields_err_from(s, i + 1)
    }
}

pub proof fn lemma_wire_cmds_len(s: Seq<CommandV>)
    ensures
        wire_cmds(s).len() == s.len(),
    decreases s.len(),
{
    if s.len() > 0 {
        lemma_wire_cmds_len(s.drop_last());
    }
}

pub broadcast proof fn lemma_wire_cmds_index(s: Seq<CommandV>, i: int)
    requires
        0 <= i < s.len(),
    ensures
        wire_cmds(s).len() == s.len(),
        #[trigger] wire_cmds(s)[i] == wire_cmd(s[i]),
    decreases s.len(),
{
    lemma_wire_cmds_len(s);
    if s.len() > 0 && i < s.len() - 1 {
        lemma_wire_cmds_index(s.drop_last(), i);
    }
}

pub proof fn lemma_wire_datums_len(s: Seq<DatumV>)
    ensures
        wire_datums(s).len() == s.len(),
    decreases s.len(),
{
    if s.len() > 0 {
        lemma_wire_datums_len(s.drop_last());
    }
}

pub broadcast proof fn lemma_wire_datums_index(s: Seq<DatumV>, i: int)
    requires
        0 <= i < s.len(),
    ensures
        wire_datums(s).len() == s.len(),
        #[trigger] wire_datums(s)[i] == wire_datum(s[i]),
    decreases s.len(),
{
    lemma_wire_datums_len(s);
    if s.len() > 0 && i < s.len() - 1 {
        lemma_wire_datums_index(s.drop_last(), i);
    }
}

pub proof fn lemma_wire_fields_len(s: Seq<(Seq<char>, DatumV)>)
    ensures
        wire_fields(s).len() == s.len(),
    decreases s.len(),
{
    if s.len() > 0 {
        lemma_wire_fields_len(s.drop_last());
    }
}

pub broadcast proof fn lemma_wire_fields_index(s: Seq<(Seq<char>, DatumV)>, i: int)
    requires
        0 <= i < s.len(),
    ensures
        wire_fields(s).len() == s.len(),
        #[trigger] wire_fields(s)[i] == (s[i].0, wire_datum(s[i].1)),
    decreases s.len(),
{
    lemma_wire_fields_len(s);
    if s.len() > 0 && i < s.len() - 1 {
        lemma_wire_fields_index(s.drop_last(), i);
    }
}

impl Datum {
    /// Serialize this datum to its wire JSON value, or return the first
    /// carried conversion failure inside it.
    #[verifier::loop_isolation(false)]
    pub fn serialize(&self) -> (r: Result<Json, Error>)
        ensures
            datum_ok(self@) ==> r is Ok && r->Ok_0@ == wire_datum(self@),
            !datum_ok(self@) ==> r is Err && r->Err_0@ == datum_err(self@),
        decreases *self,
    {
        match self {
            Datum::Null => Result::Ok(Json::Null),
            Datum::Bool(b) => Result::Ok(Json::Bool(*b)),
            Datum::Number(n) => Result::Ok(Json::Int(*n)),
            Datum::String(s) => Result::Ok(Json::Str(s.clone())),
            Datum::Value(j) => Result::Ok(j.clone()),
            Datum::Command(c) => {
                let r = (&**c).serialize();
                proof {
                    assert(self@ == DatumV::Command(Box::new(cview(**c))));
                }
                r
            },
            Datum::Array(items) => {
                let ghost items_v = dview_seq(items@);
                proof {
                    lemma_dview_seq_len(items@);
                    assert(self@ == DatumV::Array(items_v));
                }
                let n = items.len();
                let mut elems: Vec<Json> = Vec::new();
                let mut k: usize = 0;
                while k < n
                    invariant
                        k <= n,
                        elems@.len() == k,
                        datums_ok_from(items_v, 0) == datums_ok_from(items_v, k as int),
                        datums_err_from(items_v, 0) == datums_err_from(items_v, k as int),
                        forall|t: int|
                            0 <= t < k ==> #[trigger] jview(elems@[t]) == wire_datum(items_v[t]),
                    decreases n - k,
                {
                    proof {
                        assert(decreases_to!(*self => *items));
                        assert(decreases_to!(*items => items@));
                        assert(decreases_to!(items@ => items@[k as int]));
                        lemma_dview_seq_index(items@, k as int);
                    }
                    match items[k].serialize() {
                        Result::Ok(j) => {
                            elems.push(j);
                            k = k + 1;
                        },
                        Result::Err(e) => {
                            proof {
                                assert(!datums_ok_from(items_v, k as int));
                                assert(datums_err_from(items_v, k as int) == datum_err(
                                    items_v[k as int],
                                ));
                            }
                            return Result::Err(e);
                        },
                    }
                }
                let inner = Json::Arr(elems);
                let code = TermKind::MakeArray.code();
                let mut outer: Vec<Json> = Vec::new();
                outer.push(Json::Int(code));
                outer.push(inner);
                let r = Json::Arr(outer);
                proof {
                    assert(datums_ok_from(items_v, n as int));
                    lemma_wire_datums_len(items_v);
                    lemma_jview_seq_len(elems@);
                    assert forall|t: int| 0 <= t < n implies #[trigger] jview_seq(elems@)[t]
                        == wire_datums(items_v)[t] by {
                        lemma_jview_seq_index(elems@, t);
                        lemma_wire_datums_index(items_v, t);
                    }
                    assert(jview_seq(elems@) =~= wire_datums(items_v));
                    lemma_jview_seq_len(outer@);
                    lemma_jview_seq_index(outer@, 0);
                    lemma_jview_seq_index(outer@, 1);
                    assert(jview_seq(outer@) =~= seq![
                        JsonV::Int(TermKind::MakeArray.code_spec()),
                        JsonV::Arr(wire_datums(items_v)),
                    ]);
                }
                Result::Ok(r)
            },
            Datum::Object(fields) => {
                let ghost fields_v = dview_fields(fields@);
                proof {
                    lemma_dview_fields_len(fields@);
                    assert(self@ == DatumV::Object(fields_v));
                }
                let n = fields.len();
                let mut out: Vec<(String, Json)> = Vec::new();
                let mut k: usize = 0;
                while k < n
                    invariant
                        k <= n,
                        out@.len() == k,
                        fields_ok_from(fields_v, 0) == fields_ok_from(fields_v, k as int),
                        fields_err_from(fields_v, 0) == fields_err_from(fields_v, k as int),
                        forall|t: int|
                            0 <= t < k ==> #[trigger] out@[t].0@ == fields_v[t].0 && jview(
                                out@[t].1,
                            ) == wire_datum(fields_v[t].1),
                    decreases n - k,
                {
                    proof {
                        assert(decreases_to!(*self => *fields));
                        assert(decreases_to!(*fields => fields@));
                        assert(decreases_to!(fields@ => fields@[k as int]));
                        assert(decreases_to!(fields@[k as int] => fields@[k as int].1));
                        lemma_dview_fields_index(fields@, k as int);
                    }
                    match fields[k].1.serialize() {
                        Result::Ok(j) => {
                            let key = fields[k].0.clone();
                            out.push((key, j));
                            k = k + 1;
                        },
                        Result::Err(e) => {
                            proof {
                                assert(!fields_ok_from(fields_v, k as int));
                                assert(fields_err_from(fields_v, k as int) == datum_err(
                                    fields_v[k as int].1,
                                ));
                            }
                            return Result::Err(e);
                        },
                    }
                }
                let r = Json::Obj(out);
                proof {
                    assert(fields_ok_from(fields_v, n as int));
                    lemma_wire_fields_len(fields_v);
                    lemma_jview_fields_len(out@);
                    assert forall|t: int| 0 <= t < n implies #[trigger] jview_fields(out@)[t]
                        == wire_fields(fields_v)[t] by {
                        lemma_jview_fields_index(out@, t);
                        lemma_wire_fields_index(fields_v, t);
                    }
                    assert(jview_fields(out@) =~= wire_fields(fields_v));
                }
                Result::Ok(r)
            },
        }
    }
}

impl Command {
    /// Serialize this term to its wire JSON value, or return the first
    /// carried conversion failure that serialization meets.
    #[verifier::loop_isolation(false)]
    pub fn serialize(&self) -> (r: Result<Json, Error>)
        ensures
            cmd_ok(self@) ==> r is Ok && r->Ok_0@ == wire_cmd(self@),
            !cmd_ok(self@) ==> r is Err && r->Err_0@ == cmd_err(self@),
        decreases *self,
    {
        match self {
            Command::Boxed(b) => {
                let r = (&**b).serialize();
                proof {
                    assert(self@ == CommandV::Boxed(Box::new(cview(**b))));
                }
                r
            },
            Command::Data { typ, datum, args, opts, .. } => {
                let ghost self_v = self@;
                if *typ == TermKind::Datum {
                    match datum {
                        Option::Some(Result::Ok(d)) => {
                            let r = d.serialize();
                            proof {
                                assert(self_v->Data_datum == dres_view(*datum));
                            }
                            r
                        },
                        Option::Some(Result::Err(e)) => {
                            proof {
                                assert(self_v->Data_datum == dres_view(*datum));
                            }
                            Result::Err(e.clone())
                        },
                        Option::None => {
                            proof {
                                assert(self_v->Data_datum == dres_view(*datum));
                            }
                            Result::Ok(Json::Null)
                        },
                    }
                } else {
                    proof {
                        assert(self_v->Data_opts == dres_view(*opts));
                    }
                    match opts {
                        Option::Some(Result::Err(e)) => {
                            return Result::Err(e.clone());
                        },
                        _ => {},
                    }
                    let ghost args_v = cview_seq(args@);
                    proof {
                        lemma_cview_seq_len(args@);
                        assert(self_v->Data_args == args_v);
                    }
                    let n = args.len();
                    let mut elems: Vec<Json> = Vec::new();
                    let mut k: usize = 0;
                    while k < n
                        invariant
                            k <= n,
                            elems@.len() == k,
                            cmds_ok_from(args_v, 0) == cmds_ok_from(args_v, k as int),
                            cmds_err_from(args_v, 0) == cmds_err_from(args_v, k as int),
                            forall|t: int|
                                0 <= t < k ==> #[trigger] jview(elems@[t]) == wire_cmd(args_v[t]),
                        decreases n - k,
                    {
                        proof {
                            assert(decreases_to!(*self => *args));
                            assert(decreases_to!(*args => args@));
                            assert(decreases_to!(args@ => args@[k as int]));
                            lemma_cview_seq_index(args@, k as int);
                        }
                        match args[k].serialize() {
                            Result::Ok(j) => {
                                elems.push(j);
                                k = k + 1;
                            },
                            Result::Err(e) => {
                                proof {
                                    assert(!cmds_ok_from(args_v, k as int));
                                    assert(cmds_err_from(args_v, k as int) == cmd_err(
                                        args_v[k as int],
                                    ));
                                }
                                return Result::Err(e);
                            },
                        }
                    }
                    proof {
                        assert(cmds_ok_from(args_v, n as int));
                        lemma_wire_cmds_len(args_v);
                        lemma_jview_seq_len(elems@);
                        assert forall|t: int| 0 <= t < n implies #[trigger] jview_seq(elems@)[t]
                            == wire_cmds(args_v)[t] by {
                            lemma_jview_seq_index(elems@, t);
                            lemma_wire_cmds_index(args_v, t);
                        }
                        assert(jview_seq(elems@) =~= wire_cmds(args_v));
                    }
                    let code = typ.code();
                    match opts {
                        Option::Some(Result::Ok(o)) => {
                            proof {
                                assert(decreases_to!(*self => *opts));
                                assert(decreases_to!(*opts => *o));
                            }
                            match o.serialize() {
                                Result::Ok(oj) => {
                                    let mut outer: Vec<Json> = Vec::new();
                                    outer.push(Json::Int(code));
                                    outer.push(Json::Arr(elems));
                                    outer.push(oj);
                                    let r = Json::Arr(outer);
                                    proof {
                                        lemma_jview_seq_len(outer@);
                                        lemma_jview_seq_index(outer@, 0);
                                        lemma_jview_seq_index(outer@, 1);
                                        lemma_jview_seq_index(outer@, 2);
                                        assert(jview_seq(outer@) =~= seq![
                                            JsonV::Int(typ.code_spec()),
                                            JsonV::Arr(wire_cmds(args_v)),
                                            wire_datum(dview(*o)),
                                        ]);
                                    }
                                    Result::Ok(r)
                                },
                                Result::Err(e) => Result::Err(e),
                            }
                        },
                        _ => {
                            if n == 0 {
                                let mut outer: Vec<Json> = Vec::new();
                                outer.push(Json::Int(code));
                                let r = Json::Arr(outer);
                                proof {
                                    lemma_jview_seq_len(outer@);
                                    lemma_jview_seq_index(outer@, 0);
                                    assert(jview_seq(outer@) =~= seq![JsonV::Int(typ.code_spec())]);
                                }
                                Result::Ok(r)
                            } else {
                                let mut outer: Vec<Json> = Vec::new();
                                outer.push(Json::Int(code));
                                outer.push(Json::Arr(elems));
                                let r = Json::Arr(outer);
                                proof {
                                    lemma_jview_seq_len(outer@);
                                    lemma_jview_seq_index(outer@, 0);
                                    lemma_jview_seq_index(outer@, 1);
                                    assert(jview_seq(outer@) =~= seq![
                                        JsonV::Int(typ.code_spec()),
                                        JsonV::Arr(wire_cmds(args_v)),
                                    ]);
                                }
                                Result::Ok(r)
                            }
                        },
                    }
                }
            },
        }
    }

    /// Serialize this term all the way to JSON text.
    pub fn to_wire_string(&self) -> (r: Result<String, Error>)
        ensures
            cmd_ok(self@) ==> r is Ok && r->Ok_0@ == crate::json::json_text(wire_cmd(self@)),
            !cmd_ok(self@) ==> r is Err && r->Err_0@ == cmd_err(self@),
    {
        match self.serialize() {
            Result::Ok(j) => Result::Ok(j.to_text()),
            Result::Err(e) => Result::Err(e),
        }
    }
}

/// Whether a datum holds an unguarded implicit-row reference, scanning
/// embedded terms and object/array literals.
pub open spec fn datum_has_ivar(d: DatumV) -> bool
    decreases d, 0int,
{
    match d {
        DatumV::Array(items) => datums_have_ivar_from(items, 0),
        DatumV::Object(fields) => fields_have_ivar_from(fields, 0),
        DatumV::Command(c) => cmd_has_ivar(*c),
        _ => false,
    }
}

pub open spec fn datums_have_ivar_from(s: Seq<DatumV>, i: int) -> bool
    decreases s, s.len() - i,
{
    if i < 0 || i >= s.len() {
        false
    } else {
        datum_has_ivar(s[i]) || datums_have_ivar_from(s, i + 1)
    }
}

pub open spec fn fields_have_ivar_from(s: Seq<(Seq<char>, DatumV)>, i: int) -> bool
    decreases s, s.len() - i,
{
    if i < 0 || i >= s.len() {
        false
    } else {
        datum_has_ivar(s[i].1) || fields_have_ivar_from(s, i + 1)
    }
}

/// Whether a term holds an unguarded implicit-row reference: one not already
/// enclosed in a function term, which binds its own row and does not leak
/// its parent's.
pub open spec fn cmd_has_ivar(c: CommandV) -> bool
    decreases c, 0int,
{
    match c {
        CommandV::Boxed(b) => cmd_has_ivar(*b),
        CommandV::Data { typ, datum, args, .. } => {
            if typ == TermKind::ImplicitVar {
                true
            } else if typ == TermKind::Func {
                false
            } else {
                cmds_have_ivar_from(args, 0) || (match datum {
                    Option::Some(Result::Ok(d)) => datum_has_ivar(d),
                    _ => false,
                })
            }
        },
    }
}

pub open spec fn cmds_have_ivar_from(s: Seq<CommandV>, i: int) -> bool
    decreases s, s.len() - i,
{
    if i < 0 || i >= s.len() {
        false
    } else {
        cmd_has_ivar(s[i]) || cmds_have_ivar_from(s, i + 1)
    }
}

impl Datum {
    /// Whether this datum holds an unguarded implicit-row reference.
    #[verifier::loop_isolation(false)]
    pub fn has_implicit_var_arg(&self) -> (r: bool)
        ensures
            r == datum_has_ivar(self@),
        decreases *self,
    {
        match self {
            Datum::Command(c) => {
                let r = (&**c).has_implicit_var_arg();
                proof {
                    assert(self@ == DatumV::Command(Box::new(cview(**c))));
                }
                r
            },
            Datum::Array(items) => {
                let ghost items_v = dview_seq(items@);
                proof {
                    lemma_dview_seq_len(items@);
                    assert(self@ == DatumV::Array(items_v));
                }
                let n = items.len();
                let mut k: usize = 0;
                while k < n
                    invariant
                        k <= n,
                        datums_have_ivar_from(items_v, 0) == datums_have_ivar_from(
                            items_v,
                            k as int,
                        ),
                    decreases n - k,
                {
                    proof {
                        assert(decreases_to!(*self => *items));
                        assert(decreases_to!(*items => items@));
                        assert(decreases_to!(items@ => items@[k as int]));
                        lemma_dview_seq_index(items@, k as int);
                    }
                    if items[k].has_implicit_var_arg() {
                        return true;
                    }
                    k = k + 1;
                }
                false
            },
            Datum::Object(fields) => {
                let ghost fields_v = dview_fields(fields@);
                proof {
                    lemma_dview_fields_len(fields@);
                    assert(self@ == DatumV::Object(fields_v));
                }
                let n = fields.len();
                let mut k: usize = 0;
                while k < n
                    invariant
                        k <= n,
                        fields_have_ivar_from(fields_v, 0) == fields_have_ivar_from(
                            fields_v,
                            k as int,
                        ),
                    decreases n - k,
                {
                    proof {
                        assert(decreases_to!(*self => *fields));
                        assert(decreases_to!(*fields => fields@));
                        assert(decreases_to!(fields@ => fields@[k as int]));
                        assert(decreases_to!(fields@[k as int] => fields@[k as int].1));
                        lemma_dview_fields_index(fields@, k as int);
                    }
                    if fields[k].1.has_implicit_var_arg() {
                        return true;
                    }
                    k = k + 1;
                }
                false
            },
            _ => false,
        }
    }
}

impl Command {
    /// Whether this term holds an unguarded implicit-row reference, so that
    /// it must be wrapped into a function where a function is expected.
    #[verifier::loop_isolation(false)]
    pub fn has_implicit_var_arg(&self) -> (r: bool)
        ensures
            r == cmd_has_ivar(self@),
        decreases *self,
    {
        match self {
            Command::Boxed(b) => {
                let r = (&**b).has_implicit_var_arg();
                proof {
                    assert(self@ == CommandV::Boxed(Box::new(cview(**b))));
                }
                r
            },
            Command::Data { typ, datum, args, .. } => {
                if *typ == TermKind::ImplicitVar {
                    return true;
                }
                if *typ == TermKind::Func {
                    return false;
                }
                let ghost args_v = cview_seq(args@);
                proof {
                    lemma_cview_seq_len(args@);
                    assert(self@->Data_args == args_v);
                    assert(self@->Data_datum == dres_view(*datum));
                }
                let n = args.len();
                let mut k: usize = 0;
                while k < n
                    invariant
                        k <= n,
                        cmds_have_ivar_from(args_v, 0) == cmds_have_ivar_from(args_v, k as int),
                    decreases n - k,
                {
                    proof {
                        assert(decreases_to!(*self => *args));
                        assert(decreases_to!(*args => args@));
                        assert(decreases_to!(args@ => args@[k as int]));
                        lemma_cview_seq_index(args@, k as int);
                    }
                    if args[k].has_implicit_var_arg() {
                        return true;
                    }
                    k = k + 1;
                }
                match datum {
                    Option::Some(Result::Ok(d)) => d.has_implicit_var_arg(),
                    _ => false,
                }
            },
        }
    }
}

/// The term a list of variable ids compiles to: a make-array node of
/// number literals.
pub open spec fn spec_ids_term(ids: Seq<int>) -> CommandV {
    CommandV::Data {
        typ: TermKind::MakeArray,
        datum: Option::None,
        args: Seq::new(
            ids.len(),
            |i: int| CommandV::spec_datum_term(Result::Ok(DatumV::Number(ids[i]))),
        ),
        opts: Option::None,
        change_feed: false,
    }
}

/// The term an anonymous function compiles to: a function node whose first
/// child is the array of bound variable ids and whose second child is the
/// body.
pub open spec fn spec_func_term(ids: Seq<int>, body: CommandV) -> CommandV {
    CommandV::Data {
        typ: TermKind::Func,
        datum: Option::None,
        args: seq![spec_ids_term(ids), body],
        opts: Option::None,
        change_feed: false,
    }
}

/// What wrapping a term where a function is expected yields: a one-parameter
/// function over the term when it holds an unguarded implicit-row reference,
/// and the term itself otherwise.
pub open spec fn spec_wrap_by_func(c: CommandV) -> CommandV {
    if cmd_has_ivar(c) {
        spec_func_term(seq![1int], c)
    } else {
        c
    }
}

/// An anonymous-function term under construction: a list of fresh bound
/// variable ids and a body term.
pub struct Func {
    pub ids: Vec<u64>,
    pub body: Command,
}

impl Func {
    /// Pair fresh variable ids with a body.
    pub fn new(ids: Vec<u64>, body: Command) -> (r: Func)
        ensures
            r.ids == ids,
            r.body == body,
    {
        Func { ids, body }
    }

    /// Finalize into a function term.
    ///
    /// The bound keeps every id representable as a wire number.
    pub fn into_cmd(self) -> (r: Command)
        requires
            forall|i: int| 0 <= i < self.ids@.len() ==> self.ids@[i] <= i64::MAX as u64,
        ensures
            r@ == spec_func_term(self.ids@.map_values(|x: u64| x as int), self.body@),
    {
        let ghost ids_v = self.ids@.map_values(|x: u64| x as int);
        let n = self.ids.len();
        let mut id_terms: Vec<Command> = Vec::new();
        let mut k: usize = 0;
        while k < n
            invariant
                k <= n,
                n == self.ids@.len(),
                id_terms@.len() == k,
                forall|i: int| 0 <= i < n ==> self.ids@[i] <= i64::MAX as u64,
                forall|t: int|
                    0 <= t < k ==> #[trigger] cview(id_terms@[t]) == CommandV::spec_datum_term(
                        Result::Ok(DatumV::Number(self.ids@[t] as int)),
                    ),
            decreases n - k,
        {
            let id = self.ids[k];
            id_terms.push(Command::from_json(Datum::Number(id as i64)));
            k = k + 1;
        }
        let arr = Command::Data {
            typ: TermKind::MakeArray,
            datum: Option::None,
            args: id_terms,
            opts: Option::None,
            change_feed: false,
        };
        proof {
            lemma_cview_seq_len(arr->Data_args@);
            assert forall|t: int| 0 <= t < n implies #[trigger] cview_seq(arr->Data_args@)[t]
                == spec_ids_term(ids_v)->Data_args[t] by {
                lemma_cview_seq_index(arr->Data_args@, t);
            }
            assert(cview_seq(arr->Data_args@) =~= spec_ids_term(ids_v)->Data_args);
            assert(arr@->Data_datum == dres_view(Option::<Result<Datum, Error>>::None));
            assert(arr@->Data_opts == dres_view(Option::<Result<Datum, Error>>::None));
            assert(arr@ == spec_ids_term(ids_v));
        }
        let r = Command::new(TermKind::Func).with_arg(arr).with_arg(self.body);
        proof {
            assert(r@->Data_args =~= seq![spec_ids_term(ids_v), self.body@]);
        }
        r
    }
}

impl Command {
    /// Rewrite this term into a one-parameter anonymous function when it
    /// holds an unguarded implicit-row reference; return it unchanged
    /// otherwise. A term already built as a function is never re-wrapped.
    pub fn wrap_by_func(self) -> (r: Command)
        ensures
            r@ == spec_wrap_by_func(self@),
    {
        if !self.has_implicit_var_arg() {
            return self;
        }
        let mut ids: Vec<u64> = Vec::new();
        ids.push(1);
        let r = Func::new(ids, self).into_cmd();
        proof {
            assert(r@->Data_args[0]->Data_args =~= spec_ids_term(seq![1int])->Data_args);
            assert(r@ == spec_func_term(seq![1int], self@));
        }
        r
    }
}

/// The kinds of queries of the wire envelope, each with its wire code.
#[derive(Clone, Copy, PartialEq, Eq, Structural, Debug)]
pub enum QueryKind {
    Start,
    Continue,
    Stop,
    NoreplyWait,
    ServerInfo,
}

impl QueryKind {
    /// The integer wire code of this query kind.
    pub open spec fn code_spec(self) -> int {
        match self {
            QueryKind::Start => 1,
            QueryKind::Continue => 2,
            QueryKind::Stop => 3,
            QueryKind::NoreplyWait => 4,
            QueryKind::ServerInfo => 5,
        }
    }

    /// The integer wire code of this query kind, as sent on the wire.
    pub fn code(self) -> (c: i64)
        ensures
            c as int == self.code_spec(),
    {
        match self {
            QueryKind::Start => 1,
            QueryKind::Continue => 2,
            QueryKind::Stop => 3,
            QueryKind::NoreplyWait => 4,
            QueryKind::ServerInfo => 5,
        }
    }
}

/// The wire envelope of one query submission: kind, optional term, and
/// global per-query options.
pub struct Payload {
    pub query_type: QueryKind,
    pub term: Option<Command>,
    pub opts: Datum,
}

/// Whether a payload serializes without meeting a carried failure; a
/// payload without a term serializes as the bare kind and cannot fail.
pub open spec fn payload_ok(p: Payload) -> bool {
    match p.term {
        Option::Some(t) => cmd_ok(cview(t)) && datum_ok(dview(p.opts)),
        Option::None => true,
    }
}

/// The exact JSON value a payload serializes to: `[kind]` without a term,
/// `[kind, term, options]` with one.
pub open spec fn payload_wire(p: Payload) -> JsonV {
    match p.term {
        Option::Some(t) => JsonV::Arr(
            seq![
                JsonV::Int(p.query_type.code_spec()),
                wire_cmd(cview(t)),
                wire_datum(dview(p.opts)),
            ],
        ),
        Option::None => JsonV::Arr(seq![JsonV::Int(p.query_type.code_spec())]),
    }
}

/// The first carried failure a payload serialization meets: the term is
/// serialized before the options.
pub open spec fn payload_err(p: Payload) -> ErrorV {
    match p.term {
        Option::Some(t) => if !cmd_ok(cview(t)) {
            cmd_err(cview(t))
        } else {
            datum_err(dview(p.opts))
        },
        Option::None => vstd::pervasive::arbitrary(),
    }
}

impl Payload {
    /// Serialize this payload to its wire JSON value.
    pub fn serialize(&self) -> (r: Result<Json, Error>)
        ensures
            payload_ok(*self) ==> r is Ok && r->Ok_0@ == payload_wire(*self),
            !payload_ok(*self) ==> r is Err && r->Err_0@ == payload_err(*self),
    {
        let code = self.query_type.code();
        match &self.term {
            Option::Some(t) => {
                match t.serialize() {
                    Result::Ok(tj) => {
                        match self.opts.serialize() {
                            Result::Ok(oj) => {
                                let mut outer: Vec<Json> = Vec::new();
                                outer.push(Json::Int(code));
                                outer.push(tj);
                                outer.push(oj);
                                let r = Json::Arr(outer);
                                proof {
                                    lemma_jview_seq_len(outer@);
                                    lemma_jview_seq_index(outer@, 0);
                                    lemma_jview_seq_index(outer@, 1);
                                    lemma_jview_seq_index(outer@, 2);
                                    assert(jview_seq(outer@) =~= payload_wire(*self)->Arr_0);
                                }
                                Result::Ok(r)
                            },
                            Result::Err(e) => Result::Err(e),
                        }
                    },
                    Result::Err(e) => Result::Err(e),
                }
            },
            Option::None => {
                let mut outer: Vec<Json> = Vec::new();
                outer.push(Json::Int(code));
                let r = Json::Arr(outer);
                proof {
                    lemma_jview_seq_len(outer@);
                    lemma_jview_seq_index(outer@, 0);
                    assert(jview_seq(outer@) =~= payload_wire(*self)->Arr_0);
                }
                Result::Ok(r)
            },
        }
    }

    /// Serialize this payload all the way to JSON text.
    pub fn to_wire_string(&self) -> (r: Result<String, Error>)
        ensures
            payload_ok(*self) ==> r is Ok && r->Ok_0@ == crate::json::json_text(payload_wire(*self)),
            !payload_ok(*self) ==> r is Err && r->Err_0@ == payload_err(*self),
    {
        match self.serialize() {
            Result::Ok(j) => Result::Ok(j.to_text()),
            Result::Err(e) => Result::Err(e),
        }
    }
}

impl Default for Datum {
    /// The default datum is the null value.
    fn default() -> (r: Self)
        ensures
            r@ == DatumV::Null,
    {
        Datum::Null
    }
}

impl Clone for Datum {
    /// A clone models to the same datum.
    fn clone(&self) -> (r: Self)
        ensures
            r@ == self@,
    {
        clone_datum(self)
    }
}

impl Clone for Command {
    /// A clone models to the same term.
    fn clone(&self) -> (r: Self)
        ensures
            r@ == self@,
    {
        clone_command(self)
    }
}

fn clone_dres(r0: &Option<Result<Datum, Error>>) -> (r: Option<Result<Datum, Error>>)
    ensures
        dres_view(r) == dres_view(*r0),
    decreases *r0,
{
    match r0 {
        Option::None => Option::None,
        Option::Some(Result::Ok(d)) => {
            proof {
                assert(decreases_to!(*r0 => *d));
            }
            Option::Some(Result::Ok(clone_datum(d)))
        },
        Option::Some(Result::Err(e)) => Option::Some(Result::Err(e.clone())),
    }
}

#[verifier::loop_isolation(false)]
fn clone_datum(d: &Datum) -> (r: Datum)
    ensures
        r@ == d@,
    decreases *d,
{
    match d {
        Datum::Null => Datum::Null,
        Datum::Bool(b) => Datum::Bool(*b),
        Datum::Number(n) => Datum::Number(*n),
        Datum::String(s) => Datum::String(s.clone()),
        Datum::Value(j) => Datum::Value(j.clone()),
        Datum::Command(c) => {
            let r = Datum::Command(Box::new(clone_command(&**c)));
            proof {
                assert(d@ == DatumV::Command(Box::new(cview(**c))));
            }
            r
        },
        Datum::Array(items) => {
            let n = items.len();
            let mut out: Vec<Datum> = Vec::new();
            let mut k: usize = 0;
            while k < n
                invariant
                    k <= n,
                    out@.len() == k,
                    forall|t: int| 0 <= t < k ==> #[trigger] dview(out@[t]) == dview(items@[t]),
                decreases n - k,
            {
                proof {
                    assert(decreases_to!(*d => *items));
                    assert(decreases_to!(*items => items@));
                    assert(decreases_to!(items@ => items@[k as int]));
                }
                let c = clone_datum(&items[k]);
                out.push(c);
                k = k + 1;
            }
            let r = Datum::Array(out);
            proof {
                lemma_dview_seq_len(out@);
                lemma_dview_seq_len(items@);
                assert forall|t: int| 0 <= t < n implies #[trigger] dview_seq(out@)[t] == dview_seq(
                    items@,
                )[t] by {
                    lemma_dview_seq_index(out@, t);
                    lemma_dview_seq_index(items@, t);
                }
                assert(dview_seq(out@) =~= dview_seq(items@));
            }
            r
        },
        Datum::Object(fields) => {
            let n = fields.len();
            let mut out: Vec<(String, Datum)> = Vec::new();
            let mut k: usize = 0;
            while k < n
                invariant
                    k <= n,
                    out@.len() == k,
                    forall|t: int| 0 <= t < k ==> #[trigger] out@[t].0@ == fields@[t].0@
                        && dview(out@[t].1) == dview(fields@[t].1),
                decreases n - k,
            {
                proof {
                    assert(decreases_to!(*d => *fields));
                    assert(decreases_to!(*fields => fields@));
                    assert(decreases_to!(fields@ => fields@[k as int]));
                    assert(decreases_to!(fields@[k as int] => fields@[k as int].1));
                }
                let key = fields[k].0.clone();
                let val = clone_datum(&fields[k].1);
                out.push((key, val));
                k = k + 1;
            }
            let r = Datum::Object(out);
            proof {
                lemma_dview_fields_len(out@);
                lemma_dview_fields_len(fields@);
                assert forall|t: int| 0 <= t < n implies #[trigger] dview_fields(out@)[t]
                    == dview_fields(fields@)[t] by {
                    lemma_dview_fields_index(out@, t);
                    lemma_dview_fields_index(fields@, t);
                }
                assert(dview_fields(out@) =~= dview_fields(fields@));
            }
            r
        },
    }
}

#[verifier::loop_isolation(false)]
fn clone_command(c: &Command) -> (r: Command)
    ensures
        r@ == c@,
    decreases *c,
{
    match c {
        Command::Boxed(b) => {
            let r = Command::Boxed(Box::new(clone_command(&**b)));
            proof {
                assert(c@ == CommandV::Boxed(Box::new(cview(**b))));
            }
            r
        },
        Command::Data { typ, datum, args, opts, change_feed } => {
            proof {
                assert(decreases_to!(*c => *datum));
                assert(decreases_to!(*c => *opts));
            }
            let datum2 = clone_dres(datum);
            let opts2 = clone_dres(opts);
            let n = args.len();
            let mut out: Vec<Command> = Vec::new();
            let mut k: usize = 0;
            while k < n
                invariant
                    k <= n,
                    out@.len() == k,
                    forall|t: int| 0 <= t < k ==> #[trigger] cview(out@[t]) == cview(args@[t]),
                decreases n - k,
            {
                proof {
                    assert(decreases_to!(*c => *args));
                    assert(decreases_to!(*args => args@));
                    assert(decreases_to!(args@ => args@[k as int]));
                }
                let a = clone_command(&args[k]);
                out.push(a);
                k = k + 1;
            }
            let r = Command::Data {
                typ: *typ,
                datum: datum2,
                args: out,
                opts: opts2,
                change_feed: *change_feed,
            };
            proof {
                lemma_cview_seq_len(out@);
                lemma_cview_seq_len(args@);
                assert forall|t: int| 0 <= t < n implies #[trigger] cview_seq(out@)[t] == cview_seq(
                    args@,
                )[t] by {
                    lemma_cview_seq_index(out@, t);
                    lemma_cview_seq_index(args@, t);
                }
                assert(cview_seq(out@) =~= cview_seq(args@));
            }
            r
        },
    }
}

impl Payload {
    /// Serialize this payload to the bytes written on the stream: the
    /// UTF-8 encoding of its JSON text.
    pub fn to_bytes(&self) -> (r: Result<Vec<u8>, Error>)
        ensures
            payload_ok(*self) ==> r is Ok && r->Ok_0@ == vstd::utf8::encode_utf8(
                crate::json::json_text(payload_wire(*self)),
            ),
            !payload_ok(*self) ==> r is Err && r->Err_0@ == payload_err(*self),
    {
        match self.to_wire_string() {
            Result::Ok(s) => Result::Ok(vstd::string::StrSliceExecFns::as_bytes_vec(s.as_str())),
            Result::Err(e) => Result::Err(e),
        }
    }
}

} // verus!
