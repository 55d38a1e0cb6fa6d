//! The option objects of the commands: plain structs whose fields are
//! optional values, each serialized to a trailing options object with absent
//! fields omitted.

use crate::proto::{dview, dview_fields, Command, Datum, DatumV};
use vstd::prelude::*;
use vstd::string::StringExecFns;

verus! {

broadcast use vstd::std_specs::vec::group_vec_axioms, vstd::seq::group_seq_axioms;

/// Append one named field to an options object under construction.
fn push_field(out: &mut Vec<(String, Datum)>, name: &str, d: Datum)
    ensures
        dview_fields(final(out)@) == dview_fields(old(out)@).push((name@, dview(d))),
{
    let ghost d_v = dview(d);
    let key = name.to_owned();
    out.push((key, d));
    proof {
        assert(out@.drop_last() =~= old(out)@);
    }
}

/// An index option: `{"index": value}`, where the value may itself be a
/// term (for example a descending key).
pub struct Index(pub Command);

/// Write durability of a table or of one write operation.
#[derive(Clone, Copy, PartialEq, Eq, Structural, Debug)]
pub enum Durability {
    Hard,
    Soft,
}

impl Durability {
    /// The value this choice serializes to.
    pub open spec fn spec_to_datum(self) -> DatumV {
        match self {
            Durability::Hard => DatumV::Str("hard"@),
            Durability::Soft => DatumV::Str("soft"@),
        }
    }

    /// Serialize this choice.
    pub fn to_datum(&self) -> (r: Datum)
        ensures
            r@ == self.spec_to_datum(),
    {
        match self {
            Durability::Hard => Datum::String(<String as StringExecFns>::from_str("hard")),
            Durability::Soft => Datum::String(<String as StringExecFns>::from_str("soft")),
        }
    }
}

/// Consistency guarantee of reads.
#[derive(Clone, Copy, PartialEq, Eq, Structural, Debug)]
pub enum ReadMode {
    Single,
    Majority,
    Outdated,
}

impl ReadMode {
    /// The value this choice serializes to.
    pub open spec fn spec_to_datum(self) -> DatumV {
        match self {
            ReadMode::Single => DatumV::Str("single"@),
            ReadMode::Majority => DatumV::Str("majority"@),
            ReadMode::Outdated => DatumV::Str("outdated"@),
        }
    }

    /// Serialize this choice.
    pub fn to_datum(&self) -> (r: Datum)
        ensures
            r@ == self.spec_to_datum(),
    {
        match self {
            ReadMode::Single => Datum::String(<String as StringExecFns>::from_str("single")),
            ReadMode::Majority => Datum::String(<String as StringExecFns>::from_str("majority")),
            ReadMode::Outdated => Datum::String(<String as StringExecFns>::from_str("outdated")),
        }
    }
}

/// How table and database identifiers are returned.
#[derive(Clone, Copy, PartialEq, Eq, Structural, Debug)]
pub enum IdentifierFormat {
    Name,
    Uuid,
}

impl IdentifierFormat {
    /// The value this choice serializes to.
    pub open spec fn spec_to_datum(self) -> DatumV {
        match self {
            IdentifierFormat::Name => DatumV::Str("name"@),
            IdentifierFormat::Uuid => DatumV::Str("uuid"@),
        }
    }

    /// Serialize this choice.
    pub fn to_datum(&self) -> (r: Datum)
        ensures
            r@ == self.spec_to_datum(),
    {
        match self {
            IdentifierFormat::Name => Datum::String(<String as StringExecFns>::from_str("name")),
            IdentifierFormat::Uuid => Datum::String(<String as StringExecFns>::from_str("uuid")),
        }
    }
}

/// Handling of inserts whose primary key already exists.
#[derive(Clone, Copy, PartialEq, Eq, Structural, Debug)]
pub enum Conflict {
    Replace,
    Update,
    Error,
}

impl Conflict {
    /// The value this choice serializes to.
    pub open spec fn spec_to_datum(self) -> DatumV {
        match self {
            Conflict::Replace => DatumV::Str("replace"@),
            Conflict::Update => DatumV::Str("update"@),
            Conflict::Error => DatumV::Str("error"@),
        }
    }

    /// Serialize this choice.
    pub fn to_datum(&self) -> (r: Datum)
        ensures
            r@ == self.spec_to_datum(),
    {
        match self {
            Conflict::Replace => Datum::String(<String as StringExecFns>::from_str("replace")),
            Conflict::Update => Datum::String(<String as StringExecFns>::from_str("update")),
            Conflict::Error => Datum::String(<String as StringExecFns>::from_str("error")),
        }
    }
}

/// Whether a range endpoint is included.
#[derive(Clone, Copy, PartialEq, Eq, Structural, Debug)]
pub enum Status {
    Open,
    Closed,
}

impl Status {
    /// The value this choice serializes to.
    pub open spec fn spec_to_datum(self) -> DatumV {
        match self {
            Status::Open => DatumV::Str("open"@),
            Status::Closed => DatumV::Str("closed"@),
        }
    }

    /// Serialize this choice.
    pub fn to_datum(&self) -> (r: Datum)
        ensures
            r@ == self.spec_to_datum(),
    {
        match self {
            Status::Open => Datum::String(<String as StringExecFns>::from_str("open")),
            Status::Closed => Datum::String(<String as StringExecFns>::from_str("closed")),
        }
    }
}

/// The readiness state a wait call waits for.
#[derive(Clone, Copy, PartialEq, Eq, Structural, Debug)]
pub enum WaitFor {
    ReadyForOutdatedReads,
    ReadyForReads,
    ReadyForWrites,
    AllReplicasReady,
}

impl WaitFor {
    /// The value this choice serializes to.
    pub open spec fn spec_to_datum(self) -> DatumV {
        match self {
            WaitFor::ReadyForOutdatedReads => DatumV::Str("ReadyForOutdatedReads"@),
            WaitFor::ReadyForReads => DatumV::Str("ReadyForReads"@),
            WaitFor::ReadyForWrites => DatumV::Str("ReadyForWrites"@),
            WaitFor::AllReplicasReady => DatumV::Str("AllReplicasReady"@),
        }
    }

    /// Serialize this choice.
    pub fn to_datum(&self) -> (r: Datum)
        ensures
            r@ == self.spec_to_datum(),
    {
        match self {
            WaitFor::ReadyForOutdatedReads => Datum::String(<String as StringExecFns>::from_str("ReadyForOutdatedReads")),
            WaitFor::ReadyForReads => Datum::String(<String as StringExecFns>::from_str("ReadyForReads")),
            WaitFor::ReadyForWrites => Datum::String(<String as StringExecFns>::from_str("ReadyForWrites")),
            WaitFor::AllReplicasReady => Datum::String(<String as StringExecFns>::from_str("AllReplicasReady")),
        }
    }
}

/// A permission value of `grant`: granted, denied, or reset to inherited.
#[derive(Clone, Copy, PartialEq, Eq, Structural, Debug)]
pub enum GrantValue {
    Bool(bool),
    Null,
}

impl GrantValue {
    /// The value this choice serializes to.
    pub open spec fn spec_to_datum(self) -> DatumV {
        match self {
            GrantValue::Bool(b) => DatumV::Bool(b),
            GrantValue::Null => DatumV::Null,
        }
    }

    /// Serialize this choice.
    pub fn to_datum(&self) -> (r: Datum)
        ensures
            r@ == self.spec_to_datum(),
    {
        match self {
            GrantValue::Bool(b) => Datum::Bool(*b),
            GrantValue::Null => Datum::Null,
        }
    }
}

/// Whether a write returns the changes it made: a boolean, or always.
#[derive(Clone, Copy, PartialEq, Eq, Structural, Debug)]
pub enum ReturnChanges {
    Bool(bool),
    Always,
}

impl ReturnChanges {
    /// The value this choice serializes to.
    pub open spec fn spec_to_datum(self) -> DatumV {
        match self {
            ReturnChanges::Bool(b) => DatumV::Bool(b),
            ReturnChanges::Always => DatumV::Str("always"@),
        }
    }

    /// Serialize this choice.
    pub fn to_datum(&self) -> (r: Datum)
        ensures
            r@ == self.spec_to_datum(),
    {
        match self {
            ReturnChanges::Bool(b) => Datum::Bool(*b),
            ReturnChanges::Always => Datum::String(<String as StringExecFns>::from_str("always")),
        }
    }
}

/// Options of `random`. Absent fields are omitted from the options object.
#[derive(Clone, Copy, Debug)]
pub struct RandomOptions {
    pub float: Option<bool>,
}

impl RandomOptions {
    /// Options with every field absent.
    pub fn new() -> (r: RandomOptions)
        ensures
            r.float is None,
    {
        RandomOptions { float: Option::None }
    }

    /// The options with `float` set.
    pub fn float(self, value: bool) -> (r: RandomOptions)
        ensures
            r.float == Option::Some(value),
    {
        RandomOptions { float: Option::Some(value), ..self }
    }

    /// The fields of the serialized options object, in order, absent
    /// fields omitted.
    pub open spec fn spec_fields(self) -> Seq<(Seq<char>, DatumV)> {
        let f0 = if self.float is Some {
            Seq::<(Seq<char>, DatumV)>::empty().push(("float"@, DatumV::Bool(self.float->0)))
        } else {
            Seq::<(Seq<char>, DatumV)>::empty()
        };
        f0
    }

    /// The options object this value serializes to.
    pub open spec fn spec_to_datum(self) -> DatumV {
        DatumV::Object(self.spec_fields())
    }

    /// Serialize these options, omitting absent fields.
    pub fn to_datum(&self) -> (r: Datum)
        ensures
            r@ == self.spec_to_datum(),
    {
        let mut out: Vec<(String, Datum)> = Vec::new();
        proof {
            assert(dview_fields(out@) =~= Seq::<(Seq<char>, DatumV)>::empty());
        }
        match &self.float {
            Option::Some(v) => {
                push_field(&mut out, "float", Datum::Bool(*v));
            },
            Option::None => {},
        }
        let r = Datum::Object(out);
        proof {
            assert(dview_fields(out@) == self.spec_fields());
        }
        r
    }
}

/// Options of `filter`. Absent fields are omitted from the options object.
#[derive(Clone, Copy, Debug)]
pub struct FilterOptions {
    pub default: Option<bool>,
}

impl FilterOptions {
    /// Options with every field absent.
    pub fn new() -> (r: FilterOptions)
        ensures
            r.default is None,
    {
        FilterOptions { default: Option::None }
    }

    /// The options with `default` set.
    pub fn default(self, value: bool) -> (r: FilterOptions)
        ensures
            r.default == Option::Some(value),
    {
        FilterOptions { default: Option::Some(value), ..self }
    }

    /// The fields of the serialized options object, in order, absent
    /// fields omitted.
    pub open spec fn spec_fields(self) -> Seq<(Seq<char>, DatumV)> {
        let f0 = if self.default is Some {
            Seq::<(Seq<char>, DatumV)>::empty().push(("default"@, DatumV::Bool(self.default->0)))
        } else {
            Seq::<(Seq<char>, DatumV)>::empty()
        };
        f0
    }

    /// The options object this value serializes to.
    pub open spec fn spec_to_datum(self) -> DatumV {
        DatumV::Object(self.spec_fields())
    }

    /// Serialize these options, omitting absent fields.
    pub fn to_datum(&self) -> (r: Datum)
        ensures
            r@ == self.spec_to_datum(),
    {
        let mut out: Vec<(String, Datum)> = Vec::new();
        proof {
            assert(dview_fields(out@) =~= Seq::<(Seq<char>, DatumV)>::empty());
        }
        match &self.default {
            Option::Some(v) => {
                push_field(&mut out, "default", Datum::Bool(*v));
            },
            Option::None => {},
        }
        let r = Datum::Object(out);
        proof {
            assert(dview_fields(out@) == self.spec_fields());
        }
        r
    }
}

/// Options of `table`. Absent fields are omitted from the options object.
#[derive(Clone, Copy, Debug)]
pub struct TableOptions {
    pub read_mode: Option<ReadMode>,
    pub identifier_format: Option<IdentifierFormat>,
}

impl TableOptions {
    /// Options with every field absent.
    pub fn new() -> (r: TableOptions)
        ensures
            r.read_mode is None,
            r.identifier_format is None,
    {
        TableOptions { read_mode: Option::None, identifier_format: Option::None }
    }

    /// The options with `read_mode` set.
    pub fn read_mode(self, value: ReadMode) -> (r: TableOptions)
        ensures
            r.read_mode == Option::Some(value),
            r.identifier_format == self.identifier_format,
    {
        TableOptions { read_mode: Option::Some(value), ..self }
    }

    /// The options with `identifier_format` set.
    pub fn identifier_format(self, value: IdentifierFormat) -> (r: TableOptions)
        ensures
            r.identifier_format == Option::Some(value),
            r.read_mode == self.read_mode,
    {
        TableOptions { identifier_format: Option::Some(value), ..self }
    }

    /// The fields of the serialized options object, in order, absent
    /// fields omitted.
    pub open spec fn spec_fields(self) -> Seq<(Seq<char>, DatumV)> {
        let f0 = if self.read_mode is Some {
            Seq::<(Seq<char>, DatumV)>::empty().push(("read_mode"@, self.read_mode->0.spec_to_datum()))
        } else {
            Seq::<(Seq<char>, DatumV)>::empty()
        };
        let f1 = if self.identifier_format is Some {
            f0.push(("identifier_format"@, self.identifier_format->0.spec_to_datum()))
        } else {
            f0
        };
        f1
    }

    /// The options object this value serializes to.
    pub open spec fn spec_to_datum(self) -> DatumV {
        DatumV::Object(self.spec_fields())
    }

    /// Serialize these options, omitting absent fields.
    pub fn to_datum(&self) -> (r: Datum)
        ensures
            r@ == self.spec_to_datum(),
    {
        let mut out: Vec<(String, Datum)> = Vec::new();
        proof {
            assert(dview_fields(out@) =~= Seq::<(Seq<char>, DatumV)>::empty());
        }
        match &self.read_mode {
            Option::Some(v) => {
                push_field(&mut out, "read_mode", v.to_datum());
            },
            Option::None => {},
        }
        match &self.identifier_format {
            Option::Some(v) => {
                push_field(&mut out, "identifier_format", v.to_datum());
            },
            Option::None => {},
        }
        let r = Datum::Object(out);
        proof {
            assert(dview_fields(out@) == self.spec_fields());
        }
        r
    }
}

/// Options of `index_create`. Absent fields are omitted from the options object.
#[derive(Clone, Copy, Debug)]
pub struct IndexCreateOptions {
    pub multi: Option<bool>,
    pub geo: Option<bool>,
}

impl IndexCreateOptions {
    /// Options with every field absent.
    pub fn new() -> (r: IndexCreateOptions)
        ensures
            r.multi is None,
            r.geo is None,
    {
        IndexCreateOptions { multi: Option::None, geo: Option::None }
    }

    /// The options with `multi` set.
    pub fn multi(self, value: bool) -> (r: IndexCreateOptions)
        ensures
            r.multi == Option::Some(value),
            r.geo == self.geo,
    {
        IndexCreateOptions { multi: Option::Some(value), ..self }
    }

    /// The options with `geo` set.
    pub fn geo(self, value: bool) -> (r: IndexCreateOptions)
        ensures
            r.geo == Option::Some(value),
            r.multi == self.multi,
    {
        IndexCreateOptions { geo: Option::Some(value), ..self }
    }

    /// The fields of the serialized options object, in order, absent
    /// fields omitted.
    pub open spec fn spec_fields(self) -> Seq<(Seq<char>, DatumV)> {
        let f0 = if self.multi is Some {
            Seq::<(Seq<char>, DatumV)>::empty().push(("multi"@, DatumV::Bool(self.multi->0)))
        } else {
            Seq::<(Seq<char>, DatumV)>::empty()
        };
        let f1 = if self.geo is Some {
            f0.push(("geo"@, DatumV::Bool(self.geo->0)))
        } else {
            f0
        };
        f1
    }

    /// The options object this value serializes to.
    pub open spec fn spec_to_datum(self) -> DatumV {
        DatumV::Object(self.spec_fields())
    }

    /// Serialize these options, omitting absent fields.
    pub fn to_datum(&self) -> (r: Datum)
        ensures
            r@ == self.spec_to_datum(),
    {
        let mut out: Vec<(String, Datum)> = Vec::new();
        proof {
            assert(dview_fields(out@) =~= Seq::<(Seq<char>, DatumV)>::empty());
        }
        match &self.multi {
            Option::Some(v) => {
                push_field(&mut out, "multi", Datum::Bool(*v));
            },
            Option::None => {},
        }
        match &self.geo {
            Option::Some(v) => {
                push_field(&mut out, "geo", Datum::Bool(*v));
            },
            Option::None => {},
        }
        let r = Datum::Object(out);
        proof {
            assert(dview_fields(out@) == self.spec_fields());
        }
        r
    }
}

/// Options of `index_rename`. Absent fields are omitted from the options object.
#[derive(Clone, Copy, Debug)]
pub struct IndexRenameOptions {
    pub overwrite: Option<bool>,
}

impl IndexRenameOptions {
    /// Options with every field absent.
    pub fn new() -> (r: IndexRenameOptions)
        ensures
            r.overwrite is None,
    {
        IndexRenameOptions { overwrite: Option::None }
    }

    /// The options with `overwrite` set.
    pub fn overwrite(self, value: bool) -> (r: IndexRenameOptions)
        ensures
            r.overwrite == Option::Some(value),
    {
        IndexRenameOptions { overwrite: Option::Some(value), ..self }
    }

    /// The fields of the serialized options object, in order, absent
    /// fields omitted.
    pub open spec fn spec_fields(self) -> Seq<(Seq<char>, DatumV)> {
        let f0 = if self.overwrite is Some {
            Seq::<(Seq<char>, DatumV)>::empty().push(("overwrite"@, DatumV::Bool(self.overwrite->0)))
        } else {
            Seq::<(Seq<char>, DatumV)>::empty()
        };
        f0
    }

    /// The options object this value serializes to.
    pub open spec fn spec_to_datum(self) -> DatumV {
        DatumV::Object(self.spec_fields())
    }

    /// Serialize these options, omitting absent fields.
    pub fn to_datum(&self) -> (r: Datum)
        ensures
            r@ == self.spec_to_datum(),
    {
        let mut out: Vec<(String, Datum)> = Vec::new();
        proof {
            assert(dview_fields(out@) =~= Seq::<(Seq<char>, DatumV)>::empty());
        }
        match &self.overwrite {
            Option::Some(v) => {
                push_field(&mut out, "overwrite", Datum::Bool(*v));
            },
            Option::None => {},
        }
        let r = Datum::Object(out);
        proof {
            assert(dview_fields(out@) == self.spec_fields());
        }
        r
    }
}

/// Options of `insert`. Absent fields are omitted from the options object.
#[derive(Clone, Copy, Debug)]
pub struct InsertOptions {
    pub durability: Option<Durability>,
    pub return_changes: Option<ReturnChanges>,
    pub conflict: Option<Conflict>,
    pub ignore_write_hook: Option<bool>,
}

impl InsertOptions {
    /// Options with every field absent.
    pub fn new() -> (r: InsertOptions)
        ensures
            r.durability is None,
            r.return_changes is None,
            r.conflict is None,
            r.ignore_write_hook is None,
    {
        InsertOptions { durability: Option::None, return_changes: Option::None, conflict: Option::None, ignore_write_hook: Option::None }
    }

    /// The options with `durability` set.
    pub fn durability(self, value: Durability) -> (r: InsertOptions)
        ensures
            r.durability == Option::Some(value),
            r.return_changes == self.return_changes,
            r.conflict == self.conflict,
            r.ignore_write_hook == self.ignore_write_hook,
    {
        InsertOptions { durability: Option::Some(value), ..self }
    }

    /// The options with `return_changes` set.
    pub fn return_changes(self, value: ReturnChanges) -> (r: InsertOptions)
        ensures
            r.return_changes == Option::Some(value),
            r.durability == self.durability,
            r.conflict == self.conflict,
            r.ignore_write_hook == self.ignore_write_hook,
    {
        InsertOptions { return_changes: Option::Some(value), ..self }
    }

    /// The options with `conflict` set.
    pub fn conflict(self, value: Conflict) -> (r: InsertOptions)
        ensures
            r.conflict == Option::Some(value),
            r.durability == self.durability,
            r.return_changes == self.return_changes,
            r.ignore_write_hook == self.ignore_write_hook,
    {
        InsertOptions { conflict: Option::Some(value), ..self }
    }

    /// The options with `ignore_write_hook` set.
    pub fn ignore_write_hook(self, value: bool) -> (r: InsertOptions)
        ensures
            r.ignore_write_hook == Option::Some(value),
            r.durability == self.durability,
            r.return_changes == self.return_changes,
            r.conflict == self.conflict,
    {
        InsertOptions { ignore_write_hook: Option::Some(value), ..self }
    }

    /// The fields of the serialized options object, in order, absent
    /// fields omitted.
    pub open spec fn spec_fields(self) -> Seq<(Seq<char>, DatumV)> {
        let f0 = if self.durability is Some {
            Seq::<(Seq<char>, DatumV)>::empty().push(("durability"@, self.durability->0.spec_to_datum()))
        } else {
            Seq::<(Seq<char>, DatumV)>::empty()
        };
        let f1 = if self.return_changes is Some {
            f0.push(("return_changes"@, self.return_changes->0.spec_to_datum()))
        } else {
            f0
        };
        let f2 = if self.conflict is Some {
            f1.push(("conflict"@, self.conflict->0.spec_to_datum()))
        } else {
            f1
        };
        let f3 = if self.ignore_write_hook is Some {
            f2.push(("ignore_write_hook"@, DatumV::Bool(self.ignore_write_hook->0)))
        } else {
            f2
        };
        f3
    }

    /// The options object this value serializes to.
    pub open spec fn spec_to_datum(self) -> DatumV {
        DatumV::Object(self.spec_fields())
    }

    /// Serialize these options, omitting absent fields.
    pub fn to_datum(&self) -> (r: Datum)
        ensures
            r@ == self.spec_to_datum(),
    {
        let mut out: Vec<(String, Datum)> = Vec::new();
        proof {
            assert(dview_fields(out@) =~= Seq::<(Seq<char>, DatumV)>::empty());
        }
        match &self.durability {
            Option::Some(v) => {
                push_field(&mut out, "durability", v.to_datum());
            },
            Option::None => {},
        }
        match &self.return_changes {
            Option::Some(v) => {
                push_field(&mut out, "return_changes", v.to_datum());
            },
            Option::None => {},
        }
        match &self.conflict {
            Option::Some(v) => {
                push_field(&mut out, "conflict", v.to_datum());
            },
            Option::None => {},
        }
        match &self.ignore_write_hook {
            Option::Some(v) => {
                push_field(&mut out, "ignore_write_hook", Datum::Bool(*v));
            },
            Option::None => {},
        }
        let r = Datum::Object(out);
        proof {
            assert(dview_fields(out@) == self.spec_fields());
        }
        r
    }
}

/// Options of `update`. Absent fields are omitted from the options object.
#[derive(Clone, Copy, Debug)]
pub struct UpdateOptions {
    pub durability: Option<Durability>,
    pub return_changes: Option<ReturnChanges>,
    pub non_atomic: Option<bool>,
    pub ignore_write_hook: Option<bool>,
}

impl UpdateOptions {
    /// Options with every field absent.
    pub fn new() -> (r: UpdateOptions)
        ensures
            r.durability is None,
            r.return_changes is None,
            r.non_atomic is None,
            r.ignore_write_hook is None,
    {
        UpdateOptions { durability: Option::None, return_changes: Option::None, non_atomic: Option::None, ignore_write_hook: Option::None }
    }

    /// The options with `durability` set.
    pub fn durability(self, value: Durability) -> (r: UpdateOptions)
        ensures
            r.durability == Option::Some(value),
            r.return_changes == self.return_changes,
            r.non_atomic == self.non_atomic,
            r.ignore_write_hook == self.ignore_write_hook,
    {
        UpdateOptions { durability: Option::Some(value), ..self }
    }

    /// The options with `return_changes` set.
    pub fn return_changes(self, value: ReturnChanges) -> (r: UpdateOptions)
        ensures
            r.return_changes == Option::Some(value),
            r.durability == self.durability,
            r.non_atomic == self.non_atomic,
            r.ignore_write_hook == self.ignore_write_hook,
    {
        UpdateOptions { return_changes: Option::Some(value), ..self }
    }

    /// The options with `non_atomic` set.
    pub fn non_atomic(self, value: bool) -> (r: UpdateOptions)
        ensures
            r.non_atomic == Option::Some(value),
            r.durability == self.durability,
            r.return_changes == self.return_changes,
            r.ignore_write_hook == self.ignore_write_hook,
    {
        UpdateOptions { non_atomic: Option::Some(value), ..self }
    }

    /// The options with `ignore_write_hook` set.
    pub fn ignore_write_hook(self, value: bool) -> (r: UpdateOptions)
        ensures
            r.ignore_write_hook == Option::Some(value),
            r.durability == self.durability,
            r.return_changes == self.return_changes,
            r.non_atomic == self.non_atomic,
    {
        UpdateOptions { ignore_write_hook: Option::Some(value), ..self }
    }

    /// The fields of the serialized options object, in order, absent
    /// fields omitted.
    pub open spec fn spec_fields(self) -> Seq<(Seq<char>, DatumV)> {
        let f0 = if self.durability is Some {
            Seq::<(Seq<char>, DatumV)>::empty().push(("durability"@, self.durability->0.spec_to_datum()))
        } else {
            Seq::<(Seq<char>, DatumV)>::empty()
        };
        let f1 = if self.return_changes is Some {
            f0.push(("return_changes"@, self.return_changes->0.spec_to_datum()))
        } else {
            f0
        };
        let f2 = if self.non_atomic is Some {
            f1.push(("non_atomic"@, DatumV::Bool(self.non_atomic->0)))
        } else {
            f1
        };
        let f3 = if self.ignore_write_hook is Some {
            f2.push(("ignore_write_hook"@, DatumV::Bool(self.ignore_write_hook->0)))
        } else {
            f2
        };
        f3
    }

    /// The options object this value serializes to.
    pub open spec fn spec_to_datum(self) -> DatumV {
        DatumV::Object(self.spec_fields())
    }

    /// Serialize these options, omitting absent fields.
    pub fn to_datum(&self) -> (r: Datum)
        ensures
            r@ == self.spec_to_datum(),
    {
        let mut out: Vec<(String, Datum)> = Vec::new();
        proof {
            assert(dview_fields(out@) =~= Seq::<(Seq<char>, DatumV)>::empty());
        }
        match &self.durability {
            Option::Some(v) => {
                push_field(&mut out, "durability", v.to_datum());
            },
            Option::None => {},
        }
        match &self.return_changes {
            Option::Some(v) => {
                push_field(&mut out, "return_changes", v.to_datum());
            },
            Option::None => {},
        }
        match &self.non_atomic {
            Option::Some(v) => {
                push_field(&mut out, "non_atomic", Datum::Bool(*v));
            },
            Option::None => {},
        }
        match &self.ignore_write_hook {
            Option::Some(v) => {
                push_field(&mut out, "ignore_write_hook", Datum::Bool(*v));
            },
            Option::None => {},
        }
        let r = Datum::Object(out);
        proof {
            assert(dview_fields(out@) == self.spec_fields());
        }
        r
    }
}

/// Options of `replace`. Absent fields are omitted from the options object.
#[derive(Clone, Copy, Debug)]
pub struct ReplaceOptions {
    pub durability: Option<Durability>,
    pub return_changes: Option<ReturnChanges>,
    pub non_atomic: Option<bool>,
    pub ignore_write_hook: Option<bool>,
}

impl ReplaceOptions {
    /// Options with every field absent.
    pub fn new() -> (r: ReplaceOptions)
        ensures
            r.durability is None,
            r.return_changes is None,
            r.non_atomic is None,
            r.ignore_write_hook is None,
    {
        ReplaceOptions { durability: Option::None, return_changes: Option::None, non_atomic: Option::None, ignore_write_hook: Option::None }
    }

    /// The options with `durability` set.
    pub fn durability(self, value: Durability) -> (r: ReplaceOptions)
        ensures
            r.durability == Option::Some(value),
            r.return_changes == self.return_changes,
            r.non_atomic == self.non_atomic,
            r.ignore_write_hook == self.ignore_write_hook,
    {
        ReplaceOptions { durability: Option::Some(value), ..self }
    }

    /// The options with `return_changes` set.
    pub fn return_changes(self, value: ReturnChanges) -> (r: ReplaceOptions)
        ensures
            r.return_changes == Option::Some(value),
            r.durability == self.durability,
            r.non_atomic == self.non_atomic,
            r.ignore_write_hook == self.ignore_write_hook,
    {
        ReplaceOptions { return_changes: Option::Some(value), ..self }
    }

    /// The options with `non_atomic` set.
    pub fn non_atomic(self, value: bool) -> (r: ReplaceOptions)
        ensures
            r.non_atomic == Option::Some(value),
            r.durability == self.durability,
            r.return_changes == self.return_changes,
            r.ignore_write_hook == self.ignore_write_hook,
    {
        ReplaceOptions { non_atomic: Option::Some(value), ..self }
    }

    /// The options with `ignore_write_hook` set.
    pub fn ignore_write_hook(self, value: bool) -> (r: ReplaceOptions)
        ensures
            r.ignore_write_hook == Option::Some(value),
            r.durability == self.durability,
            r.return_changes == self.return_changes,
            r.non_atomic == self.non_atomic,
    {
        ReplaceOptions { ignore_write_hook: Option::Some(value), ..self }
    }

    /// The fields of the serialized options object, in order, absent
    /// fields omitted.
    pub open spec fn spec_fields(self) -> Seq<(Seq<char>, DatumV)> {
        let f0 = if self.durability is Some {
            Seq::<(Seq<char>, DatumV)>::empty().push(("durability"@, self.durability->0.spec_to_datum()))
        } else {
            Seq::<(Seq<char>, DatumV)>::empty()
        };
        let f1 = if self.return_changes is Some {
            f0.push(("return_changes"@, self.return_changes->0.spec_to_datum()))
        } else {
            f0
        };
        let f2 = if self.non_atomic is Some {
            f1.push(("non_atomic"@, DatumV::Bool(self.non_atomic->0)))
        } else {
            f1
        };
        let f3 = if self.ignore_write_hook is Some {
            f2.push(("ignore_write_hook"@, DatumV::Bool(self.ignore_write_hook->0)))
        } else {
            f2
        };
        f3
    }

    /// The options object this value serializes to.
    pub open spec fn spec_to_datum(self) -> DatumV {
        DatumV::Object(self.spec_fields())
    }

    /// Serialize these options, omitting absent fields.
    pub fn to_datum(&self) -> (r: Datum)
        ensures
            r@ == self.spec_to_datum(),
    {
        let mut out: Vec<(String, Datum)> = Vec::new();
        proof {
            assert(dview_fields(out@) =~= Seq::<(Seq<char>, DatumV)>::empty());
        }
        match &self.durability {
            Option::Some(v) => {
                push_field(&mut out, "durability", v.to_datum());
            },
            Option::None => {},
        }
        match &self.return_changes {
            Option::Some(v) => {
                push_field(&mut out, "return_changes", v.to_datum());
            },
            Option::None => {},
        }
        match &self.non_atomic {
            Option::Some(v) => {
                push_field(&mut out, "non_atomic", Datum::Bool(*v));
            },
            Option::None => {},
        }
        match &self.ignore_write_hook {
            Option::Some(v) => {
                push_field(&mut out, "ignore_write_hook", Datum::Bool(*v));
            },
            Option::None => {},
        }
        let r = Datum::Object(out);
        proof {
            assert(dview_fields(out@) == self.spec_fields());
        }
        r
    }
}

/// Options of `delete`. Absent fields are omitted from the options object.
#[derive(Clone, Copy, Debug)]
pub struct DeleteOptions {
    pub durability: Option<Durability>,
    pub return_changes: Option<ReturnChanges>,
    pub ignore_write_hook: Option<bool>,
}

impl DeleteOptions {
    /// Options with every field absent.
    pub fn new() -> (r: DeleteOptions)
        ensures
            r.durability is None,
            r.return_changes is None,
            r.ignore_write_hook is None,
    {
        DeleteOptions { durability: Option::None, return_changes: Option::None, ignore_write_hook: Option::None }
    }

    /// The options with `durability` set.
    pub fn durability(self, value: Durability) -> (r: DeleteOptions)
        ensures
            r.durability == Option::Some(value),
            r.return_changes == self.return_changes,
            r.ignore_write_hook == self.ignore_write_hook,
    {
        DeleteOptions { durability: Option::Some(value), ..self }
    }

    /// The options with `return_changes` set.
    pub fn return_changes(self, value: ReturnChanges) -> (r: DeleteOptions)
        ensures
            r.return_changes == Option::Some(value),
            r.durability == self.durability,
            r.ignore_write_hook == self.ignore_write_hook,
    {
        DeleteOptions { return_changes: Option::Some(value), ..self }
    }

    /// The options with `ignore_write_hook` set.
    pub fn ignore_write_hook(self, value: bool) -> (r: DeleteOptions)
        ensures
            r.ignore_write_hook == Option::Some(value),
            r.durability == self.durability,
            r.return_changes == self.return_changes,
    {
        DeleteOptions { ignore_write_hook: Option::Some(value), ..self }
    }

    /// The fields of the serialized options object, in order, absent
    /// fields omitted.
    pub open spec fn spec_fields(self) -> Seq<(Seq<char>, DatumV)> {
        let f0 = if self.durability is Some {
            Seq::<(Seq<char>, DatumV)>::empty().push(("durability"@, self.durability->0.spec_to_datum()))
        } else {
            Seq::<(Seq<char>, DatumV)>::empty()
        };
        let f1 = if self.return_changes is Some {
            f0.push(("return_changes"@, self.return_changes->0.spec_to_datum()))
        } else {
            f0
        };
        let f2 = if self.ignore_write_hook is Some {
            f1.push(("ignore_write_hook"@, DatumV::Bool(self.ignore_write_hook->0)))
        } else {
            f1
        };
        f2
    }

    /// The options object this value serializes to.
    pub open spec fn spec_to_datum(self) -> DatumV {
        DatumV::Object(self.spec_fields())
    }

    /// Serialize these options, omitting absent fields.
    pub fn to_datum(&self) -> (r: Datum)
        ensures
            r@ == self.spec_to_datum(),
    {
        let mut out: Vec<(String, Datum)> = Vec::new();
        proof {
            assert(dview_fields(out@) =~= Seq::<(Seq<char>, DatumV)>::empty());
        }
        match &self.durability {
            Option::Some(v) => {
                push_field(&mut out, "durability", v.to_datum());
            },
            Option::None => {},
        }
        match &self.return_changes {
            Option::Some(v) => {
                push_field(&mut out, "return_changes", v.to_datum());
            },
            Option::None => {},
        }
        match &self.ignore_write_hook {
            Option::Some(v) => {
                push_field(&mut out, "ignore_write_hook", Datum::Bool(*v));
            },
            Option::None => {},
        }
        let r = Datum::Object(out);
        proof {
            assert(dview_fields(out@) == self.spec_fields());
        }
        r
    }
}

/// Options of `between`. Absent fields are omitted from the options object.
#[derive(Clone, Debug)]
pub struct BetweenOptions {
    pub index: Option<String>,
    pub left_bound: Option<Status>,
    pub right_bound: Option<Status>,
}

impl BetweenOptions {
    /// Options with every field absent.
    pub fn new() -> (r: BetweenOptions)
        ensures
            r.index is None,
            r.left_bound is None,
            r.right_bound is None,
    {
        BetweenOptions { index: Option::None, left_bound: Option::None, right_bound: Option::None }
    }

    /// The options with `index` set.
    pub fn index(self, value: String) -> (r: BetweenOptions)
        ensures
            r.index == Option::Some(value),
            r.left_bound == self.left_bound,
            r.right_bound == self.right_bound,
    {
        BetweenOptions { index: Option::Some(value), ..self }
    }

    /// The options with `left_bound` set.
    pub fn left_bound(self, value: Status) -> (r: BetweenOptions)
        ensures
            r.left_bound == Option::Some(value),
            r.index == self.index,
            r.right_bound == self.right_bound,
    {
        BetweenOptions { left_bound: Option::Some(value), ..self }
    }

    /// The options with `right_bound` set.
    pub fn right_bound(self, value: Status) -> (r: BetweenOptions)
        ensures
            r.right_bound == Option::Some(value),
            r.index == self.index,
            r.left_bound == self.left_bound,
    {
        BetweenOptions { right_bound: Option::Some(value), ..self }
    }

    /// The fields of the serialized options object, in order, absent
    /// fields omitted.
    pub open spec fn spec_fields(self) -> Seq<(Seq<char>, DatumV)> {
        let f0 = if self.index is Some {
            Seq::<(Seq<char>, DatumV)>::empty().push(("index"@, DatumV::Str(self.index->0@)))
        } else {
            Seq::<(Seq<char>, DatumV)>::empty()
        };
        let f1 = if self.left_bound is Some {
            f0.push(("left_bound"@, self.left_bound->0.spec_to_datum()))
        } else {
            f0
        };
        let f2 = if self.right_bound is Some {
            f1.push(("right_bound"@, self.right_bound->0.spec_to_datum()))
        } else {
            f1
        };
        f2
    }

    /// The options object this value serializes to.
    pub open spec fn spec_to_datum(self) -> DatumV {
        DatumV::Object(self.spec_fields())
    }

    /// Serialize these options, omitting absent fields.
    pub fn to_datum(&self) -> (r: Datum)
        ensures
            r@ == self.spec_to_datum(),
    {
        let mut out: Vec<(String, Datum)> = Vec::new();
        proof {
            assert(dview_fields(out@) =~= Seq::<(Seq<char>, DatumV)>::empty());
        }
        match &self.index {
            Option::Some(v) => {
                push_field(&mut out, "index", Datum::String(v.clone()));
            },
            Option::None => {},
        }
        match &self.left_bound {
            Option::Some(v) => {
                push_field(&mut out, "left_bound", v.to_datum());
            },
            Option::None => {},
        }
        match &self.right_bound {
            Option::Some(v) => {
                push_field(&mut out, "right_bound", v.to_datum());
            },
            Option::None => {},
        }
        let r = Datum::Object(out);
        proof {
            assert(dview_fields(out@) == self.spec_fields());
        }
        r
    }
}

/// Options of `during`. Absent fields are omitted from the options object.
#[derive(Clone, Copy, Debug)]
pub struct DuringOptions {
    pub left_bound: Option<Status>,
    pub right_bound: Option<Status>,
}

impl DuringOptions {
    /// Options with every field absent.
    pub fn new() -> (r: DuringOptions)
        ensures
            r.left_bound is None,
            r.right_bound is None,
    {
        DuringOptions { left_bound: Option::None, right_bound: Option::None }
    }

    /// The options with `left_bound` set.
    pub fn left_bound(self, value: Status) -> (r: DuringOptions)
        ensures
            r.left_bound == Option::Some(value),
            r.right_bound == self.right_bound,
    {
        DuringOptions { left_bound: Option::Some(value), ..self }
    }

    /// The options with `right_bound` set.
    pub fn right_bound(self, value: Status) -> (r: DuringOptions)
        ensures
            r.right_bound == Option::Some(value),
            r.left_bound == self.left_bound,
    {
        DuringOptions { right_bound: Option::Some(value), ..self }
    }

    /// The fields of the serialized options object, in order, absent
    /// fields omitted.
    pub open spec fn spec_fields(self) -> Seq<(Seq<char>, DatumV)> {
        let f0 = if self.left_bound is Some {
            Seq::<(Seq<char>, DatumV)>::empty().push(("left_bound"@, self.left_bound->0.spec_to_datum()))
        } else {
            Seq::<(Seq<char>, DatumV)>::empty()
        };
        let f1 = if self.right_bound is Some {
            f0.push(("right_bound"@, self.right_bound->0.spec_to_datum()))
        } else {
            f0
        };
        f1
    }

    /// The options object this value serializes to.
    pub open spec fn spec_to_datum(self) -> DatumV {
        DatumV::Object(self.spec_fields())
    }

    /// Serialize these options, omitting absent fields.
    pub fn to_datum(&self) -> (r: Datum)
        ensures
            r@ == self.spec_to_datum(),
    {
        let mut out: Vec<(String, Datum)> = Vec::new();
        proof {
            assert(dview_fields(out@) =~= Seq::<(Seq<char>, DatumV)>::empty());
        }
        match &self.left_bound {
            Option::Some(v) => {
                push_field(&mut out, "left_bound", v.to_datum());
            },
            Option::None => {},
        }
        match &self.right_bound {
            Option::Some(v) => {
                push_field(&mut out, "right_bound", v.to_datum());
            },
            Option::None => {},
        }
        let r = Datum::Object(out);
        proof {
            assert(dview_fields(out@) == self.spec_fields());
        }
        r
    }
}

/// Options of `slice`. Absent fields are omitted from the options object.
#[derive(Clone, Copy, Debug)]
pub struct SliceOptions {
    pub left_bound: Option<Status>,
    pub right_bound: Option<Status>,
}

impl SliceOptions {
    /// Options with every field absent.
    pub fn new() -> (r: SliceOptions)
        ensures
            r.left_bound is None,
            r.right_bound is None,
    {
        SliceOptions { left_bound: Option::None, right_bound: Option::None }
    }

    /// The options with `left_bound` set.
    pub fn left_bound(self, value: Status) -> (r: SliceOptions)
        ensures
            r.left_bound == Option::Some(value),
            r.right_bound == self.right_bound,
    {
        SliceOptions { left_bound: Option::Some(value), ..self }
    }

    /// The options with `right_bound` set.
    pub fn right_bound(self, value: Status) -> (r: SliceOptions)
        ensures
            r.right_bound == Option::Some(value),
            r.left_bound == self.left_bound,
    {
        SliceOptions { right_bound: Option::Some(value), ..self }
    }

    /// The fields of the serialized options object, in order, absent
    /// fields omitted.
    pub open spec fn spec_fields(self) -> Seq<(Seq<char>, DatumV)> {
        let f0 = if self.left_bound is Some {
            Seq::<(Seq<char>, DatumV)>::empty().push(("left_bound"@, self.left_bound->0.spec_to_datum()))
        } else {
            Seq::<(Seq<char>, DatumV)>::empty()
        };
        let f1 = if self.right_bound is Some {
            f0.push(("right_bound"@, self.right_bound->0.spec_to_datum()))
        } else {
            f0
        };
        f1
    }

    /// The options object this value serializes to.
    pub open spec fn spec_to_datum(self) -> DatumV {
        DatumV::Object(self.spec_fields())
    }

    /// Serialize these options, omitting absent fields.
    pub fn to_datum(&self) -> (r: Datum)
        ensures
            r@ == self.spec_to_datum(),
    {
        let mut out: Vec<(String, Datum)> = Vec::new();
        proof {
            assert(dview_fields(out@) =~= Seq::<(Seq<char>, DatumV)>::empty());
        }
        match &self.left_bound {
            Option::Some(v) => {
                push_field(&mut out, "left_bound", v.to_datum());
            },
            Option::None => {},
        }
        match &self.right_bound {
            Option::Some(v) => {
                push_field(&mut out, "right_bound", v.to_datum());
            },
            Option::None => {},
        }
        let r = Datum::Object(out);
        proof {
            assert(dview_fields(out@) == self.spec_fields());
        }
        r
    }
}

/// Options of `group`. Absent fields are omitted from the options object.
#[derive(Clone, Debug)]
pub struct GroupOptions {
    pub index: Option<String>,
    pub multi: Option<bool>,
}

impl GroupOptions {
    /// Options with every field absent.
    pub fn new() -> (r: GroupOptions)
        ensures
            r.index is None,
            r.multi is None,
    {
        GroupOptions { index: Option::None, multi: Option::None }
    }

    /// The options with `index` set.
    pub fn index(self, value: String) -> (r: GroupOptions)
        ensures
            r.index == Option::Some(value),
            r.multi == self.multi,
    {
        GroupOptions { index: Option::Some(value), ..self }
    }

    /// The options with `multi` set.
    pub fn multi(self, value: bool) -> (r: GroupOptions)
        ensures
            r.multi == Option::Some(value),
            r.index == self.index,
    {
        GroupOptions { multi: Option::Some(value), ..self }
    }

    /// The fields of the serialized options object, in order, absent
    /// fields omitted.
    pub open spec fn spec_fields(self) -> Seq<(Seq<char>, DatumV)> {
        let f0 = if self.index is Some {
            Seq::<(Seq<char>, DatumV)>::empty().push(("index"@, DatumV::Str(self.index->0@)))
        } else {
            Seq::<(Seq<char>, DatumV)>::empty()
        };
        let f1 = if self.multi is Some {
            f0.push(("multi"@, DatumV::Bool(self.multi->0)))
        } else {
            f0
        };
        f1
    }

    /// The options object this value serializes to.
    pub open spec fn spec_to_datum(self) -> DatumV {
        DatumV::Object(self.spec_fields())
    }

    /// Serialize these options, omitting absent fields.
    pub fn to_datum(&self) -> (r: Datum)
        ensures
            r@ == self.spec_to_datum(),
    {
        let mut out: Vec<(String, Datum)> = Vec::new();
        proof {
            assert(dview_fields(out@) =~= Seq::<(Seq<char>, DatumV)>::empty());
        }
        match &self.index {
            Option::Some(v) => {
                push_field(&mut out, "index", Datum::String(v.clone()));
            },
            Option::None => {},
        }
        match &self.multi {
            Option::Some(v) => {
                push_field(&mut out, "multi", Datum::Bool(*v));
            },
            Option::None => {},
        }
        let r = Datum::Object(out);
        proof {
            assert(dview_fields(out@) == self.spec_fields());
        }
        r
    }
}

/// Options of `grant`. Absent fields are omitted from the options object.
#[derive(Clone, Copy, Debug)]
pub struct GrantOptions {
    pub read: Option<GrantValue>,
    pub write: Option<GrantValue>,
    pub connect: Option<GrantValue>,
    pub config: Option<GrantValue>,
}

impl GrantOptions {
    /// Options with every field absent.
    pub fn new() -> (r: GrantOptions)
        ensures
            r.read is None,
            r.write is None,
            r.connect is None,
            r.config is None,
    {
        GrantOptions { read: Option::None, write: Option::None, connect: Option::None, config: Option::None }
    }

    /// The options with `read` set.
    pub fn read(self, value: GrantValue) -> (r: GrantOptions)
        ensures
            r.read == Option::Some(value),
            r.write == self.write,
            r.connect == self.connect,
            r.config == self.config,
    {
        GrantOptions { read: Option::Some(value), ..self }
    }

    /// The options with `write` set.
    pub fn write(self, value: GrantValue) -> (r: GrantOptions)
        ensures
            r.write == Option::Some(value),
            r.read == self.read,
            r.connect == self.connect,
            r.config == self.config,
    {
        GrantOptions { write: Option::Some(value), ..self }
    }

    /// The options with `connect` set.
    pub fn connect(self, value: GrantValue) -> (r: GrantOptions)
        ensures
            r.connect == Option::Some(value),
            r.read == self.read,
            r.write == self.write,
            r.config == self.config,
    {
        GrantOptions { connect: Option::Some(value), ..self }
    }

    /// The options with `config` set.
    pub fn config(self, value: GrantValue) -> (r: GrantOptions)
        ensures
            r.config == Option::Some(value),
            r.read == self.read,
            r.write == self.write,
            r.connect == self.connect,
    {
        GrantOptions { config: Option::Some(value), ..self }
    }

    /// The fields of the serialized options object, in order, absent
    /// fields omitted.
    pub open spec fn spec_fields(self) -> Seq<(Seq<char>, DatumV)> {
        let f0 = if self.read is Some {
            Seq::<(Seq<char>, DatumV)>::empty().push(("read"@, self.read->0.spec_to_datum()))
        } else {
            Seq::<(Seq<char>, DatumV)>::empty()
        };
        let f1 = if self.write is Some {
            f0.push(("write"@, self.write->0.spec_to_datum()))
        } else {
            f0
        };
        let f2 = if self.connect is Some {
            f1.push(("connect"@, self.connect->0.spec_to_datum()))
        } else {
            f1
        };
        let f3 = if self.config is Some {
            f2.push(("config"@, self.config->0.spec_to_datum()))
        } else {
            f2
        };
        f3
    }

    /// The options object this value serializes to.
    pub open spec fn spec_to_datum(self) -> DatumV {
        DatumV::Object(self.spec_fields())
    }

    /// Serialize these options, omitting absent fields.
    pub fn to_datum(&self) -> (r: Datum)
        ensures
            r@ == self.spec_to_datum(),
    {
        let mut out: Vec<(String, Datum)> = Vec::new();
        proof {
            assert(dview_fields(out@) =~= Seq::<(Seq<char>, DatumV)>::empty());
        }
        match &self.read {
            Option::Some(v) => {
                push_field(&mut out, "read", v.to_datum());
            },
            Option::None => {},
        }
        match &self.write {
            Option::Some(v) => {
                push_field(&mut out, "write", v.to_datum());
            },
            Option::None => {},
        }
        match &self.connect {
            Option::Some(v) => {
                push_field(&mut out, "connect", v.to_datum());
            },
            Option::None => {},
        }
        match &self.config {
            Option::Some(v) => {
                push_field(&mut out, "config", v.to_datum());
            },
            Option::None => {},
        }
        let r = Datum::Object(out);
        proof {
            assert(dview_fields(out@) == self.spec_fields());
        }
        r
    }
}

/// Options of `wait`. Absent fields are omitted from the options object.
#[derive(Clone, Copy, Debug)]
pub struct WaitOptions {
    pub wait_for: Option<WaitFor>,
    pub timeout: Option<i64>,
}

impl WaitOptions {
    /// Options with every field absent.
    pub fn new() -> (r: WaitOptions)
        ensures
            r.wait_for is None,
            r.timeout is None,
    {
        WaitOptions { wait_for: Option::None, timeout: Option::None }
    }

    /// The options with `wait_for` set.
    pub fn wait_for(self, value: WaitFor) -> (r: WaitOptions)
        ensures
            r.wait_for == Option::Some(value),
            r.timeout == self.timeout,
    {
        WaitOptions { wait_for: Option::Some(value), ..self }
    }

    /// The options with `timeout` set.
    pub fn timeout(self, value: i64) -> (r: WaitOptions)
        ensures
            r.timeout == Option::Some(value),
            r.wait_for == self.wait_for,
    {
        WaitOptions { timeout: Option::Some(value), ..self }
    }

    /// The fields of the serialized options object, in order, absent
    /// fields omitted.
    pub open spec fn spec_fields(self) -> Seq<(Seq<char>, DatumV)> {
        let f0 = if self.wait_for is Some {
            Seq::<(Seq<char>, DatumV)>::empty().push(("wait_for"@, self.wait_for->0.spec_to_datum()))
        } else {
            Seq::<(Seq<char>, DatumV)>::empty()
        };
        let f1 = if self.timeout is Some {
            f0.push(("timeout"@, DatumV::Number(self.timeout->0 as int)))
        } else {
            f0
        };
        f1
    }

    /// The options object this value serializes to.
    pub open spec fn spec_to_datum(self) -> DatumV {
        DatumV::Object(self.spec_fields())
    }

    /// Serialize these options, omitting absent fields.
    pub fn to_datum(&self) -> (r: Datum)
        ensures
            r@ == self.spec_to_datum(),
    {
        let mut out: Vec<(String, Datum)> = Vec::new();
        proof {
            assert(dview_fields(out@) =~= Seq::<(Seq<char>, DatumV)>::empty());
        }
        match &self.wait_for {
            Option::Some(v) => {
                push_field(&mut out, "wait_for", v.to_datum());
            },
            Option::None => {},
        }
        match &self.timeout {
            Option::Some(v) => {
                push_field(&mut out, "timeout", Datum::Number(*v));
            },
            Option::None => {},
        }
        let r = Datum::Object(out);
        proof {
            assert(dview_fields(out@) == self.spec_fields());
        }
        r
    }
}

/// How change notifications are batched: squashed or verbatim (a boolean),
/// or squashed over a window of seconds with millisecond precision.
#[derive(Clone, Copy, PartialEq, Eq, Structural, Debug)]
pub enum Squash {
    Bool(bool),
    Seconds(i64, u16),
}

impl Squash {
    /// The value this choice serializes to.
    pub open spec fn spec_to_datum(self) -> DatumV {
        match self {
            Squash::Bool(b) => DatumV::Bool(b),
            Squash::Seconds(w, m) => DatumV::Value(
                crate::json::JsonV::Fixed(w as int, m as int),
            ),
        }
    }

    /// Serialize this choice.
    pub fn to_datum(&self) -> (r: Datum)
        ensures
            r@ == self.spec_to_datum(),
    {
        match self {
            Squash::Bool(b) => Datum::Bool(*b),
            Squash::Seconds(w, m) => Datum::Value(crate::json::Json::Fixed(*w, *m)),
        }
    }
}

/// Options of `changes`. Absent fields are omitted from the options object.
#[derive(Clone, Copy, Debug)]
pub struct ChangesOptions {
    pub squash: Option<Squash>,
    pub changefeed_queue_size: Option<u32>,
    pub include_initial: Option<bool>,
    pub include_states: Option<bool>,
    pub include_offsets: Option<bool>,
    pub include_types: Option<bool>,
}

impl ChangesOptions {
    /// Options with every field absent.
    pub fn new() -> (r: ChangesOptions)
        ensures
            r.squash is None,
            r.changefeed_queue_size is None,
            r.include_initial is None,
            r.include_states is None,
            r.include_offsets is None,
            r.include_types is None,
    {
        ChangesOptions { squash: Option::None, changefeed_queue_size: Option::None, include_initial: Option::None, include_states: Option::None, include_offsets: Option::None, include_types: Option::None }
    }

    /// The options with `squash` set.
    pub fn squash(self, value: Squash) -> (r: ChangesOptions)
        ensures
            r.squash == Option::Some(value),
            r.changefeed_queue_size == self.changefeed_queue_size,
            r.include_initial == self.include_initial,
            r.include_states == self.include_states,
            r.include_offsets == self.include_offsets,
            r.include_types == self.include_types,
    {
        ChangesOptions { squash: Option::Some(value), ..self }
    }

    /// The options with `changefeed_queue_size` set.
    pub fn changefeed_queue_size(self, value: u32) -> (r: ChangesOptions)
        ensures
            r.changefeed_queue_size == Option::Some(value),
            r.squash == self.squash,
            r.include_initial == self.include_initial,
            r.include_states == self.include_states,
            r.include_offsets == self.include_offsets,
            r.include_types == self.include_types,
    {
        ChangesOptions { changefeed_queue_size: Option::Some(value), ..self }
    }

    /// The options with `include_initial` set.
    pub fn include_initial(self, value: bool) -> (r: ChangesOptions)
        ensures
            r.include_initial == Option::Some(value),
            r.squash == self.squash,
            r.changefeed_queue_size == self.changefeed_queue_size,
            r.include_states == self.include_states,
            r.include_offsets == self.include_offsets,
            r.include_types == self.include_types,
    {
        ChangesOptions { include_initial: Option::Some(value), ..self }
    }

    /// The options with `include_states` set.
    pub fn include_states(self, value: bool) -> (r: ChangesOptions)
        ensures
            r.include_states == Option::Some(value),
            r.squash == self.squash,
            r.changefeed_queue_size == self.changefeed_queue_size,
            r.include_initial == self.include_initial,
            r.include_offsets == self.include_offsets,
            r.include_types == self.include_types,
    {
        ChangesOptions { include_states: Option::Some(value), ..self }
    }

    /// The options with `include_offsets` set.
    pub fn include_offsets(self, value: bool) -> (r: ChangesOptions)
        ensures
            r.include_offsets == Option::Some(value),
            r.squash == self.squash,
            r.changefeed_queue_size == self.changefeed_queue_size,
            r.include_initial == self.include_initial,
            r.include_states == self.include_states,
            r.include_types == self.include_types,
    {
        ChangesOptions { include_offsets: Option::Some(value), ..self }
    }

    /// The options with `include_types` set.
    pub fn include_types(self, value: bool) -> (r: ChangesOptions)
        ensures
            r.include_types == Option::Some(value),
            r.squash == self.squash,
            r.changefeed_queue_size == self.changefeed_queue_size,
            r.include_initial == self.include_initial,
            r.include_states == self.include_states,
            r.include_offsets == self.include_offsets,
    {
        ChangesOptions { include_types: Option::Some(value), ..self }
    }

    /// The fields of the serialized options object, in order, absent
    /// fields omitted.
    pub open spec fn spec_fields(self) -> Seq<(Seq<char>, DatumV)> {
        let f0 = if self.squash is Some {
            Seq::<(Seq<char>, DatumV)>::empty().push(
                ("squash"@, self.squash->0.spec_to_datum()),
            )
        } else {
            Seq::<(Seq<char>, DatumV)>::empty()
        };
        let f1 = if self.changefeed_queue_size is Some {
            f0.push(("changefeed_queue_size"@, DatumV::Number(self.changefeed_queue_size->0 as int)))
        } else {
            f0
        };
        let f2 = if self.include_initial is Some {
            f1.push(("include_initial"@, DatumV::Bool(self.include_initial->0)))
        } else {
            f1
        };
        let f3 = if self.include_states is Some {
            f2.push(("include_states"@, DatumV::Bool(self.include_states->0)))
        } else {
            f2
        };
        let f4 = if self.include_offsets is Some {
            f3.push(("include_offsets"@, DatumV::Bool(self.include_offsets->0)))
        } else {
            f3
        };
        let f5 = if self.include_types is Some {
            f4.push(("include_types"@, DatumV::Bool(self.include_types->0)))
        } else {
            f4
        };
        f5
    }

    /// The options object this value serializes to.
    pub open spec fn spec_to_datum(self) -> DatumV {
        DatumV::Object(self.spec_fields())
    }

    /// Serialize these options, omitting absent fields.
    pub fn to_datum(&self) -> (r: Datum)
        ensures
            r@ == self.spec_to_datum(),
    {
        let mut out: Vec<(String, Datum)> = Vec::new();
        proof {
            assert(dview_fields(out@) =~= Seq::<(Seq<char>, DatumV)>::empty());
        }
        match &self.squash {
            Option::Some(v) => {
                push_field(&mut out, "squash", v.to_datum());
            },
            Option::None => {},
        }
        match &self.changefeed_queue_size {
            Option::Some(v) => {
                push_field(&mut out, "changefeed_queue_size", Datum::Number(*v as i64));
            },
            Option::None => {},
        }
        match &self.include_initial {
            Option::Some(v) => {
                push_field(&mut out, "include_initial", Datum::Bool(*v));
            },
            Option::None => {},
        }
        match &self.include_states {
            Option::Some(v) => {
                push_field(&mut out, "include_states", Datum::Bool(*v));
            },
            Option::None => {},
        }
        match &self.include_offsets {
            Option::Some(v) => {
                push_field(&mut out, "include_offsets", Datum::Bool(*v));
            },
            Option::None => {},
        }
        match &self.include_types {
            Option::Some(v) => {
                push_field(&mut out, "include_types", Datum::Bool(*v));
            },
            Option::None => {},
        }
        let r = Datum::Object(out);
        proof {
            assert(dview_fields(out@) == self.spec_fields());
        }
        r
    }
}

/// The replica configuration of a new table: a replica count, or a count
/// per server tag together with the tag of the primary replica.
#[derive(Clone, Debug)]
pub enum Replicas {
    Int(u8),
    PerTag { replicas: Vec<(String, u8)>, primary_replica_tag: String },
}

/// The object a per-tag replica map serializes to.
pub open spec fn spec_replica_entries(s: Seq<(String, u8)>) -> Seq<(Seq<char>, DatumV)> {
    Seq::new(s.len(), |i: int| (s[i].0@, DatumV::Number(s[i].1 as int)))
}

/// Options of `table_create`. Absent fields are omitted; a per-tag replica
/// configuration spreads into a replica object and a trailing primary
/// replica tag.
#[derive(Clone, Debug)]
pub struct TableCreateOptions {
    pub primary_key: Option<String>,
    pub durability: Option<Durability>,
    pub shards: Option<u8>,
    pub replicas: Option<Replicas>,
}

impl TableCreateOptions {
    /// Options with every field absent.
    pub fn new() -> (r: TableCreateOptions)
        ensures
            r.primary_key is None,
            r.durability is None,
            r.shards is None,
            r.replicas is None,
    {
        TableCreateOptions {
            primary_key: Option::None,
            durability: Option::None,
            shards: Option::None,
            replicas: Option::None,
        }
    }

    /// The options with `primary_key` set.
    pub fn primary_key(self, value: String) -> (r: TableCreateOptions)
        ensures
            r.primary_key == Option::Some(value),
            r.durability == self.durability,
            r.shards == self.shards,
            r.replicas == self.replicas,
    {
        TableCreateOptions { primary_key: Option::Some(value), ..self }
    }

    /// The options with `durability` set.
    pub fn durability(self, value: Durability) -> (r: TableCreateOptions)
        ensures
            r.durability == Option::Some(value),
            r.primary_key == self.primary_key,
            r.shards == self.shards,
            r.replicas == self.replicas,
    {
        TableCreateOptions { durability: Option::Some(value), ..self }
    }

    /// The options with `shards` set.
    pub fn shards(self, value: u8) -> (r: TableCreateOptions)
        ensures
            r.shards == Option::Some(value),
            r.primary_key == self.primary_key,
            r.durability == self.durability,
            r.replicas == self.replicas,
    {
        TableCreateOptions { shards: Option::Some(value), ..self }
    }

    /// The options with `replicas` set.
    pub fn replicas(self, value: Replicas) -> (r: TableCreateOptions)
        ensures
            r.replicas == Option::Some(value),
            r.primary_key == self.primary_key,
            r.durability == self.durability,
            r.shards == self.shards,
    {
        TableCreateOptions { replicas: Option::Some(value), ..self }
    }

    /// The fields of the serialized options object, in order, absent fields
    /// omitted.
    pub open spec fn spec_fields(self) -> Seq<(Seq<char>, DatumV)> {
        let f0 = if self.primary_key is Some {
            Seq::<(Seq<char>, DatumV)>::empty().push(
                ("primary_key"@, DatumV::Str(self.primary_key->0@)),
            )
        } else {
            Seq::<(Seq<char>, DatumV)>::empty()
        };
        let f1 = if self.durability is Some {
            f0.push(("durability"@, self.durability->0.spec_to_datum()))
        } else {
            f0
        };
        let f2 = if self.shards is Some {
            f1.push(("shards"@, DatumV::Number(self.shards->0 as int)))
        } else {
            f1
        };
        match self.replicas {
            Option::Some(Replicas::Int(n)) => f2.push(("replicas"@, DatumV::Number(n as int))),
            Option::Some(Replicas::PerTag { replicas, primary_replica_tag }) => f2.push(
                ("replicas"@, DatumV::Object(spec_replica_entries(replicas@))),
            ).push(("primary_replica_tag"@, DatumV::Str(primary_replica_tag@))),
            Option::None => f2,
        }
    }

    /// The options object this value serializes to.
    pub open spec fn spec_to_datum(self) -> DatumV {
        DatumV::Object(self.spec_fields())
    }

    /// Serialize these options, omitting absent fields.
    pub fn to_datum(&self) -> (r: Datum)
        ensures
            r@ == self.spec_to_datum(),
    {
        let mut out: Vec<(String, Datum)> = Vec::new();
        proof {
            assert(dview_fields(out@) =~= Seq::<(Seq<char>, DatumV)>::empty());
        }
        match &self.primary_key {
            Option::Some(v) => {
                push_field(&mut out, "primary_key", Datum::String(v.clone()));
            },
            Option::None => {},
        }
        match &self.durability {
            Option::Some(v) => {
                push_field(&mut out, "durability", v.to_datum());
            },
            Option::None => {},
        }
        match &self.shards {
            Option::Some(v) => {
                push_field(&mut out, "shards", Datum::Number(*v as i64));
            },
            Option::None => {},
        }
        match &self.replicas {
            Option::Some(Replicas::Int(n)) => {
                push_field(&mut out, "replicas", Datum::Number(*n as i64));
            },
            Option::Some(Replicas::PerTag { replicas, primary_replica_tag }) => {
                let n = replicas.len();
                let mut entries: Vec<(String, Datum)> = Vec::new();
                let mut k: usize = 0;
                while k < n
                    invariant
                        k <= n,
                        n == replicas@.len(),
                        entries@.len() == k,
                        forall|t: int|
                            0 <= t < k ==> #[trigger] entries@[t].0@ == replicas@[t].0@
                                && dview(entries@[t].1) == DatumV::Number(replicas@[t].1 as int),
                    decreases n - k,
                {
                    let ghost pre = entries@;
                    let key = replicas[k].0.clone();
                    entries.push((key, Datum::Number(replicas[k].1 as i64)));
                    proof {
                        assert forall|t: int|
                            0 <= t < k + 1 implies #[trigger] entries@[t].0@ == replicas@[t].0@
                                && dview(entries@[t].1) == DatumV::Number(
                                replicas@[t].1 as int,
                            ) by {
                            if t < k {
                                assert(entries@[t] == pre[t]);
                                assert(pre[t].0@ == replicas@[t].0@ && dview(pre[t].1)
                                    == DatumV::Number(replicas@[t].1 as int));
                            } else {
                                assert(entries@[t].0@ == replicas@[t].0@);
                            }
                        }
                    }
                    k = k + 1;
                }
                proof {
                    crate::proto::lemma_dview_fields_len(entries@);
                    assert forall|t: int| 0 <= t < n implies #[trigger] dview_fields(entries@)[t]
                        == spec_replica_entries(replicas@)[t] by {
                        crate::proto::lemma_dview_fields_index(entries@, t);
                    }
                    assert(dview_fields(entries@) =~= spec_replica_entries(replicas@));
                }
                push_field(&mut out, "replicas", Datum::Object(entries));
                push_field(
                    &mut out,
                    "primary_replica_tag",
                    Datum::String(primary_replica_tag.clone()),
                );
            },
            Option::None => {},
        }
        let r = Datum::Object(out);
        proof {
            assert(dview_fields(out@) == self.spec_fields());
        }
        r
    }
}

/// How `union` merges its sequences: in any order, left to right, or by a
/// merge key given as a field name or function.
#[derive(Clone, Debug)]
pub enum Interleave {
    Bool(bool),
    Command(Command),
}

impl Interleave {
    /// The value this choice serializes to.
    pub open spec fn spec_to_datum(self) -> DatumV {
        match self {
            Interleave::Bool(b) => DatumV::Bool(b),
            Interleave::Command(c) => DatumV::Command(Box::new(c@)),
        }
    }

    /// Serialize this choice.
    pub fn to_datum(&self) -> (r: Datum)
        ensures
            r@ == self.spec_to_datum(),
    {
        match self {
            Interleave::Bool(b) => Datum::Bool(*b),
            Interleave::Command(c) => {
                let r = Datum::Command(Box::new(c.clone()));
                proof {
                    assert(self.spec_to_datum() == DatumV::Command(Box::new(c@)));
                }
                r
            },
        }
    }
}

/// Options of `union`. Absent fields are omitted from the options object.
#[derive(Clone, Debug)]
pub struct UnionOptions {
    pub interleave: Option<Interleave>,
}

impl UnionOptions {
    /// Options with every field absent.
    pub fn new() -> (r: UnionOptions)
        ensures
            r.interleave is None,
    {
        UnionOptions { interleave: Option::None }
    }

    /// The options with `interleave` set.
    pub fn interleave(self, value: Interleave) -> (r: UnionOptions)
        ensures
            r.interleave == Option::Some(value),
    {
        UnionOptions { interleave: Option::Some(value) }
    }

    /// The fields of the serialized options object, in order, absent
    /// fields omitted.
    pub open spec fn spec_fields(self) -> Seq<(Seq<char>, DatumV)> {
        if self.interleave is Some {
            Seq::<(Seq<char>, DatumV)>::empty().push(
                ("interleave"@, self.interleave->0.spec_to_datum()),
            )
        } else {
            Seq::<(Seq<char>, DatumV)>::empty()
        }
    }

    /// The options object this value serializes to.
    pub open spec fn spec_to_datum(self) -> DatumV {
        DatumV::Object(self.spec_fields())
    }

    /// Serialize these options, omitting absent fields.
    pub fn to_datum(&self) -> (r: Datum)
        ensures
            r@ == self.spec_to_datum(),
    {
        let mut out: Vec<(String, Datum)> = Vec::new();
        proof {
            assert(dview_fields(out@) =~= Seq::<(Seq<char>, DatumV)>::empty());
        }
        match &self.interleave {
            Option::Some(v) => {
                push_field(&mut out, "interleave", v.to_datum());
            },
            Option::None => {},
        }
        let r = Datum::Object(out);
        proof {
            assert(dview_fields(out@) == self.spec_fields());
        }
        r
    }
}

/// Options of `fold`: terms emitted per element and at the end. Absent
/// fields are omitted from the options object.
#[derive(Clone, Debug)]
pub struct FoldOptions {
    pub emit: Option<Command>,
    pub final_emit: Option<Command>,
}

impl FoldOptions {
    /// Options with every field absent.
    pub fn new() -> (r: FoldOptions)
        ensures
            r.emit is None,
            r.final_emit is None,
    {
        FoldOptions { emit: Option::None, final_emit: Option::None }
    }

    /// The options with `emit` set.
    pub fn emit(self, value: Command) -> (r: FoldOptions)
        ensures
            r.emit == Option::Some(value),
            r.final_emit == self.final_emit,
    {
        FoldOptions { emit: Option::Some(value), ..self }
    }

    /// The options with `final_emit` set.
    pub fn final_emit(self, value: Command) -> (r: FoldOptions)
        ensures
            r.final_emit == Option::Some(value),
            r.emit == self.emit,
    {
        FoldOptions { final_emit: Option::Some(value), ..self }
    }

    /// The fields of the serialized options object, in order, absent
    /// fields omitted.
    pub open spec fn spec_fields(self) -> Seq<(Seq<char>, DatumV)> {
        let f0 = if self.emit is Some {
            Seq::<(Seq<char>, DatumV)>::empty().push(
                ("emit"@, DatumV::Command(Box::new(self.emit->0@))),
            )
        } else {
            Seq::<(Seq<char>, DatumV)>::empty()
        };
        if self.final_emit is Some {
            f0.push(("final_emit"@, DatumV::Command(Box::new(self.final_emit->0@))))
        } else {
            f0
        }
    }

    /// The options object this value serializes to.
    pub open spec fn spec_to_datum(self) -> DatumV {
        DatumV::Object(self.spec_fields())
    }

    /// Serialize these options, omitting absent fields.
    pub fn to_datum(&self) -> (r: Datum)
        ensures
            r@ == self.spec_to_datum(),
    {
        let mut out: Vec<(String, Datum)> = Vec::new();
        proof {
            assert(dview_fields(out@) =~= Seq::<(Seq<char>, DatumV)>::empty());
        }
        match &self.emit {
            Option::Some(v) => {
                push_field(&mut out, "emit", Datum::Command(Box::new(v.clone())));
            },
            Option::None => {},
        }
        match &self.final_emit {
            Option::Some(v) => {
                push_field(&mut out, "final_emit", Datum::Command(Box::new(v.clone())));
            },
            Option::None => {},
        }
        let r = Datum::Object(out);
        proof {
            assert(dview_fields(out@) == self.spec_fields());
        }
        r
    }
}

/// The format an `http` result is returned in.
#[derive(Clone, Copy, PartialEq, Eq, Structural, Debug)]
pub enum ResultFormat {
    Text,
    Json,
    Jsonp,
    Binary,
    Auto,
}

impl ResultFormat {
    /// The value this choice serializes to.
    pub open spec fn spec_to_datum(self) -> DatumV {
        match self {
            ResultFormat::Text => DatumV::Str("text"@),
            ResultFormat::Json => DatumV::Str("json"@),
            ResultFormat::Jsonp => DatumV::Str("jsonp"@),
            ResultFormat::Binary => DatumV::Str("binary"@),
            ResultFormat::Auto => DatumV::Str("auto"@),
        }
    }

    /// Serialize this choice.
    pub fn to_datum(&self) -> (r: Datum)
        ensures
            r@ == self.spec_to_datum(),
    {
        match self {
            ResultFormat::Text => Datum::String(<String as StringExecFns>::from_str("text")),
            ResultFormat::Json => Datum::String(<String as StringExecFns>::from_str("json")),
            ResultFormat::Jsonp => Datum::String(<String as StringExecFns>::from_str("jsonp")),
            ResultFormat::Binary => Datum::String(<String as StringExecFns>::from_str("binary")),
            ResultFormat::Auto => Datum::String(<String as StringExecFns>::from_str("auto")),
        }
    }
}

/// The method of an `http` request.
#[derive(Clone, Copy, PartialEq, Eq, Structural, Debug)]
pub enum HttpMethod {
    Get,
    Post,
    Put,
    Patch,
    Delete,
    Head,
}

impl HttpMethod {
    /// The value this choice serializes to.
    pub open spec fn spec_to_datum(self) -> DatumV {
        match self {
            HttpMethod::Get => DatumV::Str("GET"@),
            HttpMethod::Post => DatumV::Str("POST"@),
            HttpMethod::Put => DatumV::Str("PUT"@),
            HttpMethod::Patch => DatumV::Str("PATCH"@),
            HttpMethod::Delete => DatumV::Str("DELETE"@),
            HttpMethod::Head => DatumV::Str("HEAD"@),
        }
    }

    /// Serialize this choice.
    pub fn to_datum(&self) -> (r: Datum)
        ensures
            r@ == self.spec_to_datum(),
    {
        match self {
            HttpMethod::Get => Datum::String(<String as StringExecFns>::from_str("GET")),
            HttpMethod::Post => Datum::String(<String as StringExecFns>::from_str("POST")),
            HttpMethod::Put => Datum::String(<String as StringExecFns>::from_str("PUT")),
            HttpMethod::Patch => Datum::String(<String as StringExecFns>::from_str("PATCH")),
            HttpMethod::Delete => Datum::String(<String as StringExecFns>::from_str("DELETE")),
            HttpMethod::Head => Datum::String(<String as StringExecFns>::from_str("HEAD")),
        }
    }
}

/// Authentication of an `http` request. Absent fields are omitted from the options object.
#[derive(Clone, Debug)]
pub struct HttpAuth {
    pub type_: Option<String>,
    pub user: Option<String>,
    pub pass: Option<String>,
}

impl HttpAuth {
    /// Options with every field absent.
    pub fn new() -> (r: HttpAuth)
        ensures
            r.type_ is None,
            r.user is None,
            r.pass is None,
    {
        HttpAuth { type_: Option::None, user: Option::None, pass: Option::None }
    }

    /// The options with `type_` set.
    pub fn type_(self, value: String) -> (r: HttpAuth)
        ensures
            r.type_ == Option::Some(value),
            r.user == self.user,
            r.pass == self.pass,
    {
        HttpAuth { type_: Option::Some(value), ..self }
    }

    /// The options with `user` set.
    pub fn user(self, value: String) -> (r: HttpAuth)
        ensures
            r.user == Option::Some(value),
            r.type_ == self.type_,
            r.pass == self.pass,
    {
        HttpAuth { user: Option::Some(value), ..self }
    }

    /// The options with `pass` set.
    pub fn pass(self, value: String) -> (r: HttpAuth)
        ensures
            r.pass == Option::Some(value),
            r.type_ == self.type_,
            r.user == self.user,
    {
        HttpAuth { pass: Option::Some(value), ..self }
    }

    /// The fields of the serialized options object, in order, absent
    /// fields omitted.
    pub open spec fn spec_fields(self) -> Seq<(Seq<char>, DatumV)> {
        let f0 = if self.type_ is Some {
            Seq::<(Seq<char>, DatumV)>::empty().push(("type"@, DatumV::Str(self.type_->0@)))
        } else {
            Seq::<(Seq<char>, DatumV)>::empty()
        };
        let f1 = if self.user is Some {
            f0.push(("user"@, DatumV::Str(self.user->0@)))
        } else {
            f0
        };
        let f2 = if self.pass is Some {
            f1.push(("pass"@, DatumV::Str(self.pass->0@)))
        } else {
            f1
        };
        f2
    }

    /// The options object this value serializes to.
    pub open spec fn spec_to_datum(self) -> DatumV {
        DatumV::Object(self.spec_fields())
    }

    /// Serialize these options, omitting absent fields.
    pub fn to_datum(&self) -> (r: Datum)
        ensures
            r@ == self.spec_to_datum(),
    {
        let mut out: Vec<(String, Datum)> = Vec::new();
        proof {
            assert(dview_fields(out@) =~= Seq::<(Seq<char>, DatumV)>::empty());
        }
        match &self.type_ {
            Option::Some(v) => {
                push_field(&mut out, "type", Datum::String(v.clone()));
            },
            Option::None => {},
        }
        match &self.user {
            Option::Some(v) => {
                push_field(&mut out, "user", Datum::String(v.clone()));
            },
            Option::None => {},
        }
        match &self.pass {
            Option::Some(v) => {
                push_field(&mut out, "pass", Datum::String(v.clone()));
            },
            Option::None => {},
        }
        let r = Datum::Object(out);
        proof {
            assert(dview_fields(out@) == self.spec_fields());
        }
        r
    }
}

/// Options of `circle`. Absent fields are omitted from the options object.
#[derive(Clone, Debug)]
pub struct CircleOptions {
    pub num_vertices: Option<i64>,
    pub geo_system: Option<String>,
    pub unit: Option<String>,
    pub fill: Option<bool>,
}

impl CircleOptions {
    /// Options with every field absent.
    pub fn new() -> (r: CircleOptions)
        ensures
            r.num_vertices is None,
            r.geo_system is None,
            r.unit is None,
            r.fill is None,
    {
        CircleOptions { num_vertices: Option::None, geo_system: Option::None, unit: Option::None, fill: Option::None }
    }

    /// The options with `num_vertices` set.
    pub fn num_vertices(self, value: i64) -> (r: CircleOptions)
        ensures
            r.num_vertices == Option::Some(value),
            r.geo_system == self.geo_system,
            r.unit == self.unit,
            r.fill == self.fill,
    {
        CircleOptions { num_vertices: Option::Some(value), ..self }
    }

    /// The options with `geo_system` set.
    pub fn geo_system(self, value: String) -> (r: CircleOptions)
        ensures
            r.geo_system == Option::Some(value),
            r.num_vertices == self.num_vertices,
            r.unit == self.unit,
            r.fill == self.fill,
    {
        CircleOptions { geo_system: Option::Some(value), ..self }
    }

    /// The options with `unit` set.
    pub fn unit(self, value: String) -> (r: CircleOptions)
        ensures
            r.unit == Option::Some(value),
            r.num_vertices == self.num_vertices,
            r.geo_system == self.geo_system,
            r.fill == self.fill,
    {
        CircleOptions { unit: Option::Some(value), ..self }
    }

    /// The options with `fill` set.
    pub fn fill(self, value: bool) -> (r: CircleOptions)
        ensures
            r.fill == Option::Some(value),
            r.num_vertices == self.num_vertices,
            r.geo_system == self.geo_system,
            r.unit == self.unit,
    {
        CircleOptions { fill: Option::Some(value), ..self }
    }

    /// The fields of the serialized options object, in order, absent
    /// fields omitted.
    pub open spec fn spec_fields(self) -> Seq<(Seq<char>, DatumV)> {
        let f0 = if self.num_vertices is Some {
            Seq::<(Seq<char>, DatumV)>::empty().push(("num_vertices"@, DatumV::Number(self.num_vertices->0 as int)))
        } else {
            Seq::<(Seq<char>, DatumV)>::empty()
        };
        let f1 = if self.geo_system is Some {
            f0.push(("geo_system"@, DatumV::Str(self.geo_system->0@)))
        } else {
            f0
        };
        let f2 = if self.unit is Some {
            f1.push(("unit"@, DatumV::Str(self.unit->0@)))
        } else {
            f1
        };
        let f3 = if self.fill is Some {
            f2.push(("fill"@, DatumV::Bool(self.fill->0)))
        } else {
            f2
        };
        f3
    }

    /// The options object this value serializes to.
    pub open spec fn spec_to_datum(self) -> DatumV {
        DatumV::Object(self.spec_fields())
    }

    /// Serialize these options, omitting absent fields.
    pub fn to_datum(&self) -> (r: Datum)
        ensures
            r@ == self.spec_to_datum(),
    {
        let mut out: Vec<(String, Datum)> = Vec::new();
        proof {
            assert(dview_fields(out@) =~= Seq::<(Seq<char>, DatumV)>::empty());
        }
        match &self.num_vertices {
            Option::Some(v) => {
                push_field(&mut out, "num_vertices", Datum::Number(*v));
            },
            Option::None => {},
        }
        match &self.geo_system {
            Option::Some(v) => {
                push_field(&mut out, "geo_system", Datum::String(v.clone()));
            },
            Option::None => {},
        }
        match &self.unit {
            Option::Some(v) => {
                push_field(&mut out, "unit", Datum::String(v.clone()));
            },
            Option::None => {},
        }
        match &self.fill {
            Option::Some(v) => {
                push_field(&mut out, "fill", Datum::Bool(*v));
            },
            Option::None => {},
        }
        let r = Datum::Object(out);
        proof {
            assert(dview_fields(out@) == self.spec_fields());
        }
        r
    }
}

/// Options of `distance`. Absent fields are omitted from the options object.
#[derive(Clone, Debug)]
pub struct DistanceOptions {
    pub geo_system: Option<String>,
    pub unit: Option<String>,
}

impl DistanceOptions {
    /// Options with every field absent.
    pub fn new() -> (r: DistanceOptions)
        ensures
            r.geo_system is None,
            r.unit is None,
    {
        DistanceOptions { geo_system: Option::None, unit: Option::None }
    }

    /// The options with `geo_system` set.
    pub fn geo_system(self, value: String) -> (r: DistanceOptions)
        ensures
            r.geo_system == Option::Some(value),
            r.unit == self.unit,
    {
        DistanceOptions { geo_system: Option::Some(value), ..self }
    }

    /// The options with `unit` set.
    pub fn unit(self, value: String) -> (r: DistanceOptions)
        ensures
            r.unit == Option::Some(value),
            r.geo_system == self.geo_system,
    {
        DistanceOptions { unit: Option::Some(value), ..self }
    }

    /// The fields of the serialized options object, in order, absent
    /// fields omitted.
    pub open spec fn spec_fields(self) -> Seq<(Seq<char>, DatumV)> {
        let f0 = if self.geo_system is Some {
            Seq::<(Seq<char>, DatumV)>::empty().push(("geo_system"@, DatumV::Str(self.geo_system->0@)))
        } else {
            Seq::<(Seq<char>, DatumV)>::empty()
        };
        let f1 = if self.unit is Some {
            f0.push(("unit"@, DatumV::Str(self.unit->0@)))
        } else {
            f0
        };
        f1
    }

    /// The options object this value serializes to.
    pub open spec fn spec_to_datum(self) -> DatumV {
        DatumV::Object(self.spec_fields())
    }

    /// Serialize these options, omitting absent fields.
    pub fn to_datum(&self) -> (r: Datum)
        ensures
            r@ == self.spec_to_datum(),
    {
        let mut out: Vec<(String, Datum)> = Vec::new();
        proof {
            assert(dview_fields(out@) =~= Seq::<(Seq<char>, DatumV)>::empty());
        }
        match &self.geo_system {
            Option::Some(v) => {
                push_field(&mut out, "geo_system", Datum::String(v.clone()));
            },
            Option::None => {},
        }
        match &self.unit {
            Option::Some(v) => {
                push_field(&mut out, "unit", Datum::String(v.clone()));
            },
            Option::None => {},
        }
        let r = Datum::Object(out);
        proof {
            assert(dview_fields(out@) == self.spec_fields());
        }
        r
    }
}

/// Options of `get_nearest`. Absent fields are omitted from the options object.
#[derive(Clone, Debug)]
pub struct GetNearestOptions {
    pub index: Option<String>,
    pub max_results: Option<i64>,
    pub unit: Option<String>,
    pub max_dist: Option<i64>,
    pub geo_system: Option<String>,
}

impl GetNearestOptions {
    /// Options with every field absent.
    pub fn new() -> (r: GetNearestOptions)
        ensures
            r.index is None,
            r.max_results is None,
            r.unit is None,
            r.max_dist is None,
            r.geo_system is None,
    {
        GetNearestOptions { index: Option::None, max_results: Option::None, unit: Option::None, max_dist: Option::None, geo_system: Option::None }
    }

    /// The options with `index` set.
    pub fn index(self, value: String) -> (r: GetNearestOptions)
        ensures
            r.index == Option::Some(value),
            r.max_results == self.max_results,
            r.unit == self.unit,
            r.max_dist == self.max_dist,
            r.geo_system == self.geo_system,
    {
        GetNearestOptions { index: Option::Some(value), ..self }
    }

    /// The options with `max_results` set.
    pub fn max_results(self, value: i64) -> (r: GetNearestOptions)
        ensures
            r.max_results == Option::Some(value),
            r.index == self.index,
            r.unit == self.unit,
            r.max_dist == self.max_dist,
            r.geo_system == self.geo_system,
    {
        GetNearestOptions { max_results: Option::Some(value), ..self }
    }

    /// The options with `unit` set.
    pub fn unit(self, value: String) -> (r: GetNearestOptions)
        ensures
            r.unit == Option::Some(value),
            r.index == self.index,
            r.max_results == self.max_results,
            r.max_dist == self.max_dist,
            r.geo_system == self.geo_system,
    {
        GetNearestOptions { unit: Option::Some(value), ..self }
    }

    /// The options with `max_dist` set.
    pub fn max_dist(self, value: i64) -> (r: GetNearestOptions)
        ensures
            r.max_dist == Option::Some(value),
            r.index == self.index,
            r.max_results == self.max_results,
            r.unit == self.unit,
            r.geo_system == self.geo_system,
    {
        GetNearestOptions { max_dist: Option::Some(value), ..self }
    }

    /// The options with `geo_system` set.
    pub fn geo_system(self, value: String) -> (r: GetNearestOptions)
        ensures
            r.geo_system == Option::Some(value),
            r.index == self.index,
            r.max_results == self.max_results,
            r.unit == self.unit,
            r.max_dist == self.max_dist,
    {
        GetNearestOptions { geo_system: Option::Some(value), ..self }
    }

    /// The fields of the serialized options object, in order, absent
    /// fields omitted.
    pub open spec fn spec_fields(self) -> Seq<(Seq<char>, DatumV)> {
        let f0 = if self.index is Some {
            Seq::<(Seq<char>, DatumV)>::empty().push(("index"@, DatumV::Str(self.index->0@)))
        } else {
            Seq::<(Seq<char>, DatumV)>::empty()
        };
        let f1 = if self.max_results is Some {
            f0.push(("max_results"@, DatumV::Number(self.max_results->0 as int)))
        } else {
            f0
        };
        let f2 = if self.unit is Some {
            f1.push(("unit"@, DatumV::Str(self.unit->0@)))
        } else {
            f1
        };
        let f3 = if self.max_dist is Some {
            f2.push(("max_dist"@, DatumV::Number(self.max_dist->0 as int)))
        } else {
            f2
        };
        let f4 = if self.geo_system is Some {
            f3.push(("geo_system"@, DatumV::Str(self.geo_system->0@)))
        } else {
            f3
        };
        f4
    }

    /// The options object this value serializes to.
    pub open spec fn spec_to_datum(self) -> DatumV {
        DatumV::Object(self.spec_fields())
    }

    /// Serialize these options, omitting absent fields.
    pub fn to_datum(&self) -> (r: Datum)
        ensures
            r@ == self.spec_to_datum(),
    {
        let mut out: Vec<(String, Datum)> = Vec::new();
        proof {
            assert(dview_fields(out@) =~= Seq::<(Seq<char>, DatumV)>::empty());
        }
        match &self.index {
            Option::Some(v) => {
                push_field(&mut out, "index", Datum::String(v.clone()));
            },
            Option::None => {},
        }
        match &self.max_results {
            Option::Some(v) => {
                push_field(&mut out, "max_results", Datum::Number(*v));
            },
            Option::None => {},
        }
        match &self.unit {
            Option::Some(v) => {
                push_field(&mut out, "unit", Datum::String(v.clone()));
            },
            Option::None => {},
        }
        match &self.max_dist {
            Option::Some(v) => {
                push_field(&mut out, "max_dist", Datum::Number(*v));
            },
            Option::None => {},
        }
        match &self.geo_system {
            Option::Some(v) => {
                push_field(&mut out, "geo_system", Datum::String(v.clone()));
            },
            Option::None => {},
        }
        let r = Datum::Object(out);
        proof {
            assert(dview_fields(out@) == self.spec_fields());
        }
        r
    }
}

} // verus!
