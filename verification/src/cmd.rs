//! The command constructors: each builds one operation node, applies its
//! argument shape, and chains the receiver as the first positional child.

use crate::args::{Arg, Args, ArgsWithOpt, IntoCommand, ManyArgs, OneAndSecondOptionalArg, Opt};
use crate::options::{
    BetweenOptions, ChangesOptions, CircleOptions, DeleteOptions, DistanceOptions, FilterOptions,
    FoldOptions, GetNearestOptions, Index, IndexCreateOptions, InsertOptions, RandomOptions,
    ReplaceOptions, SliceOptions, TableCreateOptions, TableOptions, UnionOptions, UpdateOptions,
};
use crate::proto::{Command, CommandV, Datum, DatumV, TermKind};
use vstd::prelude::*;

verus! {

broadcast use vstd::std_specs::vec::group_vec_axioms, vstd::seq::group_seq_axioms;

/// An empty node of the given operation kind, as a model value.
pub open spec fn spec_new_term(k: TermKind) -> CommandV {
    CommandV::Data {
        typ: k,
        datum: Option::None,
        args: Seq::<CommandV>::empty(),
        opts: Option::None,
        change_feed: false,
    }
}

/// The top-level namespace the root constructors hang off.
#[allow(non_camel_case_types)]
#[derive(Clone, Copy, Debug)]
pub struct r;

impl r {
    /// Construct a literal term from a native value.
    pub fn expr<T: IntoCommand>(self, arg: T) -> (c: Command)
        ensures
            c@ == arg.into_command_spec(),
    {
        arg.into_command()
    }

    /// The tag that selects the explicit-list argument shape.
    pub fn args<T>(self, arg: T) -> (w: Args<T>)
        ensures
            w.0 == arg,
    {
        Args(arg)
    }

    /// The tag that pairs an argument with an options object.
    pub fn with_opt<T, P>(self, arg: T, opt: P) -> (w: ArgsWithOpt<T, P>)
        ensures
            w.0 == arg,
            w.1 == opt,
    {
        ArgsWithOpt(arg, opt)
    }

    /// An index option object `{"index": value}` for the commands that take
    /// a secondary index.
    pub fn index<T: IntoCommand>(self, arg: T) -> (ix: Index)
        ensures
            ix.0@ == CommandV::spec_datum_term(
                Result::Ok(
                    DatumV::Object(
                        seq![("index"@, DatumV::Command(Box::new(arg.into_command_spec())))],
                    ),
                ),
            ),
    {
        let mut fields: Vec<(String, Datum)> = Vec::new();
        let inner = arg.into_command();
        fields.push(("index".to_owned(), Datum::Command(Box::new(inner))));
        proof {
            assert(fields@.drop_last() =~= Seq::<(String, Datum)>::empty());
            assert(crate::proto::dview_fields(fields@.drop_last())
                =~= Seq::<(Seq<char>, DatumV)>::empty());
            assert(fields@.len() == 1);
            assert(fields@.last().0@ == "index"@);
            assert(crate::proto::dview(fields@.last().1) == DatumV::Command(
                Box::new(arg.into_command_spec()),
            ));
            assert(crate::proto::dview_fields(fields@) =~= seq![
                ("index"@, DatumV::Command(Box::new(arg.into_command_spec()))),
            ]);
        }
        Index(Command::from_json(Datum::Object(fields)))
    }
}

impl r {

    /// Reference a database by name.
    pub fn db<T: IntoCommand>(self, arg: T) -> (c: Command)
        ensures
            c@ == spec_new_term(TermKind::Db).push_arg(arg.into_command_spec()),
    {
        Command::new(TermKind::Db).with_arg(arg.into_command())
    }

    /// Create a database.
    pub fn db_create<T: IntoCommand>(self, arg: T) -> (c: Command)
        ensures
            c@ == spec_new_term(TermKind::DbCreate).push_arg(arg.into_command_spec()),
    {
        Command::new(TermKind::DbCreate).with_arg(arg.into_command())
    }

    /// Drop a database.
    pub fn db_drop<T: IntoCommand>(self, arg: T) -> (c: Command)
        ensures
            c@ == spec_new_term(TermKind::DbDrop).push_arg(arg.into_command_spec()),
    {
        Command::new(TermKind::DbDrop).with_arg(arg.into_command())
    }

    /// List the database names.
    pub fn db_list(self) -> (c: Command)
        ensures
            c@ == spec_new_term(TermKind::DbList),
    {
        Command::new(TermKind::DbList)
    }

    /// Select a table of the default database.
    pub fn table<T: Arg<TableOptions>>(self, arg: T) -> (c: Command)
        ensures
            c@ == arg.with_cmd_spec(spec_new_term(TermKind::Table)),
    {
        arg.with_cmd(Command::new(TermKind::Table))
    }

    /// Create a table in the default database.
    pub fn table_create<T: Arg<TableCreateOptions>>(self, arg: T) -> (c: Command)
        ensures
            c@ == arg.with_cmd_spec(spec_new_term(TermKind::TableCreate)),
    {
        arg.with_cmd(Command::new(TermKind::TableCreate))
    }

    /// Drop a table of the default database.
    pub fn table_drop<T: IntoCommand>(self, arg: T) -> (c: Command)
        ensures
            c@ == spec_new_term(TermKind::TableDrop).push_arg(arg.into_command_spec()),
    {
        Command::new(TermKind::TableDrop).with_arg(arg.into_command())
    }

    /// List the tables of the default database.
    pub fn table_list(self) -> (c: Command)
        ensures
            c@ == spec_new_term(TermKind::TableList),
    {
        Command::new(TermKind::TableList)
    }

    /// Count elements.
    pub fn count<T: ManyArgs<()>>(self, arg: T) -> (c: Command)
        ensures
            c@ == arg.with_cmd_spec(spec_new_term(TermKind::Count)),
    {
        arg.with_cmd(Command::new(TermKind::Count))
    }

    /// A random number: no bound, one upper bound, or two bounds.
    pub fn random<T: ManyArgs<RandomOptions>>(self, arg: T) -> (c: Command)
        ensures
            c@ == arg.with_cmd_spec(spec_new_term(TermKind::Random)),
    {
        arg.with_cmd(Command::new(TermKind::Random))
    }

    /// Round a number to the nearest integer.
    pub fn round<T: IntoCommand>(self, arg: T) -> (c: Command)
        ensures
            c@ == spec_new_term(TermKind::Round).push_arg(arg.into_command_spec()),
    {
        Command::new(TermKind::Round).with_arg(arg.into_command())
    }

    /// Round a number down.
    pub fn floor<T: IntoCommand>(self, arg: T) -> (c: Command)
        ensures
            c@ == spec_new_term(TermKind::Floor).push_arg(arg.into_command_spec()),
    {
        Command::new(TermKind::Floor).with_arg(arg.into_command())
    }

    /// Round a number up.
    pub fn ceil<T: IntoCommand>(self, arg: T) -> (c: Command)
        ensures
            c@ == spec_new_term(TermKind::Ceil).push_arg(arg.into_command_spec()),
    {
        Command::new(TermKind::Ceil).with_arg(arg.into_command())
    }

    /// The logical inverse of a value.
    pub fn not<T: IntoCommand>(self, arg: T) -> (c: Command)
        ensures
            c@ == spec_new_term(TermKind::Not).push_arg(arg.into_command_spec()),
    {
        Command::new(TermKind::Not).with_arg(arg.into_command())
    }

    /// The implicit reference to the row being processed; it must stand inside a function, and a bare use is wrapped into one automatically.
    pub fn row(self) -> (c: Command)
        ensures
            c@ == spec_new_term(TermKind::ImplicitVar),
    {
        Command::new(TermKind::ImplicitVar)
    }

    /// The smallest possible value, for open-ended ranges.
    pub fn minval(self) -> (c: Command)
        ensures
            c@ == spec_new_term(TermKind::Minval),
    {
        Command::new(TermKind::Minval)
    }

    /// The largest possible value, for open-ended ranges.
    pub fn maxval(self) -> (c: Command)
        ensures
            c@ == spec_new_term(TermKind::Maxval),
    {
        Command::new(TermKind::Maxval)
    }

    /// Mark a key as ascending for ordering.
    pub fn asc<T: IntoCommand>(self, arg: T) -> (c: Command)
        ensures
            c@ == spec_new_term(TermKind::Asc).push_arg(arg.into_command_spec()),
    {
        Command::new(TermKind::Asc).with_arg(arg.into_command())
    }

    /// Mark a key as descending for ordering.
    pub fn desc<T: IntoCommand>(self, arg: T) -> (c: Command)
        ensures
            c@ == spec_new_term(TermKind::Desc).push_arg(arg.into_command_spec()),
    {
        Command::new(TermKind::Desc).with_arg(arg.into_command())
    }

    /// Call a function with zero or more values.
    pub fn do_<T: ManyArgs<()>>(self, arg: T) -> (c: Command)
        ensures
            c@ == arg.with_cmd_spec(spec_new_term(TermKind::Funcall)),
    {
        arg.with_cmd(Command::new(TermKind::Funcall))
    }

    /// A branching conditional: condition/value pairs, then the fallback.
    pub fn branch<T: ManyArgs<()>>(self, arg: T) -> (c: Command)
        ensures
            c@ == arg.with_cmd_spec(spec_new_term(TermKind::Branch)),
    {
        arg.with_cmd(Command::new(TermKind::Branch))
    }

    /// A circle around a center point: a point and a radius.
    pub fn circle<T: ManyArgs<CircleOptions>>(self, arg: T) -> (c: Command)
        ensures
            c@ == arg.with_cmd_spec(spec_new_term(TermKind::Circle)),
    {
        arg.with_cmd(Command::new(TermKind::Circle))
    }

    /// A geometry point from a longitude and a latitude.
    pub fn point<A: IntoCommand, B: IntoCommand>(self, longitude: A, latitude: B) -> (c: Command)
        ensures
            c@ == spec_new_term(TermKind::Point).push_arg(longitude.into_command_spec()).push_arg(
                latitude.into_command_spec(),
            ),
    {
        Command::new(TermKind::Point).with_arg(longitude.into_command()).with_arg(
            latitude.into_command(),
        )
    }

    /// The time this query runs.
    pub fn now(self) -> (c: Command)
        ensures
            c@ == spec_new_term(TermKind::Now),
    {
        Command::new(TermKind::Now)
    }

    /// Raise a runtime error on the server.
    pub fn error<T: IntoCommand>(self, arg: T) -> (c: Command)
        ensures
            c@ == spec_new_term(TermKind::Error).push_arg(arg.into_command_spec()),
    {
        Command::new(TermKind::Error).with_arg(arg.into_command())
    }
}

impl Command {

    /// Select a table of this database.
    pub fn table<T: Arg<TableOptions>>(self, arg: T) -> (c: Command)
        ensures
            c@ == arg.with_cmd_spec(spec_new_term(TermKind::Table)).spec_with_parent(self@),
    {
        arg.with_cmd(Command::new(TermKind::Table)).with_parent(self)
    }

    /// Create a table in this database.
    pub fn table_create<T: Arg<TableCreateOptions>>(self, arg: T) -> (c: Command)
        ensures
            c@ == arg.with_cmd_spec(spec_new_term(TermKind::TableCreate)).spec_with_parent(self@),
    {
        arg.with_cmd(Command::new(TermKind::TableCreate)).with_parent(self)
    }

    /// Drop a table of this database.
    pub fn table_drop<T: IntoCommand>(self, arg: T) -> (c: Command)
        ensures
            c@ == spec_new_term(TermKind::TableDrop).push_arg(
                arg.into_command_spec(),
            ).spec_with_parent(self@),
    {
        Command::new(TermKind::TableDrop).with_arg(arg.into_command()).with_parent(self)
    }

    /// List the tables of this database.
    pub fn table_list(self) -> (c: Command)
        ensures
            c@ == spec_new_term(TermKind::TableList).spec_with_parent(self@),
    {
        Command::new(TermKind::TableList).with_parent(self)
    }

    /// Create a secondary index: a name, optionally with an index function.
    pub fn index_create<T: ManyArgs<IndexCreateOptions>>(self, arg: T) -> (c: Command)
        ensures
            c@ == arg.with_cmd_spec(spec_new_term(TermKind::IndexCreate)).spec_with_parent(self@),
    {
        arg.with_cmd(Command::new(TermKind::IndexCreate)).with_parent(self)
    }

    /// Drop a secondary index.
    pub fn index_drop<T: IntoCommand>(self, arg: T) -> (c: Command)
        ensures
            c@ == spec_new_term(TermKind::IndexDrop).push_arg(
                arg.into_command_spec(),
            ).spec_with_parent(self@),
    {
        Command::new(TermKind::IndexDrop).with_arg(arg.into_command()).with_parent(self)
    }

    /// List the secondary indexes.
    pub fn index_list(self) -> (c: Command)
        ensures
            c@ == spec_new_term(TermKind::IndexList).spec_with_parent(self@),
    {
        Command::new(TermKind::IndexList).with_parent(self)
    }

    /// Select one document by primary key.
    pub fn get<T: IntoCommand>(self, arg: T) -> (c: Command)
        ensures
            c@ == spec_new_term(TermKind::Get).push_arg(
                arg.into_command_spec(),
            ).spec_with_parent(self@),
    {
        Command::new(TermKind::Get).with_arg(arg.into_command()).with_parent(self)
    }

    /// Select documents by key, by default the primary key.
    pub fn get_all<T: ManyArgs<Index>>(self, arg: T) -> (c: Command)
        ensures
            c@ == arg.with_cmd_spec(spec_new_term(TermKind::GetAll)).spec_with_parent(self@),
    {
        arg.with_cmd(Command::new(TermKind::GetAll)).with_parent(self)
    }

    /// Keep the documents a predicate holds of.
    pub fn filter<T: Arg<FilterOptions>>(self, arg: T) -> (c: Command)
        ensures
            c@ == arg.with_cmd_spec(spec_new_term(TermKind::Filter)).spec_with_parent(self@),
    {
        arg.with_cmd(Command::new(TermKind::Filter)).with_parent(self)
    }

    /// Count elements.
    pub fn count<T: ManyArgs<()>>(self, arg: T) -> (c: Command)
        ensures
            c@ == arg.with_cmd_spec(spec_new_term(TermKind::Count)).spec_with_parent(self@),
    {
        arg.with_cmd(Command::new(TermKind::Count)).with_parent(self)
    }

    /// Insert one or many documents.
    pub fn insert<T: ManyArgs<InsertOptions>>(self, arg: T) -> (c: Command)
        ensures
            c@ == arg.with_cmd_spec(spec_new_term(TermKind::Insert)).spec_with_parent(self@),
    {
        arg.with_cmd(Command::new(TermKind::Insert)).with_parent(self)
    }

    /// Update documents with new values or a function.
    pub fn update<T: Arg<UpdateOptions>>(self, arg: T) -> (c: Command)
        ensures
            c@ == arg.with_cmd_spec(spec_new_term(TermKind::Update)).spec_with_parent(self@),
    {
        arg.with_cmd(Command::new(TermKind::Update)).with_parent(self)
    }

    /// Replace documents entirely.
    pub fn replace<T: Arg<ReplaceOptions>>(self, arg: T) -> (c: Command)
        ensures
            c@ == arg.with_cmd_spec(spec_new_term(TermKind::Replace)).spec_with_parent(self@),
    {
        arg.with_cmd(Command::new(TermKind::Replace)).with_parent(self)
    }

    /// Delete the selected documents.
    pub fn delete<T: Opt<DeleteOptions>>(self, arg: T) -> (c: Command)
        ensures
            c@ == arg.with_cmd_spec(spec_new_term(TermKind::Delete)).spec_with_parent(self@),
    {
        arg.with_cmd(Command::new(TermKind::Delete)).with_parent(self)
    }

    /// Sum numbers, or concatenate strings or arrays.
    pub fn add<T: ManyArgs<()>>(self, arg: T) -> (c: Command)
        ensures
            c@ == arg.with_cmd_spec(spec_new_term(TermKind::Add)).spec_with_parent(self@),
    {
        arg.with_cmd(Command::new(TermKind::Add)).with_parent(self)
    }

    /// Subtract numbers.
    pub fn sub<T: ManyArgs<()>>(self, arg: T) -> (c: Command)
        ensures
            c@ == arg.with_cmd_spec(spec_new_term(TermKind::Sub)).spec_with_parent(self@),
    {
        arg.with_cmd(Command::new(TermKind::Sub)).with_parent(self)
    }

    /// Multiply numbers, or repeat an array.
    pub fn mul<T: ManyArgs<()>>(self, arg: T) -> (c: Command)
        ensures
            c@ == arg.with_cmd_spec(spec_new_term(TermKind::Mul)).spec_with_parent(self@),
    {
        arg.with_cmd(Command::new(TermKind::Mul)).with_parent(self)
    }

    /// Divide numbers.
    pub fn div<T: ManyArgs<()>>(self, arg: T) -> (c: Command)
        ensures
            c@ == arg.with_cmd_spec(spec_new_term(TermKind::Div)).spec_with_parent(self@),
    {
        arg.with_cmd(Command::new(TermKind::Div)).with_parent(self)
    }

    /// Whether values are equal.
    pub fn eq<T: ManyArgs<()>>(self, arg: T) -> (c: Command)
        ensures
            c@ == arg.with_cmd_spec(spec_new_term(TermKind::Eq)).spec_with_parent(self@),
    {
        arg.with_cmd(Command::new(TermKind::Eq)).with_parent(self)
    }

    /// Whether values differ.
    pub fn ne<T: ManyArgs<()>>(self, arg: T) -> (c: Command)
        ensures
            c@ == arg.with_cmd_spec(spec_new_term(TermKind::Ne)).spec_with_parent(self@),
    {
        arg.with_cmd(Command::new(TermKind::Ne)).with_parent(self)
    }

    /// Whether values are strictly ascending.
    pub fn lt<T: ManyArgs<()>>(self, arg: T) -> (c: Command)
        ensures
            c@ == arg.with_cmd_spec(spec_new_term(TermKind::Lt)).spec_with_parent(self@),
    {
        arg.with_cmd(Command::new(TermKind::Lt)).with_parent(self)
    }

    /// Whether values are non-descending.
    pub fn le<T: ManyArgs<()>>(self, arg: T) -> (c: Command)
        ensures
            c@ == arg.with_cmd_spec(spec_new_term(TermKind::Le)).spec_with_parent(self@),
    {
        arg.with_cmd(Command::new(TermKind::Le)).with_parent(self)
    }

    /// Whether values are strictly descending.
    pub fn gt<T: ManyArgs<()>>(self, arg: T) -> (c: Command)
        ensures
            c@ == arg.with_cmd_spec(spec_new_term(TermKind::Gt)).spec_with_parent(self@),
    {
        arg.with_cmd(Command::new(TermKind::Gt)).with_parent(self)
    }

    /// Whether values are non-ascending.
    pub fn ge<T: ManyArgs<()>>(self, arg: T) -> (c: Command)
        ensures
            c@ == arg.with_cmd_spec(spec_new_term(TermKind::Ge)).spec_with_parent(self@),
    {
        arg.with_cmd(Command::new(TermKind::Ge)).with_parent(self)
    }

    /// The logical inverse of this value.
    pub fn not(self) -> (c: Command)
        ensures
            c@ == spec_new_term(TermKind::Not).spec_with_parent(self@),
    {
        Command::new(TermKind::Not).with_parent(self)
    }

    /// Round this number to the nearest integer.
    pub fn round(self) -> (c: Command)
        ensures
            c@ == spec_new_term(TermKind::Round).spec_with_parent(self@),
    {
        Command::new(TermKind::Round).with_parent(self)
    }

    /// Round this number down.
    pub fn floor(self) -> (c: Command)
        ensures
            c@ == spec_new_term(TermKind::Floor).spec_with_parent(self@),
    {
        Command::new(TermKind::Floor).with_parent(self)
    }

    /// Round this number up.
    pub fn ceil(self) -> (c: Command)
        ensures
            c@ == spec_new_term(TermKind::Ceil).spec_with_parent(self@),
    {
        Command::new(TermKind::Ceil).with_parent(self)
    }

    /// Read one field of a document (shorthand).
    pub fn g<T: IntoCommand>(self, arg: T) -> (c: Command)
        ensures
            c@ == spec_new_term(TermKind::GetField).push_arg(
                arg.into_command_spec(),
            ).spec_with_parent(self@),
    {
        Command::new(TermKind::GetField).with_arg(arg.into_command()).with_parent(self)
    }

    /// Read one field of a document.
    pub fn get_field<T: IntoCommand>(self, arg: T) -> (c: Command)
        ensures
            c@ == spec_new_term(TermKind::GetField).push_arg(
                arg.into_command_spec(),
            ).spec_with_parent(self@),
    {
        Command::new(TermKind::GetField).with_arg(arg.into_command()).with_parent(self)
    }

    /// Read a field of a document or an element of an array.
    pub fn bracket<T: IntoCommand>(self, arg: T) -> (c: Command)
        ensures
            c@ == spec_new_term(TermKind::Bracket).push_arg(
                arg.into_command_spec(),
            ).spec_with_parent(self@),
    {
        Command::new(TermKind::Bracket).with_arg(arg.into_command()).with_parent(self)
    }

    /// Merge objects or transformation functions into the documents.
    pub fn merge<T: ManyArgs<()>>(self, arg: T) -> (c: Command)
        ensures
            c@ == arg.with_cmd_spec(spec_new_term(TermKind::Merge)).spec_with_parent(self@),
    {
        arg.with_cmd(Command::new(TermKind::Merge)).with_parent(self)
    }

    /// The fallback value where this term is null or absent.
    pub fn default<T: IntoCommand>(self, arg: T) -> (c: Command)
        ensures
            c@ == spec_new_term(TermKind::Default).push_arg(
                arg.into_command_spec(),
            ).spec_with_parent(self@),
    {
        Command::new(TermKind::Default).with_arg(arg.into_command()).with_parent(self)
    }

    /// Call a function with this term as its value.
    pub fn do_<T: ManyArgs<()>>(self, arg: T) -> (c: Command)
        ensures
            c@ == arg.with_cmd_spec(spec_new_term(TermKind::Funcall)).spec_with_parent(self@),
    {
        arg.with_cmd(Command::new(TermKind::Funcall)).with_parent(self)
    }

    /// Keep at most the first elements.
    pub fn limit<T: IntoCommand>(self, arg: T) -> (c: Command)
        ensures
            c@ == spec_new_term(TermKind::Limit).push_arg(
                arg.into_command_spec(),
            ).spec_with_parent(self@),
    {
        Command::new(TermKind::Limit).with_arg(arg.into_command()).with_parent(self)
    }

    /// Drop the first elements.
    pub fn skip<T: IntoCommand>(self, arg: T) -> (c: Command)
        ensures
            c@ == spec_new_term(TermKind::Skip).push_arg(
                arg.into_command_spec(),
            ).spec_with_parent(self@),
    {
        Command::new(TermKind::Skip).with_arg(arg.into_command()).with_parent(self)
    }

    /// Select one element by position.
    pub fn nth<T: IntoCommand>(self, arg: T) -> (c: Command)
        ensures
            c@ == spec_new_term(TermKind::Nth).push_arg(
                arg.into_command_spec(),
            ).spec_with_parent(self@),
    {
        Command::new(TermKind::Nth).with_arg(arg.into_command()).with_parent(self)
    }

    /// Order the documents by keys, functions, or an index.
    pub fn order_by<T: ManyArgs<Index>>(self, arg: T) -> (c: Command)
        ensures
            c@ == arg.with_cmd_spec(spec_new_term(TermKind::OrderBy)).spec_with_parent(self@),
    {
        arg.with_cmd(Command::new(TermKind::OrderBy)).with_parent(self)
    }

    /// Concatenate sequences.
    pub fn union<T: ManyArgs<UnionOptions>>(self, arg: T) -> (c: Command)
        ensures
            c@ == arg.with_cmd_spec(spec_new_term(TermKind::Union)).spec_with_parent(self@),
    {
        arg.with_cmd(Command::new(TermKind::Union)).with_parent(self)
    }

    /// Combine a sequence into one value from a base with a folding
    /// function.
    pub fn fold<B: IntoCommand, F: IntoCommand, P: Opt<FoldOptions>>(
        self,
        base: B,
        function: F,
        opt: P,
    ) -> (c: Command)
        ensures
            c@ == opt.with_cmd_spec(
                spec_new_term(TermKind::Fold).push_arg(base.into_command_spec()).push_arg(
                    crate::proto::spec_wrap_by_func(function.into_command_spec()),
                ),
            ).spec_with_parent(self@),
    {
        let cmd = Command::new(TermKind::Fold).with_arg(base.into_command()).with_arg(
            function.into_command().wrap_by_func(),
        );
        opt.with_cmd(cmd).with_parent(self)
    }

    /// The distance between this point and another.
    pub fn distance<T: IntoCommand, P: Opt<DistanceOptions>>(self, point: T, opt: P) -> (c:
        Command)
        ensures
            c@ == opt.with_cmd_spec(
                spec_new_term(TermKind::Distance).push_arg(point.into_command_spec()),
            ).spec_with_parent(self@),
    {
        let cmd = Command::new(TermKind::Distance).with_arg(point.into_command());
        opt.with_cmd(cmd).with_parent(self)
    }

    /// The documents nearest to a point, by a geospatial index.
    pub fn get_nearest<T: IntoCommand, P: Opt<GetNearestOptions>>(self, point: T, opt: P) -> (c:
        Command)
        ensures
            c@ == opt.with_cmd_spec(
                spec_new_term(TermKind::GetNearest).push_arg(point.into_command_spec()),
            ).spec_with_parent(self@),
    {
        let cmd = Command::new(TermKind::GetNearest).with_arg(point.into_command());
        opt.with_cmd(cmd).with_parent(self)
    }

    /// A range of a sequence: a start offset, optionally an end offset.
    pub fn slice<T: OneAndSecondOptionalArg<SliceOptions>>(self, arg: T) -> (c: Command)
        ensures
            c@ == arg.with_cmd_spec(spec_new_term(TermKind::Slice)).spec_with_parent(self@),
    {
        arg.with_cmd(Command::new(TermKind::Slice)).with_parent(self)
    }

    /// Combine a sequence into one value with a pairwise reduction function.
    pub fn reduce<T: OneAndSecondOptionalArg<()>>(self, arg: T) -> (c: Command)
        ensures
            c@ == arg.with_cmd_spec(spec_new_term(TermKind::Reduce)).spec_with_parent(self@),
    {
        arg.with_cmd(Command::new(TermKind::Reduce)).with_parent(self)
    }

    /// Turn this query into a changefeed: an unbounded stream of change
    /// notifications. The resulting term carries the changefeed mark through
    /// all further chaining.
    pub fn changes<T: Opt<ChangesOptions>>(self, opt: T) -> (c: Command)
        ensures
            c@ == opt.with_cmd_spec(spec_new_term(TermKind::Changes)).with_change_feed(
                true,
            ).spec_with_parent(self@),
    {
        opt.with_cmd(Command::new(TermKind::Changes)).mark_change_feed().with_parent(self)
    }

    /// Select the documents between two keys.
    pub fn between<L: IntoCommand, U: IntoCommand, P: Opt<BetweenOptions>>(
        self,
        lower_key: L,
        upper_key: U,
        opt: P,
    ) -> (c: Command)
        ensures
            c@ == opt.with_cmd_spec(
                spec_new_term(TermKind::Between).push_arg(lower_key.into_command_spec()).push_arg(
                    upper_key.into_command_spec(),
                ),
            ).spec_with_parent(self@),
    {
        let cmd = Command::new(TermKind::Between).with_arg(lower_key.into_command()).with_arg(
            upper_key.into_command(),
        );
        opt.with_cmd(cmd).with_parent(self)
    }
}

} // verus!
