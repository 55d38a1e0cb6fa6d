//! The argument-shape layer: one logical operation accepts a bare value, an
//! explicit list or tuple of values, or a value paired with an options
//! object — resolved entirely by the static type of the argument, never by a
//! runtime tag.

use crate::json::Json;
use crate::options::{
    BetweenOptions, ChangesOptions, CircleOptions, DeleteOptions, DistanceOptions, DuringOptions,
    FilterOptions, FoldOptions, GetNearestOptions, GrantOptions, GroupOptions, Index,
    IndexCreateOptions, IndexRenameOptions, InsertOptions, RandomOptions, ReplaceOptions,
    SliceOptions, TableCreateOptions, TableOptions, UnionOptions, UpdateOptions, WaitOptions,
};
use crate::proto::{
    spec_opts_datum, spec_wrap_by_func, Command, CommandV, Datum, DatumV, TermKind,
};
use vstd::prelude::*;

verus! {

broadcast use vstd::std_specs::vec::group_vec_axioms, vstd::seq::group_seq_axioms;

/// Tag wrapper selecting the explicit-list argument shape.
#[derive(Debug, Clone, Copy, PartialEq, Eq, PartialOrd, Ord, Hash)]
pub struct Args<T>(pub T);

/// Tag wrapper pairing an argument with an options object.
#[derive(Debug, Clone, Copy, PartialEq, Eq, PartialOrd, Ord, Hash)]
pub struct ArgsWithOpt<T, P>(pub T, pub P);

/// A value that converts into a term: the scalar shapes an operation
/// accepts as one argument.
pub trait IntoCommand: Sized {
    /// The term the value converts to.
    spec fn into_command_spec(self) -> CommandV;

    /// Convert the value into a term.
    fn into_command(self) -> (r: Command)
        ensures
            r@ == self.into_command_spec(),
    ;
}

impl IntoCommand for Command {
    open spec fn into_command_spec(self) -> CommandV {
        self@
    }

    fn into_command(self) -> (r: Command) {
        self
    }
}

impl IntoCommand for Datum {
    open spec fn into_command_spec(self) -> CommandV {
        CommandV::spec_datum_term(Result::Ok(self@))
    }

    fn into_command(self) -> (r: Command) {
        Command::from_json(self)
    }
}

impl IntoCommand for Json {
    open spec fn into_command_spec(self) -> CommandV {
        CommandV::spec_datum_term(Result::Ok(DatumV::Value(self@)))
    }

    fn into_command(self) -> (r: Command) {
        Command::from_json(Datum::Value(self))
    }
}

impl IntoCommand for i64 {
    open spec fn into_command_spec(self) -> CommandV {
        CommandV::spec_datum_term(Result::Ok(DatumV::Number(self as int)))
    }

    fn into_command(self) -> (r: Command) {
        Command::from_json(Datum::Number(self))
    }
}

impl IntoCommand for i32 {
    open spec fn into_command_spec(self) -> CommandV {
        CommandV::spec_datum_term(Result::Ok(DatumV::Number(self as int)))
    }

    fn into_command(self) -> (r: Command) {
        Command::from_json(Datum::Number(self as i64))
    }
}

impl IntoCommand for bool {
    open spec fn into_command_spec(self) -> CommandV {
        CommandV::spec_datum_term(Result::Ok(DatumV::Bool(self)))
    }

    fn into_command(self) -> (r: Command) {
        Command::from_json(Datum::Bool(self))
    }
}

impl IntoCommand for String {
    open spec fn into_command_spec(self) -> CommandV {
        CommandV::spec_datum_term(Result::Ok(DatumV::Str(self@)))
    }

    fn into_command(self) -> (r: Command) {
        Command::from_json(Datum::String(self))
    }
}

impl<'a> IntoCommand for &'a str {
    open spec fn into_command_spec(self) -> CommandV {
        CommandV::spec_datum_term(Result::Ok(DatumV::Str(self@)))
    }

    fn into_command(self) -> (r: Command) {
        Command::from_json(Datum::String(self.to_owned()))
    }
}

impl IntoCommand for () {
    open spec fn into_command_spec(self) -> CommandV {
        CommandV::spec_datum_term(Result::Ok(DatumV::Null))
    }

    fn into_command(self) -> (r: Command) {
        Command::from_json(Datum::Null)
    }
}

/// A value that attaches itself as the options object of a term.
pub trait WithOpts: Sized {
    /// The term with these options attached.
    spec fn with_opts_spec(self, cmd: CommandV) -> CommandV;

    /// Attach these options to a term.
    fn with_opts(self, cmd: Command) -> (r: Command)
        ensures
            r@ == self.with_opts_spec(cmd@),
    ;
}

impl WithOpts for Command {
    open spec fn with_opts_spec(self, cmd: CommandV) -> CommandV {
        cmd.with_opts_slot(spec_opts_datum(self@))
    }

    fn with_opts(self, cmd: Command) -> (r: Command) {
        cmd.with_opts(self)
    }
}

impl WithOpts for Index {
    open spec fn with_opts_spec(self, cmd: CommandV) -> CommandV {
        cmd.with_opts_slot(spec_opts_datum(self.0@))
    }

    fn with_opts(self, cmd: Command) -> (r: Command) {
        cmd.with_opts(self.0)
    }
}

impl WithOpts for RandomOptions {
    open spec fn with_opts_spec(self, cmd: CommandV) -> CommandV {
        cmd.with_opts_slot(Result::Ok(self.spec_to_datum()))
    }

    fn with_opts(self, cmd: Command) -> (r: Command) {
        let ghost d_v = self.spec_to_datum();
        let r = cmd.with_opts(Command::from_json(self.to_datum()));
        proof {
            assert(spec_opts_datum(CommandV::spec_datum_term(Result::Ok(d_v)))
                == Result::<DatumV, crate::err::ErrorV>::Ok(d_v));
        }
        r
    }
}

impl WithOpts for FilterOptions {
    open spec fn with_opts_spec(self, cmd: CommandV) -> CommandV {
        cmd.with_opts_slot(Result::Ok(self.spec_to_datum()))
    }

    fn with_opts(self, cmd: Command) -> (r: Command) {
        let ghost d_v = self.spec_to_datum();
        let r = cmd.with_opts(Command::from_json(self.to_datum()));
        proof {
            assert(spec_opts_datum(CommandV::spec_datum_term(Result::Ok(d_v)))
                == Result::<DatumV, crate::err::ErrorV>::Ok(d_v));
        }
        r
    }
}

impl WithOpts for TableOptions {
    open spec fn with_opts_spec(self, cmd: CommandV) -> CommandV {
        cmd.with_opts_slot(Result::Ok(self.spec_to_datum()))
    }

    fn with_opts(self, cmd: Command) -> (r: Command) {
        let ghost d_v = self.spec_to_datum();
        let r = cmd.with_opts(Command::from_json(self.to_datum()));
        proof {
            assert(spec_opts_datum(CommandV::spec_datum_term(Result::Ok(d_v)))
                == Result::<DatumV, crate::err::ErrorV>::Ok(d_v));
        }
        r
    }
}

impl WithOpts for TableCreateOptions {
    open spec fn with_opts_spec(self, cmd: CommandV) -> CommandV {
        cmd.with_opts_slot(Result::Ok(self.spec_to_datum()))
    }

    fn with_opts(self, cmd: Command) -> (r: Command) {
        let ghost d_v = self.spec_to_datum();
        let r = cmd.with_opts(Command::from_json(self.to_datum()));
        proof {
            assert(spec_opts_datum(CommandV::spec_datum_term(Result::Ok(d_v)))
                == Result::<DatumV, crate::err::ErrorV>::Ok(d_v));
        }
        r
    }
}

impl WithOpts for IndexCreateOptions {
    open spec fn with_opts_spec(self, cmd: CommandV) -> CommandV {
        cmd.with_opts_slot(Result::Ok(self.spec_to_datum()))
    }

    fn with_opts(self, cmd: Command) -> (r: Command) {
        let ghost d_v = self.spec_to_datum();
        let r = cmd.with_opts(Command::from_json(self.to_datum()));
        proof {
            assert(spec_opts_datum(CommandV::spec_datum_term(Result::Ok(d_v)))
                == Result::<DatumV, crate::err::ErrorV>::Ok(d_v));
        }
        r
    }
}

impl WithOpts for IndexRenameOptions {
    open spec fn with_opts_spec(self, cmd: CommandV) -> CommandV {
        cmd.with_opts_slot(Result::Ok(self.spec_to_datum()))
    }

    fn with_opts(self, cmd: Command) -> (r: Command) {
        let ghost d_v = self.spec_to_datum();
        let r = cmd.with_opts(Command::from_json(self.to_datum()));
        proof {
            assert(spec_opts_datum(CommandV::spec_datum_term(Result::Ok(d_v)))
                == Result::<DatumV, crate::err::ErrorV>::Ok(d_v));
        }
        r
    }
}

impl WithOpts for InsertOptions {
    open spec fn with_opts_spec(self, cmd: CommandV) -> CommandV {
        cmd.with_opts_slot(Result::Ok(self.spec_to_datum()))
    }

    fn with_opts(self, cmd: Command) -> (r: Command) {
        let ghost d_v = self.spec_to_datum();
        let r = cmd.with_opts(Command::from_json(self.to_datum()));
        proof {
            assert(spec_opts_datum(CommandV::spec_datum_term(Result::Ok(d_v)))
                == Result::<DatumV, crate::err::ErrorV>::Ok(d_v));
        }
        r
    }
}

impl WithOpts for UpdateOptions {
    open spec fn with_opts_spec(self, cmd: CommandV) -> CommandV {
        cmd.with_opts_slot(Result::Ok(self.spec_to_datum()))
    }

    fn with_opts(self, cmd: Command) -> (r: Command) {
        let ghost d_v = self.spec_to_datum();
        let r = cmd.with_opts(Command::from_json(self.to_datum()));
        proof {
            assert(spec_opts_datum(CommandV::spec_datum_term(Result::Ok(d_v)))
                == Result::<DatumV, crate::err::ErrorV>::Ok(d_v));
        }
        r
    }
}

impl WithOpts for ReplaceOptions {
    open spec fn with_opts_spec(self, cmd: CommandV) -> CommandV {
        cmd.with_opts_slot(Result::Ok(self.spec_to_datum()))
    }

    fn with_opts(self, cmd: Command) -> (r: Command) {
        let ghost d_v = self.spec_to_datum();
        let r = cmd.with_opts(Command::from_json(self.to_datum()));
        proof {
            assert(spec_opts_datum(CommandV::spec_datum_term(Result::Ok(d_v)))
                == Result::<DatumV, crate::err::ErrorV>::Ok(d_v));
        }
        r
    }
}

impl WithOpts for DeleteOptions {
    open spec fn with_opts_spec(self, cmd: CommandV) -> CommandV {
        cmd.with_opts_slot(Result::Ok(self.spec_to_datum()))
    }

    fn with_opts(self, cmd: Command) -> (r: Command) {
        let ghost d_v = self.spec_to_datum();
        let r = cmd.with_opts(Command::from_json(self.to_datum()));
        proof {
            assert(spec_opts_datum(CommandV::spec_datum_term(Result::Ok(d_v)))
                == Result::<DatumV, crate::err::ErrorV>::Ok(d_v));
        }
        r
    }
}

impl WithOpts for BetweenOptions {
    open spec fn with_opts_spec(self, cmd: CommandV) -> CommandV {
        cmd.with_opts_slot(Result::Ok(self.spec_to_datum()))
    }

    fn with_opts(self, cmd: Command) -> (r: Command) {
        let ghost d_v = self.spec_to_datum();
        let r = cmd.with_opts(Command::from_json(self.to_datum()));
        proof {
            assert(spec_opts_datum(CommandV::spec_datum_term(Result::Ok(d_v)))
                == Result::<DatumV, crate::err::ErrorV>::Ok(d_v));
        }
        r
    }
}

impl WithOpts for DuringOptions {
    open spec fn with_opts_spec(self, cmd: CommandV) -> CommandV {
        cmd.with_opts_slot(Result::Ok(self.spec_to_datum()))
    }

    fn with_opts(self, cmd: Command) -> (r: Command) {
        let ghost d_v = self.spec_to_datum();
        let r = cmd.with_opts(Command::from_json(self.to_datum()));
        proof {
            assert(spec_opts_datum(CommandV::spec_datum_term(Result::Ok(d_v)))
                == Result::<DatumV, crate::err::ErrorV>::Ok(d_v));
        }
        r
    }
}

impl WithOpts for SliceOptions {
    open spec fn with_opts_spec(self, cmd: CommandV) -> CommandV {
        cmd.with_opts_slot(Result::Ok(self.spec_to_datum()))
    }

    fn with_opts(self, cmd: Command) -> (r: Command) {
        let ghost d_v = self.spec_to_datum();
        let r = cmd.with_opts(Command::from_json(self.to_datum()));
        proof {
            assert(spec_opts_datum(CommandV::spec_datum_term(Result::Ok(d_v)))
                == Result::<DatumV, crate::err::ErrorV>::Ok(d_v));
        }
        r
    }
}

impl WithOpts for GroupOptions {
    open spec fn with_opts_spec(self, cmd: CommandV) -> CommandV {
        cmd.with_opts_slot(Result::Ok(self.spec_to_datum()))
    }

    fn with_opts(self, cmd: Command) -> (r: Command) {
        let ghost d_v = self.spec_to_datum();
        let r = cmd.with_opts(Command::from_json(self.to_datum()));
        proof {
            assert(spec_opts_datum(CommandV::spec_datum_term(Result::Ok(d_v)))
                == Result::<DatumV, crate::err::ErrorV>::Ok(d_v));
        }
        r
    }
}

impl WithOpts for GrantOptions {
    open spec fn with_opts_spec(self, cmd: CommandV) -> CommandV {
        cmd.with_opts_slot(Result::Ok(self.spec_to_datum()))
    }

    fn with_opts(self, cmd: Command) -> (r: Command) {
        let ghost d_v = self.spec_to_datum();
        let r = cmd.with_opts(Command::from_json(self.to_datum()));
        proof {
            assert(spec_opts_datum(CommandV::spec_datum_term(Result::Ok(d_v)))
                == Result::<DatumV, crate::err::ErrorV>::Ok(d_v));
        }
        r
    }
}

impl WithOpts for WaitOptions {
    open spec fn with_opts_spec(self, cmd: CommandV) -> CommandV {
        cmd.with_opts_slot(Result::Ok(self.spec_to_datum()))
    }

    fn with_opts(self, cmd: Command) -> (r: Command) {
        let ghost d_v = self.spec_to_datum();
        let r = cmd.with_opts(Command::from_json(self.to_datum()));
        proof {
            assert(spec_opts_datum(CommandV::spec_datum_term(Result::Ok(d_v)))
                == Result::<DatumV, crate::err::ErrorV>::Ok(d_v));
        }
        r
    }
}

impl WithOpts for ChangesOptions {
    open spec fn with_opts_spec(self, cmd: CommandV) -> CommandV {
        cmd.with_opts_slot(Result::Ok(self.spec_to_datum()))
    }

    fn with_opts(self, cmd: Command) -> (r: Command) {
        let ghost d_v = self.spec_to_datum();
        let r = cmd.with_opts(Command::from_json(self.to_datum()));
        proof {
            assert(spec_opts_datum(CommandV::spec_datum_term(Result::Ok(d_v)))
                == Result::<DatumV, crate::err::ErrorV>::Ok(d_v));
        }
        r
    }
}

impl WithOpts for UnionOptions {
    open spec fn with_opts_spec(self, cmd: CommandV) -> CommandV {
        cmd.with_opts_slot(Result::Ok(self.spec_to_datum()))
    }

    fn with_opts(self, cmd: Command) -> (r: Command) {
        let ghost d_v = self.spec_to_datum();
        let r = cmd.with_opts(Command::from_json(self.to_datum()));
        proof {
            assert(spec_opts_datum(CommandV::spec_datum_term(Result::Ok(d_v)))
                == Result::<DatumV, crate::err::ErrorV>::Ok(d_v));
        }
        r
    }
}

impl WithOpts for FoldOptions {
    open spec fn with_opts_spec(self, cmd: CommandV) -> CommandV {
        cmd.with_opts_slot(Result::Ok(self.spec_to_datum()))
    }

    fn with_opts(self, cmd: Command) -> (r: Command) {
        let ghost d_v = self.spec_to_datum();
        let r = cmd.with_opts(Command::from_json(self.to_datum()));
        proof {
            assert(spec_opts_datum(CommandV::spec_datum_term(Result::Ok(d_v)))
                == Result::<DatumV, crate::err::ErrorV>::Ok(d_v));
        }
        r
    }
}

impl WithOpts for CircleOptions {
    open spec fn with_opts_spec(self, cmd: CommandV) -> CommandV {
        cmd.with_opts_slot(Result::Ok(self.spec_to_datum()))
    }

    fn with_opts(self, cmd: Command) -> (r: Command) {
        let ghost d_v = self.spec_to_datum();
        let r = cmd.with_opts(Command::from_json(self.to_datum()));
        proof {
            assert(spec_opts_datum(CommandV::spec_datum_term(Result::Ok(d_v)))
                == Result::<DatumV, crate::err::ErrorV>::Ok(d_v));
        }
        r
    }
}

impl WithOpts for DistanceOptions {
    open spec fn with_opts_spec(self, cmd: CommandV) -> CommandV {
        cmd.with_opts_slot(Result::Ok(self.spec_to_datum()))
    }

    fn with_opts(self, cmd: Command) -> (r: Command) {
        let ghost d_v = self.spec_to_datum();
        let r = cmd.with_opts(Command::from_json(self.to_datum()));
        proof {
            assert(spec_opts_datum(CommandV::spec_datum_term(Result::Ok(d_v)))
                == Result::<DatumV, crate::err::ErrorV>::Ok(d_v));
        }
        r
    }
}

impl WithOpts for GetNearestOptions {
    open spec fn with_opts_spec(self, cmd: CommandV) -> CommandV {
        cmd.with_opts_slot(Result::Ok(self.spec_to_datum()))
    }

    fn with_opts(self, cmd: Command) -> (r: Command) {
        let ghost d_v = self.spec_to_datum();
        let r = cmd.with_opts(Command::from_json(self.to_datum()));
        proof {
            assert(spec_opts_datum(CommandV::spec_datum_term(Result::Ok(d_v)))
                == Result::<DatumV, crate::err::ErrorV>::Ok(d_v));
        }
        r
    }
}

/// What appending one scalar argument yields: a literal null (and the unit
/// value) is omitted rather than serialized, and a term holding an unguarded
/// implicit-row reference is wrapped into a one-parameter function.
pub open spec fn spec_append_scalar(cmd: CommandV, arg: CommandV) -> CommandV {
    if arg.spec_is_null() {
        cmd
    } else {
        cmd.push_arg(spec_wrap_by_func(arg))
    }
}

/// Append one scalar argument, omitting a literal null and wrapping an
/// unguarded implicit-row reference.
pub fn append_scalar(cmd: Command, arg: Command) -> (r: Command)
    ensures
        r@ == spec_append_scalar(cmd@, arg@),
{
    if arg.is_null_json() {
        cmd
    } else {
        cmd.with_arg(arg.wrap_by_func())
    }
}

/// What appending a list of arguments yields, from index `i` on: each
/// element is appended in declaration order, wrapped when it holds an
/// unguarded implicit-row reference; unlike a scalar, a null element is
/// kept.
pub open spec fn spec_append_wrapped_from<T: IntoCommand>(
    cmd: CommandV,
    elems: Seq<T>,
    i: int,
) -> CommandV
    decreases elems.len() - i,
{
    if i < 0 || i >= elems.len() {
        cmd
    } else {
        spec_append_wrapped_from(
            cmd.push_arg(spec_wrap_by_func(elems[i].into_command_spec())),
            elems,
            i + 1,
        )
    }
}

/// Append every element of a list, wrapped, in declaration order.
#[verifier::loop_isolation(false)]
fn append_wrapped_all<T: IntoCommand>(cmd: Command, elems: Vec<T>) -> (r: Command)
    ensures
        r@ == spec_append_wrapped_from(cmd@, elems@, 0),
{
    let ghost orig = elems@;
    let mut v = elems;
    let mut c = cmd;
    let ghost n = orig.len();
    while v.len() > 0
        invariant
            v@ =~= orig.subrange(n - v@.len() as int, n as int),
            v@.len() <= n,
            spec_append_wrapped_from(c@, orig, n - v@.len() as int) == spec_append_wrapped_from(
                cmd@,
                orig,
                0,
            ),
        decreases v@.len(),
    {
        let ghost k = n - v@.len() as int;
        let x = v.remove(0);
        proof {
            assert(x == orig[k]);
            assert(v@ =~= orig.subrange(k + 1, n as int));
        }
        c = c.with_arg(x.into_command().wrap_by_func());
    }
    proof {
        assert(spec_append_wrapped_from(c@, orig, n as int) == c@);
    }
    c
}

/// One logical operation's argument in the general scalar-or-options shape.
pub trait Arg<P>: Sized {
    /// The term after this argument is applied to it.
    spec fn with_cmd_spec(self, cmd: CommandV) -> CommandV;

    /// Apply this argument to a term under construction.
    fn with_cmd(self, cmd: Command) -> (r: Command)
        ensures
            r@ == self.with_cmd_spec(cmd@),
    ;
}

impl<T: IntoCommand, P> Arg<P> for T {
    open spec fn with_cmd_spec(self, cmd: CommandV) -> CommandV {
        spec_append_scalar(cmd, self.into_command_spec())
    }

    fn with_cmd(self, cmd: Command) -> (r: Command) {
        append_scalar(cmd, self.into_command())
    }
}

impl<T: IntoCommand, P: WithOpts> Arg<P> for ArgsWithOpt<T, P> {
    open spec fn with_cmd_spec(self, cmd: CommandV) -> CommandV {
        self.1.with_opts_spec(spec_append_scalar(cmd, self.0.into_command_spec()))
    }

    fn with_cmd(self, cmd: Command) -> (r: Command) {
        let c = append_scalar(cmd, self.0.into_command());
        self.1.with_opts(c)
    }
}

impl Arg<Index> for Index {
    open spec fn with_cmd_spec(self, cmd: CommandV) -> CommandV {
        self.with_opts_spec(cmd)
    }

    fn with_cmd(self, cmd: Command) -> (r: Command) {
        self.with_opts(cmd)
    }
}

/// One logical operation's argument in the zero-or-more-values shape.
pub trait ManyArgs<P>: Sized {
    /// The term after this argument is applied to it.
    spec fn with_cmd_spec(self, cmd: CommandV) -> CommandV;

    /// Apply this argument to a term under construction.
    fn with_cmd(self, cmd: Command) -> (r: Command)
        ensures
            r@ == self.with_cmd_spec(cmd@),
    ;
}

impl<T: IntoCommand, P> ManyArgs<P> for T {
    open spec fn with_cmd_spec(self, cmd: CommandV) -> CommandV {
        spec_append_scalar(cmd, self.into_command_spec())
    }

    fn with_cmd(self, cmd: Command) -> (r: Command) {
        append_scalar(cmd, self.into_command())
    }
}

impl<T: IntoCommand, P> ManyArgs<P> for Args<Vec<T>> {
    open spec fn with_cmd_spec(self, cmd: CommandV) -> CommandV {
        spec_append_wrapped_from(cmd, self.0@, 0)
    }

    fn with_cmd(self, cmd: Command) -> (r: Command) {
        append_wrapped_all(cmd, self.0)
    }
}

/// Append every element of a slice, wrapped, in declaration order; the
/// elements are read by copy.
#[verifier::loop_isolation(false)]
fn append_wrapped_slice<T: IntoCommand + Copy>(cmd: Command, elems: &[T]) -> (r: Command)
    ensures
        r@ == spec_append_wrapped_from(cmd@, elems@, 0),
{
    let n = elems.len();
    let mut c = cmd;
    let ghost cmd0 = c@;
    let mut k: usize = 0;
    while k < n
        invariant
            k <= n,
            spec_append_wrapped_from(c@, elems@, k as int) == spec_append_wrapped_from(
                cmd0,
                elems@,
                0,
            ),
        decreases n - k,
    {
        let x = elems[k];
        c = c.with_arg(x.into_command().wrap_by_func());
        k = k + 1;
    }
    proof {
        assert(spec_append_wrapped_from(c@, elems@, n as int) == c@);
    }
    c
}

impl<T: IntoCommand + Copy, P, const N: usize> ManyArgs<P> for Args<[T; N]> {
    open spec fn with_cmd_spec(self, cmd: CommandV) -> CommandV {
        spec_append_wrapped_from(cmd, self.0@, 0)
    }

    fn with_cmd(self, cmd: Command) -> (r: Command) {
        append_wrapped_slice(cmd, self.0.as_slice())
    }
}

impl<'a, T: IntoCommand + Copy, P> ManyArgs<P> for Args<&'a [T]> {
    open spec fn with_cmd_spec(self, cmd: CommandV) -> CommandV {
        spec_append_wrapped_from(cmd, self.0@, 0)
    }

    fn with_cmd(self, cmd: Command) -> (r: Command) {
        append_wrapped_slice(cmd, self.0)
    }
}

impl<'a, T: IntoCommand + Copy, P> ManyArgs<P> for Args<&'a Vec<T>> {
    open spec fn with_cmd_spec(self, cmd: CommandV) -> CommandV {
        spec_append_wrapped_from(cmd, self.0@, 0)
    }

    fn with_cmd(self, cmd: Command) -> (r: Command) {
        append_wrapped_slice(cmd, self.0.as_slice())
    }
}

impl<T: IntoCommand + Copy, P: WithOpts, const N: usize> ManyArgs<P> for ArgsWithOpt<
    Args<[T; N]>,
    P,
> {
    open spec fn with_cmd_spec(self, cmd: CommandV) -> CommandV {
        self.1.with_opts_spec(spec_append_wrapped_from(cmd, self.0.0@, 0))
    }

    fn with_cmd(self, cmd: Command) -> (r: Command) {
        let c = append_wrapped_slice(cmd, self.0.0.as_slice());
        self.1.with_opts(c)
    }
}

impl<'a, T: IntoCommand + Copy, P: WithOpts> ManyArgs<P> for ArgsWithOpt<Args<&'a [T]>, P> {
    open spec fn with_cmd_spec(self, cmd: CommandV) -> CommandV {
        self.1.with_opts_spec(spec_append_wrapped_from(cmd, self.0.0@, 0))
    }

    fn with_cmd(self, cmd: Command) -> (r: Command) {
        let c = append_wrapped_slice(cmd, self.0.0);
        self.1.with_opts(c)
    }
}

impl<'a, T: IntoCommand + Copy, P: WithOpts> ManyArgs<P> for ArgsWithOpt<Args<&'a Vec<T>>, P> {
    open spec fn with_cmd_spec(self, cmd: CommandV) -> CommandV {
        self.1.with_opts_spec(spec_append_wrapped_from(cmd, self.0.0@, 0))
    }

    fn with_cmd(self, cmd: Command) -> (r: Command) {
        let c = append_wrapped_slice(cmd, self.0.0.as_slice());
        self.1.with_opts(c)
    }
}

/// The splice shape: a term standing for a whole argument list is wrapped
/// in an args node, so the server performs the splice.
pub open spec fn spec_splice_args(cmd: CommandV, arg: CommandV) -> CommandV {
    cmd.push_arg(
        CommandV::Data {
            typ: TermKind::Args,
            datum: Option::None,
            args: seq![spec_wrap_by_func(arg)],
            opts: Option::None,
            change_feed: false,
        },
    )
}

impl<P> ManyArgs<P> for Args<Command> {
    open spec fn with_cmd_spec(self, cmd: CommandV) -> CommandV {
        spec_splice_args(cmd, self.0@)
    }

    fn with_cmd(self, cmd: Command) -> (r: Command) {
        let node = Command::new(TermKind::Args).with_arg(self.0.wrap_by_func());
        proof {
            assert(node@->Data_args =~= seq![spec_wrap_by_func(self.0@)]);
        }
        cmd.with_arg(node)
    }
}

impl<T1: IntoCommand, T2: IntoCommand, P> ManyArgs<P> for Args<(T1, T2)> {
    open spec fn with_cmd_spec(self, cmd: CommandV) -> CommandV {
        cmd.push_arg(spec_wrap_by_func(self.0.0.into_command_spec())).push_arg(spec_wrap_by_func(self.0.1.into_command_spec()))
    }

    fn with_cmd(self, cmd: Command) -> (r: Command) {
        cmd.with_arg(self.0.0.into_command().wrap_by_func()).with_arg(self.0.1.into_command().wrap_by_func())
    }
}

impl<T1: IntoCommand, T2: IntoCommand, T3: IntoCommand, P> ManyArgs<P> for Args<(T1, T2, T3)> {
    open spec fn with_cmd_spec(self, cmd: CommandV) -> CommandV {
        cmd.push_arg(spec_wrap_by_func(self.0.0.into_command_spec())).push_arg(spec_wrap_by_func(self.0.1.into_command_spec())).push_arg(spec_wrap_by_func(self.0.2.into_command_spec()))
    }

    fn with_cmd(self, cmd: Command) -> (r: Command) {
        cmd.with_arg(self.0.0.into_command().wrap_by_func()).with_arg(self.0.1.into_command().wrap_by_func()).with_arg(self.0.2.into_command().wrap_by_func())
    }
}

impl<T1: IntoCommand, T2: IntoCommand, T3: IntoCommand, T4: IntoCommand, P> ManyArgs<P> for Args<(T1, T2, T3, T4)> {
    open spec fn with_cmd_spec(self, cmd: CommandV) -> CommandV {
        cmd.push_arg(spec_wrap_by_func(self.0.0.into_command_spec())).push_arg(spec_wrap_by_func(self.0.1.into_command_spec())).push_arg(spec_wrap_by_func(self.0.2.into_command_spec())).push_arg(spec_wrap_by_func(self.0.3.into_command_spec()))
    }

    fn with_cmd(self, cmd: Command) -> (r: Command) {
        cmd.with_arg(self.0.0.into_command().wrap_by_func()).with_arg(self.0.1.into_command().wrap_by_func()).with_arg(self.0.2.into_command().wrap_by_func()).with_arg(self.0.3.into_command().wrap_by_func())
    }
}

impl<T1: IntoCommand, T2: IntoCommand, T3: IntoCommand, T4: IntoCommand, T5: IntoCommand, P> ManyArgs<P> for Args<(T1, T2, T3, T4, T5)> {
    open spec fn with_cmd_spec(self, cmd: CommandV) -> CommandV {
        cmd.push_arg(spec_wrap_by_func(self.0.0.into_command_spec())).push_arg(spec_wrap_by_func(self.0.1.into_command_spec())).push_arg(spec_wrap_by_func(self.0.2.into_command_spec())).push_arg(spec_wrap_by_func(self.0.3.into_command_spec())).push_arg(spec_wrap_by_func(self.0.4.into_command_spec()))
    }

    fn with_cmd(self, cmd: Command) -> (r: Command) {
        cmd.with_arg(self.0.0.into_command().wrap_by_func()).with_arg(self.0.1.into_command().wrap_by_func()).with_arg(self.0.2.into_command().wrap_by_func()).with_arg(self.0.3.into_command().wrap_by_func()).with_arg(self.0.4.into_command().wrap_by_func())
    }
}

impl<T: IntoCommand, P: WithOpts> ManyArgs<P> for ArgsWithOpt<T, P> {
    open spec fn with_cmd_spec(self, cmd: CommandV) -> CommandV {
        self.1.with_opts_spec(spec_append_scalar(cmd, self.0.into_command_spec()))
    }

    fn with_cmd(self, cmd: Command) -> (r: Command) {
        let c = append_scalar(cmd, self.0.into_command());
        self.1.with_opts(c)
    }
}

impl<T: IntoCommand, P: WithOpts> ManyArgs<P> for ArgsWithOpt<Args<Vec<T>>, P> {
    open spec fn with_cmd_spec(self, cmd: CommandV) -> CommandV {
        self.1.with_opts_spec(spec_append_wrapped_from(cmd, self.0.0@, 0))
    }

    fn with_cmd(self, cmd: Command) -> (r: Command) {
        let c = append_wrapped_all(cmd, self.0.0);
        self.1.with_opts(c)
    }
}

impl<P: WithOpts> ManyArgs<P> for ArgsWithOpt<Args<Command>, P> {
    open spec fn with_cmd_spec(self, cmd: CommandV) -> CommandV {
        self.1.with_opts_spec(spec_splice_args(cmd, self.0.0@))
    }

    fn with_cmd(self, cmd: Command) -> (r: Command) {
        let node = Command::new(TermKind::Args).with_arg(self.0.0.wrap_by_func());
        proof {
            assert(node@->Data_args =~= seq![spec_wrap_by_func(self.0.0@)]);
        }
        self.1.with_opts(cmd.with_arg(node))
    }
}

impl<T1: IntoCommand, T2: IntoCommand, P: WithOpts> ManyArgs<P> for ArgsWithOpt<Args<(T1, T2)>, P> {
    open spec fn with_cmd_spec(self, cmd: CommandV) -> CommandV {
        self.1.with_opts_spec(cmd.push_arg(spec_wrap_by_func(self.0.0.0.into_command_spec())).push_arg(spec_wrap_by_func(self.0.0.1.into_command_spec())))
    }

    fn with_cmd(self, cmd: Command) -> (r: Command) {
        let c = cmd.with_arg(self.0.0.0.into_command().wrap_by_func()).with_arg(self.0.0.1.into_command().wrap_by_func());
        self.1.with_opts(c)
    }
}

impl<T1: IntoCommand, T2: IntoCommand, T3: IntoCommand, P: WithOpts> ManyArgs<P> for ArgsWithOpt<Args<(T1, T2, T3)>, P> {
    open spec fn with_cmd_spec(self, cmd: CommandV) -> CommandV {
        self.1.with_opts_spec(cmd.push_arg(spec_wrap_by_func(self.0.0.0.into_command_spec())).push_arg(spec_wrap_by_func(self.0.0.1.into_command_spec())).push_arg(spec_wrap_by_func(self.0.0.2.into_command_spec())))
    }

    fn with_cmd(self, cmd: Command) -> (r: Command) {
        let c = cmd.with_arg(self.0.0.0.into_command().wrap_by_func()).with_arg(self.0.0.1.into_command().wrap_by_func()).with_arg(self.0.0.2.into_command().wrap_by_func());
        self.1.with_opts(c)
    }
}

impl<T1: IntoCommand, T2: IntoCommand, T3: IntoCommand, T4: IntoCommand, P: WithOpts> ManyArgs<P> for ArgsWithOpt<Args<(T1, T2, T3, T4)>, P> {
    open spec fn with_cmd_spec(self, cmd: CommandV) -> CommandV {
        self.1.with_opts_spec(cmd.push_arg(spec_wrap_by_func(self.0.0.0.into_command_spec())).push_arg(spec_wrap_by_func(self.0.0.1.into_command_spec())).push_arg(spec_wrap_by_func(self.0.0.2.into_command_spec())).push_arg(spec_wrap_by_func(self.0.0.3.into_command_spec())))
    }

    fn with_cmd(self, cmd: Command) -> (r: Command) {
        let c = cmd.with_arg(self.0.0.0.into_command().wrap_by_func()).with_arg(self.0.0.1.into_command().wrap_by_func()).with_arg(self.0.0.2.into_command().wrap_by_func()).with_arg(self.0.0.3.into_command().wrap_by_func());
        self.1.with_opts(c)
    }
}

impl<T1: IntoCommand, T2: IntoCommand, T3: IntoCommand, T4: IntoCommand, T5: IntoCommand, P: WithOpts> ManyArgs<P> for ArgsWithOpt<Args<(T1, T2, T3, T4, T5)>, P> {
    open spec fn with_cmd_spec(self, cmd: CommandV) -> CommandV {
        self.1.with_opts_spec(cmd.push_arg(spec_wrap_by_func(self.0.0.0.into_command_spec())).push_arg(spec_wrap_by_func(self.0.0.1.into_command_spec())).push_arg(spec_wrap_by_func(self.0.0.2.into_command_spec())).push_arg(spec_wrap_by_func(self.0.0.3.into_command_spec())).push_arg(spec_wrap_by_func(self.0.0.4.into_command_spec())))
    }

    fn with_cmd(self, cmd: Command) -> (r: Command) {
        let c = cmd.with_arg(self.0.0.0.into_command().wrap_by_func()).with_arg(self.0.0.1.into_command().wrap_by_func()).with_arg(self.0.0.2.into_command().wrap_by_func()).with_arg(self.0.0.3.into_command().wrap_by_func()).with_arg(self.0.0.4.into_command().wrap_by_func());
        self.1.with_opts(c)
    }
}

impl<P> ManyArgs<P> for Index {
    open spec fn with_cmd_spec(self, cmd: CommandV) -> CommandV {
        self.with_opts_spec(cmd)
    }

    fn with_cmd(self, cmd: Command) -> (r: Command) {
        self.with_opts(cmd)
    }
}

/// One logical operation's argument in the "one value, optional second"
/// shape. A bare scalar obeys the uniform rules of the scalar shapes: a
/// null-serializing value (and the unit value) is dropped, and an unguarded
/// implicit-row reference is wrapped; the explicit pair shapes append both
/// values in declaration order.
pub trait OneAndSecondOptionalArg<P>: Sized {
    /// The term after this argument is applied to it.
    spec fn with_cmd_spec(self, cmd: CommandV) -> CommandV;

    /// Apply this argument to a term under construction.
    fn with_cmd(self, cmd: Command) -> (r: Command)
        ensures
            r@ == self.with_cmd_spec(cmd@),
    ;
}

impl<T: IntoCommand, P> OneAndSecondOptionalArg<P> for T {
    open spec fn with_cmd_spec(self, cmd: CommandV) -> CommandV {
        spec_append_scalar(cmd, self.into_command_spec())
    }

    fn with_cmd(self, cmd: Command) -> (r: Command) {
        append_scalar(cmd, self.into_command())
    }
}

impl<T1: IntoCommand, T2: IntoCommand, P> OneAndSecondOptionalArg<P> for Args<(T1, T2)> {
    open spec fn with_cmd_spec(self, cmd: CommandV) -> CommandV {
        cmd.push_arg(self.0.0.into_command_spec()).push_arg(self.0.1.into_command_spec())
    }

    fn with_cmd(self, cmd: Command) -> (r: Command) {
        cmd.with_arg(self.0.0.into_command()).with_arg(self.0.1.into_command())
    }
}

impl<T: IntoCommand + Copy, P> OneAndSecondOptionalArg<P> for Args<[T; 2]> {
    open spec fn with_cmd_spec(self, cmd: CommandV) -> CommandV {
        cmd.push_arg(self.0@[0].into_command_spec()).push_arg(self.0@[1].into_command_spec())
    }

    fn with_cmd(self, cmd: Command) -> (r: Command) {
        let s = self.0.as_slice();
        cmd.with_arg(s[0].into_command()).with_arg(s[1].into_command())
    }
}

impl<T: IntoCommand + Copy, P: WithOpts> OneAndSecondOptionalArg<P> for ArgsWithOpt<
    Args<[T; 2]>,
    P,
> {
    open spec fn with_cmd_spec(self, cmd: CommandV) -> CommandV {
        self.1.with_opts_spec(
            cmd.push_arg(self.0.0@[0].into_command_spec()).push_arg(
                self.0.0@[1].into_command_spec(),
            ),
        )
    }

    fn with_cmd(self, cmd: Command) -> (r: Command) {
        let s = self.0.0.as_slice();
        let c = cmd.with_arg(s[0].into_command()).with_arg(s[1].into_command());
        self.1.with_opts(c)
    }
}

impl<T: IntoCommand, P: WithOpts> OneAndSecondOptionalArg<P> for ArgsWithOpt<T, P> {
    open spec fn with_cmd_spec(self, cmd: CommandV) -> CommandV {
        self.1.with_opts_spec(spec_append_scalar(cmd, self.0.into_command_spec()))
    }

    fn with_cmd(self, cmd: Command) -> (r: Command) {
        let c = append_scalar(cmd, self.0.into_command());
        self.1.with_opts(c)
    }
}

impl<T1: IntoCommand, T2: IntoCommand, P: WithOpts> OneAndSecondOptionalArg<P> for ArgsWithOpt<
    Args<(T1, T2)>,
    P,
> {
    open spec fn with_cmd_spec(self, cmd: CommandV) -> CommandV {
        self.1.with_opts_spec(
            cmd.push_arg(self.0.0.0.into_command_spec()).push_arg(self.0.0.1.into_command_spec()),
        )
    }

    fn with_cmd(self, cmd: Command) -> (r: Command) {
        let c = cmd.with_arg(self.0.0.0.into_command()).with_arg(self.0.0.1.into_command());
        self.1.with_opts(c)
    }
}

impl OneAndSecondOptionalArg<Index> for Index {
    open spec fn with_cmd_spec(self, cmd: CommandV) -> CommandV {
        self.with_opts_spec(cmd)
    }

    fn with_cmd(self, cmd: Command) -> (r: Command) {
        self.with_opts(cmd)
    }
}

/// An optional trailing options object: either absent (the unit value) or a
/// value that can attach itself as options.
pub trait Opt<P>: Sized {
    /// The term after this option is applied to it.
    spec fn with_cmd_spec(self, cmd: CommandV) -> CommandV;

    /// Apply this option to a term under construction.
    fn with_cmd(self, cmd: Command) -> (r: Command)
        ensures
            r@ == self.with_cmd_spec(cmd@),
    ;
}

impl<P: WithOpts> Opt<P> for P {
    open spec fn with_cmd_spec(self, cmd: CommandV) -> CommandV {
        self.with_opts_spec(cmd)
    }

    fn with_cmd(self, cmd: Command) -> (r: Command) {
        self.with_opts(cmd)
    }
}

impl<P> Opt<P> for () {
    open spec fn with_cmd_spec(self, cmd: CommandV) -> CommandV {
        cmd
    }

    fn with_cmd(self, cmd: Command) -> (r: Command) {
        cmd
    }
}

impl<P: WithOpts> Opt<P> for ArgsWithOpt<(), P> {
    open spec fn with_cmd_spec(self, cmd: CommandV) -> CommandV {
        self.1.with_opts_spec(cmd)
    }

    fn with_cmd(self, cmd: Command) -> (r: Command) {
        self.1.with_opts(cmd)
    }
}

/// The view of an optional parent term.
pub open spec fn opt_cview(p: Option<Command>) -> Option<CommandV> {
    match p {
        Option::Some(c) => Option::Some(c@),
        Option::None => Option::None,
    }
}

/// The call-with-value shape of `do_`: zero or more positional values, the
/// function always last in the call, first on the wire; parent terms stand
/// between them.
pub trait DoArgs: Sized {
    /// The term this argument builds over an optional parent.
    spec fn build_spec(self, parent: Option<CommandV>) -> CommandV;

    /// Build the call term over an optional parent.
    fn build(self, parent: Option<Command>) -> (r: Command)
        ensures
            r@ == self.build_spec(opt_cview(parent)),
    ;
}

/// The function-call node a scalar builds: the function first, then the
/// parent if there is one.
pub open spec fn spec_funcall<T: IntoCommand>(arg: T, parent: Option<CommandV>) -> CommandV {
    let base = CommandV::Data {
        typ: TermKind::Funcall,
        datum: Option::None,
        args: seq![spec_wrap_by_func(arg.into_command_spec())],
        opts: Option::None,
        change_feed: false,
    };
    match parent {
        Option::Some(p) => base.push_arg(p),
        Option::None => base,
    }
}

fn build_funcall<T: IntoCommand>(arg: T, parent: Option<Command>) -> (r: Command)
    ensures
        r@ == spec_funcall(arg, opt_cview(parent)),
{
    let cmd = Command::new(TermKind::Funcall).with_arg(arg.into_command().wrap_by_func());
    proof {
        assert(cmd@->Data_args =~= seq![spec_wrap_by_func(arg.into_command_spec())]);
    }
    match parent {
        Option::Some(p) => cmd.with_arg(p),
        Option::None => cmd,
    }
}

impl<T: IntoCommand> DoArgs for T {
    open spec fn build_spec(self, parent: Option<CommandV>) -> CommandV {
        spec_funcall(self, parent)
    }

    fn build(self, parent: Option<Command>) -> (r: Command) {
        build_funcall(self, parent)
    }
}

impl<T1: IntoCommand, T2: IntoCommand> DoArgs for Args<(T1, T2)> {
    open spec fn build_spec(self, parent: Option<CommandV>) -> CommandV {
        spec_funcall(self.0.1, parent).push_arg(spec_wrap_by_func(self.0.0.into_command_spec()))
    }

    fn build(self, parent: Option<Command>) -> (r: Command) {
        self.0.1.build(parent).with_arg(self.0.0.into_command().wrap_by_func())
    }
}

impl<T1: IntoCommand, T2: IntoCommand, T3: IntoCommand> DoArgs for Args<(T1, T2, T3)> {
    open spec fn build_spec(self, parent: Option<CommandV>) -> CommandV {
        spec_funcall(self.0.2, parent).push_arg(spec_wrap_by_func(self.0.0.into_command_spec())).push_arg(spec_wrap_by_func(self.0.1.into_command_spec()))
    }

    fn build(self, parent: Option<Command>) -> (r: Command) {
        self.0.2.build(parent).with_arg(self.0.0.into_command().wrap_by_func()).with_arg(self.0.1.into_command().wrap_by_func())
    }
}

impl<T1: IntoCommand, T2: IntoCommand, T3: IntoCommand, T4: IntoCommand> DoArgs for Args<(T1, T2, T3, T4)> {
    open spec fn build_spec(self, parent: Option<CommandV>) -> CommandV {
        spec_funcall(self.0.3, parent).push_arg(spec_wrap_by_func(self.0.0.into_command_spec())).push_arg(spec_wrap_by_func(self.0.1.into_command_spec())).push_arg(spec_wrap_by_func(self.0.2.into_command_spec()))
    }

    fn build(self, parent: Option<Command>) -> (r: Command) {
        self.0.3.build(parent).with_arg(self.0.0.into_command().wrap_by_func()).with_arg(self.0.1.into_command().wrap_by_func()).with_arg(self.0.2.into_command().wrap_by_func())
    }
}

impl<T1: IntoCommand, T2: IntoCommand, T3: IntoCommand, T4: IntoCommand, T5: IntoCommand> DoArgs for Args<(T1, T2, T3, T4, T5)> {
    open spec fn build_spec(self, parent: Option<CommandV>) -> CommandV {
        spec_funcall(self.0.4, parent).push_arg(spec_wrap_by_func(self.0.0.into_command_spec())).push_arg(spec_wrap_by_func(self.0.1.into_command_spec())).push_arg(spec_wrap_by_func(self.0.2.into_command_spec())).push_arg(spec_wrap_by_func(self.0.3.into_command_spec()))
    }

    fn build(self, parent: Option<Command>) -> (r: Command) {
        self.0.4.build(parent).with_arg(self.0.0.into_command().wrap_by_func()).with_arg(self.0.1.into_command().wrap_by_func()).with_arg(self.0.2.into_command().wrap_by_func()).with_arg(self.0.3.into_command().wrap_by_func())
    }
}

/// What building a call from a list yields: an empty list calls a null
/// function; otherwise the last element is the function and the others are
/// appended after the parent.
pub open spec fn spec_do_list<T: IntoCommand>(elems: Seq<T>, parent: Option<CommandV>) -> CommandV {
    if elems.len() == 0 {
        spec_funcall((), parent)
    } else {
        spec_append_wrapped_from(
            spec_funcall(elems.last(), parent),
            elems.drop_last(),
            0,
        )
    }
}

impl<T: IntoCommand> DoArgs for Args<Vec<T>> {
    open spec fn build_spec(self, parent: Option<CommandV>) -> CommandV {
        spec_do_list(self.0@, parent)
    }

    fn build(self, parent: Option<Command>) -> (r: Command) {
        let mut v = self.0;
        let ghost orig = v@;
        if v.len() == 0 {
            return build_funcall((), parent);
        }
        let fn_arg = match v.pop() {
            Option::Some(x) => x,
            Option::None => vstd::pervasive::unreached(),
        };
        let cmd = build_funcall(fn_arg, parent);
        append_wrapped_all(cmd, v)
    }
}

} // verus!

