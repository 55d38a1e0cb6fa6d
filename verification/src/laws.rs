//! The general guarantees of the construction algebra, stated and proved
//! once over the mathematical model: argument order on the wire, omission of
//! null arguments, propagation of the changefeed mark, and idempotence of
//! implicit-row wrapping.

use crate::args::{spec_append_scalar, spec_append_wrapped_from, IntoCommand};
use crate::cmd::spec_new_term;
use crate::proto::{
    cmd_has_ivar, lemma_wire_cmds_index, lemma_wire_cmds_len, spec_func_term, spec_wrap_by_func,
    wire_cmd, wire_cmds, CommandV, TermKind,
};
use crate::json::JsonV;
use vstd::prelude::*;

verus! {

broadcast use vstd::seq::group_seq_axioms;

/// Setting the changefeed mark sets exactly the mark, through any
/// indirection.
pub proof fn lemma_with_change_feed_flag(c: CommandV, v: bool)
    ensures
        c.with_change_feed(v).change_feed() == v,
        c.with_change_feed(v).args() == c.args(),
        c.with_change_feed(v).typ() == c.typ(),
    decreases c,
{
    match c {
        CommandV::Boxed(b) => {
            lemma_with_change_feed_flag(*b, v);
        },
        CommandV::Data { .. } => {},
    }
}

/// Prepending a child prepends exactly that child, through any indirection,
/// and touches no mark.
pub proof fn lemma_prepend_arg(c: CommandV, a: CommandV)
    ensures
        c.prepend_arg(a).args() == seq![a] + c.args(),
        c.prepend_arg(a).change_feed() == c.change_feed(),
        c.prepend_arg(a).typ() == c.typ(),
    decreases c,
{
    match c {
        CommandV::Boxed(b) => {
            lemma_prepend_arg(*b, a);
        },
        CommandV::Data { .. } => {},
    }
}

/// Appending a child appends exactly that child, through any indirection,
/// and touches no mark.
pub proof fn lemma_push_arg(c: CommandV, a: CommandV)
    ensures
        c.push_arg(a).args() == c.args().push(a),
        c.push_arg(a).change_feed() == c.change_feed(),
        c.push_arg(a).typ() == c.typ(),
    decreases c,
{
    match c {
        CommandV::Boxed(b) => {
            lemma_push_arg(*b, a);
        },
        CommandV::Data { .. } => {},
    }
}

/// Chaining the receiver prepends it as the first child and OR-combines
/// the changefeed marks.
pub proof fn lemma_with_parent(c: CommandV, p: CommandV)
    ensures
        c.spec_with_parent(p).args() == seq![p] + c.args(),
        c.spec_with_parent(p).change_feed() == (c.change_feed() || p.change_feed()),
        c.spec_with_parent(p).typ() == c.typ(),
{
    lemma_with_change_feed_flag(c, c.change_feed() || p.change_feed());
    lemma_prepend_arg(c.with_change_feed(c.change_feed() || p.change_feed()), p);
}

/// Ordering: a term built by chaining argument-appends onto an empty node
/// holds the children in exactly the declaration order.
pub proof fn lemma_chained_args_in_order(k: TermKind, a: CommandV, b: CommandV, c: CommandV)
    ensures
        spec_new_term(k).push_arg(a).push_arg(b).push_arg(c).args() =~= seq![a, b, c],
{
    lemma_push_arg(spec_new_term(k), a);
    lemma_push_arg(spec_new_term(k).push_arg(a), b);
    lemma_push_arg(spec_new_term(k).push_arg(a).push_arg(b), c);
}

/// Ordering: serializing an operation node yields `[kind, children]` with
/// the children in exactly the stored order, each serialized in place.
pub proof fn lemma_serialize_keeps_child_order(k: TermKind, args: Seq<CommandV>)
    requires
        k != TermKind::Datum,
        args.len() > 0,
    ensures
        ({
            let t = CommandV::Data {
                typ: k,
                datum: Option::None,
                args,
                opts: Option::None,
                change_feed: false,
            };
            &&& wire_cmd(t) == JsonV::Arr(
                seq![JsonV::Int(k.code_spec()), JsonV::Arr(wire_cmds(args))],
            )
            &&& wire_cmds(args).len() == args.len()
            &&& forall|i: int|
                0 <= i < args.len() ==> #[trigger] wire_cmds(args)[i] == wire_cmd(args[i])
        }),
{
    lemma_wire_cmds_len(args);
    assert forall|i: int| 0 <= i < args.len() implies #[trigger] wire_cmds(args)[i] == wire_cmd(
        args[i],
    ) by {
        lemma_wire_cmds_index(args, i);
    }
}

/// Ordering, end to end: a term built by chaining three argument-appends
/// serializes with exactly those children, in declaration order.
pub proof fn lemma_build_then_serialize_in_order(k: TermKind, a: CommandV, b: CommandV, c: CommandV)
    requires
        k != TermKind::Datum,
    ensures
        wire_cmd(spec_new_term(k).push_arg(a).push_arg(b).push_arg(c)) == JsonV::Arr(
            seq![
                JsonV::Int(k.code_spec()),
                JsonV::Arr(seq![wire_cmd(a), wire_cmd(b), wire_cmd(c)]),
            ],
        ),
{
    let args = seq![a, b, c];
    lemma_chained_args_in_order(k, a, b, c);
    let t = spec_new_term(k).push_arg(a).push_arg(b).push_arg(c);
    assert(t == CommandV::Data {
        typ: k,
        datum: Option::None,
        args,
        opts: Option::None,
        change_feed: false,
    });
    lemma_serialize_keeps_child_order(k, args);
    assert(wire_cmds(args) =~= seq![wire_cmd(a), wire_cmd(b), wire_cmd(c)]);
}

/// Null omission: an optional scalar that converts to a literal null is
/// dropped, so supplying it yields exactly the term that supplying no
/// argument yields.
pub proof fn lemma_null_argument_omitted(cmd: CommandV, arg: CommandV)
    requires
        arg.spec_is_null(),
    ensures
        spec_append_scalar(cmd, arg) == cmd,
{
}

/// Null omission for the unit value: the unit argument converts to a
/// literal null, so it is dropped as well.
pub proof fn lemma_unit_argument_omitted(cmd: CommandV)
    ensures
        spec_append_scalar(cmd, <() as crate::args::IntoCommand>::into_command_spec(())) == cmd,
{
}

/// Changefeed propagation: a term chained onto a changefeed is a changefeed;
/// chaining an unmarked term onto an unmarked receiver stays unmarked.
pub proof fn lemma_change_feed_propagates(child: CommandV, parent: CommandV)
    ensures
        parent.change_feed() ==> child.spec_with_parent(parent).change_feed(),
        child.change_feed() ==> child.spec_with_parent(parent).change_feed(),
        !parent.change_feed() && !child.change_feed() ==> !child.spec_with_parent(
            parent,
        ).change_feed(),
{
    lemma_with_parent(child, parent);
}

/// A function term binds its own row: it holds no unguarded implicit-row
/// reference, whatever stands inside it.
pub proof fn lemma_function_term_guards_ivar(ids: Seq<int>, body: CommandV)
    ensures
        !cmd_has_ivar(spec_func_term(ids, body)),
{
}

/// Implicit-row wrapping is idempotent: wrapping twice yields what wrapping
/// once yields, because wrapping applies only where an unguarded reference
/// remains, and a function term guards its body.
pub proof fn lemma_wrap_by_func_idempotent(t: CommandV)
    ensures
        spec_wrap_by_func(spec_wrap_by_func(t)) == spec_wrap_by_func(t),
{
    if cmd_has_ivar(t) {
        lemma_function_term_guards_ivar(seq![1int], t);
    }
}

/// A term already shaped as a function is never re-wrapped.
pub proof fn lemma_function_not_rewrapped(t: CommandV)
    requires
        t.typ() == TermKind::Func,
    ensures
        spec_wrap_by_func(t) == t,
{
    lemma_func_typ_no_ivar(t);
}

/// A term whose kind is the function kind holds no unguarded implicit-row
/// reference, through any indirection.
proof fn lemma_func_typ_no_ivar(t: CommandV)
    requires
        t.typ() == TermKind::Func,
    ensures
        !cmd_has_ivar(t),
    decreases t,
{
    match t {
        CommandV::Boxed(b) => {
            lemma_func_typ_no_ivar(*b);
        },
        CommandV::Data { .. } => {},
    }
}

/// Ordering for the list shapes: appending a list appends exactly the
/// converted elements, wrapped, in declaration order, after the children
/// already present.
pub proof fn lemma_list_arguments_in_order<T: IntoCommand>(cmd: CommandV, elems: Seq<T>)
    ensures
        spec_append_wrapped_from(cmd, elems, 0).args() == cmd.args() + Seq::new(
            elems.len(),
            |j: int| spec_wrap_by_func(elems[j].into_command_spec()),
        ),
        spec_append_wrapped_from(cmd, elems, 0).change_feed() == cmd.change_feed(),
        spec_append_wrapped_from(cmd, elems, 0).typ() == cmd.typ(),
{
    lemma_append_wrapped_from(cmd, elems, 0);
    assert(spec_append_wrapped_from(cmd, elems, 0).args() =~= cmd.args() + Seq::new(
        elems.len(),
        |j: int| spec_wrap_by_func(elems[j].into_command_spec()),
    ));
}

proof fn lemma_append_wrapped_from<T: IntoCommand>(cmd: CommandV, elems: Seq<T>, i: int)
    requires
        0 <= i <= elems.len(),
    ensures
        spec_append_wrapped_from(cmd, elems, i).args() =~= cmd.args() + Seq::new(
            (elems.len() - i) as nat,
            |j: int| spec_wrap_by_func(elems[i + j].into_command_spec()),
        ),
        spec_append_wrapped_from(cmd, elems, i).change_feed() == cmd.change_feed(),
        spec_append_wrapped_from(cmd, elems, i).typ() == cmd.typ(),
    decreases elems.len() - i,
{
    if i == elems.len() {
        assert(cmd.args() + Seq::new(
            0,
            |j: int| spec_wrap_by_func(elems[i + j].into_command_spec()),
        ) =~= cmd.args());
    } else {
        let w = spec_wrap_by_func(elems[i].into_command_spec());
        lemma_push_arg(cmd, w);
        lemma_append_wrapped_from(cmd.push_arg(w), elems, i + 1);
        assert(cmd.args().push(w) + Seq::new(
            (elems.len() - i - 1) as nat,
            |j: int| spec_wrap_by_func(elems[i + 1 + j].into_command_spec()),
        ) =~= cmd.args() + Seq::new(
            (elems.len() - i) as nat,
            |j: int| spec_wrap_by_func(elems[i + j].into_command_spec()),
        ));
    }
}

} // verus!
