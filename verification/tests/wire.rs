//! Serialization of built queries against the exact wire strings.

use unreql::options::{BetweenOptions, ChangesOptions, CircleOptions, Conflict, DistanceOptions, FilterOptions, FoldOptions, GetNearestOptions, HttpAuth, InsertOptions, Interleave, RandomOptions, SliceOptions, Squash, Status, UnionOptions};
use unreql::args::{Args, DoArgs};
use unreql::{r, Command, Datum, Func, VarIdGen};

fn obj(fields: Vec<(&str, Datum)>) -> Datum {
    Datum::Object(fields.into_iter().map(|(k, v)| (k.to_string(), v)).collect())
}

fn wire(cmd: &Command) -> String {
    cmd.to_wire_string().unwrap()
}

#[test]
fn count_query() {
    let query = r
        .table("table")
        .filter(obj(vec![("id", Datum::Number(103))]))
        .count(());
    assert_eq!(r#"[43,[[39,[[15,["table"]],{"id":103}]]]]"#, wire(&query));
}

#[test]
fn filter_query() {
    let query = r.table("table").filter(obj(vec![("id", Datum::Number(103))]));
    assert_eq!(r#"[39,[[15,["table"]],{"id":103}]]"#, wire(&query));
}

#[test]
fn filter_by_row_query() {
    let query = r.table("table").filter(r.row().g("id").eq("test_id"));
    assert_eq!(
        r#"[39,[[15,["table"]],[69,[[2,[1]],[17,[[31,[[13],"id"]],"test_id"]]]]]]"#,
        wire(&query)
    );
}

#[test]
fn filter_by_func_query() {
    let mut gen = VarIdGen::new();
    let id = unreql::var_counter(&mut gen);
    let doc = Command::var(id);
    let query = r
        .table("table")
        .filter(Func::new(vec![id], doc.g("id").eq("test_id")).into_cmd());
    assert_eq!(
        r#"[39,[[15,["table"]],[69,[[2,[1]],[17,[[31,[[10,[1]],"id"]],"test_id"]]]]]]"#,
        wire(&query)
    );
}

#[test]
fn filter_by_row_query_with_opt() {
    let query = r.table("table").filter(r.with_opt(
        r.row().g("id").eq("test_id"),
        FilterOptions::new().default(true),
    ));
    assert_eq!(
        r#"[39,[[15,["table"]],[69,[[2,[1]],[17,[[31,[[13],"id"]],"test_id"]]]]],{"default":true}]"#,
        wire(&query)
    );
}

#[test]
fn insert_json() {
    let cmd = r.table("table").insert(obj(vec![("value", Datum::Bool(true))]));
    assert_eq!(r#"[56,[[15,["table"]],{"value":true}]]"#, wire(&cmd));
}

#[test]
fn insert_many() {
    let cmd = r.table("table").insert(r.args(vec![
        obj(vec![("doc1", Datum::Bool(true))]),
        obj(vec![("doc2", Datum::Bool(true))]),
    ]));
    assert_eq!(
        r#"[56,[[15,["table"]],{"doc1":true},{"doc2":true}]]"#,
        wire(&cmd)
    );
}

#[test]
fn insert_with_opt() {
    let cmd = r.table("table").insert(r.with_opt(
        obj(vec![("value", Datum::Bool(true))]),
        InsertOptions::new().conflict(Conflict::Update),
    ));
    assert_eq!(
        r#"[56,[[15,["table"]],{"value":true}],{"conflict":"update"}]"#,
        wire(&cmd)
    );
}

#[test]
fn update_json() {
    let cmd = r
        .table("table")
        .get("id")
        .update(obj(vec![("value", Datum::Bool(true))]));
    assert_eq!(
        r#"[53,[[16,[[15,["table"]],"id"]],{"value":true}]]"#,
        wire(&cmd)
    );
}

#[test]
fn update_json_with_row() {
    let cmd = r.table("table").get("id").update(obj(vec![(
        "value",
        Datum::Command(Box::new(r.row().g("old_value"))),
    )]));
    assert_eq!(
        r#"[53,[[16,[[15,["table"]],"id"]],[69,[[2,[1]],{"value":[31,[[13],"old_value"]]}]]]]"#,
        wire(&cmd)
    );
}

#[test]
fn update_json_with_func_row() {
    let mut gen = VarIdGen::new();
    let id = unreql::var_counter(&mut gen);
    let doc = Command::var(id);
    let body = Command::from_json(obj(vec![(
        "value",
        Datum::Command(Box::new(doc.g("old_value"))),
    )]));
    let cmd = r
        .table("table")
        .get("id")
        .update(Func::new(vec![id], body).into_cmd());
    assert_eq!(
        r#"[53,[[16,[[15,["table"]],"id"]],[69,[[2,[1]],{"value":[31,[[10,[1]],"old_value"]]}]]]]"#,
        wire(&cmd)
    );
}

#[test]
fn rjson_object_simple() {
    let data = obj(vec![("hello", Datum::String("world".to_string()))]);
    assert_eq!(r#"{"hello":"world"}"#, wire(&Command::from_json(data)));
}

#[test]
fn rjson_object_with_row() {
    let data = obj(vec![("hello", Datum::Command(Box::new(r.row().g("blabla"))))]);
    assert_eq!(
        r#"{"hello":[31,[[13],"blabla"]]}"#,
        wire(&Command::from_json(data))
    );
}

#[test]
fn rjson_object_with_array_simple() {
    let data = obj(vec![(
        "hello",
        Datum::Array(vec![
            Datum::Number(1),
            Datum::Array(vec![Datum::Number(2), Datum::Number(3)]),
        ]),
    )]);
    assert_eq!(
        r#"{"hello":[2,[1,[2,[2,3]]]]}"#,
        wire(&Command::from_json(data))
    );
}

#[test]
fn add_two_literals() {
    let query = r.expr(2).add(2);
    assert_eq!(r#"[24,[2,2]]"#, wire(&query));
}

#[test]
fn add_args_list() {
    let query = r.expr(0).add(r.args([1, 2, 4]));
    assert_eq!(r#"[24,[0,1,2,4]]"#, wire(&query));
    let query = r.expr(0).add(r.args(vec![1, 2, 4]));
    assert_eq!(r#"[24,[0,1,2,4]]"#, wire(&query));
    let vals = vec![10, 20, 30];
    let query = r.expr(0).add(r.args(&vals));
    assert_eq!(r#"[24,[0,10,20,30]]"#, wire(&query));
    let query = r.expr(0).add(r.args(vals.as_slice()));
    assert_eq!(r#"[24,[0,10,20,30]]"#, wire(&query));
}

#[test]
fn add_strings() {
    let query = r.expr("bbb").add("aaa");
    assert_eq!(r#"[24,["bbb","aaa"]]"#, wire(&query));
}

#[test]
fn add_array_of_strings() {
    let query = r
        .expr(Datum::Array(vec![
            Datum::String("foo".to_string()),
            Datum::String("bar".to_string()),
        ]))
        .add(Datum::Array(vec![Datum::String("buzz".to_string())]));
    assert_eq!(r#"[24,[[2,["foo","bar"]],[2,["buzz"]]]]"#, wire(&query));
}

#[test]
fn args_splice_of_a_term() {
    let keys = r.table("people").get("Alice").g("children");
    let query = r.table("people").get_all(r.args(keys));
    assert_eq!(
        r#"[78,[[15,["people"]],[154,[[31,[[16,[[15,["people"]],"Alice"]],"children"]]]]]]"#,
        wire(&query)
    );
}

#[test]
fn get_all_with_index_option() {
    let query = r
        .table("heroes")
        .get_all(r.with_opt(r.args(["a", "b"]), r.index("secondary")));
    assert_eq!(
        r#"[78,[[15,["heroes"]],"a","b"],{"index":"secondary"}]"#,
        wire(&query)
    );
}

#[test]
fn not_chain() {
    let query = r.expr(true).not().not();
    assert_eq!(r#"[23,[[23,[true]]]]"#, wire(&query));
}

#[test]
fn random_shapes() {
    assert_eq!(r#"[151]"#, wire(&r.random(())));
    assert_eq!(r#"[151,[100]]"#, wire(&r.random(100)));
    let opts = RandomOptions { float: Some(true) };
    assert_eq!(
        r#"[151,[100],{"float":true}]"#,
        wire(&r.random(r.with_opt(100, opts)))
    );
    assert_eq!(r#"[151,[100,200]]"#, wire(&r.random(r.args([100, 200]))));
    assert_eq!(
        r#"[151,[100,200],{"float":true}]"#,
        wire(&r.random(r.with_opt(r.args([100, 200]), opts)))
    );
}

#[test]
fn round_of_expression() {
    let query = r.expr(12).round();
    assert_eq!(r#"[185,[12]]"#, wire(&query));
    let query = r.round(-12);
    assert_eq!(r#"[185,[-12]]"#, wire(&query));
}

#[test]
fn index_create_with_function() {
    let mut gen = VarIdGen::new();
    let id = unreql::var_counter(&mut gen);
    let doc = Command::var(id);
    let index_fn = Func::new(vec![id], doc.g("author").g("name")).into_cmd();
    let query = r
        .table("comments")
        .index_create(r.args(("author_name", index_fn)));
    assert_eq!(
        r#"[75,[[15,["comments"]],"author_name",[69,[[2,[1]],[31,[[31,[[10,[1]],"author"]],"name"]]]]]]"#,
        wire(&query)
    );
}

#[test]
fn between_with_bounds() {
    let query = r.table("t").between(
        10,
        20,
        BetweenOptions::new().right_bound(Status::Closed),
    );
    assert_eq!(
        r#"[182,[[15,["t"]],10,20],{"right_bound":"closed"}]"#,
        wire(&query)
    );
}

#[test]
fn db_and_table_chain() {
    let query = r.db("test").table("test").get("test_id");
    assert_eq!(r#"[16,[[15,[[14,["test"]],"test"]],"test_id"]]"#, wire(&query));
}

#[test]
fn order_by_descending_index() {
    let query = r.table("games").order_by(r.index(r.desc("score")));
    assert_eq!(
        r#"[41,[[15,["games"]]],{"index":[74,["score"]]}]"#,
        wire(&query)
    );
}

#[test]
fn do_with_value() {
    let query = r.expr(5).do_(r.row().add(1));
    assert_eq!(r#"[64,[5,[69,[[2,[1]],[24,[[13],1]]]]]]"#, wire(&query));
}

#[test]
fn null_argument_is_omitted() {
    let explicit_null = r.table("t").count(Datum::Null);
    let no_argument = r.table("t").count(());
    assert_eq!(wire(&explicit_null), wire(&no_argument));
    assert_eq!(r#"[43,[[15,["t"]]]]"#, wire(&no_argument));
}

#[test]
fn wrapping_is_idempotent() {
    let once = r.row().g("age").wrap_by_func();
    let twice = r.row().g("age").wrap_by_func().wrap_by_func();
    assert_eq!(wire(&once), wire(&twice));
    assert_eq!(r#"[69,[[2,[1]],[31,[[13],"age"]]]]"#, wire(&once));
    // A hand-built function keeps its own binding and is not re-wrapped.
    let mut gen = VarIdGen::new();
    let id = unreql::var_counter(&mut gen);
    let func = Func::new(vec![id], Command::var(id).g("age")).into_cmd();
    let wrapped = func.wrap_by_func();
    assert_eq!(r#"[69,[[2,[1]],[31,[[10,[1]],"age"]]]]"#, wire(&wrapped));
}

#[test]
fn changefeed_mark_propagates_through_chaining() {
    let feed = r.table("scores").changes(());
    assert!(feed.change_feed());
    let chained = feed.filter(r.row().g("new_val"));
    assert!(chained.change_feed());
    let plain = r.table("scores").filter(r.row().g("x"));
    assert!(!plain.change_feed());
}

#[test]
fn do_args_build_orders_function_first() {
    // Bare value: the function slot is first, the parent follows.
    let call = 1.build(Some(r.expr(5)));
    assert_eq!(r#"[64,[1,5]]"#, wire(&call));
    // Pair: the last element is the function, earlier values follow the
    // parent.
    let call = Args((10, r.row().add(1))).build(Some(r.expr(5)));
    assert_eq!(r#"[64,[[69,[[2,[1]],[24,[[13],1]]]],5,10]]"#, wire(&call));
    // List: an empty list calls a null function.
    let call = Args(Vec::<i64>::new()).build(None);
    assert_eq!(r#"[64,[null]]"#, wire(&call));
}

#[test]
fn union_with_interleave_option() {
    let query = r.table("a").union(r.with_opt(
        r.table("b"),
        UnionOptions::new().interleave(Interleave::Bool(false)),
    ));
    assert_eq!(
        r#"[44,[[15,["a"]],[15,["b"]]],{"interleave":false}]"#,
        wire(&query)
    );
}

#[test]
fn fold_with_emit_option() {
    let query = r.table("t").fold(
        0,
        r.row(),
        FoldOptions::new().emit(r.row()),
    );
    assert_eq!(
        r#"[187,[[15,["t"]],0,[69,[[2,[1]],[13]]]],{"emit":[13]}]"#,
        wire(&query)
    );
}

#[test]
fn geo_commands_with_options() {
    let query = r.circle(r.with_opt(
        r.args((r.point(-122, 37), 1000)),
        CircleOptions::new().num_vertices(8),
    ));
    assert_eq!(
        r#"[165,[[159,[-122,37]],1000],{"num_vertices":8}]"#,
        wire(&query)
    );
    let query = r
        .point(-122, 37)
        .distance(r.point(-117, 32), DistanceOptions::new().unit("km".to_string()));
    assert_eq!(
        r#"[162,[[159,[-122,37]],[159,[-117,32]]],{"unit":"km"}]"#,
        wire(&query)
    );
    let query = r.table("parks").get_nearest(
        r.point(-122, 37),
        GetNearestOptions::new().index("location".to_string()).max_results(25),
    );
    assert_eq!(
        r#"[168,[[15,["parks"]],[159,[-122,37]]],{"index":"location","max_results":25}]"#,
        wire(&query)
    );
}

#[test]
fn http_auth_serializes_with_renamed_type_field() {
    let auth = HttpAuth::new()
        .type_("basic".to_string())
        .user("sam".to_string());
    let query = r.expr(auth.to_datum());
    assert_eq!(r#"{"type":"basic","user":"sam"}"#, wire(&query));
}

#[test]
fn changes_with_squash_window() {
    let query = r
        .table("games")
        .changes(ChangesOptions::new().squash(Squash::Seconds(5, 500)).include_states(true));
    assert_eq!(
        r#"[152,[[15,["games"]]],{"squash":5.500,"include_states":true}]"#,
        wire(&query)
    );
    let query = r.table("games").changes(ChangesOptions::new().squash(Squash::Bool(true)));
    assert_eq!(r#"[152,[[15,["games"]]],{"squash":true}]"#, wire(&query));
}

#[test]
fn slice_and_reduce_shapes() {
    // One offset, a pair of offsets, and a pair with options.
    assert_eq!(r#"[30,[[15,["t"]],2]]"#, wire(&r.table("t").slice(2)));
    assert_eq!(
        r#"[30,[[15,["t"]],2,5]]"#,
        wire(&r.table("t").slice(r.args((2, 5))))
    );
    assert_eq!(
        r#"[30,[[15,["t"]],2,5],{"right_bound":"closed"}]"#,
        wire(&r.table("t").slice(r.with_opt(
            r.args((2, 5)),
            SliceOptions::new().right_bound(Status::Closed),
        )))
    );
    // The omit-null rule is uniform: the unit value is dropped here too.
    assert_eq!(wire(&r.table("t").slice(())), wire(&r.table("t").slice(Datum::Null)));
    assert_eq!(r#"[30,[[15,["t"]]]]"#, wire(&r.table("t").slice(())));
    // A bare implicit-row reference is wrapped here as everywhere.
    assert_eq!(
        r#"[37,[[15,["t"]],[69,[[2,[1]],[13]]]]]"#,
        wire(&r.table("t").reduce(r.row()))
    );
}
