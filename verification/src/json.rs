//! Plain JSON values and a verified encoder to JSON text.
//!
//! The wire format of the protocol is JSON, so the library carries its own
//! JSON value type together with a mathematical model (`JsonV`) and a spec
//! of the exact text each value encodes to (`json_text`).

use vstd::prelude::*;
use vstd::string::StrSliceExecFns;

verus! {

broadcast use vstd::std_specs::vec::group_vec_axioms, vstd::seq::group_seq_axioms;

/// A JSON value, built from plain data only.
#[derive(Debug)]
pub enum Json {
    Null,
    Bool(bool),
    Int(i64),
    /// A number with exactly three decimal digits: a whole part and its
    /// thousandths. The protocol's time values carry millisecond precision,
    /// which this holds without floating point; a negative whole part makes
    /// the whole number negative.
    Fixed(i64, u16),
    Str(String),
    Arr(Vec<Json>),
    Obj(Vec<(String, Json)>),
}

/// Mathematical model of a JSON value.
pub enum JsonV {
    Null,
    Bool(bool),
    Int(int),
    Fixed(int, int),
    Str(Seq<char>),
    Arr(Seq<JsonV>),
    Obj(Seq<(Seq<char>, JsonV)>),
}

pub open spec fn jview(j: Json) -> JsonV
    decreases j,
{
    match j {
        Json::Null => JsonV::Null,
        Json::Bool(b) => JsonV::Bool(b),
        Json::Int(n) => JsonV::Int(n as int),
        Json::Fixed(w, m) => JsonV::Fixed(w as int, m as int),
        Json::Str(s) => JsonV::Str(s@),
        Json::Arr(items) => JsonV::Arr(jview_seq(items@)),
        Json::Obj(fields) => JsonV::Obj(jview_fields(fields@)),
    }
}

pub open spec fn jview_seq(s: Seq<Json>) -> Seq<JsonV>
    decreases s,
{
    if s.len() == 0 {
        Seq::empty()
    } else {
        jview_seq(s.drop_last()).push(jview(s.last()))
    }
}

pub open spec fn jview_fields(s: Seq<(String, Json)>) -> Seq<(Seq<char>, JsonV)>
    decreases s,
{
    if s.len() == 0 {
        Seq::empty()
    } else {
        jview_fields(s.drop_last()).push((s.last().0@, jview(s.last().1)))
    }
}

impl View for Json {
    type V = JsonV;

    open spec fn view(&self) -> JsonV {
        jview(*self)
    }
}

pub broadcast proof fn lemma_jview_seq_index(s: Seq<Json>, i: int)
    requires
        0 <= i < s.len(),
    ensures
        jview_seq(s).len() == s.len(),
        #[trigger] jview_seq(s)[i] == jview(s[i]),
    decreases s.len(),
{
    lemma_jview_seq_len(s);
    if s.len() > 0 && i < s.len() - 1 {
        lemma_jview_seq_index(s.drop_last(), i);
    }
}

pub proof fn lemma_jview_seq_len(s: Seq<Json>)
    ensures
        jview_seq(s).len() == s.len(),
    decreases s.len(),
{
    if s.len() > 0 {
        lemma_jview_seq_len(s.drop_last());
    }
}

pub broadcast proof fn lemma_jview_fields_index(s: Seq<(String, Json)>, i: int)
    requires
        0 <= i < s.len(),
    ensures
        jview_fields(s).len() == s.len(),
        #[trigger] jview_fields(s)[i] == (s[i].0@, jview(s[i].1)),
    decreases s.len(),
{
    lemma_jview_fields_len(s);
    if s.len() > 0 && i < s.len() - 1 {
        lemma_jview_fields_index(s.drop_last(), i);
    }
}

pub proof fn lemma_jview_fields_len(s: Seq<(String, Json)>)
    ensures
        jview_fields(s).len() == s.len(),
    decreases s.len(),
{
    if s.len() > 0 {
        lemma_jview_fields_len(s.drop_last());
    }
}

/// The character for one decimal digit.
pub open spec fn digit_char(d: int) -> char {
    if d == 0 {
        '0'
    } else if d == 1 {
        '1'
    } else if d == 2 {
        '2'
    } else if d == 3 {
        '3'
    } else if d == 4 {
        '4'
    } else if d == 5 {
        '5'
    } else if d == 6 {
        '6'
    } else if d == 7 {
        '7'
    } else if d == 8 {
        '8'
    } else {
        '9'
    }
}

/// The character for one hexadecimal digit, lower case.
pub open spec fn hex_char(d: int) -> char {
    if d < 10 {
        digit_char(d)
    } else if d == 10 {
        'a'
    } else if d == 11 {
        'b'
    } else if d == 12 {
        'c'
    } else if d == 13 {
        'd'
    } else if d == 14 {
        'e'
    } else {
        'f'
    }
}

/// Decimal text of a natural number, without sign.
pub open spec fn nat_text(n: nat) -> Seq<char>
    decreases n,
{
    if n < 10 {
        seq![digit_char(n as int)]
    } else {
        nat_text(n / 10).push(digit_char((n % 10) as int))
    }
}

/// Decimal text of an integer.
pub open spec fn int_text(i: int) -> Seq<char> {
    if i < 0 {
        seq!['-'] + nat_text((-i) as nat)
    } else {
        nat_text(i as nat)
    }
}

/// JSON escaping of one character: quote and backslash get a backslash,
/// control characters get their short escape or a `\u00..` form, and every
/// other character stands for itself.
pub open spec fn escape_char(c: char) -> Seq<char> {
    if c == '"' {
        seq!['\\', '"']
    } else if c == '\\' {
        seq!['\\', '\\']
    } else if c == '\u{8}' {
        seq!['\\', 'b']
    } else if c == '\t' {
        seq!['\\', 't']
    } else if c == '\n' {
        seq!['\\', 'n']
    } else if c == '\u{c}' {
        seq!['\\', 'f']
    } else if c == '\r' {
        seq!['\\', 'r']
    } else if (c as u32) < 0x20 {
        seq!['\\', 'u', '0', '0', hex_char(c as u32 as int / 16), hex_char(c as u32 as int % 16)]
    } else {
        seq![c]
    }
}

/// JSON escaping of a whole string, character by character.
pub open spec fn escape_text(s: Seq<char>) -> Seq<char>
    decreases s.len(),
{
    if s.len() == 0 {
        Seq::empty()
    } else {
        escape_char(s[0]) + escape_text(s.drop_first())
    }
}

/// A JSON string literal: quoted and escaped.
pub open spec fn str_text(s: Seq<char>) -> Seq<char> {
    seq!['"'] + escape_text(s) + seq!['"']
}

/// The exact text a JSON value encodes to.
pub open spec fn json_text(j: JsonV) -> Seq<char>
    decreases j, 0int,
{
    match j {
        JsonV::Null => seq!['n', 'u', 'l', 'l'],
        JsonV::Bool(b) => if b {
            seq!['t', 'r', 'u', 'e']
        } else {
            seq!['f', 'a', 'l', 's', 'e']
        },
        JsonV::Int(i) => int_text(i),
        JsonV::Fixed(w, m) => int_text(w) + seq![
            '.',
            digit_char((m / 100) % 10),
            digit_char((m / 10) % 10),
            digit_char(m % 10),
        ],
        JsonV::Str(s) => str_text(s),
        JsonV::Arr(items) => seq!['['] + arr_text_from(items, 0) + seq![']'],
        JsonV::Obj(fields) => seq!['{'] + obj_text_from(fields, 0) + seq!['}'],
    }
}

/// Comma-separated text of the array elements from index `i` on.
pub open spec fn arr_text_from(items: Seq<JsonV>, i: int) -> Seq<char>
    decreases items, items.len() - i,
{
    if i < 0 || i >= items.len() {
        Seq::empty()
    } else {
        let sep: Seq<char> = if i == 0 {
            Seq::empty()
        } else {
            seq![',']
        };
        sep + json_text(items[i]) + arr_text_from(items, i + 1)
    }
}

/// Comma-separated text of the object entries from index `i` on.
pub open spec fn obj_text_from(fields: Seq<(Seq<char>, JsonV)>, i: int) -> Seq<char>
    decreases fields, fields.len() - i,
{
    if i < 0 || i >= fields.len() {
        Seq::empty()
    } else {
        let sep: Seq<char> = if i == 0 {
            Seq::empty()
        } else {
            seq![',']
        };
        sep + str_text(fields[i].0) + seq![':'] + json_text(fields[i].1) + obj_text_from(
            fields,
            i + 1,
        )
    }
}

/// Relies on String::push: appends exactly one character at the end.
#[verifier::external_body]
pub(crate) fn push_char(s: &mut String, c: char)
    ensures
        final(s)@ == old(s)@.push(c),
{
    s.push(c);
}

pub(crate) fn write_digit(d: u64, out: &mut String)
    requires
        d < 10,
    ensures
        final(out)@ == old(out)@.push(digit_char(d as int)),
{
    let c: char = match d {
        0 => '0',
        1 => '1',
        2 => '2',
        3 => '3',
        4 => '4',
        5 => '5',
        6 => '6',
        7 => '7',
        8 => '8',
        _ => '9',
    };
    push_char(out, c);
}

fn write_hex_digit(d: u32, out: &mut String)
    requires
        d < 16,
    ensures
        final(out)@ == old(out)@.push(hex_char(d as int)),
{
    let c: char = match d {
        0 => '0',
        1 => '1',
        2 => '2',
        3 => '3',
        4 => '4',
        5 => '5',
        6 => '6',
        7 => '7',
        8 => '8',
        9 => '9',
        10 => 'a',
        11 => 'b',
        12 => 'c',
        13 => 'd',
        14 => 'e',
        _ => 'f',
    };
    push_char(out, c);
}

proof fn lemma_seq_assoc<A>(a: Seq<A>, b: Seq<A>, c: Seq<A>)
    ensures
        (a + b) + c == a + (b + c),
{
    assert((a + b) + c =~= a + (b + c));
}

pub(crate) fn write_nat(n: u64, out: &mut String)
    ensures
        final(out)@ == old(out)@ + nat_text(n as nat),
    decreases n,
{
    if n >= 10 {
        write_nat(n / 10, out);
    }
    write_digit(n % 10, out);
    proof {
        assert(final(out)@ =~= old(out)@ + nat_text(n as nat));
    }
}

fn write_int(n: i64, out: &mut String)
    ensures
        final(out)@ == old(out)@ + int_text(n as int),
{
    if n < 0 {
        push_char(out, '-');
        let m: u64 = if n == i64::MIN {
            9223372036854775808u64
        } else {
            (-n) as u64
        };
        assert(m as nat == (-(n as int)) as nat);
        write_nat(m, out);
        proof {
            assert(final(out)@ =~= old(out)@ + int_text(n as int));
        }
    } else {
        write_nat(n as u64, out);
    }
}

fn write_escaped_char(c: char, out: &mut String)
    ensures
        final(out)@ == old(out)@ + escape_char(c),
{
    if c == '"' {
        push_char(out, '\\');
        push_char(out, '"');
    } else if c == '\\' {
        push_char(out, '\\');
        push_char(out, '\\');
    } else if c == '\u{8}' {
        push_char(out, '\\');
        push_char(out, 'b');
    } else if c == '\t' {
        push_char(out, '\\');
        push_char(out, 't');
    } else if c == '\n' {
        push_char(out, '\\');
        push_char(out, 'n');
    } else if c == '\u{c}' {
        push_char(out, '\\');
        push_char(out, 'f');
    } else if c == '\r' {
        push_char(out, '\\');
        push_char(out, 'r');
    } else if (c as u32) < 0x20 {
        let code: u32 = c as u32;
        push_char(out, '\\');
        push_char(out, 'u');
        push_char(out, '0');
        push_char(out, '0');
        write_hex_digit(code / 16, out);
        write_hex_digit(code % 16, out);
    } else {
        push_char(out, c);
    }
    proof {
        assert(final(out)@ =~= old(out)@ + escape_char(c));
    }
}

proof fn lemma_escape_text_take_step(s: Seq<char>, i: int)
    requires
        0 <= i < s.len(),
    ensures
        escape_text(s.take(i + 1)) == escape_text(s.take(i)) + escape_char(s[i]),
    decreases i,
{
    if i == 0 {
        assert(s.take(1)[0] == s[0]);
        assert(s.take(1).drop_first() =~= s.take(0));
        assert(escape_text(s.take(1)) =~= escape_text(s.take(0)) + escape_char(s[0]));
    } else {
        let t1 = s.take(i + 1);
        let t0 = s.take(i);
        assert(t1[0] == s[0]);
        assert(t0[0] == s[0]);
        assert(t1.drop_first() =~= s.drop_first().take(i));
        assert(t0.drop_first() =~= s.drop_first().take(i - 1));
        lemma_escape_text_take_step(s.drop_first(), i - 1);
        assert(s.drop_first()[i - 1] == s[i]);
        lemma_seq_assoc(escape_char(s[0]), escape_text(s.drop_first().take(i - 1)), escape_char(s[i]));
    }
}

fn write_escaped(s: &str, out: &mut String)
    ensures
        final(out)@ == old(out)@ + escape_text(s@),
{
    let len = s.unicode_len();
    let mut i: usize = 0;
    proof {
        assert(s@.take(0) =~= Seq::<char>::empty());
        assert(out@ + escape_text(s@.take(0)) =~= out@);
    }
    while i < len
        invariant
            i <= len,
            len == s@.len(),
            out@ == old(out)@ + escape_text(s@.take(i as int)),
        decreases len - i,
    {
        let c = s.get_char(i);
        write_escaped_char(c, out);
        proof {
            lemma_escape_text_take_step(s@, i as int);
            lemma_seq_assoc(old(out)@, escape_text(s@.take(i as int)), escape_char(s@[i as int]));
        }
        i = i + 1;
    }
    proof {
        assert(s@.take(len as int) =~= s@);
    }
}

fn write_str_literal(s: &str, out: &mut String)
    ensures
        final(out)@ == old(out)@ + str_text(s@),
{
    push_char(out, '"');
    write_escaped(s, out);
    push_char(out, '"');
    proof {
        assert(final(out)@ =~= old(out)@ + str_text(s@));
    }
}

#[verifier::loop_isolation(false)]
fn write_json(j: &Json, out: &mut String)
    ensures
        final(out)@ == old(out)@ + json_text(jview(*j)),
    decreases *j,
{
    match j {
        Json::Null => {
            push_char(out, 'n');
            push_char(out, 'u');
            push_char(out, 'l');
            push_char(out, 'l');
            proof {
                assert(final(out)@ =~= old(out)@ + json_text(jview(*j)));
            }
        },
        Json::Bool(b) => {
            if *b {
                push_char(out, 't');
                push_char(out, 'r');
                push_char(out, 'u');
                push_char(out, 'e');
            } else {
                push_char(out, 'f');
                push_char(out, 'a');
                push_char(out, 'l');
                push_char(out, 's');
                push_char(out, 'e');
            }
            proof {
                assert(final(out)@ =~= old(out)@ + json_text(jview(*j)));
            }
        },
        Json::Int(n) => {
            write_int(*n, out);
        },
        Json::Fixed(w, m) => {
            write_int(*w, out);
            push_char(out, '.');
            let mv: u64 = *m as u64;
            write_digit((mv / 100) % 10, out);
            write_digit((mv / 10) % 10, out);
            write_digit(mv % 10, out);
            proof {
                assert(((mv / 100) % 10) as int == ((*m as int) / 100) % 10);
                assert(((mv / 10) % 10) as int == ((*m as int) / 10) % 10);
                assert((mv % 10) as int == (*m as int) % 10);
                assert(final(out)@ =~= old(out)@ + json_text(jview(*j)));
            }
        },
        Json::Str(s) => {
            write_str_literal(s.as_str(), out);
        },
        Json::Arr(items) => {
            push_char(out, '[');
            let ghost items_v = jview_seq(items@);
            let ghost base = out@;
            proof {
                lemma_jview_seq_len(items@);
            }
            let n = items.len();
            let mut k: usize = 0;
            while k < n
                invariant
                    k <= n,
                    n == items@.len(),
                    items_v == jview_seq(items@),
                    items_v.len() == n,
                    base == old(out)@.push('['),
                    jview(*j) == JsonV::Arr(items_v),
                    out@ + arr_text_from(items_v, k as int) == base + arr_text_from(items_v, 0),
                decreases n - k,
            {
                let ghost pre = out@;
                if k > 0 {
                    push_char(out, ',');
                }
                proof {
                    assert(decreases_to!(*j => *items));
                    assert(decreases_to!(*items => items@));
                    assert(decreases_to!(items@ => items@[k as int]));
                }
                write_json(&items[k], out);
                proof {
                    lemma_jview_seq_index(items@, k as int);
                    let sep: Seq<char> = if k == 0 {
                        Seq::empty()
                    } else {
                        seq![',']
                    };
                    assert(out@ =~= pre + (sep + json_text(items_v[k as int])));
                    lemma_seq_assoc(
                        pre,
                        sep + json_text(items_v[k as int]),
                        arr_text_from(items_v, k as int + 1),
                    );
                    assert((sep + json_text(items_v[k as int])) + arr_text_from(
                        items_v,
                        k as int + 1,
                    ) =~= arr_text_from(items_v, k as int));
                    assert(out@ + arr_text_from(items_v, k as int + 1) == pre + arr_text_from(
                        items_v,
                        k as int,
                    ));
                }
                k = k + 1;
            }
            proof {
                assert(arr_text_from(items_v, n as int) =~= Seq::<char>::empty());
                assert(out@ =~= out@ + arr_text_from(items_v, n as int));
            }
            push_char(out, ']');
            proof {
                assert(final(out)@ =~= old(out)@ + json_text(jview(*j)));
            }
        },
        Json::Obj(fields) => {
            push_char(out, '{');
            let ghost fields_v = jview_fields(fields@);
            let ghost base = out@;
            proof {
                lemma_jview_fields_len(fields@);
            }
            let n = fields.len();
            let mut k: usize = 0;
            while k < n
                invariant
                    k <= n,
                    n == fields@.len(),
                    fields_v == jview_fields(fields@),
                    fields_v.len() == n,
                    base == old(out)@.push('{'),
                    jview(*j) == JsonV::Obj(fields_v),
                    out@ + obj_text_from(fields_v, k as int) == base + obj_text_from(fields_v, 0),
                decreases n - k,
            {
                let ghost pre = out@;
                if k > 0 {
                    push_char(out, ',');
                }
                write_str_literal(fields[k].0.as_str(), out);
                push_char(out, ':');
                proof {
                    assert(decreases_to!(*j => *fields));
                    assert(decreases_to!(*fields => fields@));
                    assert(decreases_to!(fields@ => fields@[k as int]));
                    assert(decreases_to!(fields@[k as int] => fields@[k as int].1));
                }
                write_json(&fields[k].1, out);
                proof {
                    lemma_jview_fields_index(fields@, k as int);
                    let sep: Seq<char> = if k == 0 {
                        Seq::empty()
                    } else {
                        seq![',']
                    };
                    let entry = sep + str_text(fields_v[k as int].0) + seq![':'] + json_text(
                        fields_v[k as int].1,
                    );
                    assert(out@ =~= pre + entry);
                    assert(obj_text_from(fields_v, k as int) =~= entry + obj_text_from(
                        fields_v,
                        k as int + 1,
                    ));
                    lemma_seq_assoc(pre, entry, obj_text_from(fields_v, k as int + 1));
                    assert(out@ + obj_text_from(fields_v, k as int + 1) == pre + obj_text_from(
                        fields_v,
                        k as int,
                    ));
                }
                k = k + 1;
            }
            proof {
                assert(obj_text_from(fields_v, n as int) =~= Seq::<char>::empty());
                assert(out@ =~= out@ + obj_text_from(fields_v, n as int));
            }
            push_char(out, '}');
            proof {
                assert(final(out)@ =~= old(out)@ + json_text(jview(*j)));
            }
        },
    }
}

impl Clone for Json {
    /// A clone models to the same JSON value.
    fn clone(&self) -> (r: Self)
        ensures
            r@ == self@,
    {
        clone_json(self)
    }
}

#[verifier::loop_isolation(false)]
fn clone_json(j: &Json) -> (r: Json)
    ensures
        r@ == j@,
    decreases *j,
{
    match j {
        Json::Null => Json::Null,
        Json::Bool(b) => Json::Bool(*b),
        Json::Int(n) => Json::Int(*n),
        Json::Fixed(w, m) => Json::Fixed(*w, *m),
        Json::Str(s) => Json::Str(s.clone()),
        Json::Arr(items) => {
            let n = items.len();
            let mut out: Vec<Json> = Vec::new();
            let mut k: usize = 0;
            while k < n
                invariant
                    k <= n,
                    out@.len() == k,
                    forall|t: int| 0 <= t < k ==> #[trigger] jview(out@[t]) == jview(items@[t]),
                decreases n - k,
            {
                proof {
                    assert(decreases_to!(*j => *items));
                    assert(decreases_to!(*items => items@));
                    assert(decreases_to!(items@ => items@[k as int]));
                }
                let c = clone_json(&items[k]);
                out.push(c);
                k = k + 1;
            }
            let r = Json::Arr(out);
            proof {
                lemma_jview_seq_len(out@);
                lemma_jview_seq_len(items@);
                assert forall|t: int| 0 <= t < n implies #[trigger] jview_seq(out@)[t] == jview_seq(
                    items@,
                )[t] by {
                    lemma_jview_seq_index(out@, t);
                    lemma_jview_seq_index(items@, t);
                }
                assert(jview_seq(out@) =~= jview_seq(items@));
            }
            r
        },
        Json::Obj(fields) => {
            let n = fields.len();
            let mut out: Vec<(String, Json)> = Vec::new();
            let mut k: usize = 0;
            while k < n
                invariant
                    k <= n,
                    out@.len() == k,
                    forall|t: int| 0 <= t < k ==> #[trigger] out@[t].0@ == fields@[t].0@
                        && jview(out@[t].1) == jview(fields@[t].1),
                decreases n - k,
            {
                proof {
                    assert(decreases_to!(*j => *fields));
                    assert(decreases_to!(*fields => fields@));
                    assert(decreases_to!(fields@ => fields@[k as int]));
                    assert(decreases_to!(fields@[k as int] => fields@[k as int].1));
                }
                let key = fields[k].0.clone();
                let val = clone_json(&fields[k].1);
                out.push((key, val));
                k = k + 1;
            }
            let r = Json::Obj(out);
            proof {
                lemma_jview_fields_len(out@);
                lemma_jview_fields_len(fields@);
                assert forall|t: int| 0 <= t < n implies #[trigger] jview_fields(out@)[t]
                    == jview_fields(fields@)[t] by {
                    lemma_jview_fields_index(out@, t);
                    lemma_jview_fields_index(fields@, t);
                }
                assert(jview_fields(out@) =~= jview_fields(fields@));
            }
            r
        },
    }
}

impl Json {
    /// Encode this value as JSON text.
    pub fn to_text(&self) -> (r: String)
        ensures
            r@ == json_text(self@),
    {
        let mut out = String::new();
        write_json(self, &mut out);
        proof {
            assert(out@ =~= json_text(jview(*self)));
        }
        out
    }
}

} // verus!
