//! The protocol's TIME pseudo-type, modelled with plain values: seconds
//! since the epoch, a millisecond fraction, and the clock's offset from
//! UTC. On the wire it is an object tagged `$reql_type$: "TIME"` whose
//! epoch time is a number with millisecond precision and whose timezone is
//! a `+hh:mm` text.

use crate::err::{Driver, Error};
use crate::json::{digit_char, push_char, write_digit, Json, JsonV};
use crate::proto::{Datum, DatumV};
use crate::session::{obj_find, obj_lookup_from};
use vstd::prelude::*;
use vstd::string::StrSliceExecFns;
use vstd::string::StringExecFns;

verus! {

broadcast use vstd::std_specs::vec::group_vec_axioms, vstd::seq::group_seq_axioms;

/// A point in time: seconds since the epoch, the millisecond fraction, and
/// the clock's offset from UTC in minutes. The number is sign-magnitude: a
/// time before the epoch carries negative seconds, and the fraction counts
/// away from zero.
#[derive(Debug, Clone, Copy, PartialEq, Eq, Structural)]
pub struct DateTime {
    pub seconds: i64,
    pub milliseconds: u16,
    pub offset_minutes: i16,
}

/// The `+hh:mm` text of an offset given in minutes.
pub open spec fn spec_timezone_text(off: int) -> Seq<char> {
    let sign: char = if off < 0 {
        '-'
    } else {
        '+'
    };
    let a = if off < 0 {
        -off
    } else {
        off
    };
    seq![
        sign,
        digit_char((a / 60) / 10 % 10),
        digit_char((a / 60) % 10),
        ':',
        digit_char((a % 60) / 10),
        digit_char((a % 60) % 10),
    ]
}

impl DateTime {
    /// Validity: the fraction stays below one second and the offset below
    /// one day.
    pub open spec fn wf(self) -> bool {
        self.milliseconds < 1000 && -1440 < self.offset_minutes < 1440
    }

    /// The fields of the wire object, in order.
    pub open spec fn spec_fields(self) -> Seq<(Seq<char>, JsonV)> {
        seq![
            ("$reql_type$"@, JsonV::Str("TIME"@)),
            ("epoch_time"@, JsonV::Fixed(self.seconds as int, self.milliseconds as int)),
            ("timezone"@, JsonV::Str(spec_timezone_text(self.offset_minutes as int))),
        ]
    }

    /// The datum this time serializes as: the tagged object, carried
    /// verbatim.
    pub open spec fn spec_to_datum(self) -> DatumV {
        DatumV::Value(JsonV::Obj(self.spec_fields()))
    }

    /// Serialize this time to its wire datum.
    pub fn to_datum(&self) -> (r: Datum)
        requires
            self.wf(),
        ensures
            r@ == self.spec_to_datum(),
    {
        let mut fields: Vec<(String, Json)> = Vec::new();
        fields.push((
            <String as StringExecFns>::from_str("$reql_type$"),
            Json::Str(<String as StringExecFns>::from_str("TIME")),
        ));
        fields.push((
            <String as StringExecFns>::from_str("epoch_time"),
            Json::Fixed(self.seconds, self.milliseconds),
        ));
        fields.push((
            <String as StringExecFns>::from_str("timezone"),
            Json::Str(timezone_string(self.offset_minutes)),
        ));
        proof {
            crate::json::lemma_jview_fields_len(fields@);
            crate::json::lemma_jview_fields_index(fields@, 0);
            crate::json::lemma_jview_fields_index(fields@, 1);
            crate::json::lemma_jview_fields_index(fields@, 2);
            assert(crate::json::jview_fields(fields@) =~= self.spec_fields());
        }
        Datum::Value(Json::Obj(fields))
    }
}

/// Format an offset in minutes as `+hh:mm`.
pub fn timezone_string(offset: i16) -> (r: String)
    requires
        -1440 < offset < 1440,
    ensures
        r@ == spec_timezone_text(offset as int),
{
    let mut out = String::new();
    let a: u64 = if offset < 0 {
        push_char(&mut out, '-');
        (-(offset as i32)) as u64
    } else {
        push_char(&mut out, '+');
        offset as u64
    };
    write_digit((a / 60) / 10 % 10, &mut out);
    write_digit((a / 60) % 10, &mut out);
    push_char(&mut out, ':');
    write_digit((a % 60) / 10, &mut out);
    write_digit((a % 60) % 10, &mut out);
    proof {
        assert(out@ =~= spec_timezone_text(offset as int));
    }
    out
}

/// Whether a character is a decimal digit.
pub open spec fn is_digit(c: char) -> bool {
    48 <= c as u32 <= 57
}

/// The value of a decimal digit character.
pub open spec fn digit_value(c: char) -> int {
    c as u32 - 48
}

/// Whether a text is a well-formed `+hh:mm` offset below one day.
pub open spec fn tz_text_ok(tz: Seq<char>) -> bool {
    &&& tz.len() == 6
    &&& (tz[0] == '+' || tz[0] == '-')
    &&& is_digit(tz[1]) && is_digit(tz[2]) && is_digit(tz[4]) && is_digit(tz[5])
    &&& tz[3] == ':'
    &&& digit_value(tz[1]) * 10 + digit_value(tz[2]) < 24
    &&& digit_value(tz[4]) * 10 + digit_value(tz[5]) < 60
}

/// The offset in minutes a well-formed `+hh:mm` text denotes.
pub open spec fn spec_tz_minutes(tz: Seq<char>) -> int {
    let a = (digit_value(tz[1]) * 10 + digit_value(tz[2])) * 60 + digit_value(tz[4]) * 10
        + digit_value(tz[5]);
    if tz[0] == '-' {
        -a
    } else {
        a
    }
}

/// Whether a JSON value is a well-formed wire time object: tagged TIME,
/// with a millisecond-precision (or whole-second) epoch time and a
/// well-formed timezone.
pub open spec fn time_obj_ok(j: JsonV) -> bool {
    &&& j is Obj
    &&& obj_lookup_from(j->Obj_0, "$reql_type$"@, 0) == Option::Some(JsonV::Str("TIME"@))
    &&& match obj_lookup_from(j->Obj_0, "epoch_time"@, 0) {
        Option::Some(JsonV::Fixed(_, m)) => m < 1000,
        Option::Some(JsonV::Int(_)) => true,
        _ => false,
    }
    &&& match obj_lookup_from(j->Obj_0, "timezone"@, 0) {
        Option::Some(JsonV::Str(tz)) => tz_text_ok(tz),
        _ => false,
    }
}

/// The time a well-formed wire time object decodes to.
pub open spec fn spec_parse_datetime(j: JsonV) -> (int, int, int) {
    let epoch = obj_lookup_from(j->Obj_0, "epoch_time"@, 0);
    let tz = obj_lookup_from(j->Obj_0, "timezone"@, 0)->Some_0->Str_0;
    let (secs, millis): (int, int) = match epoch {
        Option::Some(JsonV::Fixed(w, m)) => (w, m),
        Option::Some(JsonV::Int(n)) => (n, 0),
        _ => (0, 0),
    };
    (secs, millis, spec_tz_minutes(tz))
}

/// The digit value of a character, or nothing where it is no digit.
fn digit_of(c: char) -> (r: Option<u64>)
    ensures
        r is Some <==> is_digit(c),
        r matches Option::Some(v) ==> v == digit_value(c),
{
    let code = c as u32;
    if 48 <= code && code <= 57 {
        Option::Some((code - 48) as u64)
    } else {
        Option::None
    }
}

/// Parse a `+hh:mm` offset text into minutes.
fn parse_timezone(tz: &str) -> (r: Option<i16>)
    ensures
        r is Some <==> tz_text_ok(tz@),
        r matches Option::Some(off) ==> off as int == spec_tz_minutes(tz@) && -1440 < off < 1440,
{
    if tz.unicode_len() != 6 {
        return Option::None;
    }
    let sign = tz.get_char(0);
    if sign != '+' && sign != '-' {
        return Option::None;
    }
    if tz.get_char(3) != ':' {
        return Option::None;
    }
    let h1 = match digit_of(tz.get_char(1)) {
        Option::Some(v) => v,
        Option::None => {
            return Option::None;
        },
    };
    let h2 = match digit_of(tz.get_char(2)) {
        Option::Some(v) => v,
        Option::None => {
            return Option::None;
        },
    };
    let m1 = match digit_of(tz.get_char(4)) {
        Option::Some(v) => v,
        Option::None => {
            return Option::None;
        },
    };
    let m2 = match digit_of(tz.get_char(5)) {
        Option::Some(v) => v,
        Option::None => {
            return Option::None;
        },
    };
    let hours = h1 * 10 + h2;
    let minutes = m1 * 10 + m2;
    if hours >= 24 || minutes >= 60 {
        return Option::None;
    }
    let a = (hours * 60 + minutes) as i16;
    if sign == '-' {
        Option::Some(-a)
    } else {
        Option::Some(a)
    }
}

/// Parse a wire time object back into a time; the inverse of
/// [`DateTime::to_datum`] on the carried JSON value.
pub fn parse_datetime(j: &Json) -> (r: Result<DateTime, Error>)
    ensures
        r is Ok <==> time_obj_ok(j@),
        r matches Result::Ok(dt) ==> ({
            let (secs, millis, off) = spec_parse_datetime(j@);
            dt.seconds as int == secs && dt.milliseconds as int == millis
                && dt.offset_minutes as int == off && dt.wf()
        }),
{
    let fields = match j {
        Json::Obj(fields) => fields,
        _ => {
            return Result::Err(
                Error::Driver(Driver::Other("time value is not an object".to_owned())),
            );
        },
    };
    proof {
        assert(j@ == JsonV::Obj(crate::json::jview_fields(fields@)));
    }
    match obj_find(fields, "$reql_type$") {
        Option::Some(k) => {
            let tag_ok = match &fields[k].1 {
                Json::Str(s) => {
                    let time_tag = <String as StringExecFns>::from_str("TIME");
                    *s == time_tag
                },
                _ => false,
            };
            if !tag_ok {
                return Result::Err(
                    Error::Driver(Driver::Other("value is not tagged as a time".to_owned())),
                );
            }
        },
        Option::None => {
            return Result::Err(
                Error::Driver(Driver::Other("value is not tagged as a time".to_owned())),
            );
        },
    }
    let (seconds, milliseconds): (i64, u16) = match obj_find(fields, "epoch_time") {
        Option::Some(k) => {
            match &fields[k].1 {
                Json::Fixed(w, m) => {
                    if *m >= 1000 {
                        return Result::Err(
                            Error::Driver(
                                Driver::Other("epoch time fraction is out of range".to_owned()),
                            ),
                        );
                    }
                    (*w, *m)
                },
                Json::Int(n) => (*n, 0),
                _ => {
                    return Result::Err(
                        Error::Driver(Driver::Other("epoch time is not a number".to_owned())),
                    );
                },
            }
        },
        Option::None => {
            return Result::Err(
                Error::Driver(Driver::Other("time has no epoch time".to_owned())),
            );
        },
    };
    let offset_minutes: i16 = match obj_find(fields, "timezone") {
        Option::Some(k) => {
            match &fields[k].1 {
                Json::Str(s) => {
                    match parse_timezone(s.as_str()) {
                        Option::Some(off) => off,
                        Option::None => {
                            return Result::Err(
                                Error::Driver(
                                    Driver::Other("timezone is not a +hh:mm offset".to_owned()),
                                ),
                            );
                        },
                    }
                },
                _ => {
                    return Result::Err(
                        Error::Driver(Driver::Other("timezone is not a text".to_owned())),
                    );
                },
            }
        },
        Option::None => {
            return Result::Err(Error::Driver(Driver::Other("time has no timezone".to_owned())));
        },
    };
    Result::Ok(DateTime { seconds, milliseconds, offset_minutes })
}

/// A digit character is a digit and denotes its value.
proof fn lemma_digit_char_value(d: int)
    requires
        0 <= d < 10,
    ensures
        is_digit(digit_char(d)),
        digit_value(digit_char(d)) == d,
{
    if d == 0 {
        assert('0' as u32 == 48);
    } else if d == 1 {
        assert('1' as u32 == 49);
    } else if d == 2 {
        assert('2' as u32 == 50);
    } else if d == 3 {
        assert('3' as u32 == 51);
    } else if d == 4 {
        assert('4' as u32 == 52);
    } else if d == 5 {
        assert('5' as u32 == 53);
    } else if d == 6 {
        assert('6' as u32 == 54);
    } else if d == 7 {
        assert('7' as u32 == 55);
    } else if d == 8 {
        assert('8' as u32 == 56);
    } else {
        assert('9' as u32 == 57);
    }
}

/// A well-formed offset renders as a well-formed `+hh:mm` text that
/// denotes the same offset.
pub proof fn lemma_timezone_text_round_trip(off: int)
    requires
        -1440 < off < 1440,
    ensures
        tz_text_ok(spec_timezone_text(off)),
        spec_tz_minutes(spec_timezone_text(off)) == off,
{
    let a = if off < 0 { -off } else { off };
    let hh = a / 60;
    let mm = a % 60;
    assert(0 <= hh < 24);
    assert(0 <= mm < 60);
    lemma_digit_char_value(hh / 10 % 10);
    lemma_digit_char_value(hh % 10);
    lemma_digit_char_value(mm / 10);
    lemma_digit_char_value(mm % 10);
    assert((hh / 10 % 10) * 10 + hh % 10 == hh);
    assert((mm / 10) * 10 + mm % 10 == mm);
    let tz = spec_timezone_text(off);
    assert(tz[0] == '+' || tz[0] == '-');
    if off < 0 {
        assert(tz[0] == '-');
    } else {
        assert(tz[0] != '-') by {
            assert('+' as u32 == 43);
            assert('-' as u32 == 45);
        }
    }
}

/// Round trip: a well-formed time serializes to a well-formed wire time
/// object, and parsing that object gives the same time back.
pub proof fn lemma_time_round_trip(dt: DateTime)
    requires
        dt.wf(),
    ensures
        time_obj_ok(JsonV::Obj(dt.spec_fields())),
        spec_parse_datetime(JsonV::Obj(dt.spec_fields())) == (
            dt.seconds as int,
            dt.milliseconds as int,
            dt.offset_minutes as int,
        ),
{
    let fields = dt.spec_fields();
    reveal_strlit("$reql_type$");
    reveal_strlit("epoch_time");
    reveal_strlit("timezone");
    assert("$reql_type$"@.len() == 11);
    assert("epoch_time"@.len() == 10);
    assert("timezone"@.len() == 8);
    assert("$reql_type$"@ != "epoch_time"@);
    assert("$reql_type$"@ != "timezone"@);
    reveal_with_fuel(obj_lookup_from, 5);
    assert(obj_lookup_from(fields, "$reql_type$"@, 0) == Option::Some(JsonV::Str("TIME"@)));
    assert(obj_lookup_from(fields, "epoch_time"@, 0) == Option::Some(
        JsonV::Fixed(dt.seconds as int, dt.milliseconds as int),
    ));
    assert(obj_lookup_from(fields, "timezone"@, 0) == Option::Some(
        JsonV::Str(spec_timezone_text(dt.offset_minutes as int)),
    ));
    lemma_timezone_text_round_trip(dt.offset_minutes as int);
}

} // verus!
