//! A JSON document tree and its text form.
//!
//! The shadow mirror is JSON on the wire; this module holds the document
//! values the mirror is made of and a serializer whose output is pinned down
//! character by character by `json_text_of`. Object members keep their
//! insertion order. Strings are escaped as JSON asks: quote, backslash and
//! control characters are written in escape form, everything else literally.

use vstd::prelude::*;
use vstd::string::StringExecFns;
use vstd::string::StrSliceExecFns;

verus! {

broadcast use vstd::std_specs::vec::axiom_vec_index_decreases;

/// A JSON document value. Numbers are signed integers: that is what the
/// shadow state entries of this layer carry.
#[derive(Debug, PartialEq)]
pub enum JsonValue {
    Null,
    Bool(bool),
    Int(i64),
    Str(String),
    Arr(Vec<JsonValue>),
    Obj(Vec<(String, JsonValue)>),
}

/// Mathematical model of a JSON value.
pub enum JsonModel {
    Null,
    Bool(bool),
    Int(int),
    Str(Seq<char>),
    Arr(Seq<JsonModel>),
    Obj(Seq<(Seq<char>, JsonModel)>),
}

impl DeepView for JsonValue {
    type V = JsonModel;

    open spec fn deep_view(&self) -> JsonModel
        decreases self,
    {
        match self {
            JsonValue::Null => JsonModel::Null,
            JsonValue::Bool(b) => JsonModel::Bool(*b),
            JsonValue::Int(i) => JsonModel::Int(*i as int),
            JsonValue::Str(s) => JsonModel::Str(s@),
            JsonValue::Arr(items) => JsonModel::Arr(deep_view_items(items@)),
            JsonValue::Obj(entries) => JsonModel::Obj(deep_view_entries(entries@)),
        }
    }
}

/// The models of a sequence of values, in order.
pub open spec fn deep_view_items(s: Seq<JsonValue>) -> Seq<JsonModel>
    decreases s,
{
    if s.len() == 0 {
        Seq::empty()
    } else {
        deep_view_items(s.drop_last()).push(s.last().deep_view())
    }
}

/// The models of a sequence of object entries, in order.
pub open spec fn deep_view_entries(s: Seq<(String, JsonValue)>) -> Seq<(Seq<char>, JsonModel)>
    decreases s,
{
    if s.len() == 0 {
        Seq::empty()
    } else {
        deep_view_entries(s.drop_last()).push((s.last().0@, s.last().1.deep_view()))
    }
}

/// `deep_view_items` is the pointwise model of its argument.
pub proof fn lemma_deep_view_items(s: Seq<JsonValue>)
    ensures
        deep_view_items(s).len() == s.len(),
        forall|i: int| 0 <= i < s.len() ==> #[trigger] deep_view_items(s)[i] == s[i].deep_view(),
    decreases s.len(),
{
    if s.len() > 0 {
        lemma_deep_view_items(s.drop_last());
        assert(deep_view_items(s) == deep_view_items(s.drop_last()).push(s.last().deep_view()));
        assert(deep_view_items(s).len() == s.len());
        assert forall|i: int|
            0 <= i < s.len() implies #[trigger] deep_view_items(s)[i] == s[i].deep_view() by {
            if i < s.len() - 1 {
                assert(s.drop_last()[i] == s[i]);
                assert(deep_view_items(s.drop_last())[i] == s.drop_last()[i].deep_view());
            } else {
                assert(s.last() == s[i]);
            }
        }
    }
}

/// `deep_view_entries` is the pointwise model of its argument.
pub proof fn lemma_deep_view_entries(s: Seq<(String, JsonValue)>)
    ensures
        deep_view_entries(s).len() == s.len(),
        forall|i: int|
            0 <= i < s.len() ==> #[trigger] deep_view_entries(s)[i] == (s[i].0@, s[i].1.deep_view()),
    decreases s.len(),
{
    if s.len() > 0 {
        lemma_deep_view_entries(s.drop_last());
        assert(deep_view_entries(s) == deep_view_entries(s.drop_last()).push(
            (s.last().0@, s.last().1.deep_view()),
        ));
        assert(deep_view_entries(s).len() == s.len());
        assert forall|i: int|
            0 <= i < s.len() implies #[trigger] deep_view_entries(s)[i] == (
            s[i].0@,
            s[i].1.deep_view(),
            ) by {
            if i < s.len() - 1 {
                assert(s.drop_last()[i] == s[i]);
                assert(deep_view_entries(s.drop_last())[i] == (
                    s.drop_last()[i].0@,
                    s.drop_last()[i].1.deep_view(),
                ));
            } else {
                assert(s.last() == s[i]);
            }
        }
    }
}

pub open spec fn spec_digit_char(d: int) -> char {
    if d == 0 {
        '0'
    } else if d == 1 {
        '1'
    } else if d == 2 {
        '2'
    } else if d == 3 {
        '3'
    } else if d == 4 {
        '4'
    } else if d == 5 {
        '5'
    } else if d == 6 {
        '6'
    } else if d == 7 {
        '7'
    } else if d == 8 {
        '8'
    } else if d == 9 {
        '9'
    } else if d == 10 {
        'a'
    } else if d == 11 {
        'b'
    } else if d == 12 {
        'c'
    } else if d == 13 {
        'd'
    } else if d == 14 {
        'e'
    } else {
        'f'
    }
}

/// The decimal digits of `n`, most significant first.
pub open spec fn spec_dec_digits(n: nat) -> Seq<char>
    decreases n,
{
    if n < 10 {
        seq![spec_digit_char(n as int)]
    } else {
        spec_dec_digits(n / 10) + seq![spec_digit_char((n % 10) as int)]
    }
}

/// The decimal text of the integer `i`, with a leading minus when negative.
pub open spec fn spec_int_text(i: int) -> Seq<char> {
    if i < 0 {
        seq!['-'] + spec_dec_digits((-i) as nat)
    } else {
        spec_dec_digits(i as nat)
    }
}

/// The escape form of one character inside a JSON string.
pub open spec fn spec_escape_char(c: char) -> Seq<char> {
    if c == '"' {
        seq!['\\', '"']
    } else if c == '\\' {
        seq!['\\', '\\']
    } else if c == '\n' {
        seq!['\\', 'n']
    } else if c == '\r' {
        seq!['\\', 'r']
    } else if c == '\t' {
        seq!['\\', 't']
    } else if (c as u32) < 32 {
        seq!['\\', 'u', '0', '0', spec_digit_char(c as u32 as int / 16), spec_digit_char(
            c as u32 as int % 16,
        )]
    } else {
        seq![c]
    }
}

/// The escaped body of a JSON string.
pub open spec fn spec_escaped(s: Seq<char>) -> Seq<char>
    decreases s.len(),
{
    if s.len() == 0 {
        Seq::empty()
    } else {
        spec_escaped(s.drop_last()) + spec_escape_char(s.last())
    }
}

/// The JSON text of a value: what the serializer writes, character by
/// character.
pub open spec fn json_text_of(v: JsonModel) -> Seq<char>
    decreases v, 0int,
{
    match v {
        JsonModel::Null => "null"@,
        JsonModel::Bool(b) => if b {
            "true"@
        } else {
            "false"@
        },
        JsonModel::Int(i) => spec_int_text(i),
        JsonModel::Str(s) => seq!['"'] + spec_escaped(s) + seq!['"'],
        JsonModel::Arr(items) => seq!['['] + spec_arr_body(items) + seq![']'],
        JsonModel::Obj(entries) => seq!['{'] + spec_obj_body(entries) + seq!['}'],
    }
}

/// The comma-separated member list of an array.
pub open spec fn spec_arr_body(items: Seq<JsonModel>) -> Seq<char>
    decreases items, 0int,
{
    if items.len() == 0 {
        Seq::empty()
    } else if items.len() == 1 {
        json_text_of(items.last())
    } else {
        spec_arr_body(items.drop_last()) + seq![','] + json_text_of(items.last())
    }
}

/// The text of one object member: quoted escaped key, colon, value.
pub open spec fn spec_member_text(key: Seq<char>, v: JsonModel) -> Seq<char>
    decreases v, 1int,
{
    seq!['"'] + spec_escaped(key) + seq!['"', ':'] + json_text_of(v)
}

/// The comma-separated member list of an object, in entry order.
pub open spec fn spec_obj_body(entries: Seq<(Seq<char>, JsonModel)>) -> Seq<char>
    decreases entries, 0int,
{
    if entries.len() == 0 {
        Seq::empty()
    } else if entries.len() == 1 {
        spec_member_text(entries.last().0, entries.last().1)
    } else {
        spec_obj_body(entries.drop_last()) + seq![','] + spec_member_text(
            entries.last().0,
            entries.last().1,
        )
    }
}

/// Relies on String::push: appends exactly the one character.
#[verifier::external_body]
fn push_char(out: &mut String, c: char)
    ensures
        final(out)@ == old(out)@ + seq![c],
{
    out.push(c);
}

fn digit_str(d: u64) -> (r: &'static str)
    requires
        d < 16,
    ensures
        r@ == seq![spec_digit_char(d as int)],
{
    proof {
        reveal_strlit("0");
        reveal_strlit("1");
        reveal_strlit("2");
        reveal_strlit("3");
        reveal_strlit("4");
        reveal_strlit("5");
        reveal_strlit("6");
        reveal_strlit("7");
        reveal_strlit("8");
        reveal_strlit("9");
        reveal_strlit("a");
        reveal_strlit("b");
        reveal_strlit("c");
        reveal_strlit("d");
        reveal_strlit("e");
        reveal_strlit("f");
    }
    let r: &'static str = if d == 0 {
        "0"
    } else if d == 1 {
        "1"
    } else if d == 2 {
        "2"
    } else if d == 3 {
        "3"
    } else if d == 4 {
        "4"
    } else if d == 5 {
        "5"
    } else if d == 6 {
        "6"
    } else if d == 7 {
        "7"
    } else if d == 8 {
        "8"
    } else if d == 9 {
        "9"
    } else if d == 10 {
        "a"
    } else if d == 11 {
        "b"
    } else if d == 12 {
        "c"
    } else if d == 13 {
        "d"
    } else if d == 14 {
        "e"
    } else {
        "f"
    };
    assert(r@ =~= seq![spec_digit_char(d as int)]);
    r
}

fn push_u64_dec(out: &mut String, n: u64)
    ensures
        final(out)@ == old(out)@ + spec_dec_digits(n as nat),
    decreases n,
{
    if n < 10 {
        out.append(digit_str(n));
    } else {
        push_u64_dec(out, n / 10);
        out.append(digit_str(n % 10));
        assert(out@ == old(out)@ + (spec_dec_digits((n / 10) as nat) + seq![
            spec_digit_char((n % 10) as int),
        ]));
    }
}

fn push_i64_dec(out: &mut String, i: i64)
    ensures
        final(out)@ == old(out)@ + spec_int_text(i as int),
{
    if i < 0 {
        proof {
            reveal_strlit("-");
        }
        out.append("-");
        assert(("-")@ =~= seq!['-']);
        let magnitude: u64 = ((-(i + 1)) as u64) + 1;
        assert(magnitude as nat == -(i as int) as nat);
        push_u64_dec(out, magnitude);
        assert(out@ == old(out)@ + (seq!['-'] + spec_dec_digits((-(i as int)) as nat)));
    } else {
        push_u64_dec(out, i as u64);
    }
}

fn push_escaped_char(out: &mut String, c: char)
    ensures
        final(out)@ == old(out)@ + spec_escape_char(c),
{
    if c == '"' {
        proof {
            reveal_strlit("\\\"");
        }
        assert(("\\\"")@ =~= seq!['\\', '"']);
        out.append("\\\"");
    } else if c == '\\' {
        proof {
            reveal_strlit("\\\\");
        }
        assert(("\\\\")@ =~= seq!['\\', '\\']);
        out.append("\\\\");
    } else if c == '\n' {
        proof {
            reveal_strlit("\\n");
        }
        assert(("\\n")@ =~= seq!['\\', 'n']);
        out.append("\\n");
    } else if c == '\r' {
        proof {
            reveal_strlit("\\r");
        }
        assert(("\\r")@ =~= seq!['\\', 'r']);
        out.append("\\r");
    } else if c == '\t' {
        proof {
            reveal_strlit("\\t");
        }
        assert(("\\t")@ =~= seq!['\\', 't']);
        out.append("\\t");
    } else if (c as u32) < 32 {
        proof {
            reveal_strlit("\\u00");
        }
        assert(("\\u00")@ =~= seq!['\\', 'u', '0', '0']);
        out.append("\\u00");
        let code: u32 = c as u32;
        out.append(digit_str((code / 16) as u64));
        out.append(digit_str((code % 16) as u64));
        assert(out@ =~= old(out)@ + spec_escape_char(c));
    } else {
        push_char(out, c);
    }
}

fn push_escaped(out: &mut String, s: &str)
    ensures
        final(out)@ == old(out)@ + spec_escaped(s@),
{
    let n = s.unicode_len();
    let mut i: usize = 0;
    while i < n
        invariant
            i <= n,
            n == s@.len(),
            out@ == old(out)@ + spec_escaped(s@.take(i as int)),
        decreases n - i,
    {
        let c = s.get_char(i);
        push_escaped_char(out, c);
        proof {
            let pre = s@.take(i as int);
            let post = s@.take(i + 1 as int);
            assert(post.drop_last() =~= pre);
            assert(post.last() == c);
            assert(spec_escaped(post) == spec_escaped(pre) + spec_escape_char(c));
        }
        i = i + 1;
    }
    assert(s@.take(n as int) =~= s@);
}

/// Write the JSON text of `v` onto the end of `out`.
#[verifier::loop_isolation(false)]
fn push_json_text(out: &mut String, v: &JsonValue)
    ensures
        final(out)@ == old(out)@ + json_text_of(v.deep_view()),
    decreases v, 0int,
{
    match v {
        JsonValue::Null => {
            out.append("null");
        },
        JsonValue::Bool(b) => {
            if *b {
                out.append("true");
            } else {
                out.append("false");
            }
        },
        JsonValue::Int(i) => {
            push_i64_dec(out, *i);
        },
        JsonValue::Str(s) => {
            push_char(out, '"');
            push_escaped(out, s.as_str());
            push_char(out, '"');
            assert(out@ =~= old(out)@ + json_text_of(v.deep_view()));
        },
        JsonValue::Arr(items) => {
            let ghost model: Seq<JsonModel> = deep_view_items(items@);
            proof {
                lemma_deep_view_items(items@);
            }
            push_char(out, '[');
            let mut i: usize = 0;
            while i < items.len()
                invariant
                    i <= items.len(),
                    model == deep_view_items(items@),
                    model.len() == items@.len(),
                    forall|k: int|
                        0 <= k < items@.len() ==> model[k] == #[trigger] items@[k].deep_view(),
                    out@ == old(out)@ + seq!['['] + spec_arr_body(model.take(i as int)),
                decreases items.len() - i,
            {
                if i > 0 {
                    push_char(out, ',');
                }
                proof {
                    assert(*items == v->Arr_0);
                    assert(decreases_to!(*v => v->Arr_0));
                    assert(decreases_to!(*items => items@[i as int]));
                }
                push_json_text(out, &items[i]);
                proof {
                    let pre = model.take(i as int);
                    let post = model.take(i + 1 as int);
                    assert(post.drop_last() =~= pre);
                    assert(post.last() == model[i as int]);
                    assert(out@ =~= old(out)@ + seq!['['] + spec_arr_body(post));
                }
                i = i + 1;
            }
            push_char(out, ']');
            proof {
                assert(model.take(items@.len() as int) =~= model);
                assert(out@ =~= old(out)@ + json_text_of(v.deep_view()));
            }
        },
        JsonValue::Obj(entries) => {
            proof {
                assert(*entries == v->Obj_0);
                assert(decreases_to!(*v => v->Obj_0));
            }
            push_obj_text(out, entries);
            assert(out@ =~= old(out)@ + json_text_of(v.deep_view()));
        },
    }
}

/// Write the JSON text of the object with members `entries` onto the end of
/// `out`.
#[verifier::loop_isolation(false)]
fn push_obj_text(out: &mut String, entries: &Vec<(String, JsonValue)>)
    ensures
        final(out)@ == old(out)@ + json_text_of(JsonModel::Obj(deep_view_entries(entries@))),
    decreases *entries, 1int,
{
    let ghost model: Seq<(Seq<char>, JsonModel)> = deep_view_entries(entries@);
    proof {
        lemma_deep_view_entries(entries@);
    }
    push_char(out, '{');
    let mut i: usize = 0;
    while i < entries.len()
        invariant
            i <= entries.len(),
            model == deep_view_entries(entries@),
            model.len() == entries@.len(),
            forall|k: int|
                0 <= k < entries@.len() ==> model[k] == (
                #[trigger] entries@[k].0@,
                entries@[k].1.deep_view(),
                ),
            out@ == old(out)@ + seq!['{'] + spec_obj_body(model.take(i as int)),
        decreases entries.len() - i,
    {
        if i > 0 {
            push_char(out, ',');
        }
        push_char(out, '"');
        push_escaped(out, entries[i].0.as_str());
        push_char(out, '"');
        push_char(out, ':');
        proof {
            assert(decreases_to!(*entries => entries@[i as int]));
            assert(decreases_to!(entries@[i as int] => entries@[i as int].1));
        }
        push_json_text(out, &entries[i].1);
        proof {
            let pre = model.take(i as int);
            let post = model.take(i + 1 as int);
            assert(post.drop_last() =~= pre);
            assert(post.last() == model[i as int]);
            assert(model[i as int] == (entries@[i as int].0@, entries@[i as int].1.deep_view()));
            assert(spec_member_text(model[i as int].0, model[i as int].1) =~= seq!['"']
                + spec_escaped(entries@[i as int].0@) + seq!['"', ':'] + json_text_of(
                entries@[i as int].1.deep_view(),
            ));
            assert(out@ =~= old(out)@ + seq!['{'] + spec_obj_body(post));
        }
        i = i + 1;
    }
    push_char(out, '}');
    proof {
        assert(model.take(entries@.len() as int) =~= model);
        assert(out@ =~= old(out)@ + json_text_of(JsonModel::Obj(model)));
    }
}

/// The JSON text of the object with members `entries`, without an
/// enclosing value.
pub fn obj_json_text(entries: &Vec<(String, JsonValue)>) -> (r: String)
    ensures
        r@ == json_text_of(JsonModel::Obj(deep_view_entries(entries@))),
{
    let mut out = String::new();
    push_obj_text(&mut out, entries);
    out
}

/// The JSON text of `v`.
pub fn to_json_text(v: &JsonValue) -> (r: String)
    ensures
        r@ == json_text_of(v.deep_view()),
{
    let mut out = String::new();
    push_json_text(&mut out, v);
    out
}

} // verus!
