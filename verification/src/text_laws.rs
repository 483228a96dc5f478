//! What holds of texts, JSON values and instants.
use vstd::prelude::*;

use crate::json;
use crate::json::{Json, JsonTree};
use crate::text;
use crate::timestamp;
use crate::timestamp::Timestamp;

verus! {

// ---- Texts ----

/// Spaces, tabs and line ends are white space; no other ASCII character that prints
/// is.
pub proof fn law_white_space(c: char)
    ensures
        c == ' ' || c == '\t' || c == '\n' || c == '\r' ==> text::white(c),
        0x21 <= c as u32 <= 0x7e ==> !text::white(c),
{
}

/// A text is blank if and only if each of its parts is, and a single character if and
/// only if it is white space.
pub proof fn law_blank_by_parts(a: Seq<char>, b: Seq<char>, c: char)
    ensures
        text::blank(seq![]),
        text::blank(seq![c]) <==> text::white(c),
        text::blank(a + b) <==> text::blank(a) && text::blank(b),
{
    if text::blank(seq![c]) {
        assert(seq![c][0] == c);
    }
    if text::blank(a + b) {
        assert forall|i: int| 0 <= i < a.len() implies text::white(#[trigger] a[i]) by {
            assert((a + b)[i] == a[i]);
        }
        assert forall|i: int| 0 <= i < b.len() implies text::white(#[trigger] b[i]) by {
            assert((a + b)[a.len() + i] == b[i]);
        }
    }
}

/// What is cut off the front.
proof fn cut_off_the_front(s: Seq<char>) -> (a: Seq<char>)
    ensures
        text::blank(a),
        s == a + text::trim_start(s),
        text::trim_start(s).len() > 0 ==> !text::white(text::trim_start(s).first()),
    decreases s.len(),
{
    if s.len() > 0 && text::white(s.first()) {
        let a = cut_off_the_front(s.drop_first());
        assert(s =~= seq![s.first()] + s.drop_first());
        let all = seq![s.first()] + a;
        assert(s =~= all + text::trim_start(s));
        all
    } else {
        seq![]
    }
}

/// What is cut off the back.
proof fn cut_off_the_back(s: Seq<char>) -> (b: Seq<char>)
    ensures
        text::blank(b),
        s == text::trim_end(s) + b,
        text::trim_end(s).len() > 0 ==> !text::white(text::trim_end(s).last()),
    decreases s.len(),
{
    if s.len() > 0 && text::white(s.last()) {
        let b = cut_off_the_back(s.drop_last());
        assert(s =~= s.drop_last().push(s.last()));
        let all = b.push(s.last());
        assert(s =~= text::trim_end(s) + all);
        all
    } else {
        seq![]
    }
}

/// Trimming cuts off white space at both ends, and all of it.
pub proof fn law_trim_cuts_white_space(s: Seq<char>)
    ensures
        exists|a: Seq<char>, b: Seq<char>|
            #![trigger text::blank(a), text::blank(b)]
            text::blank(a) && text::blank(b) && s == a + text::trim(s) + b,
        text::trim(s).len() > 0 ==> !text::white(text::trim(s).first()) && !text::white(
            text::trim(s).last(),
        ),
{
    let a = cut_off_the_front(s);
    let front = text::trim_start(s);
    let b = cut_off_the_back(front);
    assert(s =~= a + text::trim(s) + b);
    assert(text::blank(a) && text::blank(b));
    if text::trim(s).len() > 0 {
        assert(front[0] == text::trim(s)[0]);
    }
}

/// The lines of a text: one that no line feed ends is the last, and a line feed, with
/// or without a carriage return before it, ends a line and belongs to none.
pub proof fn law_lines(line: Seq<char>, rest: Seq<char>)
    requires
        !line.contains('\n'),
    ensures
        text::lines_of(seq![]) == Seq::<Seq<char>>::empty(),
        line.len() > 0 ==> text::lines_of(line) == seq![line],
        line.len() == 0 || line.last() != '\r' ==> text::lines_of(line + seq!['\n'] + rest)
            == seq![line] + text::lines_of(rest),
        text::lines_of(line + seq!['\r', '\n'] + rest) == seq![line] + text::lines_of(rest),
{
    text::lemma_first_line_is_all(line);
    assert(line + seq!['\n'] + rest =~= line.push('\n') + rest);
    text::lemma_lines_split(line, rest);
    let returned = line.push('\r');
    assert(!returned.contains('\n')) by {
        if returned.contains('\n') {
            let i = choose|i: int| 0 <= i < returned.len() && returned[i] == '\n';
            assert(line[i] == '\n');
        }
    }
    assert(line + seq!['\r', '\n'] + rest =~= returned.push('\n') + rest);
    text::lemma_lines_split(returned, rest);
    assert(returned.drop_last() =~= line);
}

/// A part stands in a text if and only if the text is that part with something before
/// and something after it.
pub proof fn law_a_part_stands_in_a_text(s: Seq<char>, part: Seq<char>)
    ensures
        text::holds(s, part) <==> exists|a: Seq<char>, b: Seq<char>| s == #[trigger] ((a + part) + b),
{
    if text::holds(s, part) {
        let i = choose|i: int| 0 <= i <= s.len() && part.is_prefix_of(#[trigger] s.skip(i));
        let a = s.take(i);
        let b = s.skip(i).skip(part.len() as int);
        assert(s =~= (a + part) + b) by {
            assert forall|k: int| 0 <= k < s.len() implies s[k] == ((a + part) + b)[k] by {
                if i <= k < i + part.len() {
                    assert(s[k] == s.skip(i)[k - i]);
                    assert(part[k - i] == s.skip(i).subrange(0, part.len() as int)[k - i]);
                }
            }
        }
    }
    if exists|a: Seq<char>, b: Seq<char>| s == #[trigger] ((a + part) + b) {
        let (a, b) = choose|a: Seq<char>, b: Seq<char>| s == #[trigger] ((a + part) + b);
        let rest = s.skip(a.len() as int);
        assert(part =~= rest.subrange(0, part.len() as int));
        assert(part.is_prefix_of(rest));
    }
}

/// The views of strings are their characters, one for one.
pub proof fn law_text_views(list: Seq<String>, s: String, i: int)
    ensures
        text::views(list).len() == list.len(),
        0 <= i < list.len() ==> text::views(list)[i] == list[i]@,
        text::view_opt(Some(s)) == Some(s@),
        text::view_opt(None) == None::<Seq<char>>,
        text::view_opt_str(None) == None::<Seq<char>>,
{
}

/// The view of an optional string slice is its characters.
pub proof fn law_slice_view(s: &str)
    ensures
        text::view_opt_str(Some(s)) == Some(s@),
{
}

// ---- JSON values ----

/// A member of an object is found by its name: the first of that name, and none where
/// there is none. What is no object has no members.
pub proof fn law_members_are_found_by_name(
    members: Seq<(Seq<char>, JsonTree)>,
    key: Seq<char>,
    i: int,
    other: JsonTree,
)
    ensures
        0 <= i < members.len() && members[i].0 == key && (forall|j: int|
            0 <= j < i ==> (#[trigger] members[j]).0 != key) ==> JsonTree::Object(members).get(key)
            == Some(members[i].1),
        (forall|j: int| 0 <= j < members.len() ==> (#[trigger] members[j]).0 != key)
            ==> JsonTree::Object(members).get(key) is None,
        other !is Object ==> other.get(key) is None,
    decreases members.len(),
{
    if members.len() > 0 {
        let rest = members.drop_first();
        law_members_are_found_by_name(rest, key, i - 1, other);
        assert forall|j: int| 0 <= j < rest.len() implies rest[j] == members[j + 1] by {}
        if forall|j: int| 0 <= j < members.len() ==> (#[trigger] members[j]).0 != key {
            assert(members[0].0 != key);
        }
        if 0 < i < members.len() && (forall|j: int| 0 <= j < i ==> (#[trigger] members[j]).0 != key) {
            assert(members[0].0 != key);
        }
    }
}

/// A value is read as a string, an integer or a truth value if and only if it is one.
pub proof fn law_values_are_read_as_what_they_are(
    v: JsonTree,
    key: Seq<char>,
    s: Seq<char>,
    n: i64,
    b: bool,
)
    ensures
        v.as_str() == Some(s) <==> v == JsonTree::String(s),
        v.as_bool() == Some(b) <==> v == JsonTree::Bool(b),
        v.as_i64() == Some(n) <==> v is Number && v->integer == Some(n),
        v.str_member(key) == Some(s) <==> v.get(key) == Some(JsonTree::String(s)),
{
}

/// A JSON value holds what its parts hold, in order.
pub proof fn law_json_views(v: Json, i: int)
    ensures
        v == Json::Null ==> v@ == JsonTree::Null,
        v matches Json::Bool(b) ==> v@ == JsonTree::Bool(b),
        v matches Json::Number { integer, text } ==> v@ == (JsonTree::Number {
            integer,
            text: text@,
        }),
        v matches Json::String(s) ==> v@ == JsonTree::String(s@),
        v matches Json::Array(items) ==> v@ is Array && v@->Array_0.len() == items@.len() && (0 <= i
            < items@.len() ==> v@->Array_0[i] == items@[i]@),
        v matches Json::Object(members) ==> v@ is Object && v@->Object_0.len() == members@.len()
            && (0 <= i < members@.len() ==> v@->Object_0[i] == (members@[i].0@, members@[i].1@)),
        json::view_opt(Some(v)) == Some(v@),
        json::view_opt(None) == None::<JsonTree>,
        json::view_opt_ref(Some(&v)) == Some(v@),
        json::view_opt_ref(None) == None::<JsonTree>,
{
}

// ---- Instants ----

/// Instants are ordered by their seconds, and within a second by their nanoseconds,
/// however far apart they are.
pub proof fn law_instants_are_ordered(a: Timestamp, b: Timestamp, c: Timestamp)
    ensures
        a.seconds < b.seconds ==> a.before(b) && !b.before(a),
        a.seconds == b.seconds && a.nanos < b.nanos ==> a.before(b) && !b.before(a),
        !a.before(a),
        a.before(b) || b.before(a) || a == b,
        a.before(b) && b.before(c) ==> a.before(c),
{
}

/// A time in UTC is written in at least 25 characters: a date, `T`, a time of day and
/// the offset.
pub proof fn law_utc_times(s: Seq<char>)
    requires
        timestamp::is_utc_time(s),
    ensures
        s.len() >= 25,
        s.skip(s.len() - 6) == "+00:00"@,
        exists|n: int|
            4 <= n <= s.len() - 21 && (#[trigger] s[n]) == '-' && s[n + 3] == '-' && s[n + 6] == 'T'
                && s[n + 9] == ':' && s[n + 12] == ':' && (forall|k: int|
                n < k < n + 15 && k != n + 3 && k != n + 6 && k != n + 9 && k != n + 12 ==> '0'
                    <= #[trigger] s[k] <= '9'),
{
    let n = choose|n: int| #[trigger] timestamp::utc_time_after(s, n);
    assert(s[n] == '-');
}

} // verus!
