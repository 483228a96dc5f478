//! Text as sequences of characters: white space, trimming, lines.
use vstd::prelude::*;

verus! {

/// `String::push`: appends one character to the end of the string.
pub assume_specification[ std::string::String::push ](s: &mut std::string::String, c: char)
    ensures
        final(s)@ == old(s)@.push(c),
;

/// The characters with the Unicode property `White_Space`.
pub open spec fn white(c: char) -> bool {
    let u = c as u32;
    ||| 0x09 <= u <= 0x0d
    ||| u == 0x20
    ||| u == 0x85
    ||| u == 0xa0
    ||| u == 0x1680
    ||| 0x2000 <= u <= 0x200a
    ||| u == 0x2028
    ||| u == 0x2029
    ||| u == 0x202f
    ||| u == 0x205f
    ||| u == 0x3000
}

/// Nothing but white space.
pub open spec fn blank(s: Seq<char>) -> bool {
    forall|i: int| 0 <= i < s.len() ==> white(#[trigger] s[i])
}

/// `s` without its leading white space.
pub open spec fn trim_start(s: Seq<char>) -> Seq<char>
    decreases s.len(),
{
    if s.len() > 0 && white(s.first()) {
        trim_start(s.drop_first())
    } else {
        s
    }
}

/// `s` without its trailing white space.
pub open spec fn trim_end(s: Seq<char>) -> Seq<char>
    decreases s.len(),
{
    if s.len() > 0 && white(s.last()) {
        trim_end(s.drop_last())
    } else {
        s
    }
}

/// `s` without leading and trailing white space.
pub open spec fn trim(s: Seq<char>) -> Seq<char> {
    trim_end(trim_start(s))
}

/// The text view of an optional string.
pub open spec fn view_opt(s: Option<String>) -> Option<Seq<char>> {
    match s {
        Some(s) => Some(s@),
        None => None,
    }
}

/// The text view of an optional string slice.
pub open spec fn view_opt_str(s: Option<&str>) -> Option<Seq<char>> {
    match s {
        Some(s) => Some(s@),
        None => None,
    }
}

/// How many characters stand before the first line feed.
pub open spec fn first_line_len(s: Seq<char>) -> nat
    decreases s.len(),
{
    if s.len() == 0 || s.first() == '\n' {
        0
    } else {
        1 + first_line_len(s.drop_first())
    }
}

/// `s` without the carriage return that a line feed was paired with.
pub open spec fn strip_carriage_return(s: Seq<char>) -> Seq<char> {
    if s.len() > 0 && s.last() == '\r' {
        s.drop_last()
    } else {
        s
    }
}

/// The lines of `s`: what stands before each line feed or carriage return and
/// line feed, then what stands after the last one, if anything does.
pub open spec fn lines_of(s: Seq<char>) -> Seq<Seq<char>>
    decreases s.len(),
{
    let n = first_line_len(s);
    if s.len() == 0 {
        seq![]
    } else if n >= s.len() {
        seq![s]
    } else {
        seq![strip_carriage_return(s.take(n as int))] + lines_of(s.skip(n as int + 1))
    }
}

/// Whether `part` stands somewhere in `s`.
pub open spec fn holds(s: Seq<char>, part: Seq<char>) -> bool {
    exists|i: int| 0 <= i <= s.len() && part.is_prefix_of(#[trigger] s.skip(i))
}

/// Whether `c` has the Unicode property `White_Space`.
pub fn is_white(c: char) -> (r: bool)
    ensures
        r == white(c),
{
    let u: u32 = c as u32;
    (0x09 <= u && u <= 0x0d) || u == 0x20 || u == 0x85 || u == 0xa0 || u == 0x1680 || (0x2000 <= u
        && u <= 0x200a) || u == 0x2028 || u == 0x2029 || u == 0x202f || u == 0x205f || u == 0x3000
}

/// Whether `s` holds nothing but white space.
pub fn is_blank(s: &str) -> (r: bool)
    ensures
        r == blank(s@),
{
    for c in it: s.chars()
        invariant
            it.seq() == s@,
            forall|i: int| 0 <= i < it.index() ==> white(#[trigger] s@[i]),
    {
        if !is_white(c) {
            return false;
        }
    }
    true
}

/// Whether two texts are the same, character by character.
pub fn same(a: &str, b: &str) -> (r: bool)
    ensures
        r == (a@ == b@),
{
    let mut rest = b.chars();
    for c in it: a.chars()
        invariant
            it.seq() == a@,
            vstd::std_specs::iter::IteratorSpec::obeys_prophetic_iter_laws(&rest),
            it.index() <= b@.len(),
            vstd::std_specs::iter::IteratorSpec::remaining(&rest) == b@.skip(it.index()),
            forall|i: int| 0 <= i < it.index() ==> a@[i] == b@[i],
    {
        match rest.next() {
            Some(d) => {
                if c != d {
                    return false;
                }
            },
            None => {
                return false;
            },
        }
    }
    match rest.next() {
        Some(_) => false,
        None => {
            assert(a@ =~= b@);
            true
        },
    }
}

/// The text views of a list of strings.
pub open spec fn views(s: Seq<String>) -> Seq<Seq<char>> {
    s.map_values(|t: String| t@)
}

/// A text without a line feed stands wholly on its first line.
pub proof fn lemma_first_line_is_all(s: Seq<char>)
    requires
        !s.contains('\n'),
    ensures
        first_line_len(s) == s.len(),
    decreases s.len(),
{
    if s.len() > 0 {
        lemma_first_line_is_all(s.drop_first());
    }
}

/// The first line ends at the first line feed.
proof fn lemma_first_line_ends(a: Seq<char>, b: Seq<char>)
    requires
        !a.contains('\n'),
    ensures
        first_line_len(a.push('\n') + b) == a.len(),
    decreases a.len(),
{
    let s = a.push('\n') + b;
    if a.len() > 0 {
        lemma_first_line_ends(a.drop_first(), b);
        assert(s.drop_first() =~= a.drop_first().push('\n') + b);
    }
}

/// A line that is ended by a line feed is the first line, and what follows the
/// line feed holds the others.
pub proof fn lemma_lines_split(a: Seq<char>, b: Seq<char>)
    requires
        !a.contains('\n'),
    ensures
        lines_of(a.push('\n') + b) == seq![strip_carriage_return(a)] + lines_of(b),
{
    let s = a.push('\n') + b;
    lemma_first_line_ends(a, b);
    assert(s.take(a.len() as int) =~= a);
    assert(s.skip(a.len() as int + 1) =~= b);
}

/// The lines of `raw`, without their line endings.
pub fn lines(raw: &str) -> (r: Vec<String>)
    ensures
        views(r@) == lines_of(raw@),
{
    let mut done: Vec<String> = Vec::new();
    let mut line = String::new();
    let mut carriage_return = false;
    assert(line@ + raw@.skip(0) =~= raw@);
    for c in it: raw.chars()
        invariant
            it.seq() == raw@,
            !line@.contains('\n'),
            !carriage_return ==> (line@.len() == 0 || line@.last() != '\r'),
            lines_of(raw@) == views(done@) + lines_of(
                (if carriage_return {
                    line@.push('\r')
                } else {
                    line@
                }) + raw@.skip(it.index()),
            ),
    {
        let ghost before = if carriage_return {
            line@.push('\r')
        } else {
            line@
        };
        let ghost rest = raw@.skip(it.index());
        let ghost after = raw@.skip(it.index() + 1);
        assert(before + rest =~= before.push(c) + after);
        if c == '\n' {
            proof {
                lemma_lines_split(before, after);
                assert(line@.push('\r').drop_last() =~= line@);
            }
            done.push(line);
            line = String::new();
            carriage_return = false;
        } else {
            if carriage_return {
                line.push('\r');
            }
            if c == '\r' {
                carriage_return = true;
            } else {
                carriage_return = false;
                line.push(c);
            }
        }
    }
    if carriage_return {
        line.push('\r');
    }
    if !line.as_str().is_empty() {
        proof {
            lemma_first_line_is_all(line@);
        }
        done.push(line);
    }
    done
}

/// The characters of a text.
pub fn chars_of(s: &str) -> (r: Vec<char>)
    ensures
        r@ == s@,
{
    let mut r: Vec<char> = Vec::new();
    for c in it: s.chars()
        invariant
            it.seq() == s@,
            r@ == s@.take(it.index()),
    {
        r.push(c);
    }
    r
}

/// Whether `part` stands in `s` at `at`.
fn stands_at(s: &Vec<char>, part: &Vec<char>, at: usize) -> (r: bool)
    requires
        at <= s@.len(),
    ensures
        r == part@.is_prefix_of(s@.skip(at as int)),
{
    if part.len() > s.len() - at {
        return false;
    }
    for j in 0..part.len()
        invariant
            at + part.len() <= s.len(),
            forall|k: int| 0 <= k < j ==> part@[k] == s@[at + k],
    {
        if s[at + j] != part[j] {
            assert(s@.skip(at as int)[j as int] != part@[j as int]);
            return false;
        }
    }
    assert(part@ =~= s@.skip(at as int).take(part@.len() as int));
    true
}

/// Whether `part` stands somewhere in `s`.
pub fn is_in(part: &str, s: &str) -> (r: bool)
    ensures
        r == holds(s@, part@),
{
    let all = chars_of(s);
    let wanted = chars_of(part);
    let mut at: usize = 0;
    while at < all.len()
        invariant
            at <= all@.len(),
            all@ == s@,
            wanted@ == part@,
            forall|i: int| 0 <= i < at ==> !wanted@.is_prefix_of(#[trigger] all@.skip(i)),
        decreases all.len() - at,
    {
        if stands_at(&all, &wanted, at) {
            return true;
        }
        at += 1;
    }
    stands_at(&all, &wanted, at)
}

/// Trimming the front of a text leaves the part from its first other character.
proof fn lemma_trim_start_at(s: Seq<char>, i: int)
    requires
        0 <= i <= s.len(),
        forall|j: int| 0 <= j < i ==> white(#[trigger] s[j]),
        i < s.len() ==> !white(s[i]),
    ensures
        trim_start(s) == s.skip(i),
    decreases s.len(),
{
    if i > 0 {
        lemma_trim_start_at(s.drop_first(), i - 1);
    }
}

/// Trimming the back of a text leaves the part up to its last other character.
proof fn lemma_trim_end_at(s: Seq<char>, i: int)
    requires
        0 <= i <= s.len(),
        forall|j: int| i <= j < s.len() ==> white(#[trigger] s[j]),
        i > 0 ==> !white(s[i - 1]),
    ensures
        trim_end(s) == s.take(i),
    decreases s.len(),
{
    if i < s.len() {
        lemma_trim_end_at(s.drop_last(), i);
    }
}

/// The characters without leading and trailing white space, as a string.
pub fn trimmed(s: &Vec<char>) -> (r: String)
    ensures
        r@ == trim(s@),
{
    let mut from: usize = 0;
    while from < s.len() && is_white(s[from])
        invariant
            from <= s.len(),
            forall|j: int| 0 <= j < from ==> white(#[trigger] s@[j]),
        decreases s.len() - from,
    {
        from += 1;
    }
    let ghost front = s@.skip(from as int);
    proof {
        lemma_trim_start_at(s@, from as int);
    }
    let mut to: usize = s.len();
    while to > from && is_white(s[to - 1])
        invariant
            from <= to <= s.len(),
            front == s@.skip(from as int),
            forall|j: int| to - from <= j < front.len() ==> white(#[trigger] front[j]),
        decreases to - from,
    {
        to -= 1;
    }
    proof {
        lemma_trim_end_at(front, to - from);
    }
    let mut r = String::new();
    let mut i: usize = from;
    while i < to
        invariant
            from <= i <= to <= s.len(),
            front == s@.skip(from as int),
            r@ == front.take(i - from),
        decreases to - i,
    {
        r.push(s[i]);
        i += 1;
    }
    r
}

/// What is left after trimming is blank only if it is empty.
pub proof fn lemma_trim_is_tight(s: Seq<char>)
    ensures
        blank(trim(s)) <==> trim(s).len() == 0,
        trim(s).len() <= s.len(),
        forall|c: char| #[trigger] trim(s).contains(c) ==> s.contains(c),
{
    lemma_trim_start_keeps(s);
    lemma_trim_end_keeps(trim_start(s));
}

proof fn lemma_trim_start_keeps(s: Seq<char>)
    ensures
        trim_start(s).len() <= s.len(),
        forall|c: char| #[trigger] trim_start(s).contains(c) ==> s.contains(c),
    decreases s.len(),
{
    if s.len() > 0 && white(s.first()) {
        lemma_trim_start_keeps(s.drop_first());
    }
}

proof fn lemma_trim_end_keeps(s: Seq<char>)
    ensures
        trim_end(s).len() <= s.len(),
        trim_end(s).len() > 0 ==> !white(trim_end(s).last()),
        forall|c: char| #[trigger] trim_end(s).contains(c) ==> s.contains(c),
    decreases s.len(),
{
    if s.len() > 0 && white(s.last()) {
        lemma_trim_end_keeps(s.drop_last());
    }
}

/// A copy of an optional string.
pub fn copy_opt(s: &Option<String>) -> (copy: Option<String>)
    ensures
        copy == *s,
{
    match s {
        Some(s) => Some(s.clone()),
        None => None,
    }
}

} // verus!
