//! Text building blocks: decimal numerals, joining, trimming and line splitting.

use vstd::prelude::*;

verus! {

/// What an optional string holds.
pub open spec fn option_text(o: Option<String>) -> Option<Seq<char>> {
    match o {
        Some(s) => Some(s@),
        None => None,
    }
}

/// What an optional string slice holds.
pub open spec fn option_str_text(o: Option<&str>) -> Option<Seq<char>> {
    match o {
        Some(s) => Some(s@),
        None => None,
    }
}

/// What a message or an error message holds.
pub open spec fn result_text(r: Result<String, String>) -> Result<Seq<char>, Seq<char>> {
    match r {
        Ok(s) => Ok(s@),
        Err(e) => Err(e@),
    }
}

/// The character that writes the digit `d`.
pub open spec fn digit_char(d: nat) -> char
    recommends
        d < 10,
{
    if d == 0 {
        '0'
    } else if d == 1 {
        '1'
    } else if d == 2 {
        '2'
    } else if d == 3 {
        '3'
    } else if d == 4 {
        '4'
    } else if d == 5 {
        '5'
    } else if d == 6 {
        '6'
    } else if d == 7 {
        '7'
    } else if d == 8 {
        '8'
    } else {
        '9'
    }
}

/// The decimal numeral of `n`, without sign or leading zeros.
pub open spec fn decimal(n: nat) -> Seq<char>
    decreases n,
{
    if n < 10 {
        seq![digit_char(n)]
    } else {
        decimal(n / 10).push(digit_char(n % 10))
    }
}

/// A numeral has a digit, and that of a number from ten on has two.
proof fn lemma_decimal_len(n: nat)
    ensures
        decimal(n).len() >= 1,
        n >= 10 ==> decimal(n).len() >= 2,
    decreases n,
{
    if n >= 10 {
        lemma_decimal_len(n / 10);
    }
}

/// Two numbers with the same numeral are the same number.
pub proof fn lemma_decimal_is_injective(a: nat, b: nat)
    requires
        decimal(a) == decimal(b),
    ensures
        a == b,
    decreases a,
{
    lemma_decimal_len(a);
    lemma_decimal_len(b);
    if a >= 10 && b >= 10 {
        assert(decimal(a).drop_last() =~= decimal(a / 10));
        assert(decimal(b).drop_last() =~= decimal(b / 10));
        assert(decimal(a).last() == digit_char(a % 10));
        assert(decimal(b).last() == digit_char(b % 10));
        lemma_decimal_is_injective(a / 10, b / 10);
    } else if a < 10 && b < 10 {
        assert(decimal(a)[0] == digit_char(a));
        assert(decimal(b)[0] == digit_char(b));
    }
}

/// One decimal digit as a string slice.
fn digit_str(d: u16) -> (s: &'static str)
    requires
        d < 10,
    ensures
        s@ == seq![digit_char(d as nat)],
{
    proof {
        reveal_strlit("0");
        reveal_strlit("1");
        reveal_strlit("2");
        reveal_strlit("3");
        reveal_strlit("4");
        reveal_strlit("5");
        reveal_strlit("6");
        reveal_strlit("7");
        reveal_strlit("8");
        reveal_strlit("9");
    }
    let s = if d == 0 {
        "0"
    } else if d == 1 {
        "1"
    } else if d == 2 {
        "2"
    } else if d == 3 {
        "3"
    } else if d == 4 {
        "4"
    } else if d == 5 {
        "5"
    } else if d == 6 {
        "6"
    } else if d == 7 {
        "7"
    } else if d == 8 {
        "8"
    } else {
        "9"
    };
    assert(s@ =~= seq![digit_char(d as nat)]);
    s
}

/// Writes `n` as a decimal numeral.
pub fn decimal_string(n: u16) -> (s: String)
    ensures
        s@ == decimal(n as nat),
    decreases n,
{
    if n < 10 {
        String::from_str(digit_str(n))
    } else {
        let mut s = decimal_string(n / 10);
        s.append(digit_str(n % 10));
        assert(s@ =~= decimal(n as nat));
        s
    }
}

/// Whether `c` is white space to `char::is_whitespace`, that is, whether it has
/// the Unicode property `White_Space`.
pub uninterp spec fn is_whitespace(c: char) -> bool;

/// `s` without the white space it starts with.
pub open spec fn trimmed_start(s: Seq<char>) -> Seq<char>
    decreases s.len(),
{
    if s.len() > 0 && is_whitespace(s.first()) {
        trimmed_start(s.drop_first())
    } else {
        s
    }
}

/// `s` without the white space it ends with.
pub open spec fn trimmed_end(s: Seq<char>) -> Seq<char>
    decreases s.len(),
{
    if s.len() > 0 && is_whitespace(s.last()) {
        trimmed_end(s.drop_last())
    } else {
        s
    }
}

/// `s` without the white space at either end.
pub open spec fn trimmed(s: Seq<char>) -> Seq<char> {
    trimmed_end(trimmed_start(s))
}

/// Whether `s` holds nothing but white space.
pub open spec fn is_blank(s: Seq<char>) -> bool {
    trimmed(s).len() == 0
}

/// What is left of `s` without its leading white space does not start with
/// white space, and is the end of `s`.
proof fn lemma_trimmed_start(s: Seq<char>)
    ensures
        trimmed_start(s).len() <= s.len(),
        trimmed_start(s) == s.subrange(s.len() - trimmed_start(s).len(), s.len() as int),
        trimmed_start(s).len() > 0 ==> !is_whitespace(trimmed_start(s).first()),
    decreases s.len(),
{
    if s.len() > 0 && is_whitespace(s.first()) {
        let rest = s.drop_first();
        lemma_trimmed_start(rest);
        let kept = trimmed_start(rest);
        assert(kept =~= s.subrange(s.len() - kept.len(), s.len() as int));
    } else {
        assert(s =~= s.subrange(0, s.len() as int));
    }
}

/// What is left of `s` without its trailing white space does not end with
/// white space, and is the start of `s`.
proof fn lemma_trimmed_end(s: Seq<char>)
    ensures
        trimmed_end(s).len() <= s.len(),
        trimmed_end(s) == s.subrange(0, trimmed_end(s).len() as int),
        trimmed_end(s).len() > 0 ==> !is_whitespace(trimmed_end(s).last()),
    decreases s.len(),
{
    if s.len() > 0 && is_whitespace(s.last()) {
        let rest = s.drop_last();
        lemma_trimmed_end(rest);
        let kept = trimmed_end(rest);
        assert(kept =~= s.subrange(0, kept.len() as int));
    } else {
        assert(s =~= s.subrange(0, s.len() as int));
    }
}

/// A trimmed text is no longer than the text it was made from and has white
/// space at neither end, and trimming it again changes nothing.
pub proof fn lemma_trimmed(s: Seq<char>)
    ensures
        trimmed(s).len() <= s.len(),
        trimmed(s).len() > 0 ==> !is_whitespace(trimmed(s).first()) && !is_whitespace(
            trimmed(s).last(),
        ),
        trimmed(trimmed(s)) == trimmed(s),
{
    let inner = trimmed_start(s);
    lemma_trimmed_start(s);
    lemma_trimmed_end(inner);
    let t = trimmed(s);
    if t.len() > 0 {
        assert(t.first() == inner.first());
    }
}

/// `char::is_whitespace`. Trusted: the answer depends on the character alone.
#[verifier::external_body]
fn is_whitespace_char(c: char) -> (b: bool)
    ensures
        b == is_whitespace(c),
{
    c.is_whitespace()
}

/// The part of `text` that is left without the white space at either end.
pub fn trim(text: &str) -> (kept: &str)
    ensures
        kept@ == trimmed(text@),
{
    let n = text.unicode_len();
    let mut from: usize = 0;
    assert(text@.subrange(0, n as int) =~= text@);
    while from < n && is_whitespace_char(text.get_char(from))
        invariant
            from <= n,
            n == text@.len(),
            trimmed_start(text@) == trimmed_start(text@.subrange(from as int, n as int)),
        decreases n - from,
    {
        assert(text@.subrange(from as int, n as int).drop_first() =~= text@.subrange(
            from as int + 1,
            n as int,
        ));
        from = from + 1;
    }
    let ghost inner = text@.subrange(from as int, n as int);
    assert(trimmed_start(text@) == inner);
    let mut to: usize = n;
    while to > from && is_whitespace_char(text.get_char(to - 1))
        invariant
            from <= to <= n,
            n == text@.len(),
            inner == text@.subrange(from as int, n as int),
            trimmed_end(inner) == trimmed_end(text@.subrange(from as int, to as int)),
        decreases to,
    {
        assert(text@.subrange(from as int, to as int).drop_last() =~= text@.subrange(
            from as int,
            to as int - 1,
        ));
        to = to - 1;
    }
    text.substring_char(from, to)
}

/// Where the first line feed of `s` stands, or the length of `s` if it has none.
pub open spec fn first_line_feed(s: Seq<char>) -> int
    decreases s.len(),
{
    if s.len() == 0 || s.first() == '\n' {
        0
    } else {
        1 + first_line_feed(s.drop_first())
    }
}

/// A line as it stood before its line feed, without the carriage return that
/// may end it.
pub open spec fn without_carriage_return(line: Seq<char>) -> Seq<char> {
    if line.len() > 0 && line.last() == '\r' {
        line.drop_last()
    } else {
        line
    }
}

/// The lines of `s`. A line ends with a line feed, or with a carriage return
/// and a line feed; neither belongs to the line. What follows the last line
/// feed is a line of its own unless it is empty, and keeps a carriage return
/// at its end.
pub open spec fn lines_of(s: Seq<char>) -> Seq<Seq<char>>
    decreases s.len(),
{
    let n = first_line_feed(s);
    if s.len() == 0 {
        Seq::empty()
    } else if 0 <= n < s.len() {
        seq![without_carriage_return(s.subrange(0, n))] + lines_of(s.subrange(n + 1, s.len() as int))
    } else {
        seq![s]
    }
}

/// `str::lines`, collected. Trusted: the lines come in order and are those of
/// `lines_of`: split after each line feed, the line feed and a carriage return
/// directly before it left out, the rest after the last line feed kept as it is
/// when it is not empty.
#[verifier::external_body]
pub(crate) fn split_lines(text: &str) -> (lines: Vec<String>)
    ensures
        lines.deep_view() == lines_of(text@),
{
    text.lines().map(|line| line.to_string()).collect()
}

/// The items of `parts` from `from` on, with `separator` between neighbours.
pub open spec fn joined_from(parts: Seq<Seq<char>>, from: int, separator: Seq<char>) -> Seq<char>
    decreases parts.len() - from,
{
    if from < 0 || from >= parts.len() {
        Seq::empty()
    } else if from + 1 == parts.len() {
        parts[from]
    } else {
        parts[from] + separator + joined_from(parts, from + 1, separator)
    }
}

/// The items of `parts` with `separator` between neighbours.
pub open spec fn joined(parts: Seq<Seq<char>>, separator: Seq<char>) -> Seq<char> {
    joined_from(parts, 0, separator)
}

/// Joining from `from + skipped` on is joining what follows `from`, from
/// `skipped` on.
pub proof fn lemma_joined_suffix(parts: Seq<Seq<char>>, from: int, skipped: int, separator: Seq<char>)
    requires
        0 <= from,
        0 <= skipped,
        from + skipped <= parts.len(),
    ensures
        joined_from(parts, from + skipped, separator) == joined_from(
            parts.subrange(from, parts.len() as int),
            skipped,
            separator,
        ),
    decreases parts.len() - from - skipped,
{
    if from + skipped < parts.len() {
        lemma_joined_suffix(parts, from, skipped + 1, separator);
    }
}

/// `s` without the line feed that may end it.
pub open spec fn without_final_line_feed(s: Seq<char>) -> Seq<char> {
    if s.len() > 0 && s.last() == '\n' {
        s.drop_last()
    } else {
        s
    }
}

/// `first_line_feed` stands at the first line feed, or at the end.
proof fn lemma_first_line_feed(s: Seq<char>)
    ensures
        0 <= first_line_feed(s) <= s.len(),
        forall|i: int| 0 <= i < first_line_feed(s) ==> s[i] != '\n',
        first_line_feed(s) < s.len() ==> s[first_line_feed(s)] == '\n',
    decreases s.len(),
{
    if s.len() > 0 && s.first() != '\n' {
        let rest = s.drop_first();
        lemma_first_line_feed(rest);
        assert forall|i: int| 0 <= i < first_line_feed(s) implies s[i] != '\n' by {
            if i > 0 {
                assert(s[i] == rest[i - 1]);
            }
        }
        if first_line_feed(s) < s.len() {
            assert(s[first_line_feed(s)] == rest[first_line_feed(rest)]);
        }
    }
}

/// A text that is not empty has a line, and an empty text has none.
proof fn lemma_lines_of_text(s: Seq<char>)
    ensures
        s.len() > 0 ==> lines_of(s).len() > 0,
        s.len() == 0 ==> lines_of(s).len() == 0,
{
}

/// Joining a first item and a rest.
proof fn lemma_joined_cons(head: Seq<char>, rest: Seq<Seq<char>>, separator: Seq<char>)
    ensures
        joined(seq![head] + rest, separator) == if rest.len() == 0 {
            head
        } else {
            head + separator + joined(rest, separator)
        },
{
    let parts = seq![head] + rest;
    assert(parts[0] == head);
    if rest.len() > 0 {
        lemma_joined_suffix(parts, 1, 0, separator);
        assert(parts.subrange(1, parts.len() as int) =~= rest);
    }
}

/// The lines of a text without carriage returns, joined by line feeds, are the
/// text again, but for the line feed that may end it.
pub proof fn lemma_lines_rejoin(s: Seq<char>)
    requires
        forall|i: int| 0 <= i < s.len() ==> s[i] != '\r',
    ensures
        joined(lines_of(s), "\n"@) == without_final_line_feed(s),
    decreases s.len(),
{
    reveal_strlit("\n");
    let feed = "\n"@;
    assert(feed =~= seq!['\n']);
    lemma_first_line_feed(s);
    let n = first_line_feed(s);
    if s.len() == 0 {
        assert(joined(lines_of(s), feed) =~= s);
    } else if n < s.len() {
        let head = s.subrange(0, n);
        let rest = s.subrange(n + 1, s.len() as int);
        assert(without_carriage_return(head) == head);
        assert forall|i: int| 0 <= i < rest.len() implies rest[i] != '\r' by {
            assert(rest[i] == s[n + 1 + i]);
        }
        lemma_lines_rejoin(rest);
        lemma_lines_of_text(rest);
        lemma_joined_cons(head, lines_of(rest), feed);
        if rest.len() == 0 {
            assert(head =~= s.drop_last());
        } else {
            assert(s.last() == rest.last());
            assert(s =~= head + feed + rest);
            if rest.last() == '\n' {
                assert(head + feed + rest.drop_last() =~= s.drop_last());
            }
        }
    } else {
        assert(s[s.len() - 1] != '\n');
        lemma_joined_cons(s, Seq::empty(), feed);
        assert(seq![s] + Seq::<Seq<char>>::empty() =~= seq![s]);
    }
}

/// Joins the items of `parts` from `from` on, with `separator` between
/// neighbours.
pub fn join_from(parts: &Vec<String>, from: usize, separator: &str) -> (out: String)
    ensures
        out@ == joined_from(parts.deep_view(), from as int, separator@),
{
    let ghost items = parts.deep_view();
    let mut out = String::new();
    let mut i: usize = from;
    assert(out@ + joined_from(items, from as int, separator@) =~= joined_from(
        items,
        from as int,
        separator@,
    ));
    while i < parts.len()
        invariant
            from <= i,
            items == parts.deep_view(),
            items.len() == parts.len(),
            i >= parts.len() ==> out@ == joined_from(items, from as int, separator@),
            i < parts.len() ==> out@ + joined_from(items, i as int, separator@) == joined_from(
                items,
                from as int,
                separator@,
            ),
        decreases parts.len() - i,
    {
        let ghost before = out@;
        assert(items[i as int] == parts[i as int]@);
        out.append(parts[i].as_str());
        if i + 1 < parts.len() {
            out.append(separator);
            assert(out@ + joined_from(items, i + 1, separator@) =~= before + joined_from(
                items,
                i as int,
                separator@,
            ));
        } else {
            assert(out@ =~= before + joined_from(items, i as int, separator@));
        }
        i = i + 1;
    }
    out
}

} // verus!
