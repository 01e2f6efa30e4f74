use vstd::prelude::*;
use vstd::utf8::{decode_utf8, valid_utf8};

verus! {

/// The pieces of `s` between spaces, in order; empty pieces are kept, so a
/// text with `n` spaces has `n + 1` pieces.
pub open spec fn split_spaces(s: Seq<char>) -> Seq<Seq<char>>
    decreases s.len(),
{
    if s.len() == 0 {
        seq![Seq::<char>::empty()]
    } else {
        let rest = split_spaces(s.drop_last());
        if s.last() == ' ' {
            rest.push(Seq::<char>::empty())
        } else {
            rest.update(rest.len() - 1, rest.last().push(s.last()))
        }
    }
}

/// The number of spaces in `s`.
pub open spec fn count_spaces(s: Seq<char>) -> nat
    decreases s.len(),
{
    if s.len() == 0 {
        0
    } else {
        count_spaces(s.drop_last()) + if s.last() == ' ' { 1nat } else { 0nat }
    }
}

pub open spec fn has_no_space(s: Seq<char>) -> bool {
    forall|i: int| 0 <= i < s.len() ==> s[i] != ' '
}

proof fn lemma_split_spaces_len(s: Seq<char>)
    ensures
        split_spaces(s).len() == count_spaces(s) + 1,
    decreases s.len(),
{
    if s.len() > 0 {
        lemma_split_spaces_len(s.drop_last());
    }
}

proof fn lemma_split_without_space(s: Seq<char>)
    requires
        has_no_space(s),
    ensures
        split_spaces(s) == seq![s],
    decreases s.len(),
{
    if s.len() > 0 {
        let d = s.drop_last();
        lemma_split_without_space(d);
        assert(s.last() != ' ');
        assert(split_spaces(s) == split_spaces(d).update(0, d.push(s.last())));
        assert(d.push(s.last()) =~= s);
        assert(seq![d].update(0, s) =~= seq![s]);
    } else {
        assert(s =~= Seq::<char>::empty());
    }
}

proof fn lemma_split_join(x: Seq<char>, y: Seq<char>)
    ensures
        split_spaces(x + seq![' '] + y) == split_spaces(x) + split_spaces(y),
    decreases y.len(),
{
    lemma_split_spaces_len(x);
    lemma_split_spaces_len(y);
    if y.len() == 0 {
        assert((x + seq![' '] + y).drop_last() =~= x);
        assert(split_spaces(x + seq![' '] + y) =~= split_spaces(x) + split_spaces(y));
    } else {
        let s = x + seq![' '] + y;
        lemma_split_join(x, y.drop_last());
        assert(s.drop_last() =~= x + seq![' '] + y.drop_last());
        assert(s.last() == y.last());
        lemma_split_spaces_len(y.drop_last());
        assert(split_spaces(s) =~= split_spaces(x) + split_spaces(y));
    }
}

/// Holds when `s` has spaces exactly at `first` and `second`.
pub open spec fn spaces_exactly_at(s: Seq<char>, first: int, second: int) -> bool {
    &&& 0 <= first < second < s.len()
    &&& s[first] == ' '
    &&& s[second] == ' '
    &&& forall|k: int| 0 <= k < s.len() && k != first && k != second ==> s[k] != ' '
}

proof fn lemma_three_pieces(s: Seq<char>, first: int, second: int)
    requires
        spaces_exactly_at(s, first, second),
    ensures
        split_spaces(s) == seq![
            s.subrange(0, first),
            s.subrange(first + 1, second),
            s.subrange(second + 1, s.len() as int),
        ],
{
    let a = s.subrange(0, first);
    let b = s.subrange(first + 1, second);
    let c = s.subrange(second + 1, s.len() as int);
    assert(s =~= a + seq![' '] + b + seq![' '] + c);
    lemma_split_without_space(a);
    lemma_split_without_space(b);
    lemma_split_without_space(c);
    lemma_split_join(a + seq![' '] + b, c);
    lemma_split_join(a, b);
    assert(split_spaces(s) =~= seq![a, b, c]);
}

/// Counts the spaces of `line`, and gives the positions of the first two.
fn locate_spaces(line: &str) -> (r: (usize, usize, usize))
    ensures
        r.0 == count_spaces(line@),
        r.0 == 2 ==> spaces_exactly_at(line@, r.1 as int, r.2 as int),
{
    let n = line.unicode_len();
    let mut count: usize = 0;
    let mut first: usize = 0;
    let mut second: usize = 0;
    let mut i: usize = 0;
    while i < n
        invariant
            n == line@.len(),
            i <= n,
            count <= i,
            count as int == count_spaces(line@.take(i as int)),
            count >= 1 ==> first < i && line@[first as int] == ' ',
            count >= 1 ==> forall|k: int| 0 <= k < first ==> line@[k] != ' ',
            count == 0 ==> forall|k: int| 0 <= k < i ==> line@[k] != ' ',
            count >= 2 ==> first < second < i && line@[second as int] == ' ',
            count >= 2 ==> forall|k: int| first < k < second ==> line@[k] != ' ',
            count == 1 ==> forall|k: int| first < k < i ==> line@[k] != ' ',
            count == 2 ==> forall|k: int| second < k < i ==> line@[k] != ' ',
        decreases n - i,
    {
        let c = line.get_char(i);
        assert(line@.take(i + 1).drop_last() =~= line@.take(i as int));
        if c == ' ' {
            if count == 0 {
                first = i;
            } else if count == 1 {
                second = i;
            }
            count = count + 1;
        }
        i = i + 1;
    }
    assert(line@.take(n as int) =~= line@);
    (count, first, second)
}

/// Splits `line` at its spaces when it has exactly three pieces.
pub fn three_pieces(line: &str) -> (r: Option<(String, String, String)>)
    ensures
        r is Some <==> split_spaces(line@).len() == 3,
        r matches Some(t) ==> split_spaces(line@) == seq![t.0@, t.1@, t.2@],
{
    let (count, first, second) = locate_spaces(line);
    proof {
        lemma_split_spaces_len(line@);
    }
    if count != 2 {
        return None;
    }
    let n = line.unicode_len();
    let a = line.substring_char(0, first).to_owned();
    let b = line.substring_char(first + 1, second).to_owned();
    let c = line.substring_char(second + 1, n).to_owned();
    proof {
        lemma_three_pieces(line@, first as int, second as int);
    }
    Some((a, b, c))
}

pub open spec fn is_digit(c: char) -> bool {
    '0' <= c && c <= '9'
}

pub open spec fn all_digits(s: Seq<char>) -> bool {
    forall|i: int| 0 <= i < s.len() ==> is_digit(s[i])
}

/// The number that a text of decimal digits writes.
pub open spec fn digits_value(s: Seq<char>) -> nat
    decreases s.len(),
{
    if s.len() == 0 {
        0
    } else {
        digits_value(s.drop_last()) * 10 + (s.last() as nat - '0' as nat) as nat
    }
}

/// The digits of an unsigned number's text, after an optional leading `+`.
pub open spec fn unsigned_digits(s: Seq<char>) -> Seq<char> {
    if s.len() > 0 && s[0] == '+' {
        s.drop_first()
    } else {
        s
    }
}

/// The `usize` that `s` writes in decimal: an optional `+`, then at least
/// one digit and nothing else, with a value that fits.
pub open spec fn usize_of_text(s: Seq<char>) -> Option<usize> {
    let d = unsigned_digits(s);
    if d.len() > 0 && all_digits(d) && digits_value(d) <= usize::MAX {
        Some(digits_value(d) as usize)
    } else {
        None
    }
}

proof fn lemma_digits_value_grows(s: Seq<char>, j: int)
    requires
        0 <= j <= s.len(),
        all_digits(s),
    ensures
        digits_value(s.take(j)) <= digits_value(s),
    decreases s.len() - j,
{
    if j < s.len() {
        lemma_digits_value_grows(s, j + 1);
        let t = s.take(j + 1);
        assert(t.drop_last() =~= s.take(j));
        assert(is_digit(t.last()));
        let v = digits_value(s.take(j));
        assert(v <= v * 10) by (nonlinear_arith);
    } else {
        assert(s.take(j) =~= s);
    }
}

/// Reads a decimal `usize`, as `str::parse` does.
pub fn parse_usize(text: &str) -> (r: Option<usize>)
    ensures
        r == usize_of_text(text@),
{
    let n = text.unicode_len();
    let start: usize = if n > 0 && text.get_char(0) == '+' { 1 } else { 0 };
    let ghost d = unsigned_digits(text@);
    assert(d =~= text@.subrange(start as int, n as int));
    if start == n {
        return None;
    }
    let mut value: usize = 0;
    let mut i: usize = start;
    while i < n
        invariant
            n == text@.len(),
            start <= i <= n,
            d == text@.subrange(start as int, n as int),
            d == unsigned_digits(text@),
            all_digits(text@.subrange(start as int, i as int)),
            value as nat == digits_value(text@.subrange(start as int, i as int)),
        decreases n - i,
    {
        let c = text.get_char(i);
        let ghost prefix = text@.subrange(start as int, i + 1);
        assert(prefix.drop_last() =~= text@.subrange(start as int, i as int));
        assert(prefix =~= d.take(i + 1 - start));
        if !('0' <= c && c <= '9') {
            assert(!is_digit(d[i - start]));
            assert(!all_digits(d));
            return None;
        }
        let digit = (c as u32 - '0' as u32) as usize;
        assert(digits_value(prefix) == value * 10 + digit);
        match value.checked_mul(10) {
            None => {
                proof {
                    if all_digits(d) {
                        lemma_digits_value_grows(d, i + 1 - start);
                    }
                    assert(value * 10 + digit >= value * 10);
                }
                return None;
            },
            Some(tens) => match tens.checked_add(digit) {
                None => {
                    proof {
                        if all_digits(d) {
                            lemma_digits_value_grows(d, i + 1 - start);
                        }
                    }
                    return None;
                },
                Some(next) => {
                    value = next;
                },
            },
        }
        i = i + 1;
    }
    Some(value)
}

/// `s` without its trailing carriage returns and line feeds.
pub open spec fn trim_line_end(s: Seq<u8>) -> Seq<u8>
    decreases s.len(),
{
    if s.len() > 0 && (s.last() == 13u8 || s.last() == 10u8) {
        trim_line_end(s.drop_last())
    } else {
        s
    }
}

/// The length of the prefix of `s` that ends with the first `b`, or the
/// whole length when `b` does not occur.
pub open spec fn through_first(s: Seq<u8>, b: u8) -> int
    decreases s.len(),
{
    if s.len() == 0 {
        0
    } else if s[0] == b {
        1
    } else {
        1 + through_first(s.drop_first(), b)
    }
}

proof fn lemma_through_first_skip(s: Seq<u8>, b: u8, i: int)
    requires
        0 <= i <= s.len(),
        forall|k: int| 0 <= k < i ==> s[k] != b,
    ensures
        through_first(s, b) == i + through_first(s.subrange(i, s.len() as int), b),
    decreases i,
{
    if i > 0 {
        assert(s.drop_first().subrange(i - 1, s.drop_first().len() as int) =~= s.subrange(
            i,
            s.len() as int,
        ));
        lemma_through_first_skip(s.drop_first(), b, i - 1);
    } else {
        assert(s.subrange(0, s.len() as int) =~= s);
    }
}

/// The end of the prefix of `s[from..]` that ends with the first `b`
/// (or the end of `s`).
pub fn find_through(s: &Vec<u8>, from: usize, b: u8) -> (r: usize)
    requires
        from <= s@.len(),
    ensures
        r == from + through_first(s@.subrange(from as int, s@.len() as int), b),
        from <= r <= s@.len(),
{
    let ghost t = s@.subrange(from as int, s@.len() as int);
    let mut i: usize = from;
    while i < s.len()
        invariant
            from <= i <= s@.len(),
            t == s@.subrange(from as int, s@.len() as int),
            forall|k: int| 0 <= k < i - from ==> t[k] != b,
        decreases s@.len() - i,
    {
        if s[i] == b {
            proof {
                lemma_through_first_skip(t, b, i - from);
                assert(t.subrange(i - from, t.len() as int)[0] == b);
            }
            return i + 1;
        }
        i = i + 1;
    }
    proof {
        lemma_through_first_skip(t, b, i - from);
        assert(t.subrange(i - from, t.len() as int).len() == 0);
    }
    i
}

/// The bytes of `s[from..to]`, without trailing carriage returns and line feeds.
pub fn trimmed_range(s: &Vec<u8>, from: usize, to: usize) -> (r: Vec<u8>)
    requires
        from <= to <= s@.len(),
    ensures
        r@ == trim_line_end(s@.subrange(from as int, to as int)),
{
    let mut end: usize = to;
    while end > from && (s[end - 1] == 13u8 || s[end - 1] == 10u8)
        invariant
            from <= end <= to <= s@.len(),
            trim_line_end(s@.subrange(from as int, to as int)) == trim_line_end(
                s@.subrange(from as int, end as int),
            ),
        decreases end,
    {
        assert(s@.subrange(from as int, end as int).drop_last() =~= s@.subrange(
            from as int,
            end - 1,
        ));
        end = end - 1;
    }
    let mut r: Vec<u8> = Vec::new();
    let mut i: usize = from;
    while i < end
        invariant
            from <= i <= end <= s@.len(),
            r@ == s@.subrange(from as int, i as int),
        decreases end - i,
    {
        r.push(s[i]);
        assert(r@ =~= s@.subrange(from as int, i + 1));
        i = i + 1;
    }
    r
}

/// The message of a text that is not valid UTF-8.
pub const INVALID_TEXT: &'static str = "invalid UTF-8 text";

/// Relies on `String::from_utf8`: it accepts exactly the valid UTF-8
/// encodings, and gives the characters they encode.
#[verifier::external_body]
pub(crate) fn utf8_text(bytes: Vec<u8>) -> (r: Option<String>)
    ensures
        r is Some <==> valid_utf8(bytes@),
        r matches Some(t) ==> t@ == decode_utf8(bytes@),
{
    String::from_utf8(bytes).ok()
}

} // verus!
