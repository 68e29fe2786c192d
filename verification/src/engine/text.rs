//! Positions in UTF-8 text: byte widths, line numbers and columns.
use vstd::prelude::*;

use vstd::string::StringExecFns;

verus! {

broadcast use vstd::string::group_string_axioms;

/// Number of bytes that `c` occupies in UTF-8.
pub open spec fn char_width(c: char) -> nat {
    if c <= '\u{7F}' {
        1
    } else if c <= '\u{7FF}' {
        2
    } else if c <= '\u{FFFF}' {
        3
    } else {
        4
    }
}

/// Number of bytes that the UTF-8 encoding of `s` occupies.
pub open spec fn utf8_len(s: Seq<char>) -> nat
    decreases s.len(),
{
    if s.len() == 0 {
        0
    } else {
        utf8_len(s.drop_last()) + char_width(s.last())
    }
}

/// Number of line feeds in `s`.
pub open spec fn newline_count(s: Seq<char>) -> nat
    decreases s.len(),
{
    if s.len() == 0 {
        0
    } else {
        newline_count(s.drop_last()) + if s.last() == '\n' {
            1nat
        } else {
            0nat
        }
    }
}

/// Number of bytes after the last line feed of `s` (all of `s` when it holds none).
pub open spec fn last_line_width(s: Seq<char>) -> nat
    decreases s.len(),
{
    if s.len() == 0 {
        0
    } else if s.last() == '\n' {
        0
    } else {
        last_line_width(s.drop_last()) + char_width(s.last())
    }
}

/// The texts of a sequence of strings.
pub open spec fn texts(v: Seq<String>) -> Seq<Seq<char>> {
    v.map_values(|s: String| s@)
}

/// The 1-based line on which character `i` of `s` stands.
pub open spec fn line_at(s: Seq<char>, i: int) -> nat {
    newline_count(s.take(i)) + 1
}

/// The 1-based column, counted in bytes from the start of its line, of character `i` of `s`.
pub open spec fn column_at(s: Seq<char>, i: int) -> nat {
    last_line_width(s.take(i)) + 1
}

/// The byte width of a character agrees with the length of its UTF-8 encoding.
pub proof fn lemma_char_width_encoding(c: char)
    ensures
        vstd::utf8::encode_scalar(c as u32).len() == char_width(c),
{
    vstd::utf8::char_is_scalar(c);
}

/// Byte length is additive over concatenation.
pub proof fn lemma_utf8_len_concat(a: Seq<char>, b: Seq<char>)
    ensures
        utf8_len(a + b) == utf8_len(a) + utf8_len(b),
    decreases b.len(),
{
    if b.len() == 0 {
        assert(a + b =~= a);
    } else {
        assert((a + b).drop_last() =~= a + b.drop_last());
        lemma_utf8_len_concat(a, b.drop_last());
    }
}

/// The byte length of a character sequence is the length of its UTF-8 encoding.
pub proof fn lemma_utf8_len_is_encoding_len(s: Seq<char>)
    ensures
        utf8_len(s) == vstd::utf8::encode_utf8(s).len(),
    decreases s.len(),
{
    if s.len() > 0 {
        let one = seq![s[0]];
        lemma_utf8_len_is_encoding_len(s.drop_first());
        lemma_char_width_encoding(s[0]);
        assert(s =~= one + s.drop_first());
        lemma_utf8_len_concat(one, s.drop_first());
        assert(one.drop_last() =~= Seq::<char>::empty());
        assert(utf8_len(Seq::<char>::empty()) == 0);
        assert(utf8_len(one) == char_width(s[0]));
    }
}

/// Each character takes at least one byte, line feeds are characters, and the last line
/// is part of the text.
pub proof fn lemma_counts_bounded(s: Seq<char>)
    ensures
        newline_count(s) <= s.len(),
        s.len() <= utf8_len(s),
        last_line_width(s) <= utf8_len(s),
    decreases s.len(),
{
    if s.len() > 0 {
        lemma_counts_bounded(s.drop_last());
    }
}

/// A prefix takes no more bytes than the whole sequence.
pub proof fn lemma_prefix_len(s: Seq<char>, j: int)
    requires
        0 <= j <= s.len(),
    ensures
        utf8_len(s.take(j)) <= utf8_len(s),
{
    assert(s =~= s.take(j) + s.skip(j));
    lemma_utf8_len_concat(s.take(j), s.skip(j));
}

/// How the measures of a prefix change when the prefix grows by one character.
pub proof fn lemma_prefix_step(s: Seq<char>, k: int)
    requires
        0 <= k < s.len(),
    ensures
        utf8_len(s.take(k + 1)) == utf8_len(s.take(k)) + char_width(s[k]),
        newline_count(s.take(k + 1)) == newline_count(s.take(k)) + if s[k] == '\n' {
            1nat
        } else {
            0nat
        },
        last_line_width(s.take(k + 1)) == if s[k] == '\n' {
            0nat
        } else {
            last_line_width(s.take(k)) + char_width(s[k])
        },
        utf8_len(s.take(k + 1)) <= utf8_len(s),
{
    assert(s.take(k + 1).drop_last() =~= s.take(k));
    lemma_prefix_len(s, k + 1);
}

/// The index of the character of `s` that starts at byte `offset`, if a character (or
/// the end of `s`) starts there.
pub open spec fn boundary_index(s: Seq<char>, offset: int) -> Option<int> {
    if exists|i: int| 0 <= i <= s.len() && #[trigger] utf8_len(s.take(i)) == offset {
        Some(choose|i: int| 0 <= i <= s.len() && #[trigger] utf8_len(s.take(i)) == offset)
    } else {
        None
    }
}

/// The 1-based line and byte column at which byte `offset` of `s` stands, when `offset`
/// falls on a character boundary.
pub open spec fn position_at(s: Seq<char>, offset: int) -> Option<(nat, nat)> {
    match boundary_index(s, offset) {
        Some(i) => Some((line_at(s, i), column_at(s, i))),
        None => None,
    }
}

/// The 1-based line and byte column at which byte `offset` of `text` stands, or `None`
/// when `offset` does not fall on a character boundary of `text`.
pub fn line_and_column(text: &str, offset: usize) -> (r: Option<(usize, usize)>)
    requires
        utf8_len(text@) < usize::MAX,
    ensures
        r == (match position_at(text@, offset as int) {
            Some((l, c)) => Some((l as usize, c as usize)),
            None => None::<(usize, usize)>,
        }),
        r matches Some((l, c)) ==> position_at(text@, offset as int) == Some((l as nat, c as nat)),
{
    let chars = text_chars(text);
    let ghost s = text@;
    let mut i: usize = 0;
    let mut byte: usize = 0;
    let mut newlines: usize = 0;
    let mut col: usize = 0;
    proof {
        assert(s.take(0) =~= Seq::<char>::empty());
    }
    while i < chars.len() && byte < offset
        invariant
            chars@ == s,
            s == text@,
            i <= s.len(),
            utf8_len(s) < usize::MAX,
            byte == utf8_len(s.take(i as int)),
            newlines == newline_count(s.take(i as int)),
            col == last_line_width(s.take(i as int)),
            forall|j: int| 0 <= j < i ==> utf8_len(#[trigger] s.take(j)) < offset,
        decreases s.len() - i,
    {
        let c = chars[i];
        proof {
            lemma_prefix_step(s, i as int);
            lemma_counts_bounded(s.take(i as int));
            lemma_counts_bounded(s.take(i + 1));
        }
        byte = byte + char_width_of(c);
        if c == '\n' {
            newlines = newlines + 1;
            col = 0;
        } else {
            col = col + char_width_of(c);
        }
        i = i + 1;
    }
    proof {
        lemma_counts_bounded(s.take(i as int));
        lemma_prefix_len(s, i as int);
        assert forall|j: int|
            0 <= j <= s.len() && #[trigger] utf8_len(s.take(j)) == offset implies j == i by {
            if j > i {
                lemma_prefix_grows(s, i as int, j);
            }
        }
    }
    if byte == offset {
        proof {
            assert(utf8_len(s.take(i as int)) == offset);
            let k = boundary_index(s, offset as int)->0;
            assert(k == i);
        }
        Some((newlines + 1, col + 1))
    } else {
        None
    }
}

/// A longer prefix takes more bytes.
pub proof fn lemma_prefix_grows(s: Seq<char>, i: int, j: int)
    requires
        0 <= i < j <= s.len(),
    ensures
        utf8_len(s.take(i)) < utf8_len(s.take(j)),
{
    let t = s.take(j);
    assert(t =~= t.take(i) + t.skip(i));
    assert(t.take(i) =~= s.take(i));
    lemma_utf8_len_concat(t.take(i), t.skip(i));
    lemma_counts_bounded(t.skip(i));
}

/// `String::push` appends the character to the end of the string, as its documentation says.
pub assume_specification[ String::push ](s: &mut String, c: char)
    ensures
        final(s)@ == old(s)@.push(c),
;

/// `prefix` followed by `rest`.
pub fn joined(prefix: &str, rest: &str) -> (s: String)
    ensures
        s@ == prefix@ + rest@,
{
    let mut s = prefix.to_string();
    s.append(rest);
    s
}

/// The decimal digit `d`.
pub open spec fn digit_char(d: nat) -> char {
    if d == 0 {
        '0'
    } else if d == 1 {
        '1'
    } else if d == 2 {
        '2'
    } else if d == 3 {
        '3'
    } else if d == 4 {
        '4'
    } else if d == 5 {
        '5'
    } else if d == 6 {
        '6'
    } else if d == 7 {
        '7'
    } else if d == 8 {
        '8'
    } else {
        '9'
    }
}

/// The decimal notation of `n`, without leading zeros.
pub open spec fn decimal(n: nat) -> Seq<char>
    decreases n,
{
    if n < 10 {
        seq![digit_char(n)]
    } else {
        decimal(n / 10).push(digit_char(n % 10))
    }
}

/// The number that a string of decimal digits spells.
pub open spec fn digits_value(s: Seq<char>) -> int
    decreases s.len(),
{
    if s.len() == 0 {
        0
    } else {
        digits_value(s.drop_last()) * 10 + (s.last() as int - '0' as int)
    }
}

/// The digit `d` stands for the number `d`.
proof fn lemma_digit_value(d: nat)
    requires
        d < 10,
    ensures
        digit_char(d) as int - '0' as int == d,
        '0' <= digit_char(d) <= '9',
        digit_char(d) == '0' <==> d == 0,
{
    if d == 0 {
    } else if d == 1 {
    } else if d == 2 {
    } else if d == 3 {
    } else if d == 4 {
    } else if d == 5 {
    } else if d == 6 {
    } else if d == 7 {
    } else if d == 8 {
    } else {
    }
}

/// The decimal notation of `n` is a string of digits, without a leading zero unless it is
/// `0` itself, that spells `n`.
pub proof fn lemma_decimal_spells_the_number(n: nat)
    ensures
        decimal(n).len() >= 1,
        forall|i: int| 0 <= i < decimal(n).len() ==> '0' <= #[trigger] decimal(n)[i] <= '9',
        decimal(n)[0] == '0' ==> n == 0,
        digits_value(decimal(n)) == n,
    decreases n,
{
    if n < 10 {
        lemma_digit_value(n);
        assert(decimal(n).drop_last() =~= Seq::<char>::empty());
        assert(digits_value(Seq::<char>::empty()) == 0);
    } else {
        lemma_digit_value(n % 10);
        lemma_decimal_spells_the_number(n / 10);
        let d = decimal(n / 10);
        assert(decimal(n).drop_last() =~= d);
        assert(decimal(n)[0] == d[0]);
        assert(n == (n / 10) * 10 + n % 10);
    }
}

/// The decimal digit `d`.
fn digit(d: usize) -> (c: char)
    requires
        d < 10,
    ensures
        c == digit_char(d as nat),
{
    if d == 0 {
        '0'
    } else if d == 1 {
        '1'
    } else if d == 2 {
        '2'
    } else if d == 3 {
        '3'
    } else if d == 4 {
        '4'
    } else if d == 5 {
        '5'
    } else if d == 6 {
        '6'
    } else if d == 7 {
        '7'
    } else if d == 8 {
        '8'
    } else {
        '9'
    }
}

/// Appends the decimal notation of `n` to `s`.
pub fn push_decimal(s: &mut String, n: usize)
    ensures
        final(s)@ == old(s)@ + decimal(n as nat),
    decreases n,
{
    if n >= 10 {
        push_decimal(s, n / 10);
    }
    s.push(digit(n % 10));
    assert(s@ =~= old(s)@ + decimal(n as nat));
}

/// Width in bytes of `c` in UTF-8.
pub fn char_width_of(c: char) -> (w: usize)
    ensures
        w == char_width(c),
{
    if c <= '\u{7F}' {
        1
    } else if c <= '\u{7FF}' {
        2
    } else if c <= '\u{FFFF}' {
        3
    } else {
        4
    }
}

/// The characters of `text`, in order.
pub fn text_chars(text: &str) -> (v: Vec<char>)
    ensures
        v@ == text@,
{
    let mut v: Vec<char> = Vec::new();
    for c in it: text.chars()
        invariant
            v@ == it.seq().take(it.index() as int),
    {
        v.push(c);
    }
    assert(v@ =~= text@);
    v
}

} // verus!
