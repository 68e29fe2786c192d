//! Emoji detection.
//!
//! Identifies emoji characters by Unicode ranges and groups them with the characters that
//! belong to them: skin tone modifiers, zero width joiner sequences, flag pairs and keycap
//! sequences.
use vstd::prelude::*;

use super::text::{
    char_width,
    char_width_of,
    column_at,
    lemma_counts_bounded,
    lemma_prefix_len,
    lemma_prefix_step,
    last_line_width,
    line_at,
    newline_count,
    text_chars,
    utf8_len,
};

verus! {

/// Characters with an emoji presentation, by Unicode block or code point.
pub open spec fn is_emoji_presentation(c: char) -> bool {
    ||| '\u{1F300}' <= c <= '\u{1F9FF}'
    ||| '\u{1FA00}' <= c <= '\u{1FAFF}'
    ||| '\u{1F100}' <= c <= '\u{1F1FF}'
    ||| '\u{2600}' <= c <= '\u{26FF}'
    ||| '\u{2700}' <= c <= '\u{27BF}'
    ||| '\u{2300}' <= c <= '\u{23FF}'
    ||| '\u{2460}' <= c <= '\u{24FF}'
    ||| '\u{25A0}' <= c <= '\u{25FF}'
    ||| c == '\u{2B50}'
    ||| c == '\u{2B55}'
    ||| c == '\u{FE0F}'
    ||| c == '\u{203C}'
    ||| c == '\u{2049}'
    ||| c == '\u{20E3}'
    ||| c == '\u{2122}'
    ||| c == '\u{2139}'
    ||| '\u{2194}' <= c <= '\u{2199}'
    ||| '\u{21A9}' <= c <= '\u{21AA}'
    ||| '\u{2934}' <= c <= '\u{2935}'
    ||| '\u{2B05}' <= c <= '\u{2B07}'
    ||| c == '\u{3030}'
    ||| c == '\u{303D}'
    ||| c == '\u{3297}'
    ||| c == '\u{3299}'
}

/// Regional indicator symbols, which come in pairs to form flags.
pub open spec fn is_regional_indicator(c: char) -> bool {
    '\u{1F1E6}' <= c <= '\u{1F1FF}'
}

/// Skin tone modifiers, the emoji variation selector and the combining enclosing keycap.
pub open spec fn is_emoji_modifier(c: char) -> bool {
    ||| '\u{1F3FB}' <= c <= '\u{1F3FF}'
    ||| c == '\u{FE0F}'
    ||| c == '\u{20E3}'
}

/// The zero width joiner, which glues emoji into one glyph.
pub open spec fn is_zwj(c: char) -> bool {
    c == '\u{200D}'
}

/// Characters that open an emoji.
pub open spec fn is_emoji_start(c: char) -> bool {
    is_emoji_presentation(c) || is_regional_indicator(c)
}

/// ASCII decimal digits, which open keycap sequences.
pub open spec fn is_ascii_digit(c: char) -> bool {
    '0' <= c <= '9'
}

/// Whether character `k` belongs to the sequence opened at `i`, given that characters
/// `i + 1 .. k` already do.
pub open spec fn extends_sequence(text: Seq<char>, i: int, k: int) -> bool {
    let first = text[i];
    if is_regional_indicator(first) && k == i + 1 {
        is_regional_indicator(text[k])
    } else if is_ascii_digit(first) && k == i + 1 {
        is_emoji_modifier(text[k])
    } else if is_zwj(text[k - 1]) {
        true
    } else {
        is_emoji_modifier(text[k]) || is_zwj(text[k])
    }
}

/// End (exclusive) of the sequence opened at `i`, once characters `i .. k` belong to it.
pub open spec fn sequence_end(text: Seq<char>, i: int, k: int) -> int
    decreases text.len() - k,
{
    if 0 <= i < k < text.len() && extends_sequence(text, i, k) {
        sequence_end(text, i, k + 1)
    } else {
        k
    }
}

/// The emoji found in `text` from character `i` on, as character ranges `(start, end)`.
///
/// A character that opens an emoji, or a digit, opens a sequence that runs as far as
/// `extends_sequence` allows; a lone digit is no emoji.
pub open spec fn emoji_ranges(text: Seq<char>, i: int) -> Seq<(int, int)>
    decreases text.len() - i,
{
    if i < 0 || i >= text.len() {
        seq![]
    } else {
        let c = text[i];
        if is_emoji_start(c) || is_ascii_digit(c) {
            let e = sequence_end(text, i, i + 1);
            proof {
                lemma_sequence_end_bounds(text, i, i + 1);
            }
            if !is_ascii_digit(c) || e > i + 1 {
                seq![(i, e)] + emoji_ranges(text, e)
            } else {
                emoji_ranges(text, e)
            }
        } else {
            emoji_ranges(text, i + 1)
        }
    }
}

/// A sequence ends no earlier than the characters it already holds and no later than the text.
pub proof fn lemma_sequence_end_bounds(text: Seq<char>, i: int, k: int)
    requires
        0 <= i < k <= text.len(),
    ensures
        k <= sequence_end(text, i, k) <= text.len(),
    decreases text.len() - k,
{
    if k < text.len() && extends_sequence(text, i, k) {
        lemma_sequence_end_bounds(text, i, k + 1);
    }
}

/// A sequence that reaches past character `k` took that character in.
proof fn lemma_sequence_end_step(text: Seq<char>, i: int, k: int)
    requires
        0 <= i < k <= text.len(),
        sequence_end(text, i, k) > k,
    ensures
        k < text.len(),
        extends_sequence(text, i, k),
{
}

/// The ranges found from character `i` on lie inside the text, after `i`, are not empty,
/// and follow one another without overlapping.
pub proof fn lemma_ranges_ordered(text: Seq<char>, i: int)
    requires
        0 <= i,
    ensures
        forall|k: int|
            0 <= k < emoji_ranges(text, i).len() ==> i <= (#[trigger] emoji_ranges(text, i)[k]).0
                < emoji_ranges(text, i)[k].1 <= text.len(),
        forall|k: int, l: int|
            0 <= k < l < emoji_ranges(text, i).len() ==> (#[trigger] emoji_ranges(text, i)[k]).1
                <= (#[trigger] emoji_ranges(text, i)[l]).0,
    decreases text.len() - i,
{
    if i < text.len() {
        let c = text[i];
        if is_emoji_start(c) || is_ascii_digit(c) {
            let e = sequence_end(text, i, i + 1);
            lemma_sequence_end_bounds(text, i, i + 1);
            lemma_ranges_ordered(text, e);
            if !is_ascii_digit(c) || e > i + 1 {
                let rest = emoji_ranges(text, e);
                assert(emoji_ranges(text, i) == seq![(i, e)] + rest);
                assert forall|k: int, l: int|
                    0 <= k < l < emoji_ranges(text, i).len() implies (#[trigger] emoji_ranges(
                    text,
                    i,
                )[k]).1 <= (#[trigger] emoji_ranges(text, i)[l]).0 by {
                    if k == 0 {
                        assert(emoji_ranges(text, i)[l] == rest[l - 1]);
                    } else {
                        assert(emoji_ranges(text, i)[k] == rest[k - 1]);
                        assert(emoji_ranges(text, i)[l] == rest[l - 1]);
                    }
                }
                assert forall|k: int| 0 <= k < emoji_ranges(text, i).len() implies i <= (
                #[trigger] emoji_ranges(text, i)[k]).0 < emoji_ranges(text, i)[k].1
                    <= text.len() by {
                    if k > 0 {
                        assert(emoji_ranges(text, i)[k] == rest[k - 1]);
                    }
                }
            } else {
                assert(emoji_ranges(text, i) == emoji_ranges(text, e));
            }
        } else {
            assert(emoji_ranges(text, i) == emoji_ranges(text, i + 1));
            lemma_ranges_ordered(text, i + 1);
        }
    }
}

/// Every character that opens an emoji lies inside one of the ranges found.
pub proof fn lemma_every_emoji_found(text: Seq<char>, i: int, j: int)
    requires
        0 <= i <= j < text.len(),
        is_emoji_start(text[j]),
    ensures
        exists|k: int|
            0 <= k < emoji_ranges(text, i).len() && (#[trigger] emoji_ranges(text, i)[k]).0 <= j
                < emoji_ranges(text, i)[k].1,
    decreases text.len() - i,
{
    let c = text[i];
    if is_emoji_start(c) || is_ascii_digit(c) {
        let e = sequence_end(text, i, i + 1);
        lemma_sequence_end_bounds(text, i, i + 1);
        let rest = emoji_ranges(text, e);
        if !is_ascii_digit(c) || e > i + 1 {
            assert(emoji_ranges(text, i) == seq![(i, e)] + rest);
            if j < e {
                assert(emoji_ranges(text, i)[0] == (i, e));
            } else {
                lemma_every_emoji_found(text, e, j);
                let k = choose|k: int|
                    0 <= k < rest.len() && (#[trigger] rest[k]).0 <= j < rest[k].1;
                assert(emoji_ranges(text, i)[k + 1] == rest[k]);
            }
        } else {
            assert(emoji_ranges(text, i) == rest);
            lemma_every_emoji_found(text, e, j);
        }
    } else {
        assert(emoji_ranges(text, i) == emoji_ranges(text, i + 1));
        lemma_every_emoji_found(text, i + 1, j);
    }
}

/// Every range found opens with a character that opens an emoji, or with a digit that a
/// keycap or variation selector follows.
pub proof fn lemma_ranges_open_with_emoji(text: Seq<char>, i: int)
    requires
        0 <= i,
    ensures
        forall|k: int|
            0 <= k < emoji_ranges(text, i).len() ==> {
                let r = #[trigger] emoji_ranges(text, i)[k];
                ||| is_emoji_start(text[r.0])
                ||| is_ascii_digit(text[r.0]) && r.0 + 1 < r.1 && is_emoji_modifier(text[r.0 + 1])
            },
    decreases text.len() - i,
{
    if i < text.len() {
        let c = text[i];
        if is_emoji_start(c) || is_ascii_digit(c) {
            let e = sequence_end(text, i, i + 1);
            lemma_sequence_end_bounds(text, i, i + 1);
            lemma_ranges_open_with_emoji(text, e);
            if !is_ascii_digit(c) || e > i + 1 {
                let rest = emoji_ranges(text, e);
                assert(emoji_ranges(text, i) == seq![(i, e)] + rest);
                if is_ascii_digit(c) {
                    lemma_sequence_end_step(text, i, i + 1);
                }
                assert forall|k: int| 0 <= k < emoji_ranges(text, i).len() implies {
                    let r = #[trigger] emoji_ranges(text, i)[k];
                    ||| is_emoji_start(text[r.0])
                    ||| is_ascii_digit(text[r.0]) && r.0 + 1 < r.1 && is_emoji_modifier(
                        text[r.0 + 1],
                    )
                } by {
                    if k > 0 {
                        assert(emoji_ranges(text, i)[k] == rest[k - 1]);
                    }
                }
            } else {
                assert(emoji_ranges(text, i) == emoji_ranges(text, e));
            }
        } else {
            assert(emoji_ranges(text, i) == emoji_ranges(text, i + 1));
            lemma_ranges_open_with_emoji(text, i + 1);
        }
    }
}

/// A text contains an emoji exactly when `find_all` finds at least one match in it.
pub proof fn lemma_contains_iff_found(text: Seq<char>)
    ensures
        (exists|i: int| 0 <= i < text.len() && is_emoji_start(#[trigger] text[i])) <==> emoji_ranges(
            text,
            0,
        ).len() > 0,
{
    if exists|i: int| 0 <= i < text.len() && is_emoji_start(#[trigger] text[i]) {
        let j = choose|i: int| 0 <= i < text.len() && is_emoji_start(#[trigger] text[i]);
        lemma_every_emoji_found(text, 0, j);
    }
    if emoji_ranges(text, 0).len() > 0 {
        lemma_ranges_open_with_emoji(text, 0);
        lemma_ranges_ordered(text, 0);
        let r = emoji_ranges(text, 0)[0];
        if is_emoji_start(text[r.0]) {
            assert(is_emoji_start(text[r.0]));
        } else {
            assert(is_emoji_start(text[r.0 + 1]));
        }
    }
}

/// The matches found in a text have byte ranges that are not empty and that follow one
/// another without overlapping.
pub proof fn lemma_match_bytes_ordered(text: Seq<char>)
    ensures
        forall|k: int|
            0 <= k < emoji_ranges(text, 0).len() ==> utf8_len(
                text.take((#[trigger] emoji_ranges(text, 0)[k]).0),
            ) < utf8_len(text.take(emoji_ranges(text, 0)[k].1)),
        forall|k: int, l: int|
            0 <= k < l < emoji_ranges(text, 0).len() ==> utf8_len(
                text.take((#[trigger] emoji_ranges(text, 0)[k]).1),
            ) <= utf8_len(text.take((#[trigger] emoji_ranges(text, 0)[l]).0)),
{
    lemma_ranges_ordered(text, 0);
    assert forall|k: int| 0 <= k < emoji_ranges(text, 0).len() implies utf8_len(
        text.take((#[trigger] emoji_ranges(text, 0)[k]).0),
    ) < utf8_len(text.take(emoji_ranges(text, 0)[k].1)) by {
        let r = emoji_ranges(text, 0)[k];
        lemma_prefix_len(text.take(r.1), r.0 + 1);
        lemma_prefix_step(text, r.0);
        assert(text.take(r.1).take(r.0 + 1) =~= text.take(r.0 + 1));
    }
    assert forall|k: int, l: int| 0 <= k < l < emoji_ranges(text, 0).len() implies utf8_len(
        text.take((#[trigger] emoji_ranges(text, 0)[k]).1),
    ) <= utf8_len(text.take((#[trigger] emoji_ranges(text, 0)[l]).0)) by {
        let a = emoji_ranges(text, 0)[k].1;
        let b = emoji_ranges(text, 0)[l].0;
        lemma_prefix_len(text.take(b), a);
        assert(text.take(b).take(a) =~= text.take(a));
    }
}

/// Every character that a sequence opened at `i` took in after `k` passed the test for
/// belonging to it.
proof fn lemma_sequence_members(text: Seq<char>, i: int, k: int)
    requires
        0 <= i < k <= text.len(),
    ensures
        forall|m: int| k <= m < sequence_end(text, i, k) ==> extends_sequence(text, i, m),
    decreases text.len() - k,
{
    if k < text.len() && extends_sequence(text, i, k) {
        lemma_sequence_members(text, i, k + 1);
    }
}

/// Whether character `m` may stand inside an emoji that starts at `s`, after its first
/// character: a skin tone modifier, variation selector or keycap mark, a zero width joiner,
/// any character right after a zero width joiner, or the second regional indicator of a flag.
pub open spec fn may_continue(text: Seq<char>, s: int, m: int) -> bool {
    ||| is_emoji_modifier(text[m])
    ||| is_zwj(text[m])
    ||| is_zwj(text[m - 1])
    ||| m == s + 1 && is_regional_indicator(text[s]) && is_regional_indicator(text[m])
}

/// A match never takes in a character that does not belong to the emoji: every character of
/// a found range after its first is a modifier, a zero width joiner, a character right after
/// a zero width joiner, or the second half of a flag. So an emoji followed by a space or a
/// letter ends before it.
pub proof fn lemma_match_holds_only_sequence_characters(text: Seq<char>, i: int)
    requires
        0 <= i,
    ensures
        forall|k: int, m: int|
            0 <= k < emoji_ranges(text, i).len() && emoji_ranges(text, i)[k].0 < m
                < emoji_ranges(text, i)[k].1 ==> #[trigger] may_continue(
                text,
                emoji_ranges(text, i)[k].0,
                m,
            ),
    decreases text.len() - i,
{
    if i < text.len() {
        let c = text[i];
        if is_emoji_start(c) || is_ascii_digit(c) {
            let e = sequence_end(text, i, i + 1);
            lemma_sequence_end_bounds(text, i, i + 1);
            lemma_sequence_members(text, i, i + 1);
            lemma_match_holds_only_sequence_characters(text, e);
            if !is_ascii_digit(c) || e > i + 1 {
                let rest = emoji_ranges(text, e);
                assert(emoji_ranges(text, i) == seq![(i, e)] + rest);
                assert forall|k: int, m: int|
                    0 <= k < emoji_ranges(text, i).len() && emoji_ranges(text, i)[k].0 < m
                        < emoji_ranges(text, i)[k].1 implies #[trigger] may_continue(
                    text,
                    emoji_ranges(text, i)[k].0,
                    m,
                ) by {
                    if k > 0 {
                        assert(emoji_ranges(text, i)[k] == rest[k - 1]);
                    } else {
                        assert(extends_sequence(text, i, m));
                    }
                }
            } else {
                assert(emoji_ranges(text, i) == emoji_ranges(text, e));
            }
        } else {
            assert(emoji_ranges(text, i) == emoji_ranges(text, i + 1));
            lemma_match_holds_only_sequence_characters(text, i + 1);
        }
    }
}

/// Whether `c` lies in one of the blocks that the detector documents as emoji: the emoji
/// and pictograph blocks U+1F300..U+1F9FF and U+1FA00..U+1FAFF, the Enclosed Alphanumeric
/// Supplement, Miscellaneous Symbols, Dingbats, Enclosed Alphanumerics, Geometric Shapes
/// and Miscellaneous Technical.
pub open spec fn in_documented_block(c: char) -> bool {
    ||| '\u{1F300}' <= c <= '\u{1F9FF}'
    ||| '\u{1FA00}' <= c <= '\u{1FAFF}'
    ||| '\u{1F100}' <= c <= '\u{1F1FF}'
    ||| '\u{2600}' <= c <= '\u{26FF}'
    ||| '\u{2700}' <= c <= '\u{27BF}'
    ||| '\u{2460}' <= c <= '\u{24FF}'
    ||| '\u{25A0}' <= c <= '\u{25FF}'
    ||| '\u{2300}' <= c <= '\u{23FF}'
}

/// A text that holds a character of a documented emoji block contains an emoji, and a
/// found match covers that character.
pub proof fn lemma_documented_blocks_found(text: Seq<char>, j: int)
    requires
        0 <= j < text.len(),
        in_documented_block(text[j]),
    ensures
        emoji_ranges(text, 0).len() > 0,
        exists|k: int|
            0 <= k < emoji_ranges(text, 0).len() && (#[trigger] emoji_ranges(text, 0)[k]).0 <= j
                < emoji_ranges(text, 0)[k].1,
{
    assert(is_emoji_start(text[j]));
    lemma_every_emoji_found(text, 0, j);
}

/// What a match reports of the range `(s, e)` of `text`.
pub open spec fn match_reports(text: Seq<char>, m: EmojiMatch, r: (int, int)) -> bool {
    &&& m.start == utf8_len(text.take(r.0))
    &&& m.end == utf8_len(text.take(r.1))
    &&& m.emoji@ == text.subrange(r.0, r.1)
    &&& m.line == line_at(text, r.0)
    &&& m.column == column_at(text, r.0)
}

/// Detects emoji characters in text
#[derive(Debug, Clone, Copy)]
pub struct EmojiDetector {}

/// Information about a detected emoji
#[derive(Debug, Clone, PartialEq, Eq)]
pub struct EmojiMatch {
    /// Byte offset where the emoji starts in the source text
    pub start: usize,
    /// Byte offset where the emoji ends in the source text (exclusive)
    pub end: usize,
    /// The emoji string (may be multiple characters for sequences)
    pub emoji: String,
    /// Line number (1-indexed)
    pub line: usize,
    /// Column number (1-indexed, byte offset from start of line)
    pub column: usize,
}

impl EmojiDetector {
    /// Creates a new emoji detector
    pub fn new() -> (d: Self) {
        EmojiDetector {  }
    }

    /// Finds all emoji matches in the given text, in order of their position.
    pub fn find_all(&self, text: &str) -> (matches: Vec<EmojiMatch>)
        requires
            utf8_len(text@) <= usize::MAX,
        ensures
            matches@.len() == emoji_ranges(text@, 0).len(),
            forall|k: int|
                0 <= k < matches@.len() ==> match_reports(
                    text@,
                    #[trigger] matches@[k],
                    emoji_ranges(text@, 0)[k],
                ),
    {
        let chars = text_chars(text);
        let n = chars.len();
        let ghost s = text@;
        let ghost mut found: Seq<(int, int)> = seq![];
        let mut matches: Vec<EmojiMatch> = Vec::new();
        let mut i: usize = 0;
        let mut byte: usize = 0;
        let mut newlines: usize = 0;
        let mut col: usize = 0;
        proof {
            assert(s.take(0) =~= Seq::<char>::empty());
        }
        while i < n
            invariant
                chars@ == s,
                s == text@,
                n == s.len(),
                i <= n,
                utf8_len(s) <= usize::MAX,
                byte == utf8_len(s.take(i as int)),
                newlines == newline_count(s.take(i as int)),
                col == last_line_width(s.take(i as int)),
                emoji_ranges(s, 0) == found + emoji_ranges(s, i as int),
                matches@.len() == found.len(),
                forall|k: int|
                    0 <= k < matches@.len() ==> match_reports(s, #[trigger] matches@[k], found[k]),
            decreases n - i,
        {
            let c = chars[i];
            proof {
                lemma_prefix_step(s, i as int);
                lemma_counts_bounded(s.take(i as int));
                lemma_counts_bounded(s.take(i + 1));
            }
            if self.is_emoji_start(c) || is_digit(c) {
                let start = byte;
                let start_line = newlines;
                let start_col = col;
                let mut emoji = String::new();
                emoji.push(c);
                byte = byte + char_width_of(c);
                if c == '\n' {
                    newlines = newlines + 1;
                    col = 0;
                } else {
                    col = col + char_width_of(c);
                }
                let mut k: usize = i + 1;
                proof {
                    assert(emoji@ =~= s.subrange(i as int, k as int));
                }
                while k < n && self.extends(&chars, i, k)
                    invariant
                        chars@ == s,
                        n == s.len(),
                        i < k <= n,
                        utf8_len(s) <= usize::MAX,
                        byte == utf8_len(s.take(k as int)),
                        newlines == newline_count(s.take(k as int)),
                        col == last_line_width(s.take(k as int)),
                        emoji@ == s.subrange(i as int, k as int),
                        sequence_end(s, i as int, i + 1) == sequence_end(s, i as int, k as int),
                    decreases n - k,
                {
                    let d = chars[k];
                    proof {
                        lemma_prefix_step(s, k as int);
                        lemma_counts_bounded(s.take(k + 1));
                    }
                    emoji.push(d);
                    byte = byte + char_width_of(d);
                    if d == '\n' {
                        newlines = newlines + 1;
                        col = 0;
                    } else {
                        col = col + char_width_of(d);
                    }
                    k = k + 1;
                    proof {
                        assert(emoji@ =~= s.subrange(i as int, k as int));
                    }
                }
                proof {
                    lemma_sequence_end_bounds(s, i as int, i + 1);
                }
                if !is_digit(c) || k > i + 1 {
                    let m = EmojiMatch {
                        start,
                        end: byte,
                        emoji,
                        line: start_line + 1,
                        column: start_col + 1,
                    };
                    matches.push(m);
                    proof {
                        found = found.push((i as int, k as int));
                        assert(emoji_ranges(s, i as int) == seq![(i as int, k as int)]
                            + emoji_ranges(s, k as int));
                    }
                }
                i = k;
            } else {
                byte = byte + char_width_of(c);
                if c == '\n' {
                    newlines = newlines + 1;
                    col = 0;
                } else {
                    col = col + char_width_of(c);
                }
                i = i + 1;
            }
        }
        proof {
            assert(found + emoji_ranges(s, n as int) =~= found);
        }
        matches
    }

    /// Whether character `k` of `chars` continues the sequence opened at `i`.
    fn extends(&self, chars: &Vec<char>, i: usize, k: usize) -> (r: bool)
        requires
            i < k < chars@.len(),
        ensures
            r == extends_sequence(chars@, i as int, k as int),
    {
        let first = chars[i];
        let next = chars[k];
        if self.is_regional_indicator(first) && k == i + 1 {
            self.is_regional_indicator(next)
        } else if is_digit(first) && k == i + 1 {
            self.is_emoji_modifier(next)
        } else if self.is_zwj(chars[k - 1]) {
            true
        } else {
            self.is_emoji_modifier(next) || self.is_zwj(next)
        }
    }

    /// Checks if the text contains any emojis
    pub fn contains_emoji(&self, text: &str) -> (r: bool)
        ensures
            r == exists|i: int| 0 <= i < text@.len() && is_emoji_start(#[trigger] text@[i]),
    {
        let chars = text_chars(text);
        let mut i: usize = 0;
        while i < chars.len()
            invariant
                chars@ == text@,
                i <= chars@.len(),
                forall|j: int| 0 <= j < i ==> !is_emoji_start(#[trigger] text@[j]),
            decreases chars@.len() - i,
        {
            if self.is_emoji_start(chars[i]) {
                return true;
            }
            i = i + 1;
        }
        false
    }

    /// Checks if a character is the start of an emoji
    fn is_emoji_start(&self, ch: char) -> (r: bool)
        ensures
            r == is_emoji_start(ch),
    {
        self.is_emoji_presentation(ch) || self.is_regional_indicator(ch)
    }

    /// Checks if a character has emoji presentation
    fn is_emoji_presentation(&self, ch: char) -> (r: bool)
        ensures
            r == is_emoji_presentation(ch),
    {
        ('\u{1F300}' <= ch && ch <= '\u{1F9FF}') || ('\u{1FA00}' <= ch && ch <= '\u{1FAFF}') || ('\u{1F100}' <= ch && ch <= '\u{1F1FF}') || (
        '\u{2600}' <= ch && ch <= '\u{26FF}') || ('\u{2700}' <= ch && ch <= '\u{27BF}') || (
        '\u{2300}' <= ch && ch <= '\u{23FF}') || ('\u{2460}' <= ch && ch <= '\u{24FF}') || (
        '\u{25A0}' <= ch && ch <= '\u{25FF}') || ch == '\u{2B50}' || ch == '\u{2B55}' || ch
            == '\u{FE0F}' || ch == '\u{203C}' || ch == '\u{2049}' || ch == '\u{20E3}' || ch
            == '\u{2122}' || ch == '\u{2139}' || ('\u{2194}' <= ch && ch <= '\u{2199}') || (
        '\u{21A9}' <= ch && ch <= '\u{21AA}') || ('\u{2934}' <= ch && ch <= '\u{2935}') || (
        '\u{2B05}' <= ch && ch <= '\u{2B07}') || ch == '\u{3030}' || ch == '\u{303D}' || ch
            == '\u{3297}' || ch == '\u{3299}'
    }

    /// Checks if a character is a regional indicator (for flag emojis)
    fn is_regional_indicator(&self, ch: char) -> (r: bool)
        ensures
            r == is_regional_indicator(ch),
    {
        '\u{1F1E6}' <= ch && ch <= '\u{1F1FF}'
    }

    /// Checks if a character is an emoji modifier (skin tone)
    fn is_emoji_modifier(&self, ch: char) -> (r: bool)
        ensures
            r == is_emoji_modifier(ch),
    {
        ('\u{1F3FB}' <= ch && ch <= '\u{1F3FF}') || ch == '\u{FE0F}' || ch == '\u{20E3}'
    }

    /// Checks if a character is Zero Width Joiner (ZWJ)
    fn is_zwj(&self, ch: char) -> (r: bool)
        ensures
            r == is_zwj(ch),
    {
        ch == '\u{200D}'
    }
}

/// Whether `c` is an ASCII decimal digit.
fn is_digit(c: char) -> (r: bool)
    ensures
        r == is_ascii_digit(c),
{
    '0' <= c && c <= '9'
}

impl Default for EmojiDetector {
    fn default() -> (d: Self) {
        Self::new()
    }
}

impl EmojiMatch {
    /// Returns the length of the emoji in bytes
    pub fn len(&self) -> (n: usize)
        requires
            self.start <= self.end,
        ensures
            n == self.end - self.start,
    {
        self.end - self.start
    }

    /// Returns true if this is an empty match (should not happen in practice)
    pub fn is_empty(&self) -> (r: bool)
        ensures
            r == (self.start == self.end),
    {
        self.start == self.end
    }

    /// Returns the emoji as a string slice
    pub fn as_str(&self) -> (s: &str)
        ensures
            s@ == self.emoji@,
    {
        self.emoji.as_str()
    }
}

} // verus!
