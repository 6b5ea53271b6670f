//! Conversions of query inputs: `LIKE` patterns and alive bitmaps.

use vstd::prelude::*;

verus! {

/// Appends one character with `String::push`.
#[verifier::external_body]
fn push_char(text: &mut String, c: char)
    ensures
        final(text)@ == old(text)@.push(c),
{
    text.push(c);
}

/// What one character of a `LIKE` pattern becomes in the regular expression
/// when it stands alone: `%` matches any run of characters, `_` matches any
/// one character, and every other character is taken as it is.
pub open spec fn wildcard_piece(c: char) -> Seq<char> {
    if c == '%' {
        seq!['.', '*']
    } else if c == '_' {
        seq!['.']
    } else {
        seq![c]
    }
}

/// What one character of a `LIKE` pattern becomes when a backslash stands
/// before it: `%`, `_` are meant literally and lose the backslash, a backslash
/// becomes an escaped backslash, and any other character keeps the backslash.
pub open spec fn escaped_piece(c: char) -> Seq<char> {
    if c == '%' || c == '_' {
        seq![c]
    } else {
        seq!['\\', c]
    }
}

/// The regular expression for the rest of a `LIKE` pattern. `escaped` says
/// whether a backslash stands directly before the rest. A backslash that ends
/// the pattern is dropped.
pub open spec fn like_regex_from(pattern: Seq<char>, escaped: bool) -> Seq<char>
    decreases pattern.len(),
{
    if pattern.len() == 0 {
        Seq::empty()
    } else if escaped {
        escaped_piece(pattern.first()) + like_regex_from(pattern.drop_first(), false)
    } else if pattern.first() == '\\' {
        like_regex_from(pattern.drop_first(), true)
    } else {
        wildcard_piece(pattern.first()) + like_regex_from(pattern.drop_first(), false)
    }
}

/// The regular expression that a `LIKE` pattern stands for.
pub open spec fn like_regex(pattern: Seq<char>) -> Seq<char> {
    like_regex_from(pattern, false)
}

/// Namespace of the conversions.
pub struct ConvertUtils;

impl ConvertUtils {
    /// The regular expression that a `LIKE` pattern stands for.
    pub fn like_to_regex(like_pattern: &str) -> (regex: String)
        ensures
            regex@ == like_regex(like_pattern@),
    {
        let mut regex = String::new();
        let mut escaped = false;
        proof {
            assert(like_pattern@.skip(0) == like_pattern@);
        }
        for c in it: like_pattern.chars()
            invariant
                it.seq() == like_pattern@,
                regex@ + like_regex_from(like_pattern@.skip(it.index() as int), escaped)
                    == like_regex(like_pattern@),
        {
            let ghost i = it.index() as int;
            proof {
                assert(like_pattern@.skip(i).first() == c);
                assert(like_pattern@.skip(i).drop_first() == like_pattern@.skip(i + 1));
            }
            let ghost before = regex@;
            let ghost rest = like_regex_from(like_pattern@.skip(i + 1), false);
            if escaped {
                if c == '%' || c == '_' {
                    push_char(&mut regex, c);
                } else {
                    push_char(&mut regex, '\\');
                    push_char(&mut regex, c);
                }
                escaped = false;
                assert(regex@ + rest =~= before + (escaped_piece(c) + rest));
            } else if c == '\\' {
                escaped = true;
            } else {
                if c == '%' {
                    push_char(&mut regex, '.');
                    push_char(&mut regex, '*');
                } else if c == '_' {
                    push_char(&mut regex, '.');
                } else {
                    push_char(&mut regex, c);
                }
                assert(regex@ + rest =~= before + (wildcard_piece(c) + rest));
            }
        }
        assert(regex@ + Seq::<char>::empty() =~= regex@);
        regex
    }
}

/// Whether bit `bit` of `byte` is set, the lowest bit being bit 0.
pub open spec fn bit_is_set(byte: u8, bit: u8) -> bool {
    byte & (1u8 << bit) != 0
}

/// Whether the bitmap marks row `row_id`: the bitmap holds one bit per row,
/// eight rows per byte, the lowest bit of a byte standing for the first of its
/// rows.
pub open spec fn marks_row(bitmap: Seq<u8>, row_id: int) -> bool {
    0 <= row_id < 8 * bitmap.len() && bit_is_set(bitmap[row_id / 8], (row_id % 8) as u8)
}

/// Whether `row_ids` lists, in ascending order and each once, the rows below
/// `bound` that the bitmap marks.
pub open spec fn lists_marked_rows(row_ids: Seq<u64>, bitmap: Seq<u8>, bound: int) -> bool {
    &&& forall|k: int|
        0 <= k < row_ids.len() ==> (#[trigger] row_ids[k]) < bound && marks_row(
            bitmap,
            row_ids[k] as int,
        )
    &&& forall|p: int|
        0 <= p < bound && #[trigger] marks_row(bitmap, p) ==> exists|k: int|
            0 <= k < row_ids.len() && #[trigger] row_ids[k] == p
    &&& forall|a: int, b: int|
        0 <= a < b < row_ids.len() ==> (#[trigger] row_ids[a]) < (#[trigger] row_ids[b])
}

/// The number of rows that a bitmap of `bytes` bytes can mark: eight per
/// byte, and no more than there are row ids.
pub open spec fn marked_rows_bound(bytes: nat) -> int {
    if 8 * bytes <= u64::MAX {
        8 * (bytes as int)
    } else {
        u64::MAX + 1
    }
}

impl ConvertUtils {
    /// Lists the rows that an alive bitmap marks, in ascending order.
    pub fn u8_bitmap_to_row_ids64(bitmap: &Vec<u8>) -> (row_ids: Vec<u64>)
        ensures
            lists_marked_rows(row_ids@, bitmap@, marked_rows_bound(bitmap@.len())),
    {
        let mut row_ids: Vec<u64> = Vec::new();
        let mut i: usize = 0;
        while i < bitmap.len() && (i as u64) <= 0x1FFF_FFFF_FFFF_FFFFu64
            invariant
                i <= bitmap.len(),
                i <= 0x2000_0000_0000_0000u64,
                lists_marked_rows(row_ids@, bitmap@, 8 * i),
            decreases bitmap.len() - i,
        {
            let byte: u8 = bitmap[i];
            let mut bit: u8 = 0;
            while bit < 8
                invariant
                    i < bitmap.len(),
                    i <= 0x1FFF_FFFF_FFFF_FFFFu64,
                    bit <= 8,
                    byte == bitmap@[i as int],
                    lists_marked_rows(row_ids@, bitmap@, 8 * i + bit),
                decreases 8 - bit,
            {
                let ghost before = row_ids@;
                let ghost row = 8 * i + bit;
                assert(row / 8 == i && row % 8 == bit);
                if byte & (1u8 << bit) != 0 {
                    let row_id: u64 = (i as u64) * 8 + (bit as u64);
                    row_ids.push(row_id);
                    proof {
                        assert forall|p: int|
                            0 <= p < row + 1 && #[trigger] marks_row(bitmap@, p) implies exists|
                            k: int,
                        |
                            0 <= k < row_ids@.len() && #[trigger] row_ids@[k] == p by {
                            if p < row {
                                let k = choose|k: int|
                                    0 <= k < before.len() && #[trigger] before[k] == p;
                                assert(row_ids@[k] == p);
                            } else {
                                assert(row_ids@[before.len() as int] == p);
                            }
                        }
                    }
                }
                bit += 1;
            }
            i += 1;
        }
        row_ids
    }
}

/// A pattern without backslash becomes, character by character, what each of
/// its characters stands for.
pub proof fn lemma_like_regex_plain(pattern: Seq<char>)
    requires
        !pattern.contains('\\'),
    ensures
        like_regex(pattern) == pattern.map_values(|c: char| wildcard_piece(c)).flatten(),
    decreases pattern.len(),
{
    let pieces = pattern.map_values(|c: char| wildcard_piece(c));
    if pattern.len() > 0 {
        let rest = pattern.drop_first();
        assert(pattern[0] != '\\');
        assert forall|c: char| rest.contains(c) implies pattern.contains(c) by {
            let k = choose|k: int| 0 <= k < rest.len() && rest[k] == c;
            assert(pattern[k + 1] == c);
        }
        lemma_like_regex_plain(rest);
        assert(pieces.drop_first() =~= rest.map_values(|c: char| wildcard_piece(c)));
    }
}

/// Whether the character is a letter or a digit of ASCII: a character that
/// stands for itself both in a `LIKE` pattern and in a regular expression.
pub open spec fn is_plain(c: char) -> bool {
    ||| 'a' as u32 <= c as u32 <= 'z' as u32
    ||| 'A' as u32 <= c as u32 <= 'Z' as u32
    ||| '0' as u32 <= c as u32 <= '9' as u32
}

/// Whether the pattern is made of letters, digits, `%` and `_` alone.
pub open spec fn is_simple_pattern(pattern: Seq<char>) -> bool {
    forall|i: int|
        0 <= i < pattern.len() ==> is_plain(#[trigger] pattern[i]) || pattern[i] == '%'
            || pattern[i] == '_'
}

/// Whether a text is like a pattern of letters, digits, `%` and `_`: the text
/// can be split so that each `%` covers any run of characters, also none,
/// each `_` covers exactly one character, and every other character of the
/// pattern covers itself.
pub open spec fn like_matches(pattern: Seq<char>, text: Seq<char>) -> bool
    decreases pattern.len(), text.len(),
{
    if pattern.len() == 0 {
        text.len() == 0
    } else if pattern.first() == '%' {
        like_matches(pattern.drop_first(), text) || (text.len() > 0 && like_matches(
            pattern,
            text.drop_first(),
        ))
    } else if pattern.first() == '_' {
        text.len() > 0 && like_matches(pattern.drop_first(), text.drop_first())
    } else {
        text.len() > 0 && text.first() == pattern.first() && like_matches(
            pattern.drop_first(),
            text.drop_first(),
        )
    }
}

/// Whether a regular expression made of letters, digits, `.` and `.*` matches
/// a text as a whole, by the meaning that regular expressions give these
/// forms: `.*` matches any run of characters, also none, `.` matches exactly
/// one character, and a letter or digit matches itself.
pub open spec fn regex_matches(regex: Seq<char>, text: Seq<char>) -> bool
    decreases regex.len(), text.len(),
{
    if regex.len() == 0 {
        text.len() == 0
    } else if regex.first() == '.' && regex.len() >= 2 && regex[1] == '*' {
        regex_matches(regex.skip(2), text) || (text.len() > 0 && regex_matches(
            regex,
            text.drop_first(),
        ))
    } else if regex.first() == '.' {
        text.len() > 0 && regex_matches(regex.drop_first(), text.drop_first())
    } else {
        text.len() > 0 && text.first() == regex.first() && regex_matches(
            regex.drop_first(),
            text.drop_first(),
        )
    }
}

/// The regular expression of a pattern of letters, digits, `%` and `_` never
/// begins with a star.
proof fn lemma_like_regex_begins_without_star(pattern: Seq<char>)
    requires
        is_simple_pattern(pattern),
    ensures
        like_regex(pattern).len() > 0 ==> like_regex(pattern)[0] != '*',
        pattern.len() > 0 ==> like_regex(pattern) == wildcard_piece(pattern.first()) + like_regex(
            pattern.drop_first(),
        ),
        pattern.len() > 0 ==> is_simple_pattern(pattern.drop_first()),
{
    if pattern.len() > 0 {
        assert(is_plain(pattern[0]) || pattern[0] == '%' || pattern[0] == '_');
        assert(pattern.first() != '\\');
        assert forall|i: int| 0 <= i < pattern.drop_first().len() implies is_plain(
            #[trigger] pattern.drop_first()[i],
        ) || pattern.drop_first()[i] == '%' || pattern.drop_first()[i] == '_' by {
            assert(pattern.drop_first()[i] == pattern[i + 1]);
        }
    }
}

/// The translation of `LIKE` patterns is right: for a pattern of letters,
/// digits, `%` and `_`, the regular expression that
/// [`ConvertUtils::like_to_regex`] gives matches exactly the texts that are
/// like the pattern.
pub proof fn lemma_like_regex_matches_what_the_pattern_is_like(
    pattern: Seq<char>,
    text: Seq<char>,
)
    requires
        is_simple_pattern(pattern),
    ensures
        regex_matches(like_regex(pattern), text) == like_matches(pattern, text),
    decreases pattern.len(), text.len(),
{
    lemma_like_regex_begins_without_star(pattern);
    if pattern.len() > 0 {
        let c = pattern.first();
        let rest = pattern.drop_first();
        let regex = like_regex(pattern);
        let tail = like_regex(rest);
        lemma_like_regex_begins_without_star(rest);
        lemma_like_regex_matches_what_the_pattern_is_like(rest, text);
        if text.len() > 0 {
            lemma_like_regex_matches_what_the_pattern_is_like(rest, text.drop_first());
        }
        if c == '%' {
            assert(regex =~= seq!['.', '*'] + tail);
            assert(regex.skip(2) =~= tail);
            if text.len() > 0 {
                lemma_like_regex_matches_what_the_pattern_is_like(pattern, text.drop_first());
            }
        } else if c == '_' {
            assert(regex =~= seq!['.'] + tail);
            assert(regex.drop_first() =~= tail);
            if regex.len() >= 2 {
                assert(regex[1] == tail[0]);
            }
        } else {
            assert(is_plain(pattern[0]));
            assert(regex =~= seq![c] + tail);
            assert(regex.drop_first() =~= tail);
            assert(c != '.');
        }
    }
}

} // verus!
