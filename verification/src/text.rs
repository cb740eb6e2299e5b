//! Positions inside a document.
//!
//! An editor reports a cursor as a zero-based line and a zero-based column
//! counted in UTF-16 code units. This module defines what such a position
//! means for a text, as an absolute offset in UTF-16 code units and as an
//! index into the text's characters, and computes both.

use vstd::prelude::*;
use vstd::string::StrSliceExecFns;
use vstd::string::StringExecFns;
use vstd::utf8::encode_utf8;

verus! {

/// The character that separates lines. A carriage return is an ordinary
/// character of the line it stands in.
pub open spec fn is_line_break(c: char) -> bool {
    c == '\n'
}

/// Number of UTF-16 code units that encode `c`.
pub open spec fn utf16_units(c: char) -> nat {
    if (c as u32) < 0x10000 {
        1
    } else {
        2
    }
}

/// Length of `s` in UTF-16 code units.
pub open spec fn utf16_len(s: Seq<char>) -> nat
    decreases s.len(),
{
    if s.len() == 0 {
        0
    } else {
        utf16_len(s.drop_last()) + utf16_units(s.last())
    }
}

/// The lines of `text`: the stretches between line breaks, in order. A text
/// with `k` line breaks has `k + 1` lines; the last one is empty when the
/// text ends in a line break, and the empty text has one empty line.
pub open spec fn split_lines(text: Seq<char>) -> Seq<Seq<char>>
    decreases text.len(),
{
    if text.len() == 0 {
        seq![Seq::<char>::empty()]
    } else {
        let before = split_lines(text.drop_last());
        if is_line_break(text.last()) {
            before.push(Seq::<char>::empty())
        } else {
            before.update(before.len() - 1, before.last().push(text.last()))
        }
    }
}

/// The text that `lines` make when a line break stands between each two of
/// them.
pub open spec fn joined_lines(lines: Seq<Seq<char>>) -> Seq<char>
    decreases lines.len(),
{
    if lines.len() == 0 {
        Seq::<char>::empty()
    } else if lines.len() == 1 {
        lines[0]
    } else {
        joined_lines(lines.drop_last()).push('\n') + lines.last()
    }
}

/// UTF-16 code units taken by the first `n` lines of `lines`, each counted
/// with the line break that ends it.
pub open spec fn units_before(lines: Seq<Seq<char>>, n: nat) -> nat
    decreases n,
{
    if n == 0 {
        0
    } else {
        units_before(lines, (n - 1) as nat) + utf16_len(lines[n - 1]) + 1
    }
}

/// The absolute offset, in UTF-16 code units, of the position
/// (`line`, `character`) in `text`.
///
/// A line past the last one stands for the end of the text, and a column
/// past the end of its line stands for the end of that line.
pub open spec fn offset_at(text: Seq<char>, line: nat, character: nat) -> nat {
    let lines = split_lines(text);
    if line >= lines.len() {
        utf16_len(text)
    } else if character >= utf16_len(lines[line as int]) {
        units_before(lines, line) + utf16_len(lines[line as int])
    } else {
        units_before(lines, line) + character
    }
}

/// The number of whole characters of `text` that fit into its first `units`
/// UTF-16 code units: an offset that falls inside a character that takes two
/// units is moved back to the start of that character.
pub open spec fn char_index_at(text: Seq<char>, units: nat) -> nat
    decreases text.len(),
{
    if text.len() == 0 {
        0
    } else if utf16_len(text) <= units {
        text.len()
    } else {
        char_index_at(text.drop_last(), units)
    }
}

/// The length of a concatenation is the sum of the lengths.
pub proof fn lemma_utf16_len_concat(a: Seq<char>, b: Seq<char>)
    ensures
        utf16_len(a + b) == utf16_len(a) + utf16_len(b),
    decreases b.len(),
{
    if b.len() == 0 {
        assert(a + b =~= a);
    } else {
        lemma_utf16_len_concat(a, b.drop_last());
        assert((a + b).drop_last() =~= a + b.drop_last());
        assert((a + b).last() == b.last());
    }
}

/// A prefix is no longer than the whole.
pub proof fn lemma_utf16_len_prefix(s: Seq<char>, k: int)
    requires
        0 <= k <= s.len(),
    ensures
        utf16_len(s.take(k)) <= utf16_len(s),
        utf16_len(s) == utf16_len(s.take(k)) + utf16_len(s.skip(k)),
{
    lemma_utf16_len_concat(s.take(k), s.skip(k));
    assert(s.take(k) + s.skip(k) =~= s);
}

/// Extending a prefix by one character adds that character's units.
pub proof fn lemma_utf16_len_step(s: Seq<char>, k: int)
    requires
        0 <= k < s.len(),
    ensures
        utf16_len(s.take(k + 1)) == utf16_len(s.take(k)) + utf16_units(s[k]),
{
    assert(s.take(k + 1).drop_last() =~= s.take(k));
    assert(s.take(k + 1).last() == s[k]);
}

/// A text takes at most as many UTF-16 code units as UTF-8 bytes.
pub proof fn lemma_utf16_len_le_utf8_len(s: Seq<char>)
    ensures
        utf16_len(s) <= encode_utf8(s).len(),
    decreases s.len(),
{
    if s.len() > 0 {
        let head = s.take(1);
        let tail = s.drop_first();
        lemma_utf16_len_le_utf8_len(tail);
        lemma_utf16_len_prefix(s, 1);
        assert(s.skip(1) =~= tail);
        lemma_utf16_len_step(s, 0);
        assert(s.take(0) =~= Seq::<char>::empty());
        assert(utf16_len(head) == utf16_units(s[0]));
    }
}

/// Every text has at least one line.
pub proof fn lemma_split_lines_len(text: Seq<char>)
    ensures
        split_lines(text).len() >= 1,
    decreases text.len(),
{
    if text.len() > 0 {
        lemma_split_lines_len(text.drop_last());
    }
}

/// Splitting loses nothing and leaves no line break inside a line: the
/// lines of a text, joined by line breaks, are the text again.
pub proof fn lemma_split_lines_joined(text: Seq<char>)
    ensures
        joined_lines(split_lines(text)) == text,
        forall|i: int, j: int|
            0 <= i < split_lines(text).len() && 0 <= j < split_lines(text)[i].len()
                ==> !is_line_break(#[trigger] split_lines(text)[i][j]),
    decreases text.len(),
{
    if text.len() == 0 {
        assert(joined_lines(split_lines(text)) =~= text);
    } else {
        let shorter = text.drop_last();
        let before = split_lines(shorter);
        let lines = split_lines(text);
        lemma_split_lines_joined(shorter);
        lemma_split_lines_len(shorter);
        if is_line_break(text.last()) {
            assert(lines.drop_last() =~= before);
            assert(joined_lines(lines) =~= shorter.push(text.last()));
        } else if before.len() == 1 {
            assert(joined_lines(lines) =~= shorter.push(text.last()));
        } else {
            assert(lines.drop_last() =~= before.drop_last());
            assert(joined_lines(lines) =~= joined_lines(before).push(text.last()));
        }
        assert(shorter.push(text.last()) =~= text);
        assert forall|i: int, j: int|
            0 <= i < lines.len() && 0 <= j < lines[i].len() implies !is_line_break(
            #[trigger] lines[i][j],
        ) by {
            if i < before.len() && j < before[i].len() {
                assert(lines[i][j] == before[i][j]);
            }
        }
    }
}

/// `units_before` reads only the lines that it counts.
pub proof fn lemma_units_before_agree(a: Seq<Seq<char>>, b: Seq<Seq<char>>, n: nat)
    requires
        n <= a.len(),
        n <= b.len(),
        forall|j: int| 0 <= j < n ==> a[j] == b[j],
    ensures
        units_before(a, n) == units_before(b, n),
    decreases n,
{
    if n > 0 {
        lemma_units_before_agree(a, b, (n - 1) as nat);
    }
}

/// The lines of a text and the breaks between them make up the whole text.
pub proof fn lemma_lines_cover_text(text: Seq<char>)
    ensures
        split_lines(text).len() >= 1,
        utf16_len(text) == units_before(split_lines(text), (split_lines(text).len() - 1) as nat)
            + utf16_len(split_lines(text).last()),
    decreases text.len(),
{
    lemma_split_lines_len(text);
    if text.len() > 0 {
        let before = split_lines(text.drop_last());
        let lines = split_lines(text);
        lemma_lines_cover_text(text.drop_last());
        let k = (before.len() - 1) as nat;
        lemma_units_before_agree(before, lines, k);
        if !is_line_break(text.last()) {
            assert(lines.last().drop_last() =~= before.last());
        } else {
            assert(lines.last() =~= Seq::<char>::empty());
        }
    }
}

/// The end of a line lies no further into the text than the end of any
/// later line.
pub proof fn lemma_line_ends_ascend(lines: Seq<Seq<char>>, n: nat, m: nat)
    requires
        n <= m,
    ensures
        units_before(lines, n) + utf16_len(lines[n as int]) <= units_before(lines, m) + utf16_len(
            lines[m as int],
        ),
    decreases m,
{
    if n < m {
        lemma_line_ends_ascend(lines, n, (m - 1) as nat);
    }
}

/// Every position maps to an offset inside the text, its end included:
/// what lies outside is clamped.
pub proof fn lemma_offset_at_within_text(text: Seq<char>, line: nat, character: nat)
    ensures
        offset_at(text, line, character) <= utf16_len(text),
{
    let lines = split_lines(text);
    lemma_lines_cover_text(text);
    if line < lines.len() {
        lemma_line_ends_ascend(lines, line, (lines.len() - 1) as nat);
    }
}

/// `char_index_at` is the one index whose prefix fits into `units` while the
/// prefix that is one character longer does not.
pub proof fn lemma_char_index_at(text: Seq<char>, units: nat, k: int)
    requires
        0 <= k <= text.len(),
        utf16_len(text.take(k)) <= units,
        k < text.len() ==> utf16_len(text.take(k + 1)) > units,
    ensures
        char_index_at(text, units) == k,
    decreases text.len(),
{
    if text.len() > 0 {
        if utf16_len(text) <= units {
            if k < text.len() {
                lemma_utf16_len_prefix(text, k + 1);
            }
        } else {
            let shorter = text.drop_last();
            assert(text.take(text.len() as int) =~= text);
            assert(shorter.take(k) =~= text.take(k));
            if k < shorter.len() {
                assert(shorter.take(k + 1) =~= text.take(k + 1));
            }
            lemma_char_index_at(shorter, units, k);
        }
    }
}

/// The index that `char_index_at` gives lies inside the text, and the
/// characters before it fit into `units`.
pub proof fn lemma_char_index_at_bounds(text: Seq<char>, units: nat)
    ensures
        char_index_at(text, units) <= text.len(),
        utf16_len(text.take(char_index_at(text, units) as int)) <= units,
    decreases text.len(),
{
    if text.len() == 0 {
        assert(text.take(0) =~= text);
    } else if utf16_len(text) <= units {
        assert(text.take(text.len() as int) =~= text);
    } else {
        let shorter = text.drop_last();
        lemma_char_index_at_bounds(shorter, units);
        assert(shorter.take(char_index_at(shorter, units) as int) =~= text.take(
            char_index_at(shorter, units) as int,
        ));
    }
}

/// Whether `c` is white space: a character with the Unicode property
/// `White_Space`.
pub open spec fn is_whitespace(c: char) -> bool {
    let v = c as u32;
    ||| 0x09 <= v <= 0x0D
    ||| v == 0x20
    ||| v == 0x85
    ||| v == 0xA0
    ||| v == 0x1680
    ||| 0x2000 <= v <= 0x200A
    ||| v == 0x2028
    ||| v == 0x2029
    ||| v == 0x202F
    ||| v == 0x205F
    ||| v == 0x3000
}

/// `s` without the white space that it ends in.
pub open spec fn trimmed_end(s: Seq<char>) -> Seq<char>
    decreases s.len(),
{
    if s.len() > 0 && is_whitespace(s.last()) {
        trimmed_end(s.drop_last())
    } else {
        s
    }
}

/// `s` without the white space that it starts with.
pub open spec fn trimmed_start(s: Seq<char>) -> Seq<char>
    decreases s.len(),
{
    if s.len() > 0 && is_whitespace(s.first()) {
        trimmed_start(s.drop_first())
    } else {
        s
    }
}

/// `s` without the white space at either end.
pub open spec fn trimmed(s: Seq<char>) -> Seq<char> {
    trimmed_end(trimmed_start(s))
}

/// Whether two string slices hold the same characters.
pub fn str_eq(a: &str, b: &str) -> (same: bool)
    ensures
        same == (a@ == b@),
{
    a.to_owned() == b.to_owned()
}

/// Computes [`utf16_units`].
pub fn char_units(c: char) -> (n: usize)
    ensures
        n == utf16_units(c),
{
    if (c as u32) < 0x10000 {
        1
    } else {
        2
    }
}

/// Computes [`is_whitespace`].
pub fn char_is_whitespace(c: char) -> (white: bool)
    ensures
        white == is_whitespace(c),
{
    let v = c as u32;
    (0x09 <= v && v <= 0x0D) || v == 0x20 || v == 0x85 || v == 0xA0 || v == 0x1680 || (0x2000 <= v
        && v <= 0x200A) || v == 0x2028 || v == 0x2029 || v == 0x202F || v == 0x205F || v == 0x3000
}

/// Cuts the white space off the end of `s`.
pub fn trim_end(s: &str) -> (out: &str)
    ensures
        out@ == trimmed_end(s@),
{
    let len = s.unicode_len();
    let mut seen: usize = 0;
    let mut keep: usize = 0;
    proof {
        assert(s@.take(0) =~= Seq::<char>::empty());
    }
    for c in it: s.chars()
        invariant
            it.seq() == s@,
            len == s@.len(),
            seen == it.index(),
            keep <= seen,
            trimmed_end(s@.take(seen as int)) == s@.take(keep as int),
    {
        proof {
            assert(s@.take(seen + 1).drop_last() =~= s@.take(seen as int));
            assert(s@.take(seen + 1).last() == c);
        }
        seen = seen + 1;
        if !char_is_whitespace(c) {
            keep = seen;
        }
    }
    proof {
        assert(s@.take(len as int) =~= s@);
        assert(s@.subrange(0, keep as int) =~= s@.take(keep as int));
    }
    s.substring_char(0, keep)
}

/// Cuts the white space off the start of `s`.
pub fn trim_start(s: &str) -> (out: &str)
    ensures
        out@ == trimmed_start(s@),
{
    let len = s.unicode_len();
    let mut seen: usize = 0;
    let mut skip: usize = 0;
    let mut leading = true;
    proof {
        assert(s@.skip(0) =~= s@);
    }
    for c in it: s.chars()
        invariant
            it.seq() == s@,
            len == s@.len(),
            seen == it.index(),
            skip <= seen,
            leading ==> skip == seen,
            trimmed_start(s@) == trimmed_start(s@.skip(skip as int)),
            !leading ==> skip < len && !is_whitespace(s@[skip as int]),
    {
        if leading {
            if char_is_whitespace(c) {
                proof {
                    assert(s@.skip(skip as int).drop_first() =~= s@.skip(skip + 1));
                }
                skip = skip + 1;
            } else {
                leading = false;
            }
        }
        seen = seen + 1;
    }
    proof {
        assert(s@.subrange(skip as int, len as int) =~= s@.skip(skip as int));
    }
    s.substring_char(skip, len)
}

/// Cuts the white space off both ends of `s`.
pub fn trim(s: &str) -> (out: &str)
    ensures
        out@ == trimmed(s@),
{
    trim_end(trim_start(s))
}

/// Maps the position (`line`, `character`) to its absolute offset in `text`,
/// in UTF-16 code units. Positions outside the text are clamped: a line past
/// the last one gives the end of the text, a column past the end of its line
/// gives the end of that line.
pub fn offset_of(text: &str, line: u32, character: u32) -> (offset: usize)
    ensures
        offset == offset_at(text@, line as nat, character as nat),
{
    // A text has no more UTF-16 code units than bytes, so every count below
    // fits.
    let bytes = text.as_bytes();
    let mut current_line: usize = 0;
    let mut total: usize = 0;
    let mut start: usize = 0;
    let mut column: usize = 0;
    proof {
        lemma_utf16_len_le_utf8_len(text@);
        assert(bytes@.len() == bytes.len());
        assert(text@.take(0) =~= Seq::<char>::empty());
    }
    for c in it: text.chars()
        invariant
            it.seq() == text@,
            utf16_len(text@) <= usize::MAX,
            current_line <= total,
            split_lines(text@.take(it.index() as int)).len() == current_line + 1,
            total == utf16_len(text@.take(it.index() as int)),
            current_line >= line ==> {
                &&& start == units_before(split_lines(text@.take(it.index() as int)), line as nat)
                &&& column == utf16_len(split_lines(text@.take(it.index() as int))[line as int])
                &&& start + column <= total
            },
    {
        let ghost i = it.index() as int;
        let ghost before = split_lines(text@.take(i));
        let ghost after = split_lines(text@.take(i + 1));
        proof {
            assert(text@.take(i + 1).drop_last() =~= text@.take(i));
            assert(text@.take(i + 1).last() == c);
            lemma_utf16_len_step(text@, i);
            lemma_utf16_len_prefix(text@, i + 1);
            lemma_lines_cover_text(text@.take(i));
            if current_line >= line {
                lemma_units_before_agree(before, after, line as nat);
            }
        }
        if c == '\n' {
            total = total + 1;
            current_line = current_line + 1;
            if current_line == line as usize {
                start = total;
                column = 0;
                proof {
                    lemma_units_before_agree(before, after, (line - 1) as nat);
                }
            }
        } else {
            let units = char_units(c);
            total = total + units;
            if current_line == line as usize {
                column = column + units;
                proof {
                    assert(after[line as int].drop_last() =~= before[line as int]);
                    assert(after[line as int].last() == c);
                }
            }
        }
    }
    proof {
        assert(text@.take(text@.len() as int) =~= text@);
    }
    if current_line < line as usize {
        total
    } else if character as usize >= column {
        start + column
    } else {
        start + character as usize
    }
}

/// Turns an absolute offset in UTF-16 code units into an index into the
/// characters of `text`. An offset past the end gives the number of
/// characters; an offset inside a two-unit character gives that character.
pub fn char_index_of(text: &str, units: usize) -> (index: usize)
    ensures
        index == char_index_at(text@, units as nat),
        index <= text@.len(),
{
    let mut index: usize = 0;
    let mut used: usize = 0;
    let mut full = false;
    proof {
        assert(text@.take(0) =~= Seq::<char>::empty());
    }
    for c in it: text.chars()
        invariant
            it.seq() == text@,
            index <= it.index(),
            index <= used,
            !full ==> index == it.index(),
            full ==> index < text@.len() && utf16_len(text@.take(index + 1)) > units,
            used == utf16_len(text@.take(index as int)),
            used <= units,
    {
        if !full {
            let width = char_units(c);
            proof {
                lemma_utf16_len_step(text@, index as int);
            }
            if width <= units - used {
                used = used + width;
                index = index + 1;
            } else {
                full = true;
            }
        }
    }
    proof {
        lemma_char_index_at(text@, units as nat, index as int);
    }
    index
}

/// The text that results when the characters of `text` from index `start`
/// up to index `end` give way to `insert`. Indices past the end of the text
/// stand for its end, and where `end` lies before `start` nothing is taken
/// out: `insert` goes in at `start`.
pub open spec fn spliced(text: Seq<char>, start: nat, end: nat, insert: Seq<char>) -> Seq<char> {
    let from = if start <= text.len() {
        start
    } else {
        text.len()
    };
    let to = if end <= from {
        from
    } else if end <= text.len() {
        end
    } else {
        text.len()
    };
    text.take(from as int) + insert + text.skip(to as int)
}

/// A splice takes out what lies between its ends and puts in what it
/// inserts: the length changes by the difference of the two.
pub proof fn lemma_spliced_len(text: Seq<char>, start: nat, end: nat, insert: Seq<char>)
    requires
        start <= end <= text.len(),
    ensures
        spliced(text, start, end, insert).len() == text.len() - (end - start) + insert.len(),
        spliced(text, start, end, insert).take(start as int) == text.take(start as int),
        spliced(text, start, end, insert).skip((start + insert.len()) as int) == text.skip(end as int),
        spliced(text, start, end, insert).subrange(start as int, (start + insert.len()) as int) == insert,
{
    let out = spliced(text, start, end, insert);
    assert(out.take(start as int) =~= text.take(start as int));
    assert(out.skip((start + insert.len()) as int) =~= text.skip(end as int));
    assert(out.subrange(start as int, (start + insert.len()) as int) =~= insert);
}

/// Replaces the characters of `text` from index `start` up to index `end`
/// by `insert`.
pub fn splice(text: &str, start: usize, end: usize, insert: &str) -> (out: String)
    ensures
        out@ == spliced(text@, start as nat, end as nat, insert@),
{
    let len = text.unicode_len();
    let from = if start <= len {
        start
    } else {
        len
    };
    let to = if end <= from {
        from
    } else if end <= len {
        end
    } else {
        len
    };
    let mut out = String::from_str(text.substring_char(0, from));
    out.append(insert);
    out.append(text.substring_char(to, len));
    proof {
        assert(text@.subrange(0, from as int) =~= text@.take(from as int));
        assert(text@.subrange(to as int, len as int) =~= text@.skip(to as int));
    }
    out
}

} // verus!
