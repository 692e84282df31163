use vstd::prelude::*;
use vstd::string::StringSliceAdditionalSpecFns;
use vstd::utf8::{decode_utf8, valid_utf8};
use crate::text::{
    byte_len, is_white_space, is_white_space_char, lemma_chars_le_bytes, lemma_lines_le_chars,
    lemma_words_le_chars, line_count, newline_count, word_count,
};

verus! {

/// The four counts of one input: lines, words, bytes and characters.
#[derive(Debug, Clone, Copy, PartialEq, Eq, Structural)]
pub struct FileInfo {
    pub num_lines: usize,
    pub num_words: usize,
    pub num_bytes: usize,
    pub num_chars: usize,
}

/// Why an input could not be counted.
#[derive(Debug, Clone, Copy, PartialEq, Eq, Structural)]
pub enum CountError {
    /// The input is not valid UTF-8 text.
    NotUtf8,
}

/// Column `k` of `info`: 0 lines, 1 words, 2 bytes, 3 characters.
pub open spec fn column(info: FileInfo, k: int) -> nat {
    if k == 0 {
        info.num_lines as nat
    } else if k == 1 {
        info.num_words as nat
    } else if k == 2 {
        info.num_bytes as nat
    } else {
        info.num_chars as nat
    }
}

/// The sum of column `k` over `infos`.
pub open spec fn column_sum(infos: Seq<FileInfo>, k: int) -> nat
    decreases infos.len(),
{
    if infos.len() == 0 {
        0
    } else {
        column_sum(infos.drop_last(), k) + column(infos.last(), k)
    }
}

/// Whether every column of `infos` sums to a `usize`.
pub open spec fn sums_fit(infos: Seq<FileInfo>) -> bool {
    forall|k: int| 0 <= k < 4 ==> #[trigger] column_sum(infos, k) <= usize::MAX
}

/// A partial sum is never above the whole.
pub proof fn lemma_column_sum_prefix(infos: Seq<FileInfo>, i: int, k: int)
    requires
        0 <= i <= infos.len(),
    ensures
        column_sum(infos.take(i), k) <= column_sum(infos, k),
    decreases infos.len() - i,
{
    if i < infos.len() {
        lemma_column_sum_prefix(infos, i + 1, k);
        assert(infos.take(i + 1).drop_last() == infos.take(i));
    } else {
        assert(infos.take(i) == infos);
    }
}

/// The total of two inputs is, column by column, the sum of their counts.
pub proof fn lemma_total_of_two(infos: Seq<FileInfo>)
    requires
        infos.len() == 2,
    ensures
        forall|k: int|
            0 <= k < 4 ==> #[trigger] column_sum(infos, k) == column(infos[0], k) + column(
                infos[1],
                k,
            ),
{
    assert forall|k: int| 0 <= k < 4 implies #[trigger] column_sum(infos, k) == column(infos[0], k)
        + column(infos[1], k) by {
        let first = infos.drop_last();
        assert(first.drop_last() =~= Seq::<FileInfo>::empty());
        assert(column_sum(first, k) == column_sum(first.drop_last(), k) + column(first.last(), k));
        assert(column_sum(infos, k) == column_sum(first, k) + column(infos.last(), k));
    }
}

impl FileInfo {
    /// All four counts are zero.
    pub fn zero() -> (r: FileInfo)
        ensures
            r.num_lines == 0 && r.num_words == 0 && r.num_bytes == 0 && r.num_chars == 0,
    {
        FileInfo { num_lines: 0, num_words: 0, num_bytes: 0, num_chars: 0 }
    }

    /// Each column of `total` is that of `self` plus that of `other`.
    pub open spec fn is_sum(self, other: FileInfo, total: FileInfo) -> bool {
        forall|k: int| 0 <= k < 4 ==> #[trigger] column(total, k) == column(self, k) + column(
            other,
            k,
        )
    }

    /// Adds the counts of `other` column by column, or gives `None` when a
    /// sum does not fit in a `usize`.
    pub fn checked_add(&self, other: &FileInfo) -> (r: Option<FileInfo>)
        ensures
            r is Some <==> forall|k: int| 0 <= k < 4 ==> #[trigger] column(*self, k) + column(
                *other,
                k,
            ) <= usize::MAX,
            r matches Some(t) ==> self.is_sum(*other, t),
    {
        match (
            self.num_lines.checked_add(other.num_lines),
            self.num_words.checked_add(other.num_words),
            self.num_bytes.checked_add(other.num_bytes),
            self.num_chars.checked_add(other.num_chars),
        ) {
            (Some(num_lines), Some(num_words), Some(num_bytes), Some(num_chars)) => {
                let t = FileInfo { num_lines, num_words, num_bytes, num_chars };
                assert(self.is_sum(*other, t));
                Some(t)
            },
            (l, w, b, c) => {
                assert(l is None ==> !(column(*self, 0) + column(*other, 0) <= usize::MAX));
                assert(w is None ==> !(column(*self, 1) + column(*other, 1) <= usize::MAX));
                assert(b is None ==> !(column(*self, 2) + column(*other, 2) <= usize::MAX));
                assert(c is None ==> !(column(*self, 3) + column(*other, 3) <= usize::MAX));
                None
            },
        }
    }

    /// These are the counts of the text `s`.
    pub open spec fn counts_of(self, s: Seq<char>) -> bool {
        &&& self.num_lines == line_count(s)
        &&& self.num_words == word_count(s)
        &&& self.num_bytes == byte_len(s)
        &&& self.num_chars == s.len()
    }
}

/// Relies on std::str::from_utf8: the bytes are returned as a string slice
/// exactly when they are valid UTF-8.
#[verifier::external_body]
fn decode(bytes: &[u8]) -> (r: Option<&str>)
    ensures
        r is Some <==> valid_utf8(bytes@),
        r matches Some(s) ==> s.spec_bytes() == bytes@,
{
    std::str::from_utf8(bytes).ok()
}

/// Counts the lines, words and characters of `text`, whose UTF-8 encoding
/// is `num_bytes` long.
fn count_text(text: &str, num_bytes: usize) -> (r: FileInfo)
    requires
        byte_len(text@) == num_bytes,
    ensures
        r.counts_of(text@),
{
    let ghost s = text@;
    proof {
        lemma_chars_le_bytes(s);
    }
    let mut num_newlines: usize = 0;
    let mut num_words: usize = 0;
    let mut num_chars: usize = 0;
    let mut in_word = false;
    let mut open_line = false;
    for c in it: text.chars()
        invariant
            it.seq() == s,
            s.len() <= num_bytes,
            num_chars == it.index(),
            num_newlines == newline_count(s.take(it.index() as int)),
            num_words == word_count(s.take(it.index() as int)),
            num_newlines <= num_chars,
            num_words <= num_chars,
            in_word == (it.index() > 0 && !is_white_space(s[it.index() - 1])),
            open_line == (it.index() > 0 && s[it.index() - 1] != '\n'),
    {
        let ghost i = it.index() as int;
        assert(s.take(i + 1).drop_last() == s.take(i));
        let space = is_white_space_char(c);
        if !space && !in_word {
            num_words = num_words + 1;
        }
        if c == '\n' {
            num_newlines = num_newlines + 1;
        }
        in_word = !space;
        open_line = c != '\n';
        num_chars = num_chars + 1;
    }
    assert(s.take(s.len() as int) == s);
    proof {
        lemma_lines_le_chars(s);
    }
    FileInfo {
        num_lines: num_newlines + if open_line { 1 } else { 0 },
        num_words,
        num_bytes,
        num_chars,
    }
}

/// Counts the lines, words, bytes and characters of an input, or fails
/// when the input is not UTF-8 text.
pub fn count(input: &[u8]) -> (r: Result<FileInfo, CountError>)
    ensures
        r is Ok <==> valid_utf8(input@),
        r matches Ok(info) ==> info.counts_of(decode_utf8(input@)) && info.num_bytes
            == input@.len(),
        r matches Ok(info) ==> info.num_lines <= info.num_chars && info.num_words <= info.num_chars
            && info.num_chars <= info.num_bytes,
{
    match decode(input) {
        Some(text) => {
            proof {
                vstd::utf8::encode_utf8_decode_utf8(text@);
                lemma_chars_le_bytes(text@);
                lemma_lines_le_chars(text@);
                lemma_words_le_chars(text@);
            }
            Ok(count_text(text, input.len()))
        },
        None => Err(CountError::NotUtf8),
    }
}

/// The column-by-column sum of `infos`, or `None` when a column's sum does
/// not fit in a `usize`.
pub fn total(infos: &Vec<FileInfo>) -> (r: Option<FileInfo>)
    ensures
        r is Some <==> sums_fit(infos@),
        r matches Some(t) ==> forall|k: int| 0 <= k < 4 ==> #[trigger] column(t, k) == column_sum(
            infos@,
            k,
        ),
{
    let mut t = FileInfo::zero();
    let mut i: usize = 0;
    while i < infos.len()
        invariant
            i <= infos.len(),
            forall|k: int| 0 <= k < 4 ==> #[trigger] column(t, k) == column_sum(
                infos@.take(i as int),
                k,
            ),
        decreases infos.len() - i,
    {
        let ghost s = infos@;
        assert(s.take(i + 1).drop_last() == s.take(i as int));
        match t.checked_add(&infos[i]) {
            Some(next) => {
                t = next;
            },
            None => {
                proof {
                    let k = choose|k: int|
                        0 <= k < 4 && !(#[trigger] column(t, k) + column(infos[i as int], k)
                            <= usize::MAX);
                    lemma_column_sum_prefix(s, i + 1, k);
                    assert(column_sum(s.take(i + 1), k) == column(t, k) + column(s[i as int], k));
                    assert(!(column_sum(s, k) <= usize::MAX));
                }
                return None;
            },
        }
        i = i + 1;
    }
    assert(infos@.take(i as int) == infos@);
    assert forall|k: int| 0 <= k < 4 implies #[trigger] column_sum(infos@, k) <= usize::MAX by {
        assert(column(t, k) == column_sum(infos@, k));
    }
    Some(t)
}

} // verus!
