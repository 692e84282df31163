use vstd::prelude::*;
use vstd::string::{StrSliceExecFns, StringExecFns};
use crate::config::{stdin_name, Config};
use crate::count::FileInfo;

verus! {

/// The width of every shown column.
pub const COLUMN_WIDTH: usize = 8;

/// The decimal digit for `d`, which is below ten.
pub open spec fn digit(d: nat) -> char {
    seq!['0', '1', '2', '3', '4', '5', '6', '7', '8', '9'][d as int]
}

/// The decimal notation of `n`, without leading zeros.
pub open spec fn decimal(n: nat) -> Seq<char>
    decreases n,
{
    if n < 10 {
        seq![digit(n)]
    } else {
        decimal(n / 10).push(digit(n % 10))
    }
}

/// `s` preceded by as many spaces as make it `width` long, if it is shorter.
pub open spec fn right_aligned(s: Seq<char>, width: nat) -> Seq<char> {
    if s.len() < width {
        Seq::new((width - s.len()) as nat, |i: int| ' ') + s
    } else {
        s
    }
}

/// The text of one column: the right-aligned number when shown, nothing
/// when hidden.
pub open spec fn field(value: nat, show: bool) -> Seq<char> {
    if show {
        right_aligned(decimal(value), COLUMN_WIDTH as nat)
    } else {
        seq![]
    }
}

/// The columns of `info` that the flags select, side by side.
pub open spec fn row(info: FileInfo, lines: bool, words: bool, bytes: bool, chars: bool) -> Seq<
    char,
> {
    field(info.num_lines as nat, lines) + field(info.num_words as nat, words) + field(
        info.num_bytes as nat,
        bytes,
    ) + field(info.num_chars as nat, chars)
}

/// The columns of `info` that `config` selects.
pub open spec fn config_row(info: FileInfo, config: &Config) -> Seq<char> {
    row(info, config.lines, config.words, config.bytes, config.chars)
}

/// The line printed for one input: its columns, then a space and its name
/// unless it is standard input.
pub open spec fn file_line_text(info: FileInfo, config: &Config, name: Seq<char>) -> Seq<char> {
    if name == stdin_name() {
        config_row(info, config)
    } else {
        config_row(info, config) + seq![' '] + name
    }
}

/// The line printed after several inputs: the columns of the totals, then
/// " total".
pub open spec fn total_line_text(totals: FileInfo, config: &Config) -> Seq<char> {
    config_row(totals, config) + seq![' ', 't', 'o', 't', 'a', 'l']
}

/// Each column is shown or hidden on its own: a hidden column contributes
/// no text, a shown one at least the column width, and a row is exactly its
/// columns side by side. With every column hidden the row is empty.
pub proof fn lemma_columns_independent(
    info: FileInfo,
    lines: bool,
    words: bool,
    bytes: bool,
    chars: bool,
)
    ensures
        row(info, false, false, false, false) == Seq::<char>::empty(),
        forall|v: nat| #[trigger] field(v, false) == Seq::<char>::empty(),
        forall|v: nat| #[trigger] field(v, true).len() >= COLUMN_WIDTH,
        row(info, lines, words, bytes, chars).len() == field(info.num_lines as nat, lines).len()
            + field(info.num_words as nat, words).len() + field(info.num_bytes as nat, bytes).len()
            + field(info.num_chars as nat, chars).len(),
{
    assert(row(info, false, false, false, false) =~= Seq::<char>::empty());
}

/// Relies on `ToString` for `usize`: the decimal notation of the number.
#[verifier::external_body]
fn decimal_string(value: usize) -> (r: String)
    ensures
        r@ == decimal(value as nat),
{
    value.to_string()
}

/// The text of one column: `value` right-aligned in eight characters when
/// `show` holds, else the empty string.
pub fn format_field(value: usize, show: bool) -> (r: String)
    ensures
        r@ == field(value as nat, show),
{
    if show {
        let digits = decimal_string(value);
        let len = digits.as_str().unicode_len();
        let mut r = String::new();
        let mut i: usize = len;
        while i < COLUMN_WIDTH
            invariant
                len <= i,
                i <= COLUMN_WIDTH || i == len,
                r@ == Seq::new((i - len) as nat, |j: int| ' '),
            decreases COLUMN_WIDTH - i,
        {
            r.append(" ");
            proof {
                reveal_strlit(" ");
            }
            assert(r@ =~= Seq::new((i + 1 - len) as nat, |j: int| ' '));
            i = i + 1;
        }
        r.append(digits.as_str());
        assert(r@ =~= right_aligned(decimal(value as nat), COLUMN_WIDTH as nat));
        r
    } else {
        String::new()
    }
}

/// The shown columns of `info`, side by side.
pub fn format_row(info: &FileInfo, config: &Config) -> (r: String)
    ensures
        r@ == config_row(*info, config),
{
    let mut r = format_field(info.num_lines, config.lines);
    r.append(format_field(info.num_words, config.words).as_str());
    r.append(format_field(info.num_bytes, config.bytes).as_str());
    r.append(format_field(info.num_chars, config.chars).as_str());
    r
}

/// The line printed for the input `name` with counts `info`.
pub fn file_line(info: &FileInfo, config: &Config, name: &str) -> (r: String)
    ensures
        r@ == file_line_text(*info, config, name@),
{
    let mut r = format_row(info, config);
    if name.unicode_len() == 1 && name.get_char(0) == '-' {
        assert(name@ =~= stdin_name());
    } else {
        r.append(" ");
        r.append(name);
        proof {
            reveal_strlit(" ");
        }
        assert(r@ =~= config_row(*info, config) + seq![' '] + name@);
    }
    r
}

/// The total line, printed only when more than one input was named.
pub fn total_line(totals: &FileInfo, config: &Config) -> (r: Option<String>)
    ensures
        r is Some <==> config.files.len() > 1,
        r matches Some(s) ==> s@ == total_line_text(*totals, config),
{
    if config.files.len() > 1 {
        let mut r = format_row(totals, config);
        r.append(" total");
        proof {
            reveal_strlit(" total");
        }
        assert(r@ =~= total_line_text(*totals, config));
        Some(r)
    } else {
        None
    }
}

} // verus!
