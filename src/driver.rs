use vstd::prelude::*;
use vstd::string::StringExecFns;
use vstd::utf8::{decode_utf8, valid_utf8};
use crate::config::Config;
use crate::count::{column, column_sum, count, sums_fit, total, FileInfo};
use crate::report::{file_line, file_line_text, total_line, total_line_text};

verus! {

/// What became of opening and reading one input.
pub enum Outcome {
    /// The input could not be opened, for the reason given.
    OpenFailed(String),
    /// The input was opened, but reading it failed.
    ReadFailed,
    /// The input's whole contents.
    Read(Vec<u8>),
}

/// What to write for one input.
#[derive(Debug)]
pub enum Message {
    /// A line for standard output.
    Stdout(String),
    /// A line for standard error.
    Stderr(String),
    /// Nothing at all.
    Silent,
}

/// The diagnostic for an input that could not be opened.
pub open spec fn open_error_text(name: Seq<char>, reason: Seq<char>) -> Seq<char> {
    name + seq![':', ' '] + reason
}

/// Decides what to write for the input `name`, and records its counts in
/// `counted` when it was read and counted.
///
/// An input that could not be opened gives a diagnostic naming it; one that
/// could not be read or is not UTF-8 text gives nothing and is not counted.
pub fn report_file(config: &Config, name: &str, outcome: &Outcome, counted: &mut Vec<FileInfo>) -> (r:
    Message)
    ensures
        match outcome {
            Outcome::OpenFailed(reason) => r matches Message::Stderr(m) && m@ == open_error_text(
                name@,
                reason@,
            ) && final(counted)@ == old(counted)@,
            Outcome::ReadFailed => r is Silent && final(counted)@ == old(counted)@,
            Outcome::Read(bytes) => if valid_utf8(bytes@) {
                exists|info: FileInfo|
                    {
                        &&& info.counts_of(decode_utf8(bytes@))
                        &&& info.num_bytes == bytes@.len()
                        &&& final(counted)@ == old(counted)@.push(info)
                        &&& r matches Message::Stdout(m) && m@ == file_line_text(
                            info,
                            config,
                            name@,
                        )
                    }
            } else {
                r is Silent && final(counted)@ == old(counted)@
            },
        },
{
    match outcome {
        Outcome::OpenFailed(reason) => {
            let mut m = String::from_str(name);
            m.append(": ");
            m.append(reason.as_str());
            proof {
                reveal_strlit(": ");
            }
            assert(m@ =~= open_error_text(name@, reason@));
            Message::Stderr(m)
        },
        Outcome::ReadFailed => Message::Silent,
        Outcome::Read(bytes) => match count(bytes.as_slice()) {
            Ok(info) => {
                counted.push(info);
                Message::Stdout(file_line(&info, config, name))
            },
            Err(_) => Message::Silent,
        },
    }
}

/// The total line after all inputs: present exactly when more than one
/// input was named and each column's sum over the counted inputs fits in a
/// `usize`; its numbers are those sums.
pub fn report_total(config: &Config, counted: &Vec<FileInfo>) -> (r: Option<String>)
    ensures
        r is Some <==> config.files.len() > 1 && sums_fit(counted@),
        r matches Some(s) ==> exists|t: FileInfo|
            {
                &&& forall|k: int| 0 <= k < 4 ==> #[trigger] column(t, k) == column_sum(
                    counted@,
                    k,
                )
                &&& s@ == total_line_text(t, config)
            },
{
    match total(counted) {
        Some(t) => total_line(&t, config),
        None => None,
    }
}

} // verus!
