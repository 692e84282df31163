use vstd::prelude::*;
use vstd::string::StringExecFns;

verus! {

/// The file name that stands for standard input.
pub open spec fn stdin_name() -> Seq<char> {
    seq!['-']
}

/// What to count and print: the inputs in order, and which columns to show.
#[derive(Debug)]
pub struct Config {
    pub files: Vec<String>,
    pub lines: bool,
    pub words: bool,
    pub bytes: bool,
    pub chars: bool,
}

/// A combination of command-line options that cannot be honoured.
#[derive(Debug, Clone, Copy, PartialEq, Eq, Structural)]
pub enum UsageError {
    /// Both the byte column and the character column were asked for.
    BytesWithChars,
}

impl Config {
    /// The names of the inputs, as character sequences.
    pub open spec fn file_names(&self) -> Seq<Seq<char>> {
        self.files@.map_values(|f: String| f@)
    }

    /// A resolved configuration: at least one input, at least one column,
    /// and never both the byte and the character column.
    pub open spec fn wf(&self) -> bool {
        &&& self.files.len() > 0
        &&& self.lines || self.words || self.bytes || self.chars
        &&& !(self.bytes && self.chars)
    }
}

/// Resolves parsed command-line options into a configuration.
///
/// With no input named, standard input ("-") is read. With no column asked
/// for, lines, words and bytes are shown. Asking for both bytes and
/// characters is refused.
pub fn get_args(files: Vec<String>, lines: bool, words: bool, bytes: bool, chars: bool) -> (r:
    Result<Config, UsageError>)
    ensures
        r is Err <==> bytes && chars,
        r matches Err(e) ==> e == UsageError::BytesWithChars,
        r matches Ok(c) ==> {
            &&& c.wf()
            &&& files.len() == 0 ==> c.file_names() == seq![stdin_name()]
            &&& files.len() > 0 ==> c.files@ == files@
            &&& !(lines || words || bytes || chars) ==> c.lines && c.words && c.bytes && !c.chars
            &&& (lines || words || bytes || chars) ==> (c.lines == lines && c.words == words
                && c.bytes == bytes && c.chars == chars)
        },
{
    if bytes && chars {
        return Err(UsageError::BytesWithChars);
    }
    let files = if files.len() == 0 {
        let name = String::from_str("-");
        proof {
            reveal_strlit("-");
            assert(name@ =~= stdin_name());
        }
        let mut v: Vec<String> = Vec::new();
        v.push(name);
        assert(v@.map_values(|f: String| f@) =~= seq![stdin_name()]);
        v
    } else {
        files
    };
    let mut config = Config { files, lines, words, bytes, chars };
    if !(lines || words || bytes || chars) {
        config.lines = true;
        config.words = true;
        config.bytes = true;
    }
    Ok(config)
}

} // verus!
