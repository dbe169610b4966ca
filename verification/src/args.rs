//! Parsing the command line into a run configuration.
//!
//! The raw argument list (program name first) is split into flag tokens,
//! which begin with `-`, and positional tokens. Recognized flags set the
//! write-mode and printing switches; unrecognized flags are ignored. The
//! first positional token is the target filepath and the second, if present,
//! the contents to write; further positionals are ignored.

use vstd::prelude::*;

use crate::errors::RunError;

verus! {

/// Whether a raw token is treated as a flag: it begins with `-`.
pub open spec fn is_flag_tok(tok: Seq<char>) -> bool {
    tok.len() > 0 && tok[0] == '-'
}

/// Whether a token is one of the two spellings that request append mode.
pub open spec fn sets_append(tok: Seq<char>) -> bool {
    tok == "--append"@ || tok == "-a"@
}

/// Whether a token is one of the two spellings that request truncation.
pub open spec fn sets_truncate(tok: Seq<char>) -> bool {
    tok == "--truncate"@ || tok == "-t"@
}

/// Whether a token is one of the two spellings that suppress printing.
pub open spec fn sets_no_print(tok: Seq<char>) -> bool {
    tok == "--no-print"@ || tok == "-np"@
}

/// Whether a token is one of the two spellings that request the help screen.
pub open spec fn sets_help(tok: Seq<char>) -> bool {
    tok == "--help"@ || tok == "-h"@
}

/// Whether some token in `toks` requests append mode.
pub open spec fn wants_append(toks: Seq<String>) -> bool
    decreases toks.len(),
{
    if toks.len() == 0 {
        false
    } else {
        sets_append(toks[0]@) || wants_append(toks.drop_first())
    }
}

/// Whether some token in `toks` requests truncation.
pub open spec fn wants_truncate(toks: Seq<String>) -> bool
    decreases toks.len(),
{
    if toks.len() == 0 {
        false
    } else {
        sets_truncate(toks[0]@) || wants_truncate(toks.drop_first())
    }
}

/// Whether some token in `toks` suppresses printing.
pub open spec fn wants_no_print(toks: Seq<String>) -> bool
    decreases toks.len(),
{
    if toks.len() == 0 {
        false
    } else {
        sets_no_print(toks[0]@) || wants_no_print(toks.drop_first())
    }
}

/// Whether some token in `toks` requests the help screen.
pub open spec fn wants_help(toks: Seq<String>) -> bool
    decreases toks.len(),
{
    if toks.len() == 0 {
        false
    } else {
        sets_help(toks[0]@) || wants_help(toks.drop_first())
    }
}

/// The flag tokens of `toks`, in order.
pub open spec fn flag_tokens(toks: Seq<String>) -> Seq<String>
    decreases toks.len(),
{
    if toks.len() == 0 {
        Seq::empty()
    } else if is_flag_tok(toks[0]@) {
        seq![toks[0]] + flag_tokens(toks.drop_first())
    } else {
        flag_tokens(toks.drop_first())
    }
}

/// The positional (non-flag) tokens of `toks`, in order.
pub open spec fn positional_args(toks: Seq<String>) -> Seq<String>
    decreases toks.len(),
{
    if toks.len() == 0 {
        Seq::empty()
    } else if is_flag_tok(toks[0]@) {
        positional_args(toks.drop_first())
    } else {
        seq![toks[0]] + positional_args(toks.drop_first())
    }
}

/// The tokens of one invocation: the raw argument list with the leading
/// program name dropped.
pub open spec fn cli_tokens(args: Seq<String>) -> Seq<String> {
    if args.len() == 0 {
        Seq::empty()
    } else {
        args.drop_first()
    }
}

/// Struct to store command line arguments.
#[derive(Debug, Clone)]
pub struct Args {
    pub filepath: String,
    pub contents: String,
    pub append: bool,
    pub truncate: bool,
    pub print_contents: bool,
}

/// The successful outcome of parsing an argument list.
#[derive(Debug, Clone)]
pub enum ParseOutcome {
    /// A help flag was present: the tool prints the help screen and exits
    /// successfully, whatever else was on the command line.
    Help,
    /// A configuration for one run. The filepath still has to be confirmed
    /// against the filesystem through [`Args::validate_filepath`].
    Run(Args),
}

impl Default for Args {
    /// The configuration before any argument is applied: empty filepath and
    /// contents, overwrite mode, printing enabled.
    fn default() -> (r: Self)
        ensures
            r.filepath@ == Seq::<char>::empty(),
            r.contents@ == Seq::<char>::empty(),
            !r.append,
            !r.truncate,
            r.print_contents,
    {
        Self {
            filepath: String::new(),
            contents: String::new(),
            append: false,
            truncate: false,
            print_contents: true,
        }
    }
}

/// Tests whether a raw token is a flag, that is, whether it begins with `-`.
fn is_flag_token(tok: &String) -> (r: bool)
    ensures
        r == is_flag_tok(tok@),
{
    let s: &str = tok.as_str();
    if s.unicode_len() == 0 {
        false
    } else {
        s.get_char(0) == '-'
    }
}

/// Tests whether a token is exactly one of a flag's two spellings.
fn token_is(tok: &String, long: &str, short: &str) -> (r: bool)
    ensures
        r == (tok@ == long@ || tok@ == short@),
{
    let long_owned: String = long.to_owned();
    if *tok == long_owned {
        return true;
    }
    let short_owned: String = short.to_owned();
    *tok == short_owned
}

impl Args {
    /// Filepath from args.
    pub fn filepath(&self) -> (r: &String)
        ensures
            r == &self.filepath,
    {
        &self.filepath
    }

    /// Contents from args.
    pub fn contents(&self) -> (r: &String)
        ensures
            r == &self.contents,
    {
        &self.contents
    }

    /// Flag given to the program i.e. `--append`.
    /// If present, the run appends `contents` to the file at `filepath`.
    /// If not present, the run overwrites the contents of that file.
    pub fn appendable(&self) -> (r: bool)
        ensures
            r == self.append,
    {
        self.append
    }

    /// Flag given to the program i.e. `--truncate`.
    /// If present, the run truncates the file at `filepath` before writing
    /// `contents` to it, whatever the append flag says.
    pub fn truncatable(&self) -> (r: bool)
        ensures
            r == self.truncate,
    {
        self.truncate
    }

    /// Flag given to the program i.e. `--no-print`.
    /// If present, the run does not print the written file to stdout.
    pub fn print_contents(&self) -> (r: bool)
        ensures
            r == self.print_contents,
    {
        self.print_contents
    }

    /// Applies every recognized flag among `flags` to this configuration;
    /// unrecognized flags are silently ignored. Returns whether a help flag
    /// was present, which short-circuits everything else at the caller.
    fn parse_flags(&mut self, flags: &[String]) -> (help: bool)
        ensures
            final(self).filepath == old(self).filepath,
            final(self).contents == old(self).contents,
            final(self).append == (old(self).append || wants_append(flags@)),
            final(self).truncate == (old(self).truncate || wants_truncate(flags@)),
            final(self).print_contents == (old(self).print_contents && !wants_no_print(flags@)),
            help == wants_help(flags@),
    {
        let mut help = false;
        let mut i: usize = 0;
        proof {
            assert(flags@.skip(0) =~= flags@);
        }
        while i < flags.len()
            invariant
                i <= flags.len(),
                self.filepath == old(self).filepath,
                self.contents == old(self).contents,
                (old(self).append || wants_append(flags@)) == (self.append || wants_append(
                    flags@.skip(i as int),
                )),
                (old(self).truncate || wants_truncate(flags@)) == (self.truncate || wants_truncate(
                    flags@.skip(i as int),
                )),
                (old(self).print_contents && !wants_no_print(flags@)) == (self.print_contents
                    && !wants_no_print(flags@.skip(i as int))),
                wants_help(flags@) == (help || wants_help(flags@.skip(i as int))),
            decreases flags.len() - i,
        {
            proof {
                assert(flags@.skip(i as int)[0] == flags@[i as int]);
                assert(flags@.skip(i as int).drop_first() =~= flags@.skip(i as int + 1));
            }
            let tok = &flags[i];
            if token_is(tok, "--append", "-a") {
                self.append = true;
            }
            if token_is(tok, "--truncate", "-t") {
                self.truncate = true;
            }
            if token_is(tok, "--no-print", "-np") {
                self.print_contents = false;
            }
            if token_is(tok, "--help", "-h") {
                help = true;
            }
            i = i + 1;
        }
        proof {
            assert(flags@.skip(flags@.len() as int) =~= Seq::<String>::empty());
        }
        help
    }

    /// Collects command line arguments. Takes full ownership of `args`,
    /// whose first element is the program name and is skipped.
    ///
    /// The result covers every argument list: a help flag anywhere wins and
    /// asks the caller to show the help screen; otherwise a missing first
    /// positional argument is the missing-filepath error; otherwise the
    /// configuration holds the first positional as filepath, the second (or
    /// the empty string) as contents, and the switches that the flag tokens
    /// request.
    pub fn from_env(args: Vec<String>) -> (r: Result<ParseOutcome, RunError>)
        ensures
            wants_help(cli_tokens(args@)) ==> r == Ok::<ParseOutcome, RunError>(
                ParseOutcome::Help,
            ),
            !wants_help(cli_tokens(args@)) && positional_args(cli_tokens(args@)).len() == 0 ==> r
                == Err::<ParseOutcome, RunError>(RunError::MissingFilepath),
            !wants_help(cli_tokens(args@)) && positional_args(cli_tokens(args@)).len() > 0 ==> ({
                let toks = cli_tokens(args@);
                let pos = positional_args(toks);
                r matches Ok(ParseOutcome::Run(a)) && a.filepath == pos[0] && a.contents@ == (
                if pos.len() > 1 {
                    pos[1]@
                } else {
                    Seq::<char>::empty()
                }) && a.append == wants_append(toks) && a.truncate == wants_truncate(toks)
                    && a.print_contents == !wants_no_print(toks)
            }),
    {
        if args.len() == 0 {
            return Err(RunError::MissingFilepath);
        }
        let mut flags: Vec<String> = Vec::new();
        let mut positionals: Vec<String> = Vec::new();
        let mut i: usize = 1;
        proof {
            assert(args@.drop_first() =~= args@.skip(1));
            assert(flags@ + flag_tokens(args@.skip(1)) =~= flag_tokens(args@.skip(1)));
            assert(positionals@ + positional_args(args@.skip(1)) =~= positional_args(
                args@.skip(1),
            ));
        }
        while i < args.len()
            invariant
                1 <= i <= args.len(),
                flag_tokens(cli_tokens(args@)) == flags@ + flag_tokens(args@.skip(i as int)),
                positional_args(cli_tokens(args@)) == positionals@ + positional_args(
                    args@.skip(i as int),
                ),
            decreases args.len() - i,
        {
            proof {
                assert(args@.skip(i as int)[0] == args@[i as int]);
                assert(args@.skip(i as int).drop_first() =~= args@.skip(i as int + 1));
            }
            let tok = &args[i];
            if is_flag_token(tok) {
                proof {
                    assert(flags@.push(args@[i as int]) =~= flags@ + seq![args@[i as int]]);
                    assert((flags@ + seq![args@[i as int]]) + flag_tokens(args@.skip(i as int + 1))
                        =~= flags@ + (seq![args@[i as int]] + flag_tokens(
                        args@.skip(i as int + 1),
                    )));
                }
                flags.push(tok.clone());
            } else {
                proof {
                    assert(positionals@.push(args@[i as int]) =~= positionals@ + seq![
                        args@[i as int],
                    ]);
                    assert((positionals@ + seq![args@[i as int]]) + positional_args(
                        args@.skip(i as int + 1),
                    ) =~= positionals@ + (seq![args@[i as int]] + positional_args(
                        args@.skip(i as int + 1),
                    )));
                }
                positionals.push(tok.clone());
            }
            i = i + 1;
        }
        proof {
            assert(args@.skip(args@.len() as int) =~= Seq::<String>::empty());
            assert(flags@ + flag_tokens(args@.skip(args@.len() as int)) =~= flags@);
            assert(positionals@ + positional_args(args@.skip(args@.len() as int))
                =~= positionals@);
            lemma_wants_of_flag_tokens(cli_tokens(args@));
        }
        let mut result = Args::default();
        let help = result.parse_flags(flags.as_slice());
        if help {
            return Ok(ParseOutcome::Help);
        }
        if positionals.len() == 0 {
            return Err(RunError::MissingFilepath);
        }
        result.filepath = positionals[0].clone();
        if positionals.len() > 1 {
            result.contents = positionals[1].clone();
        }
        Ok(ParseOutcome::Run(result))
    }

    /// Confirms that the parsed filepath names an existing regular file. The
    /// caller passes what the filesystem answered for that path; the
    /// configuration comes back unchanged exactly when the answer was yes,
    /// and the invalid-filepath error otherwise.
    pub fn validate_filepath(self, filepath_is_file: bool) -> (r: Result<Args, RunError>)
        ensures
            filepath_is_file ==> r == Ok::<Args, RunError>(self),
            !filepath_is_file ==> r == Err::<Args, RunError>(RunError::InvalidFilepath),
    {
        if filepath_is_file {
            Ok(self)
        } else {
            Err(RunError::InvalidFilepath)
        }
    }
}

/// The help screen, as one string: a title line with the tool's version,
/// the usage block, and the description of each option.
pub open spec fn spec_help_text() -> Seq<char> {
    "File Reader Writer - 0.1.0\n\n"@ + "Usage: "@
        + "file_reader_writer [filepath] [contents] [OPTIONS]\nExample: file_reader_writer ./tmp/my_file.txt \"Here is some content.\" -t\n\nOptions:\n    -a, --append        Appends new [contents] to the [filepath] file.\n    -t, --truncate      Truncates the [filepath] file before writing [contents] to it.\n                        Ignores --append option when used.\n    -np, --no-print     Doesn't print the output of the file after writing.\n    -h, --help          Shows this help screen.\n"@
}

/// Whether the text `Usage: ` occurs somewhere in `text`.
pub open spec fn contains_usage(text: Seq<char>) -> bool {
    exists|i: int| 0 <= i && i + 7 <= text.len() && #[trigger] text.skip(i).take(7) == "Usage: "@
}

/// Builds the help screen shown for the help flags. The caller prints it to
/// standard output and ends the run successfully.
pub fn help_text() -> (r: String)
    ensures
        r@ == spec_help_text(),
{
    let mut out = "File Reader Writer - 0.1.0\n\n".to_owned();
    out.append("Usage: ");
    out.append(
        "file_reader_writer [filepath] [contents] [OPTIONS]\nExample: file_reader_writer ./tmp/my_file.txt \"Here is some content.\" -t\n\nOptions:\n    -a, --append        Appends new [contents] to the [filepath] file.\n    -t, --truncate      Truncates the [filepath] file before writing [contents] to it.\n                        Ignores --append option when used.\n    -np, --no-print     Doesn't print the output of the file after writing.\n    -h, --help          Shows this help screen.\n",
    );
    out
}

/// Law: the help screen contains the literal text `Usage: `, so a help run
/// always shows a usage block.
pub proof fn lemma_help_text_has_usage()
    ensures
        contains_usage(spec_help_text()),
{
    reveal_strlit("File Reader Writer - 0.1.0\n\n");
    reveal_strlit("Usage: ");
    let text = spec_help_text();
    assert(text.skip(28int).take(7int) =~= "Usage: "@);
}

/// Restricting a token list to its flag tokens changes none of the
/// flag-derived settings: every recognized flag spelling begins with `-`, so
/// it is itself a flag token.
pub proof fn lemma_wants_of_flag_tokens(toks: Seq<String>)
    ensures
        wants_append(flag_tokens(toks)) == wants_append(toks),
        wants_truncate(flag_tokens(toks)) == wants_truncate(toks),
        wants_no_print(flag_tokens(toks)) == wants_no_print(toks),
        wants_help(flag_tokens(toks)) == wants_help(toks),
    decreases toks.len(),
{
    reveal_strlit("--append");
    reveal_strlit("-a");
    reveal_strlit("--truncate");
    reveal_strlit("-t");
    reveal_strlit("--no-print");
    reveal_strlit("-np");
    reveal_strlit("--help");
    reveal_strlit("-h");
    if toks.len() == 0 {
    } else {
        lemma_wants_of_flag_tokens(toks.drop_first());
        if is_flag_tok(toks[0]@) {
            let ft = flag_tokens(toks);
            assert(ft == seq![toks[0]] + flag_tokens(toks.drop_first()));
            assert(ft[0] == toks[0]);
            assert(ft.drop_first() =~= flag_tokens(toks.drop_first()));
        } else {
            assert(!sets_append(toks[0]@));
            assert(!sets_truncate(toks[0]@));
            assert(!sets_no_print(toks[0]@));
            assert(!sets_help(toks[0]@));
        }
    }
}

} // verus!
