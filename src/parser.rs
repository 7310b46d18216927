use vstd::prelude::*;

verus! {

/// A run of the program: every argument as it was given, and whether a debug
/// flag was among them.
pub struct CommandLine {
    pub args: Vec<String>,
    pub debug: bool,
}

/// What the program is to do, decided from its arguments.
pub enum CommandLineProgram {
    Help,
    Version,
    Main(CommandLine),
}

/// The mathematical value of a `CommandLineProgram`: each argument is its
/// sequence of characters.
pub ghost enum ProgramMode {
    Help,
    Version,
    Main { args: Seq<Seq<char>>, debug: bool },
}

/// The characters of each argument, in order.
pub open spec fn tokens_of(args: Seq<String>) -> Seq<Seq<char>> {
    args.map_values(|a: String| a@)
}

impl View for CommandLineProgram {
    type V = ProgramMode;

    open spec fn view(&self) -> ProgramMode {
        match self {
            CommandLineProgram::Help => ProgramMode::Help,
            CommandLineProgram::Version => ProgramMode::Version,
            CommandLineProgram::Main(c) => ProgramMode::Main {
                args: tokens_of(c.args@),
                debug: c.debug,
            },
        }
    }
}

/// `-h` or `--help`.
pub open spec fn is_help_token(t: Seq<char>) -> bool {
    t == "-h"@ || t == "--help"@
}

/// `-v` or `--version`.
pub open spec fn is_version_token(t: Seq<char>) -> bool {
    t == "-v"@ || t == "--version"@
}

/// `-d` or `--debug`.
pub open spec fn is_debug_token(t: Seq<char>) -> bool {
    t == "-d"@ || t == "--debug"@
}

/// A token that ends the scan: help or version.
pub open spec fn is_terminal_token(t: Seq<char>) -> bool {
    is_help_token(t) || is_version_token(t)
}

/// A token that the parser acts on.
pub open spec fn is_recognized_token(t: Seq<char>) -> bool {
    is_terminal_token(t) || is_debug_token(t)
}

/// The three kinds of flag are told apart: no token is of two kinds.
pub proof fn lemma_token_kinds_distinct(t: Seq<char>)
    ensures
        !(is_help_token(t) && is_version_token(t)),
        !(is_help_token(t) && is_debug_token(t)),
        !(is_version_token(t) && is_debug_token(t)),
{
    reveal_strlit("-h");
    reveal_strlit("--help");
    reveal_strlit("-v");
    reveal_strlit("--version");
    reveal_strlit("-d");
    reveal_strlit("--debug");
    // Short forms differ in their second character, long forms in their third.
    if t.len() == 2 {
        assert(t[1] == 'h' || t[1] == 'v' || t[1] == 'd' || !(is_help_token(t) || is_version_token(t) || is_debug_token(t)));
    } else if t.len() > 2 {
        assert(t[2] == 'h' || t[2] == 'v' || t[2] == 'd' || !(is_help_token(t) || is_version_token(t) || is_debug_token(t)));
    }
}

/// No help or version token stands before position `n`.
pub open spec fn no_terminal_before(ts: Seq<Seq<char>>, n: int) -> bool {
    forall|j: int| 0 <= j < n && j < ts.len() ==> !is_terminal_token(#[trigger] ts[j])
}

/// The first help or version token of `ts` stands at position `i`.
pub open spec fn first_terminal_at(ts: Seq<Seq<char>>, i: int) -> bool {
    0 <= i < ts.len() && is_terminal_token(ts[i]) && no_terminal_before(ts, i)
}

/// Some debug token occurs in `ts`.
pub open spec fn has_debug_token(ts: Seq<Seq<char>>) -> bool {
    exists|j: int| 0 <= j < ts.len() && is_debug_token(#[trigger] ts[j])
}

/// The mode that the arguments `ts` select: the first help or version token
/// decides; without one the program runs with all of `ts` and with debug on
/// exactly when a debug token occurs.
pub open spec fn mode_of(ts: Seq<Seq<char>>) -> ProgramMode {
    if exists|i: int| #[trigger] first_terminal_at(ts, i) && is_help_token(ts[i]) {
        ProgramMode::Help
    } else if exists|i: int| #[trigger] first_terminal_at(ts, i) && is_version_token(ts[i]) {
        ProgramMode::Version
    } else {
        ProgramMode::Main { args: ts, debug: has_debug_token(ts) }
    }
}

impl CommandLineProgram {
    /// Scans `args` from first to last. A help or version flag ends the scan
    /// and selects that mode; a debug flag turns debug on; anything else is
    /// passed over. Without a help or version flag the program runs with all
    /// of `args`, unchanged.
    pub fn parse(args: Vec<String>) -> (r: CommandLineProgram)
        ensures
            r@ == mode_of(tokens_of(args@)),
    {
        let ghost ts = tokens_of(args@);
        let mut debug = false;
        let mut i: usize = 0;
        while i < args.len()
            invariant
                ts == tokens_of(args@),
                i <= args.len(),
                no_terminal_before(ts, i as int),
                debug == exists|j: int| 0 <= j < i && is_debug_token(#[trigger] ts[j]),
            decreases args.len() - i,
        {
            let a = args[i].as_str();
            assert(a@ == ts[i as int]);
            if same_text(a, "-h") || same_text(a, "--help") {
                assert(first_terminal_at(ts, i as int));
                return CommandLineProgram::Help;
            } else if same_text(a, "-d") || same_text(a, "--debug") {
                proof {
                    lemma_token_kinds_distinct(ts[i as int]);
                }
                debug = true;
            } else if same_text(a, "-v") || same_text(a, "--version") {
                assert(first_terminal_at(ts, i as int));
                return CommandLineProgram::Version;
            }
            i = i + 1;
        }
        let r = CommandLineProgram::Main(CommandLine { args, debug });
        assert(r@ =~= mode_of(ts));
        r
    }
}

/// Whether two strings hold the same characters.
fn same_text(a: &str, b: &str) -> (r: bool)
    ensures
        r == (a@ == b@),
{
    let n = a.unicode_len();
    if n != b.unicode_len() {
        return false;
    }
    let mut i: usize = 0;
    while i < n
        invariant
            n == a@.len(),
            n == b@.len(),
            i <= n,
            forall|j: int| 0 <= j < i ==> a@[j] == b@[j],
        decreases n - i,
    {
        if a.get_char(i) != b.get_char(i) {
            return false;
        }
        i = i + 1;
    }
    assert(a@ =~= b@);
    true
}

} // verus!
