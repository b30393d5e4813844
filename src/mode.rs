//! The argument classifier: turns the process arguments into exactly one
//! operating mode, a request for help, or a usage error.
use vstd::prelude::*;
use crate::options::texts;
use crate::text::str_eq;
use vstd::string::StrSliceExecFns;

verus! {

/// Flags, numbered. Those from `FIRST_VALUED` on take the next argument as their value.
pub const HELP: usize = 0;
pub const VERSION: usize = 1;
pub const VERBOSE: usize = 2;
pub const SPAMMY: usize = 3;
pub const QUIET: usize = 4;
pub const NO_DUMP: usize = 5;
pub const RAINBOW: usize = 6;
pub const RANDOMIZE: usize = 7;
pub const PARALLEL: usize = 8;
pub const MEMORY_USAGE: usize = 9;
pub const WITH_DEPS: usize = 10;
pub const LOAD_OUTPUT_DIRS: usize = 11;
pub const WITH_PROC_MACRO: usize = 12;
pub const ALL: usize = 13;
pub const FIRST_VALUED: usize = 14;
pub const ONLY: usize = 14;
pub const PROJECT: usize = 15;
pub const HIGHLIGHT: usize = 16;
pub const COMPLETE: usize = 17;
pub const GOTO_DEF: usize = 18;
pub const DEBUG: usize = 19;
pub const N_FLAGS: usize = 20;

/// How one argument reads.
#[derive(Clone, Copy, Debug, PartialEq, Eq, Structural)]
pub enum Token {
    Flag(usize),
    Free,
    Unknown,
}

/// The operating modes.
#[derive(Clone, Copy, Debug, PartialEq, Eq, Structural)]
pub enum CommandKind {
    RunServer,
    ProcMacro,
    Parse,
    Symbols,
    Highlight,
    Stats,
    Bench,
    Diagnostics,
    Ssr,
    Search,
    Version,
}

#[derive(Clone, Copy, Debug, PartialEq, Eq, Structural)]
pub enum UsageErrorKind {
    /// An argument that starts with `-` and names no flag.
    UnknownFlag,
    /// A flag that takes a value stands last.
    MissingValue,
    /// Two flags that exclude each other.
    ConflictingFlags,
    /// A command word that names no mode.
    UnknownCommand,
    /// A flag that the selected mode does not take.
    UnexpectedFlag,
    /// The mode got more or fewer operands than it takes.
    WrongOperandCount,
    /// The benchmark mode needs exactly one of its three targets.
    BenchTarget,
}

/// A usage error, with the position of the offending argument.
#[derive(Clone, Copy, Debug, PartialEq, Eq, Structural)]
pub struct UsageError {
    pub kind: UsageErrorKind,
    pub at: usize,
}

#[derive(Clone, Copy, Debug, PartialEq, Eq, Structural)]
pub enum Verbosity {
    Spammy,
    Verbose,
    Normal,
    Quiet,
}

/// What the benchmark mode measures; positions are written `file:line:column`.
pub enum BenchWhat {
    Highlight { path: String },
    Complete(String),
    GotoDef(String),
}

/// The operating mode with its parameters.
pub enum Command {
    RunServer,
    ProcMacro,
    Parse { no_dump: bool },
    Symbols,
    Highlight { rainbow: bool },
    Stats {
        randomize: bool,
        parallel: bool,
        memory_usage: bool,
        only: Option<String>,
        with_deps: bool,
        path: String,
        load_output_dirs: bool,
        with_proc_macro: bool,
    },
    Bench {
        memory_usage: bool,
        project: Option<String>,
        what: BenchWhat,
        load_output_dirs: bool,
        with_proc_macro: bool,
    },
    Diagnostics { path: String, load_output_dirs: bool, with_proc_macro: bool, all: bool },
    Ssr { rules: Vec<String> },
    StructuredSearch { patterns: Vec<String>, debug_snippet: Option<String> },
    Version,
}

/// A selected mode and the verbosity it runs with.
pub struct Args {
    pub verbosity: Verbosity,
    pub command: Command,
}

/// The outcome of a classification that did not fail.
pub enum Invocation {
    /// Help was asked for; the caller prints usage and exits successfully.
    Help,
    Run(Args),
}

/// The flags and operands found in the arguments: for each flag the position
/// where it last stood, and the positions of the free arguments in order.
pub struct ScanModel {
    pub seen: Seq<Option<usize>>,
    pub free: Seq<usize>,
}

/// What classification decides, with the scan it read the parameters from.
pub enum Outcome {
    Help,
    Run(Verbosity, CommandKind, ScanModel),
}

pub open spec fn token_of(t: Seq<char>) -> Token {
    if t == "-h"@ || t == "--help"@ {
        Token::Flag(HELP)
    } else if t == "--version"@ {
        Token::Flag(VERSION)
    } else if t == "-v"@ || t == "--verbose"@ {
        Token::Flag(VERBOSE)
    } else if t == "-vv"@ || t == "--spammy"@ {
        Token::Flag(SPAMMY)
    } else if t == "-q"@ || t == "--quiet"@ {
        Token::Flag(QUIET)
    } else if t == "--no-dump"@ {
        Token::Flag(NO_DUMP)
    } else if t == "--rainbow"@ {
        Token::Flag(RAINBOW)
    } else if t == "--randomize"@ {
        Token::Flag(RANDOMIZE)
    } else if t == "--parallel"@ {
        Token::Flag(PARALLEL)
    } else if t == "--memory-usage"@ {
        Token::Flag(MEMORY_USAGE)
    } else if t == "--with-deps"@ {
        Token::Flag(WITH_DEPS)
    } else if t == "--load-output-dirs"@ {
        Token::Flag(LOAD_OUTPUT_DIRS)
    } else if t == "--with-proc-macro"@ {
        Token::Flag(WITH_PROC_MACRO)
    } else if t == "--all"@ {
        Token::Flag(ALL)
    } else if t == "-o"@ || t == "--only"@ {
        Token::Flag(ONLY)
    } else if t == "--project"@ {
        Token::Flag(PROJECT)
    } else if t == "--highlight"@ {
        Token::Flag(HIGHLIGHT)
    } else if t == "--complete"@ {
        Token::Flag(COMPLETE)
    } else if t == "--goto-def"@ {
        Token::Flag(GOTO_DEF)
    } else if t == "--debug"@ {
        Token::Flag(DEBUG)
    } else if t.len() > 0 && t[0] == '-' {
        Token::Unknown
    } else {
        Token::Free
    }
}

pub open spec fn command_named(t: Seq<char>) -> Option<CommandKind> {
    if t == "parse"@ {
        Some(CommandKind::Parse)
    } else if t == "symbols"@ {
        Some(CommandKind::Symbols)
    } else if t == "highlight"@ {
        Some(CommandKind::Highlight)
    } else if t == "analysis-stats"@ {
        Some(CommandKind::Stats)
    } else if t == "analysis-bench"@ {
        Some(CommandKind::Bench)
    } else if t == "diagnostics"@ {
        Some(CommandKind::Diagnostics)
    } else if t == "proc-macro"@ {
        Some(CommandKind::ProcMacro)
    } else if t == "ssr"@ {
        Some(CommandKind::Ssr)
    } else if t == "search"@ {
        Some(CommandKind::Search)
    } else {
        None
    }
}

/// Whether a mode takes a flag; the help and verbosity flags go with every mode.
pub open spec fn allowed(kind: CommandKind, k: usize) -> bool {
    k == HELP || k == VERBOSE || k == SPAMMY || k == QUIET || match kind {
        CommandKind::Parse => k == NO_DUMP,
        CommandKind::Highlight => k == RAINBOW,
        CommandKind::Stats => k == RANDOMIZE || k == PARALLEL || k == MEMORY_USAGE || k == ONLY
            || k == WITH_DEPS || k == LOAD_OUTPUT_DIRS || k == WITH_PROC_MACRO,
        CommandKind::Bench => k == MEMORY_USAGE || k == PROJECT || k == HIGHLIGHT || k == COMPLETE
            || k == GOTO_DEF || k == LOAD_OUTPUT_DIRS || k == WITH_PROC_MACRO,
        CommandKind::Diagnostics => k == LOAD_OUTPUT_DIRS || k == WITH_PROC_MACRO || k == ALL,
        CommandKind::Search => k == DEBUG,
        _ => false,
    }
}

/// How many operands a mode takes, where the number is fixed.
pub open spec fn operand_count(kind: CommandKind) -> Option<nat> {
    match kind {
        CommandKind::Stats | CommandKind::Diagnostics => Some(1),
        CommandKind::Ssr | CommandKind::Search | CommandKind::RunServer | CommandKind::Version => None,
        _ => Some(0),
    }
}

pub open spec fn initial_scan() -> ScanModel {
    ScanModel { seen: Seq::new(N_FLAGS as nat, |k: int| None), free: Seq::empty() }
}

/// Reads the arguments from position `i` on, from the scan so far.
pub open spec fn scan_from(args: Seq<Seq<char>>, i: int, st: ScanModel) -> Result<ScanModel, UsageError>
    decreases args.len() - i,
{
    if i < 0 || i >= args.len() {
        Ok(st)
    } else {
        match token_of(args[i]) {
            Token::Flag(k) => if k < FIRST_VALUED {
                scan_from(args, i + 1, ScanModel { seen: st.seen.update(k as int, Some(i as usize)), ..st })
            } else if i + 1 < args.len() {
                scan_from(args, i + 2, ScanModel { seen: st.seen.update(k as int, Some(i as usize)), ..st })
            } else {
                Err(UsageError { kind: UsageErrorKind::MissingValue, at: i as usize })
            },
            Token::Free => scan_from(args, i + 1, ScanModel { free: st.free.push(i as usize), ..st }),
            Token::Unknown => Err(UsageError { kind: UsageErrorKind::UnknownFlag, at: i as usize }),
        }
    }
}

/// The position of the first flag, from `k` on, that was given but that the mode does not take.
pub open spec fn first_stray(seen: Seq<Option<usize>>, kind: CommandKind, k: int) -> Option<usize>
    decreases N_FLAGS - k,
{
    if k < 0 || k >= N_FLAGS {
        None
    } else if seen[k] is Some && !allowed(kind, k as usize) {
        seen[k]
    } else {
        first_stray(seen, kind, k + 1)
    }
}

pub open spec fn verbosity_of(seen: Seq<Option<usize>>) -> Result<Verbosity, UsageError> {
    if seen[QUIET as int] is Some && (seen[SPAMMY as int] is Some || seen[VERBOSE as int] is Some) {
        Err(UsageError { kind: UsageErrorKind::ConflictingFlags, at: seen[QUIET as int]->0 })
    } else if seen[SPAMMY as int] is Some {
        Ok(Verbosity::Spammy)
    } else if seen[VERBOSE as int] is Some {
        Ok(Verbosity::Verbose)
    } else if seen[QUIET as int] is Some {
        Ok(Verbosity::Quiet)
    } else {
        Ok(Verbosity::Normal)
    }
}

/// The number of benchmark targets given.
pub open spec fn bench_targets(seen: Seq<Option<usize>>) -> nat {
    (if seen[HIGHLIGHT as int] is Some { 1nat } else { 0nat }) + (if seen[COMPLETE as int] is Some {
        1nat
    } else {
        0nat
    }) + (if seen[GOTO_DEF as int] is Some { 1nat } else { 0nat })
}

/// The checks of a mode once its command word is known.
pub open spec fn check_mode(kind: CommandKind, v: Verbosity, st: ScanModel, word_at: usize) -> Result<Outcome, UsageError> {
    if first_stray(st.seen, kind, 0) is Some {
        Err(UsageError { kind: UsageErrorKind::UnexpectedFlag, at: first_stray(st.seen, kind, 0)->0 })
    } else if operand_count(kind) is Some && st.free.len() - 1 != operand_count(kind)->0 {
        Err(UsageError { kind: UsageErrorKind::WrongOperandCount, at: word_at })
    } else if kind == CommandKind::Bench && bench_targets(st.seen) != 1 {
        Err(UsageError { kind: UsageErrorKind::BenchTarget, at: word_at })
    } else {
        Ok(Outcome::Run(v, kind, st))
    }
}

/// The classification of the arguments (the program name not among them).
pub open spec fn classify(args: Seq<Seq<char>>) -> Result<Outcome, UsageError> {
    match scan_from(args, 0, initial_scan()) {
        Err(e) => Err(e),
        Ok(st) => if st.seen[VERSION as int] is Some {
            if args.len() == 1 {
                Ok(Outcome::Run(Verbosity::Normal, CommandKind::Version, st))
            } else {
                Err(UsageError { kind: UsageErrorKind::ConflictingFlags, at: st.seen[VERSION as int]->0 })
            }
        } else {
            match verbosity_of(st.seen) {
                Err(e) => Err(e),
                Ok(v) => if st.seen[HELP as int] is Some {
                    Ok(Outcome::Help)
                } else if st.free.len() == 0 {
                    if first_stray(st.seen, CommandKind::RunServer, 0) is Some {
                        Err(UsageError {
                            kind: UsageErrorKind::UnexpectedFlag,
                            at: first_stray(st.seen, CommandKind::RunServer, 0)->0,
                        })
                    } else {
                        Ok(Outcome::Run(v, CommandKind::RunServer, st))
                    }
                } else {
                    match command_named(args[st.free[0] as int]) {
                        None => Err(UsageError { kind: UsageErrorKind::UnknownCommand, at: st.free[0] }),
                        Some(kind) => check_mode(kind, v, st, st.free[0]),
                    }
                },
            }
        },
    }
}

/// Whether flag `k` was given.
pub open spec fn given(st: ScanModel, k: usize) -> bool {
    st.seen[k as int] is Some
}

/// The value that follows a valued flag, if the flag was given.
pub open spec fn value_of(args: Seq<Seq<char>>, st: ScanModel, k: usize) -> Option<Seq<char>> {
    match st.seen[k as int] {
        Some(p) => Some(args[p + 1]),
        None => None,
    }
}

/// The free arguments after the command word.
pub open spec fn operands(args: Seq<Seq<char>>, st: ScanModel) -> Seq<Seq<char>> {
    st.free.drop_first().map_values(|j: usize| args[j as int])
}

pub open spec fn opt_text(o: Option<String>) -> Option<Seq<char>> {
    match o {
        Some(s) => Some(s@),
        None => None,
    }
}

/// Whether `c` is the mode `kind` with the parameters that the scan gives.
pub open spec fn describes(args: Seq<Seq<char>>, st: ScanModel, kind: CommandKind, c: Command) -> bool {
    match (kind, c) {
        (CommandKind::RunServer, Command::RunServer) => true,
        (CommandKind::ProcMacro, Command::ProcMacro) => true,
        (CommandKind::Version, Command::Version) => true,
        (CommandKind::Symbols, Command::Symbols) => true,
        (CommandKind::Parse, Command::Parse { no_dump }) => no_dump == given(st, NO_DUMP),
        (CommandKind::Highlight, Command::Highlight { rainbow }) => rainbow == given(st, RAINBOW),
        (
            CommandKind::Stats,
            Command::Stats {
                randomize,
                parallel,
                memory_usage,
                only,
                with_deps,
                path,
                load_output_dirs,
                with_proc_macro,
            },
        ) => {
            &&& randomize == given(st, RANDOMIZE)
            &&& parallel == given(st, PARALLEL)
            &&& memory_usage == given(st, MEMORY_USAGE)
            &&& opt_text(only) == value_of(args, st, ONLY)
            &&& with_deps == given(st, WITH_DEPS)
            &&& seq![path@] == operands(args, st)
            &&& load_output_dirs == given(st, LOAD_OUTPUT_DIRS)
            &&& with_proc_macro == given(st, WITH_PROC_MACRO)
        },
        (
            CommandKind::Bench,
            Command::Bench { memory_usage, project, what, load_output_dirs, with_proc_macro },
        ) => {
            &&& memory_usage == given(st, MEMORY_USAGE)
            &&& opt_text(project) == value_of(args, st, PROJECT)
            &&& load_output_dirs == given(st, LOAD_OUTPUT_DIRS)
            &&& with_proc_macro == given(st, WITH_PROC_MACRO)
            &&& match what {
                BenchWhat::Highlight { path } => Some(path@) == value_of(args, st, HIGHLIGHT),
                BenchWhat::Complete(pos) => Some(pos@) == value_of(args, st, COMPLETE),
                BenchWhat::GotoDef(pos) => Some(pos@) == value_of(args, st, GOTO_DEF),
            }
        },
        (
            CommandKind::Diagnostics,
            Command::Diagnostics { path, load_output_dirs, with_proc_macro, all },
        ) => {
            &&& seq![path@] == operands(args, st)
            &&& load_output_dirs == given(st, LOAD_OUTPUT_DIRS)
            &&& with_proc_macro == given(st, WITH_PROC_MACRO)
            &&& all == given(st, ALL)
        },
        (CommandKind::Ssr, Command::Ssr { rules }) => texts(rules@) == operands(args, st),
        (CommandKind::Search, Command::StructuredSearch { patterns, debug_snippet }) => {
            &&& texts(patterns@) == operands(args, st)
            &&& opt_text(debug_snippet) == value_of(args, st, DEBUG)
        },
        _ => false,
    }
}

/// The positions that a scan of `n` arguments records lie inside the arguments.
pub open spec fn scan_wf(n: nat, st: ScanModel) -> bool {
    &&& st.seen.len() == N_FLAGS
    &&& forall|k: int| 0 <= k < N_FLAGS && #[trigger] st.seen[k] is Some ==> st.seen[k]->0 + (if k
        >= FIRST_VALUED {
        1int
    } else {
        0int
    }) < n
    &&& forall|j: int| 0 <= j < st.free.len() ==> #[trigger] st.free[j] < n
}

/// Whether a classification result matches the specification of the arguments.
pub open spec fn classified_as(args: Seq<Seq<char>>, r: Result<Invocation, UsageError>) -> bool {
    match (r, classify(args)) {
        (Ok(Invocation::Help), Ok(Outcome::Help)) => true,
        (Ok(Invocation::Run(a)), Ok(Outcome::Run(v, kind, st))) => a.verbosity == v && describes(
            args,
            st,
            kind,
            a.command,
        ),
        (Err(e1), Err(e2)) => e1 == e2,
        _ => false,
    }
}

/// The exec form of a scan.
pub struct Scan {
    pub seen: Vec<Option<usize>>,
    pub free: Vec<usize>,
}

impl View for Scan {
    type V = ScanModel;

    open spec fn view(&self) -> ScanModel {
        ScanModel { seen: self.seen@, free: self.free@ }
    }
}

/// Reads one argument.
pub fn token(t: &str) -> (r: Token)
    ensures
        r == token_of(t@),
{
    if str_eq(t, "-h") || str_eq(t, "--help") {
        Token::Flag(HELP)
    } else if str_eq(t, "--version") {
        Token::Flag(VERSION)
    } else if str_eq(t, "-v") || str_eq(t, "--verbose") {
        Token::Flag(VERBOSE)
    } else if str_eq(t, "-vv") || str_eq(t, "--spammy") {
        Token::Flag(SPAMMY)
    } else if str_eq(t, "-q") || str_eq(t, "--quiet") {
        Token::Flag(QUIET)
    } else if str_eq(t, "--no-dump") {
        Token::Flag(NO_DUMP)
    } else if str_eq(t, "--rainbow") {
        Token::Flag(RAINBOW)
    } else if str_eq(t, "--randomize") {
        Token::Flag(RANDOMIZE)
    } else if str_eq(t, "--parallel") {
        Token::Flag(PARALLEL)
    } else if str_eq(t, "--memory-usage") {
        Token::Flag(MEMORY_USAGE)
    } else if str_eq(t, "--with-deps") {
        Token::Flag(WITH_DEPS)
    } else if str_eq(t, "--load-output-dirs") {
        Token::Flag(LOAD_OUTPUT_DIRS)
    } else if str_eq(t, "--with-proc-macro") {
        Token::Flag(WITH_PROC_MACRO)
    } else if str_eq(t, "--all") {
        Token::Flag(ALL)
    } else if str_eq(t, "-o") || str_eq(t, "--only") {
        Token::Flag(ONLY)
    } else if str_eq(t, "--project") {
        Token::Flag(PROJECT)
    } else if str_eq(t, "--highlight") {
        Token::Flag(HIGHLIGHT)
    } else if str_eq(t, "--complete") {
        Token::Flag(COMPLETE)
    } else if str_eq(t, "--goto-def") {
        Token::Flag(GOTO_DEF)
    } else if str_eq(t, "--debug") {
        Token::Flag(DEBUG)
    } else if t.unicode_len() > 0 && t.get_char(0) == '-' {
        Token::Unknown
    } else {
        Token::Free
    }
}

/// The mode that a command word names.
pub fn command_word(t: &str) -> (r: Option<CommandKind>)
    ensures
        r == command_named(t@),
{
    if str_eq(t, "parse") {
        Some(CommandKind::Parse)
    } else if str_eq(t, "symbols") {
        Some(CommandKind::Symbols)
    } else if str_eq(t, "highlight") {
        Some(CommandKind::Highlight)
    } else if str_eq(t, "analysis-stats") {
        Some(CommandKind::Stats)
    } else if str_eq(t, "analysis-bench") {
        Some(CommandKind::Bench)
    } else if str_eq(t, "diagnostics") {
        Some(CommandKind::Diagnostics)
    } else if str_eq(t, "proc-macro") {
        Some(CommandKind::ProcMacro)
    } else if str_eq(t, "ssr") {
        Some(CommandKind::Ssr)
    } else if str_eq(t, "search") {
        Some(CommandKind::Search)
    } else {
        None
    }
}

/// Whether a mode takes a flag.
pub fn allows(kind: CommandKind, k: usize) -> (r: bool)
    ensures
        r == allowed(kind, k),
{
    k == HELP || k == VERBOSE || k == SPAMMY || k == QUIET || match kind {
        CommandKind::Parse => k == NO_DUMP,
        CommandKind::Highlight => k == RAINBOW,
        CommandKind::Stats => k == RANDOMIZE || k == PARALLEL || k == MEMORY_USAGE || k == ONLY
            || k == WITH_DEPS || k == LOAD_OUTPUT_DIRS || k == WITH_PROC_MACRO,
        CommandKind::Bench => k == MEMORY_USAGE || k == PROJECT || k == HIGHLIGHT || k == COMPLETE
            || k == GOTO_DEF || k == LOAD_OUTPUT_DIRS || k == WITH_PROC_MACRO,
        CommandKind::Diagnostics => k == LOAD_OUTPUT_DIRS || k == WITH_PROC_MACRO || k == ALL,
        CommandKind::Search => k == DEBUG,
        _ => false,
    }
}

/// Reads all arguments into their flags and free arguments.
pub fn scan(args: &Vec<String>) -> (r: Result<Scan, UsageError>)
    ensures
        match r {
            Ok(s) => scan_from(texts(args@), 0, initial_scan()) == Ok::<ScanModel, UsageError>(s@) && scan_wf(
                args@.len(),
                s@,
            ),
            Err(e) => scan_from(texts(args@), 0, initial_scan()) == Err::<ScanModel, UsageError>(e),
        },
{
    let ghost a = texts(args@);
    let mut seen: Vec<Option<usize>> = Vec::new();
    let mut k: usize = 0;
    while k < N_FLAGS
        invariant
            k <= N_FLAGS,
            seen@ =~= Seq::new(k as nat, |j: int| None::<usize>),
        decreases N_FLAGS - k,
    {
        seen.push(None);
        k = k + 1;
    }
    let mut st = Scan { seen, free: Vec::new() };
    assert(st@ =~= initial_scan());
    let n = args.len();
    let mut i: usize = 0;
    while i < n
        invariant
            n == args@.len(),
            a == texts(args@),
            i <= n,
            scan_from(a, i as int, st@) == scan_from(a, 0, initial_scan()),
            scan_wf(i as nat, st@),
        decreases n - i,
    {
        assert(a[i as int] == args@[i as int]@);
        match token(args[i].as_str()) {
            Token::Flag(f) => {
                if f < FIRST_VALUED {
                    st.seen.set(f, Some(i));
                    i = i + 1;
                } else if i + 1 < n {
                    st.seen.set(f, Some(i));
                    i = i + 2;
                } else {
                    return Err(UsageError { kind: UsageErrorKind::MissingValue, at: i });
                }
            },
            Token::Free => {
                st.free.push(i);
                i = i + 1;
            },
            Token::Unknown => {
                return Err(UsageError { kind: UsageErrorKind::UnknownFlag, at: i });
            },
        }
    }
    Ok(st)
}

/// The position of the first flag given that the mode does not take.
pub fn stray(seen: &Vec<Option<usize>>, kind: CommandKind) -> (r: Option<usize>)
    requires
        seen@.len() == N_FLAGS,
    ensures
        r == first_stray(seen@, kind, 0),
{
    let mut k: usize = 0;
    while k < N_FLAGS
        invariant
            seen@.len() == N_FLAGS,
            k <= N_FLAGS,
            first_stray(seen@, kind, k as int) == first_stray(seen@, kind, 0),
        decreases N_FLAGS - k,
    {
        if seen[k].is_some() && !allows(kind, k) {
            return seen[k];
        }
        k = k + 1;
    }
    None
}

/// The verbosity that the flags select.
pub fn verbosity(seen: &Vec<Option<usize>>) -> (r: Result<Verbosity, UsageError>)
    requires
        seen@.len() == N_FLAGS,
    ensures
        r == verbosity_of(seen@),
{
    if seen[QUIET].is_some() && (seen[SPAMMY].is_some() || seen[VERBOSE].is_some()) {
        let at = match seen[QUIET] {
            Some(p) => p,
            None => 0,
        };
        Err(UsageError { kind: UsageErrorKind::ConflictingFlags, at })
    } else if seen[SPAMMY].is_some() {
        Ok(Verbosity::Spammy)
    } else if seen[VERBOSE].is_some() {
        Ok(Verbosity::Verbose)
    } else if seen[QUIET].is_some() {
        Ok(Verbosity::Quiet)
    } else {
        Ok(Verbosity::Normal)
    }
}

/// The value that follows a valued flag.
fn value(args: &Vec<String>, st: &Scan, k: usize) -> (r: Option<String>)
    requires
        scan_wf(args@.len(), st@),
        FIRST_VALUED <= k < N_FLAGS,
    ensures
        opt_text(r) == value_of(texts(args@), st@, k),
{
    let n = args.len();
    match st.seen[k] {
        Some(p) => {
            assert(st@.seen[k as int] is Some);
            assert(p + 1 < args@.len());
            Some(args[p + 1].clone())
        },
        None => None,
    }
}

/// The free arguments after the command word.
fn operand_texts(args: &Vec<String>, st: &Scan) -> (r: Vec<String>)
    requires
        scan_wf(args@.len(), st@),
        st@.free.len() >= 1,
    ensures
        texts(r@) == operands(texts(args@), st@),
{
    let mut out: Vec<String> = Vec::new();
    let mut j: usize = 1;
    while j < st.free.len()
        invariant
            scan_wf(args@.len(), st@),
            1 <= j <= st@.free.len(),
            texts(out@) =~= st@.free.subrange(1, j as int).map_values(
                |i: usize| texts(args@)[i as int],
            ),
        decreases st@.free.len() - j,
    {
        let ghost prev = out@;
        let p = st.free[j];
        assert(st@.free[j as int] < args@.len());
        out.push(args[p].clone());
        assert(texts(out@) =~= texts(prev).push(args@[p as int]@));
        assert(st@.free.subrange(1, j + 1).map_values(|i: usize| texts(args@)[i as int])
            =~= st@.free.subrange(1, j as int).map_values(|i: usize| texts(args@)[i as int]).push(
            texts(args@)[p as int],
        ));
        j = j + 1;
    }
    assert(st@.free.subrange(1, st@.free.len() as int) =~= st@.free.drop_first());
    out
}

/// The sole operand of a mode that takes one.
fn sole_operand(args: &Vec<String>, st: &Scan) -> (r: String)
    requires
        scan_wf(args@.len(), st@),
        st@.free.len() == 2,
    ensures
        seq![r@] == operands(texts(args@), st@),
{
    assert(st@.free[1] < args@.len());
    let r = args[st.free[1]].clone();
    assert(operands(texts(args@), st@) =~= seq![r@]);
    r
}

/// Builds the mode `kind` with the parameters that the scan gives.
pub fn build_command(args: &Vec<String>, kind: CommandKind, st: &Scan) -> (r: Command)
    requires
        scan_wf(args@.len(), st@),
        operand_count(kind) is Some ==> st@.free.len() == operand_count(kind)->0 + 1,
        kind == CommandKind::Ssr || kind == CommandKind::Search ==> st@.free.len() >= 1,
        kind == CommandKind::Bench ==> bench_targets(st@.seen) == 1,
    ensures
        describes(texts(args@), st@, kind, r),
{
    let on = |k: usize| -> (b: bool)
        requires
            k < N_FLAGS,
            st@.seen.len() == N_FLAGS,
        ensures
            b == given(st@, k),
        { st.seen[k].is_some() };
    match kind {
        CommandKind::RunServer => Command::RunServer,
        CommandKind::ProcMacro => Command::ProcMacro,
        CommandKind::Version => Command::Version,
        CommandKind::Symbols => Command::Symbols,
        CommandKind::Parse => Command::Parse { no_dump: on(NO_DUMP) },
        CommandKind::Highlight => Command::Highlight { rainbow: on(RAINBOW) },
        CommandKind::Stats => Command::Stats {
            randomize: on(RANDOMIZE),
            parallel: on(PARALLEL),
            memory_usage: on(MEMORY_USAGE),
            only: value(args, st, ONLY),
            with_deps: on(WITH_DEPS),
            path: sole_operand(args, st),
            load_output_dirs: on(LOAD_OUTPUT_DIRS),
            with_proc_macro: on(WITH_PROC_MACRO),
        },
        CommandKind::Bench => {
            let what = match value(args, st, HIGHLIGHT) {
                Some(path) => BenchWhat::Highlight { path },
                None => match value(args, st, COMPLETE) {
                    Some(pos) => BenchWhat::Complete(pos),
                    None => {
                        let pos = match value(args, st, GOTO_DEF) {
                            Some(pos) => pos,
                            None => String::new(),
                        };
                        BenchWhat::GotoDef(pos)
                    },
                },
            };
            Command::Bench {
                memory_usage: on(MEMORY_USAGE),
                project: value(args, st, PROJECT),
                what,
                load_output_dirs: on(LOAD_OUTPUT_DIRS),
                with_proc_macro: on(WITH_PROC_MACRO),
            }
        },
        CommandKind::Diagnostics => Command::Diagnostics {
            path: sole_operand(args, st),
            load_output_dirs: on(LOAD_OUTPUT_DIRS),
            with_proc_macro: on(WITH_PROC_MACRO),
            all: on(ALL),
        },
        CommandKind::Ssr => Command::Ssr { rules: operand_texts(args, st) },
        CommandKind::Search => Command::StructuredSearch {
            patterns: operand_texts(args, st),
            debug_snippet: value(args, st, DEBUG),
        },
    }
}

/// Classifies the process arguments (the program name not among them) into
/// one mode with its parameters, a request for help, or a usage error that
/// names the position of the offending argument.
pub fn parse_args(args: &Vec<String>) -> (r: Result<Invocation, UsageError>)
    ensures
        classified_as(texts(args@), r),
{
    let st = match scan(args) {
        Ok(st) => st,
        Err(e) => return Err(e),
    };
    if let Some(p) = st.seen[VERSION] {
        if args.len() == 1 {
            let command = build_command(args, CommandKind::Version, &st);
            return Ok(Invocation::Run(Args { verbosity: Verbosity::Normal, command }));
        } else {
            return Err(UsageError { kind: UsageErrorKind::ConflictingFlags, at: p });
        }
    }
    let v = match verbosity(&st.seen) {
        Ok(v) => v,
        Err(e) => return Err(e),
    };
    if st.seen[HELP].is_some() {
        return Ok(Invocation::Help);
    }
    if st.free.len() == 0 {
        return match stray(&st.seen, CommandKind::RunServer) {
            Some(p) => Err(UsageError { kind: UsageErrorKind::UnexpectedFlag, at: p }),
            None => {
                let command = build_command(args, CommandKind::RunServer, &st);
                Ok(Invocation::Run(Args { verbosity: v, command }))
            },
        };
    }
    let word_at = st.free[0];
    assert(st@.free[0] < args@.len());
    assert(texts(args@)[word_at as int] == args@[word_at as int]@);
    let kind = match command_word(args[word_at].as_str()) {
        Some(kind) => kind,
        None => return Err(UsageError { kind: UsageErrorKind::UnknownCommand, at: word_at }),
    };
    if let Some(p) = stray(&st.seen, kind) {
        return Err(UsageError { kind: UsageErrorKind::UnexpectedFlag, at: p });
    }
    let fixed: Option<usize> = match kind {
        CommandKind::Stats | CommandKind::Diagnostics => Some(1),
        CommandKind::Ssr | CommandKind::Search => None,
        _ => Some(0),
    };
    if let Some(count) = fixed {
        if st.free.len() - 1 != count {
            return Err(UsageError { kind: UsageErrorKind::WrongOperandCount, at: word_at });
        }
    }
    if kind == CommandKind::Bench {
        let targets: usize = (if st.seen[HIGHLIGHT].is_some() { 1 } else { 0 }) + (if st.seen[COMPLETE].is_some() {
            1
        } else {
            0
        }) + (if st.seen[GOTO_DEF].is_some() { 1 } else { 0 });
        if targets != 1 {
            return Err(UsageError { kind: UsageErrorKind::BenchTarget, at: word_at });
        }
    }
    let command = build_command(args, kind, &st);
    Ok(Invocation::Run(Args { verbosity: v, command }))
}

/// Every recorded position holds the argument that was recorded there.
pub open spec fn scan_sound(args: Seq<Seq<char>>, st: ScanModel) -> bool {
    &&& st.seen.len() == N_FLAGS
    &&& forall|k: int| 0 <= k < N_FLAGS && #[trigger] st.seen[k] is Some ==> {
        &&& st.seen[k]->0 < args.len()
        &&& token_of(args[st.seen[k]->0 as int]) == Token::Flag(k as usize)
    }
    &&& forall|j: int| 0 <= j < st.free.len() ==> {
        &&& #[trigger] st.free[j] < args.len()
        &&& token_of(args[st.free[j] as int]) == Token::Free
    }
}

proof fn lemma_scan_sound(args: Seq<Seq<char>>, i: int, st: ScanModel)
    requires
        0 <= i,
        args.len() <= usize::MAX,
        scan_sound(args, st),
        scan_from(args, i, st) is Ok,
    ensures
        scan_sound(args, scan_from(args, i, st)->Ok_0),
    decreases args.len() - i,
{
    if i < args.len() {
        match token_of(args[i]) {
            Token::Flag(k) => {
                assert(k < N_FLAGS);
                let next = ScanModel { seen: st.seen.update(k as int, Some(i as usize)), ..st };
                assert(scan_sound(args, next));
                if k < FIRST_VALUED {
                    lemma_scan_sound(args, i + 1, next);
                } else {
                    lemma_scan_sound(args, i + 2, next);
                }
            },
            Token::Free => {
                let next = ScanModel { free: st.free.push(i as usize), ..st };
                assert(scan_sound(args, next));
                lemma_scan_sound(args, i + 1, next);
            },
            Token::Unknown => {},
        }
    }
}

/// Classification is total and exclusive: every argument list gives exactly
/// one outcome (a usage error, help, or one mode), and the mode is fixed by
/// the arguments: the version flag alone selects the version mode, no command
/// word selects the server, and otherwise the command word names the mode.
pub proof fn lemma_classification_total(args: Seq<Seq<char>>)
    requires
        args.len() <= usize::MAX,
    ensures
        match classify(args) {
            Ok(Outcome::Run(_, kind, st)) => {
                &&& kind == CommandKind::Version ==> args.len() == 1 && token_of(args[0])
                    == Token::Flag(VERSION)
                &&& kind == CommandKind::RunServer ==> st.free.len() == 0
                &&& kind != CommandKind::Version && kind != CommandKind::RunServer ==> {
                    &&& st.free.len() > 0
                    &&& st.free[0] < args.len()
                    &&& command_named(args[st.free[0] as int]) == Some(kind)
                }
            },
            Ok(Outcome::Help) => exists|p: int| 0 <= p < args.len() && token_of(#[trigger] args[p]) == Token::Flag(HELP),
            Err(_) => true,
        },
{
    let init = initial_scan();
    assert(scan_sound(args, init));
    if scan_from(args, 0, init) is Ok {
        lemma_scan_sound(args, 0, init);
        let st = scan_from(args, 0, init)->Ok_0;
        if st.seen[HELP as int] is Some {
            let p = st.seen[HELP as int]->0 as int;
            assert(token_of(args[p]) == Token::Flag(HELP));
        }
    }
}

} // verus!
