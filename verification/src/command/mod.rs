//! Command resolution and per-stage execution decisions.
//!
//! A command name resolves to a fixed built-in, to an external executable
//! found on the search path, or to nothing ([`Command::parse`]).
//! [`Command::run`] then decides everything about one pipeline stage that
//! does not touch the operating system: what the stage writes, what it
//! asks the host program to do (spawn, change directory, terminate), and
//! the history entry it leaves.  The host program around the library
//! performs the file-system probes and the spawning.

pub mod binary;
pub mod cd;
pub mod echo;
pub mod exit;
pub mod history;
pub mod pwd;
pub mod typecmd;

pub use binary::Binary;
pub use cd::Cd;
pub use echo::Echo;
pub use exit::Exit;
pub use history::History;
pub use pwd::Pwd;
pub use typecmd::Type;

use vstd::prelude::*;

use crate::command::binary::is_long_running_spec;
use crate::command::cd::{cd_target, cd_target_spec};
use crate::command::echo::{echo_line, echo_line_spec};
use crate::command::exit::{exit_code, exit_code_spec};
use crate::command::history::{history_output_spec, run_history};
use crate::command::pwd::{pwd_line, pwd_line_spec};
use crate::command::typecmd::{type_message, type_message_spec};
use crate::text::{join_spec, join_with_spaces, push_char, str_eq, to_chars};

verus! {

/// A resolved command: one of the fixed built-ins, an external executable
/// with its resolved path, or an unknown name.  Resolution is made fresh
/// for every invocation, since the search path and the file system change
/// between commands.
#[derive(Debug)]
pub enum Command {
    Builtin(Builtin),
    Binary(Binary),
    Unknown(String),
}

/// The closed set of built-in commands.
#[derive(Debug, Clone, Copy, PartialEq, Eq, Structural)]
pub enum Builtin {
    Echo(Echo),
    Exit(Exit),
    Type(Type),
    Pwd(Pwd),
    Cd(Cd),
    History(History),
}

/// Which built-in a name denotes, by exact match.
pub open spec fn builtin_of_spec(name: Seq<char>) -> Option<Builtin> {
    if name == "echo"@ {
        Some(Builtin::Echo(Echo))
    } else if name == "exit"@ {
        Some(Builtin::Exit(Exit))
    } else if name == "type"@ {
        Some(Builtin::Type(Type))
    } else if name == "pwd"@ {
        Some(Builtin::Pwd(Pwd))
    } else if name == "cd"@ {
        Some(Builtin::Cd(Cd))
    } else if name == "history"@ {
        Some(Builtin::History(History))
    } else {
        None
    }
}

impl Builtin {
    /// Resolves a name to the built-in it denotes, if any.
    pub fn from_name(name: &String) -> (r: Option<Builtin>)
        ensures
            r == builtin_of_spec(name@),
    {
        if str_eq(name, "echo") {
            Some(Builtin::Echo(Echo))
        } else if str_eq(name, "exit") {
            Some(Builtin::Exit(Exit))
        } else if str_eq(name, "type") {
            Some(Builtin::Type(Type))
        } else if str_eq(name, "pwd") {
            Some(Builtin::Pwd(Pwd))
        } else if str_eq(name, "cd") {
            Some(Builtin::Cd(Cd))
        } else if str_eq(name, "history") {
            Some(Builtin::History(History))
        } else {
            None
        }
    }
}

/// How an external stage's process is to be run: inheriting the
/// terminal's streams (long-running, interactive invocations), or with
/// its output captured, with or without input piped in.
#[derive(Debug, Clone, Copy, PartialEq, Eq, Structural)]
pub enum SpawnMode {
    Inherit,
    Captured,
    CapturedWithInput,
}

/// The spawn mode of an external invocation: long-running invocations
/// inherit the terminal; the rest have their output captured.
pub open spec fn spawn_mode_spec(path: Seq<char>, argv: Seq<Seq<char>>, has_input: bool) -> SpawnMode {
    if is_long_running_spec(path, argv) {
        SpawnMode::Inherit
    } else if has_input {
        SpawnMode::CapturedWithInput
    } else {
        SpawnMode::Captured
    }
}

/// What one stage asks the host program to do after the interpreter's own
/// part is done.
#[derive(Debug, PartialEq)]
pub enum HostAction {
    /// Nothing beyond writing the stage's output and error text.
    Done,
    /// Spawn the executable at `path` with the stage's arguments.
    Spawn { path: String, mode: SpawnMode },
    /// Change the working directory to `path`, reporting failure with
    /// [`cd::cd_error_message`].
    Chdir { path: String },
    /// End the whole session with this status code.
    Terminate { code: i32 },
}

/// What one stage produced: text for the stage's output sink, text for
/// the shared stderr destination, and the action left to the host.
#[derive(Debug)]
pub struct StageResult {
    pub out: String,
    pub err: String,
    pub action: HostAction,
}

/// What the host program knows that a stage may need: the current
/// directory, the home directory, and — for a `type` stage — the search
/// path resolution of the name under inquiry.
#[derive(Debug)]
pub struct HostEnv {
    pub cwd: String,
    pub home: String,
    pub found: Option<String>,
}

/// The view of an optional path handed in by the host.
pub open spec fn opt_path_view(t: Option<String>) -> Option<Seq<char>> {
    match t {
        Some(s) => Some(s@),
        None => None,
    }
}

/// The report for a name that resolves to nothing.
pub open spec fn not_found_spec(name: Seq<char>) -> Seq<char> {
    name + ": command not found\n"@
}

/// Formats the report for a name that resolves to nothing.
pub fn not_found_message(name: &String) -> (r: String)
    ensures
        r@ == not_found_spec(name@),
{
    let mut r = name.clone();
    r.append(": command not found\n");
    assert(r@ =~= not_found_spec(name@));
    r
}

/// Everything [`Command::run`] promises about one stage, beside the
/// history entry: the stage's output and error text and the action handed
/// to the host, per resolved command.
pub open spec fn run_post(
    cmd: Command,
    argv: Seq<Seq<char>>,
    has_input: bool,
    cwd: Seq<char>,
    home: Seq<char>,
    found: Option<Seq<char>>,
    h0: Seq<Seq<char>>,
    r: StageResult,
) -> bool {
    match cmd {
        Command::Builtin(b) => match b {
            Builtin::Echo(_) => r.out@ == echo_line_spec(argv) && r.err@.len() == 0
                && r.action is Done,
            Builtin::Exit(_) => r.out@.len() == 0 && r.err@.len() == 0 && (
            r.action matches HostAction::Terminate { code } && code as int == exit_code_spec(
                argv,
            )),
            Builtin::Type(_) => (if argv.len() >= 2 {
                r.out@ == type_message_spec(argv[1], found) && r.err@.len() == 0
            } else {
                r.out@.len() == 0 && r.err@ == "type: not enough arguments"@
            }) && r.action is Done,
            Builtin::Pwd(_) => r.out@ == pwd_line_spec(cwd) && r.err@.len() == 0
                && r.action is Done,
            Builtin::Cd(_) => r.out@.len() == 0 && r.err@.len() == 0 && (
            r.action matches HostAction::Chdir { path } && path@ == cd_target_spec(argv, home)),
            Builtin::History(_) => r.out@ == history_output_spec(argv, h0).0 && r.err@
                == history_output_spec(argv, h0).1 && r.action is Done,
        },
        Command::Binary(bin) => r.out@.len() == 0 && r.err@.len() == 0 && (
        r.action matches HostAction::Spawn { path, mode } && path@ == bin@ && mode
            == spawn_mode_spec(bin@, argv, has_input)),
        Command::Unknown(name) => r.out@.len() == 0 && r.err@ == not_found_spec(name@)
            && r.action is Done,
    }
}

impl Command {
    /// Classifies a command name: a built-in by exact match; otherwise
    /// the executable the search path yielded (`found`, probed by the
    /// host); otherwise unknown.
    pub fn parse(name: &String, found: Option<String>) -> (r: Command)
        ensures
            match builtin_of_spec(name@) {
                Some(b) => r == Command::Builtin(b),
                None => match found {
                    Some(p) => r matches Command::Binary(bin) && bin@ == p@,
                    None => r matches Command::Unknown(n) && n@ == name@,
                },
            },
    {
        match Builtin::from_name(name) {
            Some(b) => Command::Builtin(b),
            None => match found {
                Some(p) => Command::Binary(Binary::new(p)),
                None => Command::Unknown(name.clone()),
            },
        }
    }

    /// Runs one pipeline stage as far as the interpreter itself decides.
    ///
    /// The stage's re-joined argument line is appended to the history
    /// unconditionally — history records attempts, not successes — and
    /// the rest of the effect is [`run_post`]: built-ins compute their
    /// output here; external commands and directory changes become
    /// actions for the host.  A `history` stage lists the log as it stood
    /// before its own entry.
    pub fn run(
        &self,
        argv: &Vec<String>,
        has_input: bool,
        env: &HostEnv,
        history: &mut Vec<String>,
    ) -> (r: StageResult)
        requires
            argv@.len() >= 1,
        ensures
            final(history).deep_view() == old(history).deep_view().push(
                join_spec(argv.deep_view()),
            ),
            run_post(
                *self,
                argv.deep_view(),
                has_input,
                env.cwd@,
                env.home@,
                opt_path_view(env.found),
                old(history).deep_view(),
                r,
            ),
    {
        let line = join_with_spaces(argv);
        let r = match self {
            Command::Builtin(b) => match b {
                Builtin::Echo(_) => StageResult {
                    out: echo_line(argv),
                    err: String::new(),
                    action: HostAction::Done,
                },
                Builtin::Exit(_) => StageResult {
                    out: String::new(),
                    err: String::new(),
                    action: HostAction::Terminate { code: exit_code(argv) },
                },
                Builtin::Type(_) => {
                    if argv.len() >= 2 {
                        proof {
                            assert(argv.deep_view()[1] == argv@[1]@);
                        }
                        StageResult {
                            out: type_message(&argv[1], &env.found),
                            err: String::new(),
                            action: HostAction::Done,
                        }
                    } else {
                        StageResult {
                            out: String::new(),
                            err: String::from_str("type: not enough arguments"),
                            action: HostAction::Done,
                        }
                    }
                },
                Builtin::Pwd(_) => StageResult {
                    out: pwd_line(&env.cwd),
                    err: String::new(),
                    action: HostAction::Done,
                },
                Builtin::Cd(_) => StageResult {
                    out: String::new(),
                    err: String::new(),
                    action: HostAction::Chdir { path: cd_target(argv, &env.home) },
                },
                Builtin::History(_) => {
                    let listing = run_history(argv, history);
                    StageResult { out: listing.0, err: listing.1, action: HostAction::Done }
                },
            },
            Command::Binary(bin) => {
                let mode = if bin.is_long_running_command(argv) {
                    SpawnMode::Inherit
                } else if has_input {
                    SpawnMode::CapturedWithInput
                } else {
                    SpawnMode::Captured
                };
                StageResult {
                    out: String::new(),
                    err: String::new(),
                    action: HostAction::Spawn { path: bin.get_path().clone(), mode },
                }
            },
            Command::Unknown(name) => StageResult {
                out: String::new(),
                err: not_found_message(name),
                action: HostAction::Done,
            },
        };
        history.push(line);
        proof {
            assert(history.deep_view() =~= old(history).deep_view().push(
                join_spec(argv.deep_view()),
            ));
        }
        r
    }
}

/// The directories of a search-path variable, split on `:`, in order.
/// Splitting keeps empty entries, as the host's path search does.
pub open spec fn path_entries_from(
    s: Seq<char>,
    i: int,
    cur: Seq<char>,
    acc: Seq<Seq<char>>,
) -> Seq<Seq<char>>
    decreases s.len() - i,
    when 0 <= i <= s.len()
{
    if i == s.len() {
        acc.push(cur)
    } else if s[i] == ':' {
        path_entries_from(s, i + 1, Seq::empty(), acc.push(cur))
    } else {
        path_entries_from(s, i + 1, cur.push(s[i]), acc)
    }
}

/// The directories listed in `s`, in the order they are consulted.
pub open spec fn path_entries_spec(s: Seq<char>) -> Seq<Seq<char>> {
    path_entries_from(s, 0, Seq::empty(), Seq::empty())
}

/// Splits a search-path variable into its directories.
pub fn split_path(path_var: &str) -> (r: Vec<String>)
    ensures
        r.deep_view() == path_entries_spec(path_var@),
{
    let cs = to_chars(path_var);
    let mut acc: Vec<String> = Vec::new();
    let mut cur = String::new();
    let mut i: usize = 0;
    proof {
        assert(acc.deep_view() =~= Seq::<Seq<char>>::empty());
    }
    while i < cs.len()
        invariant
            i <= cs@.len(),
            cs@ == path_var@,
            path_entries_from(cs@, i as int, cur@, acc.deep_view()) == path_entries_spec(
                path_var@,
            ),
        decreases cs@.len() - i,
    {
        let c = cs[i];
        if c == ':' {
            let ghost a0 = acc.deep_view();
            acc.push(cur);
            cur = String::new();
            proof {
                assert(acc.deep_view() =~= a0.push(acc@.last()@));
            }
        } else {
            push_char(&mut cur, c);
        }
        i = i + 1;
    }
    let ghost a0 = acc.deep_view();
    acc.push(cur);
    proof {
        assert(acc.deep_view() =~= a0.push(acc@.last()@));
    }
    acc
}

/// A candidate executable location: the directory, a `/`, the name.
pub open spec fn path_join_spec(dir: Seq<char>, name: Seq<char>) -> Seq<char> {
    dir + "/"@ + name
}

/// Joins a search-path directory and a command name.
pub fn path_join(dir: &String, name: &String) -> (r: String)
    ensures
        r@ == path_join_spec(dir@, name@),
{
    let mut r = dir.clone();
    r.append("/");
    r.append(name.as_str());
    assert(r@ =~= path_join_spec(dir@, name@));
    r
}

} // verus!
