//! Command builder: from a server definition to the shell invocation that
//! starts it on the host platform.

use vstd::prelude::*;
use crate::db::{Server, ServerView};
use crate::error::{ErrorView, SupervisorError};
use crate::text::{join, joined, str_eq, views};

verus! {

/// The shell dialects the builder knows.
#[derive(Clone, Copy, Debug, PartialEq, Eq, Structural)]
pub enum Platform {
    Windows,
    Posix,
}

/// The dialect that goes with a host platform identifier.
pub open spec fn spec_platform(os: Seq<char>) -> Option<Platform> {
    if os == "windows"@ {
        Some(Platform::Windows)
    } else if os == "linux"@ || os == "macos"@ {
        Some(Platform::Posix)
    } else {
        None
    }
}

/// The shell that runs the command line.
pub open spec fn shell_program(platform: Platform) -> Seq<char> {
    match platform {
        Platform::Windows => "cmd"@,
        Platform::Posix => "sh"@,
    }
}

/// The flag that makes the shell run its next argument as a command line.
pub open spec fn shell_flag(platform: Platform) -> Seq<char> {
    match platform {
        Platform::Windows => "/C"@,
        Platform::Posix => "-c"@,
    }
}

/// The shell's idiom for changing the directory.
pub open spec fn change_dir_idiom(platform: Platform) -> Seq<char> {
    match platform {
        Platform::Windows => "cd /d"@,
        Platform::Posix => "cd"@,
    }
}

/// What one character of a path becomes between single quotes: a quote
/// closes the quoted part, stands escaped on its own, and opens the next.
pub open spec fn escaped_char(c: char) -> Seq<char> {
    if c == '\'' {
        seq!['\'', '\\', '\'', '\'']
    } else {
        seq![c]
    }
}

/// `path` with every single quote escaped.
pub open spec fn escape_quotes(path: Seq<char>) -> Seq<char>
    decreases path.len(),
{
    if path.len() == 0 {
        Seq::empty()
    } else {
        escaped_char(path[0]) + escape_quotes(path.drop_first())
    }
}

/// `path` as one word of a POSIX shell command line.
pub open spec fn posix_quoted(path: Seq<char>) -> Seq<char> {
    seq!['\''] + escape_quotes(path) + seq!['\'']
}

/// `path` as it is written into the command line of `platform`.
pub open spec fn spec_shell_escape(path: Seq<char>, platform: Platform) -> Seq<char> {
    match platform {
        Platform::Windows => path,
        Platform::Posix => posix_quoted(path),
    }
}

/// The command line handed to the shell: the directory change, then the
/// executable followed by its arguments, a space before each.
pub open spec fn spec_command_line(server: ServerView, platform: Platform) -> Seq<char> {
    change_dir_idiom(platform) + " "@ + spec_shell_escape(server.path, platform) + " && "@
        + server.executable + " "@ + joined(server.args, " "@)
}

/// A process to start: program, arguments, working directory, and which of
/// its output streams are captured through pipes.
#[derive(Debug, PartialEq, Eq)]
pub struct CommandSpec {
    pub program: String,
    pub args: Vec<String>,
    pub working_dir: Option<String>,
    pub capture_stdout: bool,
    pub capture_stderr: bool,
}

/// What a [`CommandSpec`] holds, as mathematical values.
pub struct CommandView {
    pub program: Seq<char>,
    pub args: Seq<Seq<char>>,
    pub working_dir: Option<Seq<char>>,
    pub capture_stdout: bool,
    pub capture_stderr: bool,
}

impl View for CommandSpec {
    type V = CommandView;

    open spec fn view(&self) -> CommandView {
        CommandView {
            program: self.program@,
            args: views(self.args@),
            working_dir: match self.working_dir {
                Some(dir) => Some(dir@),
                None => None,
            },
            capture_stdout: self.capture_stdout,
            capture_stderr: self.capture_stderr,
        }
    }
}

/// The invocation that starts `server` on `platform`. On POSIX the working
/// directory is set on the process as well as changed to by the shell.
pub open spec fn spec_command(server: ServerView, platform: Platform) -> CommandView {
    CommandView {
        program: shell_program(platform),
        args: seq![shell_flag(platform), spec_command_line(server, platform)],
        working_dir: match platform {
            Platform::Windows => None,
            Platform::Posix => Some(server.path),
        },
        capture_stdout: true,
        capture_stderr: true,
    }
}

/// The dialect for the host platform identifier `os`, if there is one.
pub fn detect_platform(os: &str) -> (platform: Option<Platform>)
    ensures
        platform == spec_platform(os@),
{
    if str_eq(os, "windows") {
        Some(Platform::Windows)
    } else if str_eq(os, "linux") || str_eq(os, "macos") {
        Some(Platform::Posix)
    } else {
        None
    }
}

/// Writes `path` so that the shell of `platform` takes it as one argument.
pub fn shell_escape(path: &str, platform: Platform) -> (escaped: String)
    ensures
        escaped@ == spec_shell_escape(path@, platform),
{
    match platform {
        Platform::Windows => String::from_str(path),
        Platform::Posix => {
            let mut out = String::new();
            out.push('\'');
            proof {
                assert(path@.skip(0) == path@);
                assert(out@ == seq!['\'']);
            }
            for c in it: path.chars()
                invariant
                    it.seq() == path@,
                    out@ + escape_quotes(path@.skip(it.index())) == seq!['\''] + escape_quotes(
                        path@,
                    ),
            {
                proof {
                    assert(path@.skip(it.index()).drop_first() == path@.skip(it.index() + 1));
                }
                if c == '\'' {
                    out.push('\'');
                    out.push('\\');
                    out.push('\'');
                    out.push('\'');
                } else {
                    out.push(c);
                }
            }
            out.push('\'');
            out
        },
    }
}

/// The invocation that starts `server` on `platform`.
pub fn command_for(server: &Server, platform: Platform) -> (command: CommandSpec)
    ensures
        command@ == spec_command(server@, platform),
{
    let (shell, flag, cd_prefix) = match platform {
        Platform::Windows => ("cmd", "/C", "cd /d"),
        Platform::Posix => ("sh", "-c", "cd"),
    };
    let mut line = String::from_str(cd_prefix);
    line.append(" ");
    line.append(shell_escape(server.path.as_str(), platform).as_str());
    line.append(" && ");
    line.append(server.executable.as_str());
    line.append(" ");
    line.append(join(&server.args, " ").as_str());
    let mut args: Vec<String> = Vec::new();
    args.push(String::from_str(flag));
    args.push(line);
    let working_dir = match platform {
        Platform::Windows => None,
        Platform::Posix => Some(server.path.clone()),
    };
    let command = CommandSpec {
        program: String::from_str(shell),
        args,
        working_dir,
        capture_stdout: true,
        capture_stderr: true,
    };
    assert(command@.args =~= spec_command(server@, platform).args);
    command
}

/// The invocation that starts `server` on the host whose platform
/// identifier is `os`; `UnsupportedPlatform` where no dialect goes with it.
pub fn build_command(server: &Server, os: &str) -> (built: Result<CommandSpec, SupervisorError>)
    ensures
        match spec_platform(os@) {
            Some(platform) => built is Ok && built->Ok_0@ == spec_command(server@, platform),
            None => built is Err && built->Err_0@ == ErrorView::UnsupportedPlatform,
        },
{
    match detect_platform(os) {
        Some(platform) => Ok(command_for(server, platform)),
        None => Err(SupervisorError::UnsupportedPlatform),
    }
}

/// `rest` with `c` before it, where there is a `rest`.
pub open spec fn prepend(c: char, rest: Option<Seq<char>>) -> Option<Seq<char>> {
    match rest {
        Some(text) => Some(seq![c] + text),
        None => None,
    }
}

/// The argument a POSIX shell takes from `word`, for words made of
/// single-quoted parts and backslash-escaped characters: between single
/// quotes every character stands for itself up to the closing quote;
/// outside them a backslash makes the next character stand for itself.
/// `None` for an unclosed quote, a trailing backslash, and any word with a
/// character outside these two forms.
pub open spec fn shell_reads(word: Seq<char>, quoted: bool) -> Option<Seq<char>>
    decreases word.len(),
{
    if word.len() == 0 {
        if quoted {
            None
        } else {
            Some(Seq::empty())
        }
    } else if quoted {
        if word[0] == '\'' {
            shell_reads(word.drop_first(), false)
        } else {
            prepend(word[0], shell_reads(word.drop_first(), true))
        }
    } else if word[0] == '\'' {
        shell_reads(word.drop_first(), true)
    } else if word[0] == '\\' && word.len() >= 2 {
        prepend(word[1], shell_reads(word.skip(2), false))
    } else {
        None
    }
}

proof fn lemma_reads_quoted_tail(path: Seq<char>)
    ensures
        shell_reads(escape_quotes(path) + seq!['\''], true) == Some(path),
    decreases path.len(),
{
    let word = escape_quotes(path) + seq!['\''];
    if path.len() == 0 {
        assert(word =~= seq!['\'']);
        assert(word.drop_first() =~= Seq::<char>::empty());
        assert(shell_reads(word.drop_first(), false) == Some(Seq::<char>::empty()));
        assert(path =~= Seq::<char>::empty());
    } else {
        let rest = path.drop_first();
        let tail = escape_quotes(rest) + seq!['\''];
        lemma_reads_quoted_tail(rest);
        if path[0] == '\'' {
            assert(word =~= seq!['\'', '\\', '\'', '\''] + tail);
            let after_close = word.drop_first();
            assert(after_close =~= seq!['\\', '\'', '\''] + tail);
            assert(shell_reads(word, true) == shell_reads(after_close, false));
            let after_escape = after_close.skip(2);
            assert(after_escape =~= seq!['\''] + tail);
            assert(shell_reads(after_close, false) == prepend(
                '\'',
                shell_reads(after_escape, false),
            ));
            assert(after_escape.drop_first() =~= tail);
            assert(shell_reads(after_escape, false) == shell_reads(tail, true));
            assert(seq!['\''] + rest =~= path);
        } else {
            assert(word =~= seq![path[0]] + tail);
            assert(word.drop_first() =~= tail);
            assert(seq![path[0]] + rest =~= path);
        }
    }
}

/// A POSIX shell that reads the word written for a path takes the path
/// itself as its argument, whatever characters the path holds: single
/// quotes, spaces and backslashes included.
pub proof fn lemma_shell_receives_path(path: Seq<char>)
    ensures
        shell_reads(spec_shell_escape(path, Platform::Posix), false) == Some(path),
{
    let word = posix_quoted(path);
    let tail = escape_quotes(path) + seq!['\''];
    assert(word =~= seq!['\''] + tail);
    assert(word.drop_first() =~= tail);
    lemma_reads_quoted_tail(path);
}

} // verus!
