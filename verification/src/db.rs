//! Server definitions: what can be launched, and how it is shown.

use vstd::prelude::*;
use crate::text::{clone_strings, join, joined, split_whitespace, views, words};

verus! {

/// The colour a definition is drawn in. The engine carries it and never
/// reads it.
#[derive(Clone, Copy, Debug, PartialEq, Eq, Structural)]
pub enum DisplayColor {
    Reset,
    Black,
    Red,
    Green,
    Yellow,
    Blue,
    Magenta,
    Cyan,
    Gray,
    DarkGray,
    LightRed,
    LightGreen,
    LightYellow,
    LightBlue,
    LightMagenta,
    LightCyan,
    White,
    Rgb(u8, u8, u8),
    Indexed(u8),
}

/// One launchable target.
#[derive(Debug, PartialEq, Eq)]
pub struct Server {
    pub id: i32,
    /// Key of the definition, shown to the operator.
    pub name: String,
    /// Absolute path of the directory the target runs in.
    pub path: String,
    /// Command or interpreter.
    pub executable: String,
    pub args: Vec<String>,
    /// Advisory: whether the driving loop should launch it at start-up.
    pub autostart: bool,
    /// Run the simulated runner in place of an operating-system process.
    pub test_server: bool,
    pub display_color: DisplayColor,
}

/// What a [`Server`] holds, as mathematical values.
pub struct ServerView {
    pub id: int,
    pub name: Seq<char>,
    pub path: Seq<char>,
    pub executable: Seq<char>,
    pub args: Seq<Seq<char>>,
    pub autostart: bool,
    pub test_server: bool,
    pub display_color: DisplayColor,
}

impl View for Server {
    type V = ServerView;

    open spec fn view(&self) -> ServerView {
        ServerView {
            id: self.id as int,
            name: self.name@,
            path: self.path@,
            executable: self.executable@,
            args: views(self.args@),
            autostart: self.autostart,
            test_server: self.test_server,
            display_color: self.display_color,
        }
    }
}

impl Clone for Server {
    fn clone(&self) -> (copy: Self)
        ensures
            copy@ == self@,
    {
        Server {
            id: self.id,
            name: self.name.clone(),
            path: self.path.clone(),
            executable: self.executable.clone(),
            args: clone_strings(&self.args),
            autostart: self.autostart,
            test_server: self.test_server,
            display_color: self.display_color,
        }
    }
}

impl Server {
    /// The definition every builder chain starts from.
    pub open spec fn spec_default() -> ServerView {
        ServerView {
            id: -1,
            name: Seq::empty(),
            path: "~/Users/student/bin"@,
            executable: "script.sh"@,
            args: Seq::empty(),
            autostart: false,
            test_server: false,
            display_color: DisplayColor::White,
        }
    }

    /// A definition is fit to be a registry key when its name is not empty.
    pub open spec fn spec_has_name(&self) -> bool {
        self.name@.len() > 0
    }

    pub fn default() -> (server: Server)
        ensures
            server@ == Self::spec_default(),
    {
        let server = Server {
            id: -1,
            name: String::new(),
            path: String::from_str("~/Users/student/bin"),
            executable: String::from_str("script.sh"),
            args: Vec::new(),
            autostart: false,
            test_server: false,
            display_color: DisplayColor::White,
        };
        assert(server@.args =~= Seq::empty());
        server
    }

    pub fn id(self, new_id: i32) -> (server: Server)
        ensures
            server@ == (ServerView { id: new_id as int, ..self@ }),
    {
        let mut server = self;
        server.id = new_id;
        server
    }

    pub fn name(self, new_name: &str) -> (server: Server)
        ensures
            server@ == (ServerView { name: new_name@, ..self@ }),
    {
        let mut server = self;
        server.name = String::from_str(new_name);
        server
    }

    pub fn path(self, new_path: &str) -> (server: Server)
        ensures
            server@ == (ServerView { path: new_path@, ..self@ }),
    {
        let mut server = self;
        server.path = String::from_str(new_path);
        server
    }

    pub fn executable(self, new_exe: &str) -> (server: Server)
        ensures
            server@ == (ServerView { executable: new_exe@, ..self@ }),
    {
        let mut server = self;
        server.executable = String::from_str(new_exe);
        server
    }

    pub fn args(self, new_args: Vec<String>) -> (server: Server)
        ensures
            server@ == (ServerView { args: views(new_args@), ..self@ }),
    {
        let mut server = self;
        server.args = new_args;
        server
    }

    pub fn autostart(self, new_start: bool) -> (server: Server)
        ensures
            server@ == (ServerView { autostart: new_start, ..self@ }),
    {
        let mut server = self;
        server.autostart = new_start;
        server
    }

    pub fn test_server(self, new_test_server: bool) -> (server: Server)
        ensures
            server@ == (ServerView { test_server: new_test_server, ..self@ }),
    {
        let mut server = self;
        server.test_server = new_test_server;
        server
    }

    pub fn display_color(self, new_color: DisplayColor) -> (server: Server)
        ensures
            server@ == (ServerView { display_color: new_color, ..self@ }),
    {
        let mut server = self;
        server.display_color = new_color;
        server
    }

    /// Whether the name can serve as a registry key.
    pub fn has_name(&self) -> (named: bool)
        ensures
            named == self.spec_has_name(),
    {
        self.name.as_str().unicode_len() > 0
    }
}

/// A definition as it is stored: the arguments as one text with a space
/// between neighbours, the autostart flag as a number.
#[derive(Debug, PartialEq, Eq)]
pub struct ServerRecord {
    pub id: i32,
    pub name: String,
    pub path: String,
    pub executable: String,
    pub args: String,
    pub autostart: i32,
}

/// The text a list of arguments is stored as.
pub open spec fn stored_args(args: Seq<Seq<char>>) -> Seq<char> {
    joined(args, " "@)
}

/// The number an autostart flag is stored as.
pub open spec fn stored_flag(flag: bool) -> int {
    if flag {
        1
    } else {
        0
    }
}

/// The definition a stored record stands for: the arguments are the words
/// of the stored text, the autostart flag is set by any number but zero,
/// and the colour is white.
pub open spec fn spec_from_record(record: ServerRecord, test_server: bool) -> ServerView {
    ServerView {
        id: record.id as int,
        name: record.name@,
        path: record.path@,
        executable: record.executable@,
        args: words(record.args@),
        autostart: record.autostart != 0,
        test_server,
        display_color: DisplayColor::White,
    }
}

/// The text `args` is stored as.
pub fn args_to_text(args: &Vec<String>) -> (text: String)
    ensures
        text@ == stored_args(views(args@)),
{
    join(args, " ")
}

/// The arguments a stored text stands for.
pub fn args_from_text(text: &str) -> (args: Vec<String>)
    ensures
        views(args@) == words(text@),
{
    split_whitespace(text)
}

impl Server {
    /// The definition that `record` stands for. Whether it is simulated is
    /// not part of the record and is given beside it.
    pub fn from_record(record: ServerRecord, test_server: bool) -> (server: Server)
        ensures
            server@ == spec_from_record(record, test_server),
    {
        let args = args_from_text(record.args.as_str());
        Server {
            id: record.id,
            name: record.name,
            path: record.path,
            executable: record.executable,
            args,
            autostart: record.autostart != 0,
            test_server,
            display_color: DisplayColor::White,
        }
    }

    /// The record this definition is stored as. The identifier is kept,
    /// though the store assigns its own on insertion.
    pub fn to_record(&self) -> (record: ServerRecord)
        ensures
            record.id == self.id,
            record.name@ == self@.name,
            record.path@ == self@.path,
            record.executable@ == self@.executable,
            record.args@ == stored_args(self@.args),
            record.autostart == stored_flag(self@.autostart),
    {
        ServerRecord {
            id: self.id,
            name: self.name.clone(),
            path: self.path.clone(),
            executable: self.executable.clone(),
            args: args_to_text(&self.args),
            autostart: if self.autostart {
                1
            } else {
                0
            },
        }
    }
}

} // verus!
