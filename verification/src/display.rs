//! What the dashboard shows: how a list entry and a log line are styled,
//! how far the log is scrolled, and what a key means.

use vstd::prelude::*;
use crate::dashboard::{displayable_lines, App};
use crate::db::{DisplayColor, Server};
use crate::registry::has_name;
use crate::servers::{MessageChannel, MessageView, ServerMessage};
use crate::text::{enclose, views};

verus! {

/// How a piece of text is drawn.
#[derive(Clone, Copy, Debug, PartialEq, Eq, Structural)]
pub struct TextStyle {
    /// Foreground colour; `None` leaves the terminal's own.
    pub fg: Option<DisplayColor>,
    pub bold: bool,
    pub underlined: bool,
}

/// The style of the list entry at `index`: green while a run of the
/// definition is registered and red otherwise, underlined and bold where
/// the entry is the selected one.
pub open spec fn spec_server_list_style(index: int, selected: int, allocated: bool) -> TextStyle {
    TextStyle {
        fg: Some(
            if allocated {
                DisplayColor::Green
            } else {
                DisplayColor::Red
            },
        ),
        bold: index == selected,
        underlined: index == selected,
    }
}

/// The style of the list entry for `server`, which stands at `index`.
pub fn server_list_style_builder(index: usize, server: &Server, app: &App) -> (style: TextStyle)
    ensures
        style == spec_server_list_style(
            index as int,
            app@.selected_server as int,
            has_name(app@.allocated_servers, server@.name),
        ),
{
    let fg = if app.allocated_servers.contains_key(server.name.as_str()) {
        DisplayColor::Green
    } else {
        DisplayColor::Red
    };
    let selected = index == app.selected_server;
    TextStyle { fg: Some(fg), bold: selected, underlined: selected }
}

/// One line of the log panel: its pieces of text, all drawn in one style.
#[derive(Debug, PartialEq, Eq)]
pub struct LogLine {
    pub spans: Vec<String>,
    pub style: TextStyle,
}

/// The pieces of text a message is shown as: a line from standard error
/// as the name and the line; a line from standard output as the name in
/// brackets and the line; a notice as its text alone.
pub open spec fn log_line_spans(message: MessageView) -> Seq<Seq<char>> {
    match message.channel {
        MessageChannel::Stderr => seq![message.name, message.contents],
        MessageChannel::Stdout => seq!["["@ + message.name + "] "@, message.contents],
        MessageChannel::Notice => seq![message.contents],
    }
}

/// The style a message is shown in: standard error red and bold, standard
/// output blue, a notice plain.
pub open spec fn log_line_style(message: MessageView) -> TextStyle {
    match message.channel {
        MessageChannel::Stderr => TextStyle {
            fg: Some(DisplayColor::Red),
            bold: true,
            underlined: false,
        },
        MessageChannel::Stdout => TextStyle {
            fg: Some(DisplayColor::Blue),
            bold: false,
            underlined: false,
        },
        MessageChannel::Notice => TextStyle { fg: None, bold: false, underlined: false },
    }
}

/// The line of the log panel that shows `message`.
pub fn output_log_style_builder(message: &ServerMessage) -> (line: LogLine)
    ensures
        views(line.spans@) == log_line_spans(message@),
        line.style == log_line_style(message@),
{
    let mut spans: Vec<String> = Vec::new();
    let style = match message.channel {
        MessageChannel::Stderr => {
            spans.push(message.name.clone());
            spans.push(message.contents.clone());
            TextStyle { fg: Some(DisplayColor::Red), bold: true, underlined: false }
        },
        MessageChannel::Stdout => {
            spans.push(enclose("[", message.name.as_str(), "] "));
            spans.push(message.contents.clone());
            TextStyle { fg: Some(DisplayColor::Blue), bold: false, underlined: false }
        },
        MessageChannel::Notice => {
            spans.push(message.contents.clone());
            TextStyle { fg: None, bold: false, underlined: false }
        },
    };
    assert(views(spans@) =~= log_line_spans(message@));
    LogLine { spans, style }
}

/// How many lines the log panel is scrolled down so that its newest line
/// shows. The line count is taken modulo 65536, the range of a terminal
/// coordinate.
pub open spec fn spec_log_scroll_offset(log_count: nat, panel_height: u16) -> nat {
    let lines = log_count % 0x1_0000;
    if lines > displayable_lines(panel_height) {
        (lines - displayable_lines(panel_height)) as nat
    } else {
        0
    }
}

/// How many lines the log panel is scrolled down.
pub fn log_scroll_offset(log_count: usize, panel_height: u16) -> (offset: u16)
    ensures
        offset == spec_log_scroll_offset(log_count as nat, panel_height),
{
    let inner_log_area_height = panel_height.saturating_sub(2);
    let lines = (log_count % 0x1_0000) as u16;
    lines.saturating_sub(inner_log_area_height)
}

/// A key the operator pressed.
#[derive(Clone, Copy, Debug, PartialEq, Eq, Structural)]
pub enum Key {
    Char(char),
    Esc,
    Up,
    Down,
    Enter,
    Other,
}

/// What the operator asks for.
#[derive(Clone, Copy, Debug, PartialEq, Eq, Structural)]
pub enum Command {
    Quit,
    SelectNext,
    SelectPrevious,
    Launch,
    Kill,
    ClearLogs,
    Popup,
    Ignore,
}

/// The meaning of each key.
pub open spec fn spec_command_for_key(key: Key) -> Command {
    match key {
        Key::Esc => Command::Quit,
        Key::Down => Command::SelectNext,
        Key::Up => Command::SelectPrevious,
        Key::Enter => Command::Launch,
        Key::Other => Command::Ignore,
        Key::Char(c) => if c == 'q' || c == 'Q' {
            Command::Quit
        } else if c == 'j' || c == 'J' {
            Command::SelectNext
        } else if c == 'k' || c == 'K' {
            Command::SelectPrevious
        } else if c == 'x' || c == 'X' {
            Command::Kill
        } else if c == 'c' || c == 'C' {
            Command::ClearLogs
        } else if c == ' ' {
            Command::Popup
        } else {
            Command::Ignore
        },
    }
}

/// What the operator asks for by pressing `key`.
pub fn command_for_key(key: Key) -> (command: Command)
    ensures
        command == spec_command_for_key(key),
{
    match key {
        Key::Esc => Command::Quit,
        Key::Down => Command::SelectNext,
        Key::Up => Command::SelectPrevious,
        Key::Enter => Command::Launch,
        Key::Other => Command::Ignore,
        Key::Char(c) => {
            if c == 'q' || c == 'Q' {
                Command::Quit
            } else if c == 'j' || c == 'J' {
                Command::SelectNext
            } else if c == 'k' || c == 'K' {
                Command::SelectPrevious
            } else if c == 'x' || c == 'X' {
                Command::Kill
            } else if c == 'c' || c == 'C' {
                Command::ClearLogs
            } else if c == ' ' {
                Command::Popup
            } else {
                Command::Ignore
            }
        },
    }
}

} // verus!
