use vstd::prelude::*;

use crate::text::{
    begins_with, eq_ignore_ascii_case, eq_ignoring_ascii_case, is_white_space, nth_word,
    starts_with, trim, trimmed, white_space, word_at,
};

verus! {

/// One line of user input, classified.
pub enum Command {
    /// `help`: show the command summary.
    Help,
    /// `show games`: list every owned title.
    ListGames,
    /// A line whose first word is `launch`; holds its second word, the
    /// query, when there is one.
    Launch(Option<String>),
    /// `refresh`: fetch the catalog again and store it.
    Refresh,
    /// `exit`: end the session.
    Exit,
    /// Any other line; it is ignored.
    Unrecognized,
}

/// A classified line with its text as character sequences.
pub enum CommandView {
    Help,
    ListGames,
    Launch(Option<Seq<char>>),
    Refresh,
    Exit,
    Unrecognized,
}

impl View for Command {
    type V = CommandView;

    open spec fn view(&self) -> CommandView {
        match self {
            Command::Help => CommandView::Help,
            Command::ListGames => CommandView::ListGames,
            Command::Launch(None) => CommandView::Launch(None),
            Command::Launch(Some(q)) => CommandView::Launch(Some(q@)),
            Command::Refresh => CommandView::Refresh,
            Command::Exit => CommandView::Exit,
            Command::Unrecognized => CommandView::Unrecognized,
        }
    }
}

/// What a raw input line means. The line is trimmed first; `help`,
/// `show games`, `exit` and `refresh` match regardless of ASCII case, while a
/// launch is any line that begins with `launch` exactly, whose query is its
/// second white-space separated word.
pub open spec fn command_of(line: Seq<char>) -> CommandView {
    let t = trimmed(line);
    if eq_ignoring_ascii_case(t, "help"@) {
        CommandView::Help
    } else if eq_ignoring_ascii_case(t, "show games"@) {
        CommandView::ListGames
    } else if begins_with(t, "launch"@) && (t.len() == 6 || white_space(t[6])) {
        CommandView::Launch(word_at(t, 0, 1))
    } else if eq_ignoring_ascii_case(t, "exit"@) {
        CommandView::Exit
    } else if eq_ignoring_ascii_case(t, "refresh"@) {
        CommandView::Refresh
    } else {
        CommandView::Unrecognized
    }
}

/// Classifies one raw input line.
pub fn classify(line: &str) -> (c: Command)
    ensures
        c@ == command_of(line@),
{
    let t = trim(line);
    proof {
        reveal_strlit("launch");
    }
    if eq_ignore_ascii_case(t, "help") {
        Command::Help
    } else if eq_ignore_ascii_case(t, "show games") {
        Command::ListGames
    } else if starts_with(t, "launch") && (t.unicode_len() == 6 || is_white_space(t.get_char(6))) {
        match nth_word(t, 1) {
            Some(w) => Command::Launch(Some(w.to_string())),
            None => Command::Launch(None),
        }
    } else if eq_ignore_ascii_case(t, "exit") {
        Command::Exit
    } else if eq_ignore_ascii_case(t, "refresh") {
        Command::Refresh
    } else {
        Command::Unrecognized
    }
}

} // verus!
