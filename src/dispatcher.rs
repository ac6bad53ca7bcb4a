use vstd::prelude::*;

use crate::catalog::Catalog;
use crate::command::{classify, command_of, Command, CommandView};
use crate::launcher::{launch_uri, launch_uri_of};
use crate::resolver::{find_closest_match, resolves_to};

verus! {

/// Why fetching and storing a fresh catalog failed.
#[derive(Debug, Clone, Copy, PartialEq, Eq, Structural)]
pub enum RefreshError {
    /// The catalog service could not be reached or did not answer.
    Network,
    /// The answer could not be decoded.
    Parse,
    /// The snapshot could not be written.
    Io,
}

/// What the session asks its host to do after one line of input.
pub enum Action {
    /// Print the command summary.
    ShowHelp,
    /// Print these names, one per line, in this order.
    ShowNames(Vec<String>),
    /// Report the game that was found and open `uri` to start it.
    Launch { appid: u32, name: String, uri: String },
    /// Report that no game matched (the catalog is empty).
    NotFound,
    /// Ask for the name of a game to launch.
    Usage,
    /// Fetch and store a fresh catalog, then hand the outcome to
    /// `Dispatcher::finish_refresh`.
    Refresh,
    /// End the session.
    Exit,
    /// Do nothing.
    Ignore,
}

/// The state of a session: the catalog it answers from, and whether it has
/// ended.
pub struct DispatcherView {
    pub catalog: Seq<(u32, Seq<char>)>,
    pub terminated: bool,
}

/// An interactive session over one catalog. It waits for a line, acts on it
/// and waits again, until an `exit` line ends it.
pub struct Dispatcher {
    catalog: Catalog,
    terminated: bool,
}

impl View for Dispatcher {
    type V = DispatcherView;

    closed spec fn view(&self) -> DispatcherView {
        DispatcherView { catalog: self.catalog@, terminated: self.terminated }
    }
}

/// `action` is the answer to `command` in a session over `catalog`.
pub open spec fn answers(catalog: Seq<(u32, Seq<char>)>, command: CommandView, action: Action) -> bool {
    match command {
        CommandView::Help => action is ShowHelp,
        CommandView::ListGames => match action {
            Action::ShowNames(names) => names@.len() == catalog.len() && forall|i: int|
                0 <= i < names@.len() ==> #[trigger] names@[i]@ == catalog[i].1,
            _ => false,
        },
        CommandView::Launch(None) => action is Usage,
        CommandView::Launch(Some(query)) => match action {
            Action::NotFound => catalog.len() == 0,
            Action::Launch { appid, name, uri } => resolves_to(query, catalog, Some((appid, name)))
                && uri@ == launch_uri_of(appid),
            _ => false,
        },
        CommandView::Refresh => action is Refresh,
        CommandView::Exit => action is Exit,
        CommandView::Unrecognized => action is Ignore,
    }
}

impl Dispatcher {
    /// A session that waits for input, over `catalog`.
    pub fn new(catalog: Catalog) -> (d: Dispatcher)
        ensures
            d@.catalog == catalog@,
            !d@.terminated,
    {
        Dispatcher { catalog, terminated: false }
    }

    /// The catalog the session answers from.
    pub fn catalog(&self) -> (c: &Catalog)
        ensures
            c@ == self@.catalog,
    {
        &self.catalog
    }

    /// Whether an `exit` line has ended the session.
    pub fn is_terminated(&self) -> (t: bool)
        ensures
            t == self@.terminated,
    {
        self.terminated
    }

    /// Acts on one line of input. The catalog is left as it is; only `exit`
    /// ends the session, and an ended session answers every line with
    /// `Action::Exit`.
    pub fn handle_line(&mut self, line: &str) -> (a: Action)
        ensures
            final(self)@.catalog == old(self)@.catalog,
            old(self)@.terminated ==> final(self)@.terminated && a is Exit,
            !old(self)@.terminated ==> final(self)@.terminated == (command_of(line@) is Exit),
            !old(self)@.terminated ==> answers(old(self)@.catalog, command_of(line@), a),
    {
        if self.terminated {
            return Action::Exit;
        }
        match classify(line) {
            Command::Help => Action::ShowHelp,
            Command::ListGames => Action::ShowNames(self.catalog.names()),
            Command::Launch(None) => Action::Usage,
            Command::Launch(Some(query)) => match find_closest_match(
                query.as_str(),
                self.catalog.games(),
            ) {
                Some((appid, name)) => {
                    let uri = launch_uri(appid);
                    Action::Launch { appid, name, uri }
                },
                None => Action::NotFound,
            },
            Command::Refresh => Action::Refresh,
            Command::Exit => {
                self.terminated = true;
                Action::Exit
            },
            Command::Unrecognized => Action::Ignore,
        }
    }

    /// Takes the outcome of a refresh. A fresh catalog replaces the old one
    /// whole, and its size is returned; on a failure the error is returned
    /// and the old catalog stays in use.
    pub fn finish_refresh(&mut self, fetched: Result<Catalog, RefreshError>) -> (r: Result<
        usize,
        RefreshError,
    >)
        ensures
            final(self)@.terminated == old(self)@.terminated,
            match fetched {
                Ok(c) => final(self)@.catalog == c@ && r == Ok::<usize, RefreshError>(
                    c@.len() as usize,
                ),
                Err(e) => final(self)@.catalog == old(self)@.catalog && r == Err::<
                    usize,
                    RefreshError,
                >(e),
            },
    {
        match fetched {
            Ok(c) => {
                let n = c.len();
                self.catalog = c;
                Ok(n)
            },
            Err(e) => Err(e),
        }
    }
}

} // verus!
