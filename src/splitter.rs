//! The line-by-line state machine that routes a dump into outputs.
//!
//! The caller reads the dump one line at a time, each line with its
//! terminator, hands it to [`Splitter::step`], and carries out the action it
//! gets back. At the end of the input it calls [`Splitter::finish`].

use vstd::prelude::*;
use crate::marker::{DatabaseObject, marker};
use crate::paths::path_of;
use crate::text::starts_with;

verus! {

/// What the state machine carries from one line to the next.
pub struct State {
    /// The context-switch lines most recently seen, replayed at the start of
    /// every new output.
    pub preamble: Seq<char>,
    /// A context-switch line whose terminator line has not come yet.
    pub pending: Option<Seq<char>>,
    /// Whether an output is open.
    pub open: bool,
}

/// What is to be done with one line.
pub enum Act {
    /// The line belongs to a context switch and is kept for later outputs.
    Context,
    /// No output is open: the line is dropped.
    Drop,
    /// The line is appended to the open output.
    Write(Seq<char>),
    /// The open output, if any, is closed, and a new one is opened at the
    /// given path; it receives the preamble, then the marker line.
    Open(Seq<char>, Seq<char>, Seq<char>),
}

/// The line that starts a context switch begins with this text.
pub open spec fn use_prefix() -> Seq<char> {
    "USE "@
}

/// The state before the first line.
pub open spec fn initial_state() -> State {
    State { preamble: Seq::empty(), pending: None, open: false }
}

/// One step: the next state and the action for `line`.
pub open spec fn step_spec(root: Seq<char>, only_names: bool, st: State, line: Seq<char>) -> (
    State,
    Act,
) {
    match st.pending {
        Some(u) => (State { preamble: u + line, pending: None, open: st.open }, Act::Context),
        None => if use_prefix().is_prefix_of(line) {
            (State { preamble: st.preamble, pending: Some(line), open: st.open }, Act::Context)
        } else {
            match marker(line) {
                Some((k, s, n)) => (
                    State { preamble: st.preamble, pending: None, open: true },
                    Act::Open(path_of(root, k, s, n, only_names), st.preamble, line),
                ),
                None => if st.open {
                    (st, Act::Write(line))
                } else {
                    (st, Act::Drop)
                },
            }
        },
    }
}

/// An action to carry out for one line.
pub enum Action {
    /// The line belongs to a context switch; nothing is written.
    Context,
    /// No output is open; the line is dropped.
    Drop,
    /// Append this line to the open output.
    Write(String),
    /// Flush and close the open output, if any; then open a new output at
    /// `path`, and write `preamble` and then `line` to it.
    Open { path: String, preamble: String, line: String },
}

impl Action {
    pub open spec fn view(&self) -> Act {
        match self {
            Action::Context => Act::Context,
            Action::Drop => Act::Drop,
            Action::Write(l) => Act::Write(l@),
            Action::Open { path, preamble, line } => Act::Open(path@, preamble@, line@),
        }
    }
}

/// Why a run cannot end well.
#[derive(Debug, PartialEq, Eq, Structural)]
pub enum SplitError {
    /// The input ended right after a context-switch line, before the line
    /// that terminates it.
    UnterminatedContext,
}

/// The routing state for one pass over a dump.
pub struct Splitter {
    root: String,
    only_names: bool,
    preamble: String,
    pending: Option<String>,
    open: bool,
}

impl Splitter {
    /// The root under which outputs are placed.
    pub closed spec fn root(&self) -> Seq<char> {
        self.root@
    }

    /// Whether file names leave out the schema.
    pub closed spec fn only_names(&self) -> bool {
        self.only_names
    }

    /// The state carried to the next line.
    pub closed spec fn state(&self) -> State {
        State {
            preamble: self.preamble@,
            pending: match self.pending {
                Some(u) => Some(u@),
                None => None,
            },
            open: self.open,
        }
    }

    /// A splitter that places outputs under `root`, before any line.
    pub fn new(root: &str, only_names: bool) -> (r: Splitter)
        ensures
            r.root() == root@,
            r.only_names() == only_names,
            r.state() == initial_state(),
    {
        let r = Splitter {
            root: root.to_owned(),
            only_names,
            preamble: String::new(),
            pending: None,
            open: false,
        };
        assert(r.state().preamble =~= Seq::<char>::empty());
        r
    }

    /// Routes the next line of the input, terminator included.
    pub fn step(&mut self, line: String) -> (r: Action)
        ensures
            final(self).root() == old(self).root(),
            final(self).only_names() == old(self).only_names(),
            (final(self).state(), r.view()) == step_spec(
                old(self).root(),
                old(self).only_names(),
                old(self).state(),
                line@,
            ),
    {
        proof {
            reveal_strlit("USE ");
            reveal_strlit("/****** Object:");
        }
        match self.pending.take() {
            Some(u) => {
                let mut p = u;
                p.append(line.as_str());
                self.preamble = p;
                return Action::Context;
            },
            None => {},
        }
        if starts_with(line.as_str(), "USE ") {
            self.pending = Some(line);
            return Action::Context;
        }
        match DatabaseObject::parse(line.as_str()) {
            Some(o) => {
                let path = o.path_in(self.root.as_str(), self.only_names);
                self.open = true;
                Action::Open { path, preamble: self.preamble.clone(), line }
            },
            None => {
                if self.open {
                    Action::Write(line)
                } else {
                    Action::Drop
                }
            },
        }
    }

    /// Ends the pass: an error when the input ended inside a context switch.
    pub fn finish(&self) -> (r: Result<(), SplitError>)
        ensures
            r is Err <==> self.state().pending is Some,
            r is Err ==> r == Err::<(), SplitError>(SplitError::UnterminatedContext),
    {
        match self.pending {
            Some(_) => Err(SplitError::UnterminatedContext),
            None => Ok(()),
        }
    }
}

} // verus!
