//! The diagnostic taxonomy: every failure this front end (and the later
//! semantic phases) can produce, as ordinary values carried through
//! `Result` channels, plus their fixed textual rendering.

use vstd::prelude::*;

use crate::decfmt::{dec_str, usize_to_string};

verus! {

/// A single position in a source file. `line` is 1-based; `column` is a
/// 0-based byte distance from the start of that line.
#[derive(Debug, Clone, PartialEq, Eq)]
pub struct SourceLocation {
    pub file: String,
    pub line: usize,
    pub column: usize,
}

/// The closed set of error kinds. `TypeError` and `UndefinedName` are
/// reserved for the semantic phase and are not produced by this front end;
/// `IoError` carries the operating system's message and no location.
#[derive(Debug, Clone, PartialEq, Eq)]
pub enum PyRustError {
    ParseError { location: SourceLocation, message: String },
    TypeError { location: SourceLocation, message: String },
    IoError(String),
    UndefinedName { name: String, location: SourceLocation },
}

/// The `<file>:<line>:<column>` writing of a position.
pub open spec fn location_text(file: Seq<char>, line: nat, column: nat) -> Seq<char> {
    file + ":"@ + dec_str(line) + ":"@ + dec_str(column)
}

impl SourceLocation {
    /// What `render` returns for this location.
    pub open spec fn text(self) -> Seq<char> {
        location_text(self.file@, self.line as nat, self.column as nat)
    }

    /// Renders the location as `<file>:<line>:<column>`.
    pub fn render(&self) -> (s: String)
        ensures
            s@ == self.text(),
    {
        let mut s = self.file.clone();
        s.append(":");
        let line_s = usize_to_string(self.line);
        s.append(line_s.as_str());
        s.append(":");
        let col_s = usize_to_string(self.column);
        s.append(col_s.as_str());
        proof {
            assert(s@ =~= self.text());
        }
        s
    }
}

impl PyRustError {
    /// What `render` returns for this error.
    pub open spec fn text(self) -> Seq<char> {
        match self {
            PyRustError::ParseError { location, message } => "Parse error at "@
                + location.text() + ": "@ + message@,
            PyRustError::TypeError { location, message } => "Type error at "@ + location.text()
                + ": "@ + message@,
            PyRustError::IoError(message) => "IO error: "@ + message@,
            PyRustError::UndefinedName { name, location } => "Undefined name '"@ + name@ + "' at "@
                + location.text(),
        }
    }

    /// Renders the error in its fixed textual shape:
    /// `<Kind> error at <file>:<line>:<column>: <message>` for the
    /// location-bearing kinds, the bare system message for `IoError`.
    pub fn render(&self) -> (s: String)
        ensures
            s@ == self.text(),
    {
        match self {
            PyRustError::ParseError { location, message } => {
                let mut s = String::from_str("Parse error at ");
                let loc_s = location.render();
                s.append(loc_s.as_str());
                s.append(": ");
                s.append(message.as_str());
                proof {
                    assert(s@ =~= self.text());
                }
                s
            },
            PyRustError::TypeError { location, message } => {
                let mut s = String::from_str("Type error at ");
                let loc_s = location.render();
                s.append(loc_s.as_str());
                s.append(": ");
                s.append(message.as_str());
                proof {
                    assert(s@ =~= self.text());
                }
                s
            },
            PyRustError::IoError(message) => {
                let mut s = String::from_str("IO error: ");
                s.append(message.as_str());
                proof {
                    assert(s@ =~= self.text());
                }
                s
            },
            PyRustError::UndefinedName { name, location } => {
                let mut s = String::from_str("Undefined name '");
                s.append(name.as_str());
                s.append("' at ");
                let loc_s = location.render();
                s.append(loc_s.as_str());
                proof {
                    assert(s@ =~= self.text());
                }
                s
            },
        }
    }
}

} // verus!
