//! Source spans: the range of positions a syntax node covers.

use vstd::prelude::*;

use crate::diagnostics::location_text;

verus! {

/// A span of source code: a start and an end position in one file.
/// Lines are 1-based, columns 0-based, as in `SourceLocation`.
#[derive(Debug, Clone, PartialEq, Eq)]
pub struct SourceSpan {
    pub file: String,
    pub start_line: usize,
    pub start_col: usize,
    pub end_line: usize,
    pub end_col: usize,
}

/// True when two spans name the same file and the same positions.
pub open spec fn span_eq(a: SourceSpan, b: SourceSpan) -> bool {
    &&& a.file@ == b.file@
    &&& a.start_line == b.start_line
    &&& a.start_col == b.start_col
    &&& a.end_line == b.end_line
    &&& a.end_col == b.end_col
}

/// The file name the `unknown` sentinel carries.
pub open spec fn unknown_file_text() -> Seq<char> {
    "<unknown>"@
}

impl SourceSpan {
    /// True of the sentinel produced by `unknown`, and of no span that a
    /// parse produces: a real span's lines are at least 1.
    pub open spec fn is_unknown(self) -> bool {
        &&& self.file@ == unknown_file_text()
        &&& self.start_line == 0
        &&& self.start_col == 0
        &&& self.end_line == 0
        &&& self.end_col == 0
    }

    pub fn new(file: String, start_line: usize, start_col: usize, end_line: usize, end_col: usize) -> (s:
        Self)
        ensures
            s.file == file,
            s.start_line == start_line,
            s.start_col == start_col,
            s.end_line == end_line,
            s.end_col == end_col,
    {
        SourceSpan { file, start_line, start_col, end_line, end_col }
    }

    /// The sentinel span for synthesized nodes with no source origin.
    /// It must never be reported to a user as if it were a real location.
    pub fn unknown() -> (s: Self)
        ensures
            s.is_unknown(),
    {
        SourceSpan {
            file: String::from_str("<unknown>"),
            start_line: 0,
            start_col: 0,
            end_line: 0,
            end_col: 0,
        }
    }

    /// A span naming the same file and positions.
    pub fn duplicate(&self) -> (r: SourceSpan)
        ensures
            span_eq(r, *self),
    {
        SourceSpan {
            file: self.file.clone(),
            start_line: self.start_line,
            start_col: self.start_col,
            end_line: self.end_line,
            end_col: self.end_col,
        }
    }

    /// What `render` returns for this span.
    pub open spec fn text(self) -> Seq<char> {
        location_text(self.file@, self.start_line as nat, self.start_col as nat)
    }

    /// Renders the span by its start position, `<file>:<line>:<column>`.
    pub fn render(&self) -> (s: String)
        ensures
            s@ == self.text(),
    {
        let loc = crate::diagnostics::SourceLocation {
            file: self.file.clone(),
            line: self.start_line,
            column: self.start_col,
        };
        let s = loc.render();
        proof {
            assert(s@ =~= self.text());
        }
        s
    }
}

} // verus!
