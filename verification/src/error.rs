//! Errors surfaced by the parsing core.  Any one of them aborts the load of
//! the current file; nothing is recovered or skipped.

use vstd::prelude::*;
use vstd::string::StringExecFns;

verus! {

/// Mathematical image of a [`LoadError`].
pub ghost enum LoadErrorV {
    /// A text or attribute value held a malformed XML escape sequence.
    Xml { raw: Seq<char> },
    /// A field's text did not parse as its declared integer type.  `at` is
    /// the breadcrumb naming the parser state and element.
    Parse { at: Seq<char>, raw: Seq<char> },
    /// A mandatory positional attribute was absent from an opening tag.
    Attr { index: usize },
}

/// An error met while reconstructing records from the event stream.
#[derive(Debug, Clone, PartialEq, Eq)]
pub enum LoadError {
    /// A text or attribute value held a malformed XML escape sequence.
    Xml { raw: String },
    /// A field's text did not parse as its declared integer type.
    Parse { at: String, raw: String },
    /// A mandatory positional attribute was absent from an opening tag.
    Attr { index: usize },
}

impl View for LoadError {
    type V = LoadErrorV;

    open spec fn view(&self) -> LoadErrorV {
        match self {
            LoadError::Xml { raw } => LoadErrorV::Xml { raw: raw@ },
            LoadError::Parse { at, raw } => LoadErrorV::Parse { at: at@, raw: raw@ },
            LoadError::Attr { index } => LoadErrorV::Attr { index: *index },
        }
    }
}

/// What [`LoadError::describe`] returns for a given error.
pub open spec fn spec_describe(e: LoadErrorV) -> Seq<char> {
    match e {
        LoadErrorV::Xml { raw } => "malformed XML escape in \""@ + raw + "\""@,
        LoadErrorV::Parse { at, raw } => "integer expected at "@ + at + ", got \""@ + raw
            + "\""@,
        LoadErrorV::Attr { index } => "missing mandatory attribute"@,
    }
}

impl LoadError {
    /// A human-readable account of the error, for the caller to print.
    pub fn describe(&self) -> (r: String)
        ensures
            r@ == spec_describe(self@),
    {
        match self {
            LoadError::Xml { raw } => {
                let mut s = String::from_str("malformed XML escape in \"");
                s.append(raw.as_str());
                s.append("\"");
                s
            },
            LoadError::Parse { at, raw } => {
                let mut s = String::from_str("integer expected at ");
                s.append(at.as_str());
                s.append(", got \"");
                s.append(raw.as_str());
                s.append("\"");
                s
            },
            LoadError::Attr { index } => String::from_str("missing mandatory attribute"),
        }
    }
}

} // verus!
