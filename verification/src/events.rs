//! The flat event stream that the entity parsers consume.
//!
//! Events mirror what an XML pull-parser emits: opening, self-closing and
//! closing tags with their positional attribute values, and text nodes.
//! Names and values arrive exactly as they stand in the document: names may
//! still carry a namespace prefix, text and attribute values are still
//! XML-escaped.

use vstd::prelude::*;
use vstd::string::StrSliceExecFns;

verus! {

/// Mathematical image of an [`XmlEvent`].
pub ghost enum EventV {
    Start { name: Seq<char>, attrs: Seq<Seq<char>> },
    Empty { name: Seq<char>, attrs: Seq<Seq<char>> },
    End { name: Seq<char> },
    Text { raw: Seq<char> },
    Other,
}

/// One pull-parser event, reduced to plain values.  `Start` and `Empty`
/// carry the tag's attribute values in document order; `Text` carries the
/// raw, still-escaped character data.  Every event kind the parsers ignore
/// (comments, processing instructions, declarations, CDATA) maps to `Other`.
#[derive(Debug, Clone, PartialEq, Eq)]
pub enum XmlEvent {
    Start(String, Vec<String>),
    Empty(String, Vec<String>),
    End(String),
    Text(String),
    Other,
}

/// The views of a sequence of strings.
pub open spec fn strs_view(v: Seq<String>) -> Seq<Seq<char>> {
    v.map_values(|s: String| s@)
}

impl View for XmlEvent {
    type V = EventV;

    open spec fn view(&self) -> EventV {
        match self {
            XmlEvent::Start(name, attrs) => EventV::Start {
                name: name@,
                attrs: strs_view(attrs@),
            },
            XmlEvent::Empty(name, attrs) => EventV::Empty {
                name: name@,
                attrs: strs_view(attrs@),
            },
            XmlEvent::End(name) => EventV::End { name: name@ },
            XmlEvent::Text(raw) => EventV::Text { raw: raw@ },
            XmlEvent::Other => EventV::Other,
        }
    }
}

/// Whether `s` holds a colon anywhere.
pub open spec fn has_colon(s: Seq<char>) -> bool {
    exists|i: int| 0 <= i < s.len() && s[i] == ':'
}

/// The suffix of `s` after its first colon.
pub open spec fn after_first_colon(s: Seq<char>) -> Seq<char>
    decreases s.len(),
{
    if s.len() == 0 {
        s
    } else if s[0] == ':' {
        s.skip(1)
    } else {
        after_first_colon(s.skip(1))
    }
}

/// A tag name's local part: everything up to and including the first colon
/// (the namespace prefix) is removed; a name without a colon is unchanged.
pub open spec fn spec_local_name(s: Seq<char>) -> Seq<char> {
    if has_colon(s) {
        after_first_colon(s)
    } else {
        s
    }
}

proof fn lemma_after_first_colon(s: Seq<char>, i: int)
    requires
        0 <= i < s.len(),
        s[i] == ':',
        forall|j: int| 0 <= j < i ==> s[j] != ':',
    ensures
        after_first_colon(s) == s.skip(i + 1),
    decreases i,
{
    if i == 0 {
    } else {
        lemma_after_first_colon(s.skip(1), i - 1);
        assert(s.skip(1).skip(i) =~= s.skip(i + 1));
    }
}

/// Strips the namespace prefix, if any, from a raw tag name.
pub fn local_name_of(name: &str) -> (r: String)
    ensures
        r@ == spec_local_name(name@),
{
    let n = name.unicode_len();
    let mut i: usize = 0;
    while i < n
        invariant
            0 <= i <= n,
            n == name@.len(),
            forall|j: int| 0 <= j < i ==> name@[j] != ':',
        decreases n - i,
    {
        if name.get_char(i) == ':' {
            proof {
                lemma_after_first_colon(name@, i as int);
            }
            let r = name.substring_char(i + 1, n).to_owned();
            assert(r@ =~= name@.skip(i + 1));
            return r;
        }
        i += 1;
    }
    assert(!has_colon(name@));
    name.to_owned()
}

/// The four entity families a dump can hold, named by the root element
/// of the document.
#[derive(Debug, Clone, Copy, PartialEq, Eq, Structural)]
pub enum Family {
    Artists,
    Labels,
    Masters,
    Releases,
}

/// Which family an event announces: the first opening element whose local
/// name is a family tag decides which entity parser runs.
pub open spec fn spec_detect_family(ev: EventV) -> Option<Family> {
    match ev {
        EventV::Start { name, attrs } => {
            let local = spec_local_name(name);
            if local == "artists"@ {
                Some(Family::Artists)
            } else if local == "labels"@ {
                Some(Family::Labels)
            } else if local == "masters"@ {
                Some(Family::Masters)
            } else if local == "releases"@ {
                Some(Family::Releases)
            } else {
                None
            }
        },
        _ => None,
    }
}

/// Decides from one event which entity family the document holds, if it
/// announces one.
pub fn detect_family(ev: &XmlEvent) -> (r: Option<Family>)
    ensures
        r == spec_detect_family(ev@),
{
    match ev {
        XmlEvent::Start(name, _) => {
            let local = local_name_of(name.as_str());
            if tag_is(&local, "artists") {
                Some(Family::Artists)
            } else if tag_is(&local, "labels") {
                Some(Family::Labels)
            } else if tag_is(&local, "masters") {
                Some(Family::Masters)
            } else if tag_is(&local, "releases") {
                Some(Family::Releases)
            } else {
                None
            }
        },
        _ => None,
    }
}

/// Whether a decoded tag name equals an expected literal.
pub fn tag_is(name: &String, lit: &str) -> (r: bool)
    ensures
        r == (name@ == lit@),
{
    *name == lit.to_owned()
}

} // verus!
