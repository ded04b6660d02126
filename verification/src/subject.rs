//! The subject wrapper: a named, located value currently under test.

use vstd::prelude::*;

verus! {

/// A source position recorded when a subject is captured at its call site.
#[derive(Clone, Copy, Debug)]
pub struct Location {
    pub file: &'static str,
    pub line: u32,
    pub column: u32,
}

/// The mathematical image of a [`Location`].
pub struct LocationView {
    pub file: Seq<char>,
    pub line: u32,
    pub column: u32,
}

impl View for Location {
    type V = LocationView;

    open spec fn view(&self) -> LocationView {
        LocationView { file: self.file@, line: self.line, column: self.column }
    }
}

/// The mathematical image of a subject's descriptive metadata: what a
/// failure report may mention besides the expected and observed values.
pub struct MetaView {
    pub subject_name: Option<Seq<char>>,
    pub location: Option<LocationView>,
    pub description: Option<Seq<char>>,
}

/// Read access to a subject's descriptive metadata, independent of the type
/// of the wrapped value.  The failure builder is written once against this
/// trait instead of once per wrapped type.
pub trait Describable {
    /// The metadata as one mathematical value.
    spec fn meta_view(&self) -> MetaView;

    /// The literal source text of the expression under test, if captured.
    fn subject_name(&self) -> (r: Option<&'static str>)
        ensures
            match r {
                Some(n) => self.meta_view().subject_name == Some(n@),
                None => self.meta_view().subject_name is None,
            },
    ;

    /// The call site of the entry point, if captured.
    fn location(&self) -> (r: Option<Location>)
        ensures
            match r {
                Some(l) => self.meta_view().location == Some(l@),
                None => self.meta_view().location is None,
            },
    ;

    /// A caller-supplied human label for the subject, if any.
    fn description<'a>(&'a self) -> (r: Option<&'a str>)
        ensures
            match r {
                Some(d) => self.meta_view().description == Some(d@),
                None => self.meta_view().description is None,
            },
    ;
}

/// A named, located value currently under test.
///
/// The wrapper never owns the value: it borrows it for its own lifetime.
/// Chaining produces a new wrapper around a narrower value while copying the
/// descriptive metadata forward, so a failure deep in a chain still reports
/// the root expression.
#[derive(Debug)]
pub struct Subject<'s, T> {
    pub subject: &'s T,
    pub subject_name: Option<&'static str>,
    pub location: Option<Location>,
    pub description: Option<&'s str>,
}

impl<'s, T> Describable for Subject<'s, T> {
    open spec fn meta_view(&self) -> MetaView {
        MetaView {
            subject_name: match self.subject_name {
                Some(n) => Some(n@),
                None => None,
            },
            location: match self.location {
                Some(l) => Some(l@),
                None => None,
            },
            description: match self.description {
                Some(d) => Some(d@),
                None => None,
            },
        }
    }

    fn subject_name(&self) -> (r: Option<&'static str>) {
        self.subject_name
    }

    fn location(&self) -> (r: Option<Location>) {
        self.location
    }

    fn description<'a>(&'a self) -> (r: Option<&'a str>) {
        self.description
    }
}

impl<'s, T> Subject<'s, T> {
    /// Attach the literal source text of the subject expression.
    pub fn named(self, name: &'static str) -> (s: Subject<'s, T>)
        ensures
            s.subject == self.subject,
            s.subject_name == Some(name),
            s.location == self.location,
            s.description == self.description,
    {
        Subject { subject_name: Some(name), ..self }
    }

    /// Attach the call site of the entry point.
    pub fn located(self, location: Location) -> (s: Subject<'s, T>)
        ensures
            s.subject == self.subject,
            s.subject_name == self.subject_name,
            s.location == Some(location),
            s.description == self.description,
    {
        Subject { location: Some(location), ..self }
    }

    /// Attach a caller-supplied human label.
    pub fn described(self, description: &'s str) -> (s: Subject<'s, T>)
        ensures
            s.subject == self.subject,
            s.subject_name == self.subject_name,
            s.location == self.location,
            s.description == Some(description),
    {
        Subject { description: Some(description), ..self }
    }
}

/// Wrap a value under test.  The wrapper starts without a name, a location
/// or a description; `named`, `located` and `described` add them.
pub fn assert_that<'s, T>(subject: &'s T) -> (s: Subject<'s, T>)
    ensures
        s.subject == subject,
        s.subject_name is None,
        s.location is None,
        s.description is None,
{
    Subject { subject, subject_name: None, location: None, description: None }
}

} // verus!
