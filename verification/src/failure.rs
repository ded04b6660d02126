//! The failure builder: turns one mismatch into a deterministic,
//! greppable multi-line report.

use vstd::prelude::*;
use vstd::string::StringExecFns;

use crate::decimal::{decimal, push_decimal};
use crate::subject::{Describable, MetaView};

verus! {

/// The single error kind of the library: an assertion did not hold.
/// Its only payload is the assembled report.
#[derive(Debug)]
pub struct AssertionMismatch {
    report: String,
}

impl View for AssertionMismatch {
    type V = Seq<char>;

    closed spec fn view(&self) -> Seq<char> {
        self.report@
    }
}

impl AssertionMismatch {
    /// The assembled report.
    pub fn report(&self) -> (r: &String)
        ensures
            r@ == self@,
    {
        &self.report
    }

    /// The assembled report, surrendering the mismatch.
    pub fn into_report(self) -> (r: String)
        ensures
            r@ == self@,
    {
        self.report
    }
}

/// The lines a report devotes to the subject's descriptive metadata:
/// the caller's label, the captured expression text, the call site.
pub open spec fn describing_lines(m: MetaView) -> Seq<char> {
    (match m.description {
        Some(d) => "\n\t"@ + d + ":"@,
        None => Seq::<char>::empty(),
    }) + (match m.subject_name {
        Some(n) => "\n\tsubject: "@ + n,
        None => Seq::<char>::empty(),
    }) + (match m.location {
        Some(l) => "\n\tat: "@ + l.file + ":"@ + decimal(l.line as nat) + ":"@ + decimal(
            l.column as nat,
        ),
        None => Seq::<char>::empty(),
    })
}

/// The connective between the expected line and the observed line.  The
/// set-family formatter omits the word "but"; the string-family formatter
/// keeps it, padded with a space.  Both shapes are part of the observed
/// contract and are kept exactly.
pub open spec fn was_connective(padded: bool) -> Seq<char> {
    if padded {
        "\n\t but was: "@
    } else {
        "\n\twas: "@
    }
}

/// The full report: metadata lines, the expected line, the observed line,
/// and an optional trailing message such as a rendered diff.
pub open spec fn report_view(
    m: MetaView,
    padded: bool,
    expected: Seq<char>,
    actual: Seq<char>,
    message: Option<Seq<char>>,
) -> Seq<char> {
    describing_lines(m) + "\n\texpected: "@ + expected + was_connective(padded) + actual + (
    match message {
        Some(t) => "\n\t"@ + t,
        None => Seq::<char>::empty(),
    })
}

/// Law: every report keeps the greppable shape — the marker of the
/// expected line occurs in it verbatim, whatever the metadata, the
/// descriptions and the trailing message are.
pub proof fn lemma_report_keeps_greppable_shape(
    m: MetaView,
    padded: bool,
    expected: Seq<char>,
    actual: Seq<char>,
    message: Option<Seq<char>>,
)
    ensures
        crate::string::seq_contains_sub(
            report_view(m, padded, expected, actual, message),
            "\n\texpected: "@,
        ),
{
    let r = report_view(m, padded, expected, actual, message);
    let d = describing_lines(m);
    let x = "\n\texpected: "@;
    assert(x =~= r.subrange(d.len() as int, d.len() + x.len() as int));
}

/// A transient accumulator for one failing assertion: an expected
/// description, an observed description and an optional extra message,
/// committed by [`AssertionFailure::fail`] into an [`AssertionMismatch`].
pub struct AssertionFailure<'r, S: Describable> {
    pub spec_source: &'r S,
    pub expected: Option<String>,
    pub actual: Option<String>,
    pub message: Option<String>,
    pub padded: bool,
}

impl<'r, S: Describable> AssertionFailure<'r, S> {
    /// Start a failure for the subject whose metadata `source` exposes.
    pub fn from_spec(source: &'r S) -> (b: AssertionFailure<'r, S>)
        ensures
            b.spec_source == source,
            b.expected is None,
            b.actual is None,
            b.message is None,
            !b.padded,
    {
        AssertionFailure {
            spec_source: source,
            expected: None,
            actual: None,
            message: None,
            padded: false,
        }
    }

    /// Spell the connective of the observed line as " but was: ", as the
    /// string-family formatter does; the set-family formatter omits the
    /// word "but".
    pub fn padded(self) -> (b: AssertionFailure<'r, S>)
        ensures
            b == (AssertionFailure { padded: true, ..self }),
    {
        AssertionFailure { padded: true, ..self }
    }

    /// Record what was required.  Set at most once per failure.
    pub fn with_expected(self, expected: String) -> (b: AssertionFailure<'r, S>)
        requires
            self.expected is None,
        ensures
            b == (AssertionFailure { expected: Some(expected), ..self }),
    {
        AssertionFailure { expected: Some(expected), ..self }
    }

    /// Record what was observed.  Set at most once per failure.
    pub fn with_actual(self, actual: String) -> (b: AssertionFailure<'r, S>)
        requires
            self.actual is None,
        ensures
            b == (AssertionFailure { actual: Some(actual), ..self }),
    {
        AssertionFailure { actual: Some(actual), ..self }
    }

    /// Attach supplementary text, such as a rendered diff.  Set at most
    /// once per failure.
    pub fn with_message(self, message: String) -> (b: AssertionFailure<'r, S>)
        requires
            self.message is None,
        ensures
            b == (AssertionFailure { message: Some(message), ..self }),
    {
        AssertionFailure { message: Some(message), ..self }
    }

    /// Commit: assemble the report from the recorded descriptions and the
    /// subject's metadata.
    #[verifier::rlimit(50)]
    pub fn fail(self) -> (e: AssertionMismatch)
        requires
            self.expected is Some,
            self.actual is Some,
        ensures
            e@ == report_view(
                self.spec_source.meta_view(),
                self.padded,
                self.expected.unwrap()@,
                self.actual.unwrap()@,
                match self.message {
                    Some(t) => Some(t@),
                    None => None,
                },
            ),
    {
        let mut out = String::new();
        match self.spec_source.description() {
            Some(d) => {
                out.append("\n\t");
                out.append(d);
                out.append(":");
            },
            None => {},
        }
        match self.spec_source.subject_name() {
            Some(n) => {
                out.append("\n\tsubject: ");
                out.append(n);
            },
            None => {},
        }
        match self.spec_source.location() {
            Some(l) => {
                out.append("\n\tat: ");
                out.append(l.file);
                out.append(":");
                push_decimal(&mut out, l.line as usize);
                out.append(":");
                push_decimal(&mut out, l.column as usize);
            },
            None => {},
        }
        proof {
            assert(out@ =~= describing_lines(self.spec_source.meta_view()));
        }
        out.append("\n\texpected: ");
        match &self.expected {
            Some(e) => out.append(e.as_str()),
            None => {},
        }
        if self.padded {
            out.append("\n\t but was: ");
        } else {
            out.append("\n\twas: ");
        }
        match &self.actual {
            Some(a) => out.append(a.as_str()),
            None => {},
        }
        match &self.message {
            Some(t) => {
                out.append("\n\t");
                out.append(t.as_str());
            },
            None => {},
        }
        proof {
            assert(out@ =~= report_view(
                self.spec_source.meta_view(),
                self.padded,
                self.expected.unwrap()@,
                self.actual.unwrap()@,
                match self.message {
                    Some(t) => Some(t@),
                    None => None,
                },
            ));
        }
        AssertionMismatch { report: out }
    }
}

} // verus!
