//! Assertions over textual subjects: `&str` and `String`.
//!
//! The predicates are byte/codepoint-exact and case-sensitive, with no
//! normalization.  Each assertion either confirms its predicate or returns
//! a mismatch whose report quotes the expected and the observed text and
//! carries a rendered diff.

use vstd::prelude::*;
use vstd::string::{StrSliceExecFns, StringExecFns};

use crate::expected::ExpectedArg;
use crate::failure::{report_view, AssertionFailure, AssertionMismatch};
use crate::subject::{Describable, MetaView, Subject};

verus! {

/// `needle` occurs somewhere in `hay` as a contiguous run of characters.
pub open spec fn seq_contains_sub(hay: Seq<char>, needle: Seq<char>) -> bool {
    exists|i: int|
        0 <= i && i + needle.len() <= hay.len() && needle == #[trigger] hay.subrange(
            i,
            i + needle.len(),
        )
}

/// The characters of `a` and `b` are identical.
pub fn str_eq(a: &str, b: &str) -> (r: bool)
    ensures
        r == (a@ == b@),
{
    let an = a.unicode_len();
    let bn = b.unicode_len();
    if an != bn {
        return false;
    }
    let mut i: usize = 0;
    while i < an
        invariant
            i <= an,
            an == a@.len(),
            an == b@.len(),
            forall|j: int| 0 <= j < i ==> a@[j] == b@[j],
        decreases an - i,
    {
        if a.get_char(i) != b.get_char(i) {
            return false;
        }
        i += 1;
    }
    proof {
        assert(a@ =~= b@);
    }
    true
}

/// `prefix` is a prefix of `s`.
pub fn str_starts_with(s: &str, prefix: &str) -> (r: bool)
    ensures
        r == prefix@.is_prefix_of(s@),
{
    let pn = prefix.unicode_len();
    let sn = s.unicode_len();
    if pn > sn {
        return false;
    }
    let mut i: usize = 0;
    while i < pn
        invariant
            i <= pn,
            pn == prefix@.len(),
            sn == s@.len(),
            pn <= sn,
            forall|j: int| 0 <= j < i ==> prefix@[j] == s@[j],
        decreases pn - i,
    {
        if prefix.get_char(i) != s.get_char(i) {
            proof {
                assert(prefix@[i as int] != s@.subrange(0, pn as int)[i as int]);
            }
            return false;
        }
        i += 1;
    }
    proof {
        assert(prefix@ =~= s@.subrange(0, pn as int));
    }
    true
}

/// `suffix` is a suffix of `s`.
pub fn str_ends_with(s: &str, suffix: &str) -> (r: bool)
    ensures
        r == suffix@.is_suffix_of(s@),
{
    let xn = suffix.unicode_len();
    let sn = s.unicode_len();
    if xn > sn {
        return false;
    }
    let base = sn - xn;
    let mut i: usize = 0;
    while i < xn
        invariant
            i <= xn,
            xn == suffix@.len(),
            sn == s@.len(),
            base == sn - xn,
            forall|j: int| 0 <= j < i ==> suffix@[j] == s@[base + j],
        decreases xn - i,
    {
        if suffix.get_char(i) != s.get_char(base + i) {
            proof {
                assert(suffix@[i as int] != s@.subrange(base as int, sn as int)[i as int]);
            }
            return false;
        }
        i += 1;
    }
    proof {
        assert(suffix@ =~= s@.subrange(sn - xn, sn as int));
    }
    true
}

/// `needle` matches `s` exactly at position `at`.
fn matches_at(s: &str, needle: &str, at: usize) -> (r: bool)
    requires
        at + needle@.len() <= s@.len(),
    ensures
        r == (needle@ == s@.subrange(at as int, at + needle@.len())),
{
    let nn = needle.unicode_len();
    let sn = s.unicode_len();
    let mut j: usize = 0;
    while j < nn
        invariant
            j <= nn,
            nn == needle@.len(),
            sn == s@.len(),
            at + nn <= s@.len(),
            forall|k: int| 0 <= k < j ==> needle@[k] == s@[at + k],
        decreases nn - j,
    {
        if needle.get_char(j) != s.get_char(at + j) {
            proof {
                assert(needle@[j as int] != s@.subrange(at as int, at + nn)[j as int]);
            }
            return false;
        }
        j += 1;
    }
    proof {
        assert(needle@ =~= s@.subrange(at as int, at + nn));
    }
    true
}

/// `needle` occurs somewhere in `s`.
pub fn str_contains(s: &str, needle: &str) -> (r: bool)
    ensures
        r == seq_contains_sub(s@, needle@),
{
    let nn = needle.unicode_len();
    let sn = s.unicode_len();
    if nn > sn {
        return false;
    }
    let last = sn - nn;
    let mut i: usize = 0;
    loop
        invariant
            i <= last,
            nn == needle@.len(),
            sn == s@.len(),
            last == sn - nn,
            forall|k: int|
                0 <= k < i ==> needle@ != #[trigger] s@.subrange(k, k + needle@.len()),
        decreases last + 1 - i,
    {
        if matches_at(s, needle, i) {
            proof {
                assert(needle@ == s@.subrange(i as int, i + needle@.len()));
            }
            return true;
        }
        if i == last {
            return false;
        }
        i += 1;
    }
}

/// A name for what the `Debug` formatting of `str` returns: the quoted,
/// escaped form of the text, a function of the characters alone.
pub uninterp spec fn quoted_of(text: Seq<char>) -> Seq<char>;

/// Relies on the `Debug` formatting of `str` for the quoted form of a text.
#[verifier::external_body]
fn quoted(text: &str) -> (r: String)
    ensures
        r@ == quoted_of(text@),
{
    format!("{:?}", text)
}

/// Relies on `pretty_assertions::Comparison` (rendered through `Display`)
/// for the diff block attached to a textual mismatch.  Its styling
/// consults process-global state (an OS-dependent switch that any code in
/// the process may flip), so the rendered text is not a function of the
/// two texts alone and nothing is claimed of it.
#[verifier::external_body]
fn comparison(expected: &str, actual: &str) -> String {
    format!("{}", pretty_assertions::Comparison::new(&expected, &actual))
}

/// The textual predicates an assertion can check against an expected text.
pub enum TextCheck {
    Equals,
    Prefix,
    Suffix,
    Substring,
}

/// Whether the predicate holds of the subject's text.
pub open spec fn text_check_holds(c: TextCheck, text: Seq<char>, expected: Seq<char>) -> bool {
    match c {
        TextCheck::Equals => text == expected,
        TextCheck::Prefix => expected.is_prefix_of(text),
        TextCheck::Suffix => expected.is_suffix_of(text),
        TextCheck::Substring => seq_contains_sub(text, expected),
    }
}

/// The expected-side description each predicate writes into a report.
pub open spec fn text_check_description(c: TextCheck, expected: Seq<char>) -> Seq<char> {
    match c {
        TextCheck::Equals => "string equals to <"@ + quoted_of(expected) + ">"@,
        TextCheck::Prefix => "string starting with <"@ + quoted_of(expected) + ">"@,
        TextCheck::Suffix => "string ending with <"@ + quoted_of(expected) + ">"@,
        TextCheck::Substring => "string containing <"@ + quoted_of(expected) + ">"@,
    }
}

/// The part of a textual mismatch report that the subject's metadata and
/// the two texts fix exactly: everything up to and including the
/// separator before the diff block.
pub open spec fn text_mismatch_base(
    c: TextCheck,
    text: Seq<char>,
    expected: Seq<char>,
    m: MetaView,
) -> Seq<char> {
    report_view(
        m,
        true,
        text_check_description(c, expected),
        "<"@ + quoted_of(text) + ">"@,
        None::<Seq<char>>,
    ) + "\n\t"@
}

/// Everything a textual assertion promises of its result: the verdict
/// follows the predicate, and a mismatch starts with exactly the report
/// lines built from the subject's metadata and the two quoted texts.
/// What follows that prefix is the diff block, whose rendering an
/// outside library styles through process-global state, so it is not
/// pinned here.
pub open spec fn text_check_post(
    c: TextCheck,
    text: Seq<char>,
    expected: Seq<char>,
    m: MetaView,
    r: Result<(), AssertionMismatch>,
) -> bool {
    &&& (r is Ok <==> text_check_holds(c, text, expected))
    &&& (r is Err ==> text_mismatch_base(c, text, expected, m).is_prefix_of((r->Err_0)@))
}

/// What the emptiness assertion promises of its result.
pub open spec fn text_empty_post(
    text: Seq<char>,
    m: MetaView,
    r: Result<(), AssertionMismatch>,
) -> bool {
    &&& (r is Ok <==> text.len() == 0)
    &&& (r is Err ==> (r->Err_0)@ == report_view(
        m,
        true,
        "an empty string"@,
        "<"@ + quoted_of(text) + ">"@,
        None::<Seq<char>>,
    ))
}

/// Run one textual predicate for a subject and build the mismatch if it
/// does not hold.
fn check_text<S: Describable>(c: TextCheck, who: &S, subject: &str, expected: &str) -> (r: Result<
    (),
    AssertionMismatch,
>)
    ensures
        text_check_post(c, subject@, expected@, who.meta_view(), r),
{
    let holds = match c {
        TextCheck::Equals => str_eq(subject, expected),
        TextCheck::Prefix => str_starts_with(subject, expected),
        TextCheck::Suffix => str_ends_with(subject, expected),
        TextCheck::Substring => str_contains(subject, expected),
    };
    if holds {
        Ok(())
    } else {
        let head: &'static str = match c {
            TextCheck::Equals => "string equals to <",
            TextCheck::Prefix => "string starting with <",
            TextCheck::Suffix => "string ending with <",
            TextCheck::Substring => "string containing <",
        };
        let mut desc = String::new();
        desc.append(head);
        desc.append(quoted(expected).as_str());
        desc.append(">");
        let mut act = String::new();
        act.append("<");
        act.append(quoted(subject).as_str());
        act.append(">");
        let msg = comparison(expected, subject);
        let ghost msgv = msg@;
        proof {
            assert(desc@ =~= text_check_description(c, expected@));
            assert(act@ =~= "<"@ + quoted_of(subject@) + ">"@);
        }
        let e = AssertionFailure::from_spec(who).padded().with_expected(desc).with_actual(
            act,
        ).with_message(msg).fail();
        proof {
            let base = text_mismatch_base(c, subject@, expected@, who.meta_view());
            assert(e@ =~= base + msgv);
            assert(base =~= e@.subrange(0, base.len() as int));
        }
        Err(e)
    }
}

/// Check that a text is empty, for any subject exposing metadata: the
/// shared body of the `is_empty` assertion of every textual subject.
pub fn is_empty<S: Describable>(who: &S, subject: &str) -> (r: Result<(), AssertionMismatch>)
    ensures
        text_empty_post(subject@, who.meta_view(), r),
{
    if subject.is_empty() {
        return Ok(());
    }
    let mut desc = String::new();
    desc.append("an empty string");
    let mut act = String::new();
    act.append("<");
    act.append(quoted(subject).as_str());
    act.append(">");
    proof {
        assert(desc@ =~= "an empty string"@);
        assert(act@ =~= "<"@ + quoted_of(subject@) + ">"@);
    }
    Err(AssertionFailure::from_spec(who).padded().with_expected(desc).with_actual(act).fail())
}

/// Assertions over a textual subject.
pub trait StrAssertions: Describable + Sized {
    /// The subject's text.
    spec fn text(&self) -> Seq<char>;

    /// Succeeds exactly when the subject's text equals the expected text,
    /// character for character and case-sensitively.
    fn equals_to<'r, E: ExpectedArg<&'r str>>(&mut self, expected: E) -> (r: Result<
        (),
        AssertionMismatch,
    >)
        ensures
            *final(self) == *old(self),
            text_check_post(
                TextCheck::Equals,
                old(self).text(),
                expected.arg_value()@,
                old(self).meta_view(),
                r,
            ),
    ;

    /// Succeeds exactly when the expected text is a prefix of the
    /// subject's text; the empty text is a prefix of every text.
    fn starts_with<'r, E: ExpectedArg<&'r str>>(&mut self, expected: E) -> (r: Result<
        (),
        AssertionMismatch,
    >)
        ensures
            *final(self) == *old(self),
            text_check_post(
                TextCheck::Prefix,
                old(self).text(),
                expected.arg_value()@,
                old(self).meta_view(),
                r,
            ),
    ;

    /// Succeeds exactly when the expected text is a suffix of the
    /// subject's text.
    fn ends_with<'r, E: ExpectedArg<&'r str>>(&mut self, expected: E) -> (r: Result<
        (),
        AssertionMismatch,
    >)
        ensures
            *final(self) == *old(self),
            text_check_post(
                TextCheck::Suffix,
                old(self).text(),
                expected.arg_value()@,
                old(self).meta_view(),
                r,
            ),
    ;

    /// Succeeds exactly when the expected text occurs in the subject's
    /// text; the empty text occurs in every text.
    fn contains<'r, E: ExpectedArg<&'r str>>(&mut self, expected: E) -> (r: Result<
        (),
        AssertionMismatch,
    >)
        ensures
            *final(self) == *old(self),
            text_check_post(
                TextCheck::Substring,
                old(self).text(),
                expected.arg_value()@,
                old(self).meta_view(),
                r,
            ),
    ;

    /// Succeeds exactly when the subject's text has no characters.
    fn is_empty(&mut self) -> (r: Result<(), AssertionMismatch>)
        ensures
            *final(self) == *old(self),
            text_empty_post(old(self).text(), old(self).meta_view(), r),
    ;
}

impl<'s> StrAssertions for Subject<'s, &'s str> {
    open spec fn text(&self) -> Seq<char> {
        (*self.subject)@
    }

    fn equals_to<'r, E: ExpectedArg<&'r str>>(&mut self, expected: E) -> (r: Result<
        (),
        AssertionMismatch,
    >) {
        let exp: &&'r str = expected.narrowed();
        check_text(TextCheck::Equals, &*self, *self.subject, *exp)
    }

    fn starts_with<'r, E: ExpectedArg<&'r str>>(&mut self, expected: E) -> (r: Result<
        (),
        AssertionMismatch,
    >) {
        let exp: &&'r str = expected.narrowed();
        check_text(TextCheck::Prefix, &*self, *self.subject, *exp)
    }

    fn ends_with<'r, E: ExpectedArg<&'r str>>(&mut self, expected: E) -> (r: Result<
        (),
        AssertionMismatch,
    >) {
        let exp: &&'r str = expected.narrowed();
        check_text(TextCheck::Suffix, &*self, *self.subject, *exp)
    }

    fn contains<'r, E: ExpectedArg<&'r str>>(&mut self, expected: E) -> (r: Result<
        (),
        AssertionMismatch,
    >) {
        let exp: &&'r str = expected.narrowed();
        check_text(TextCheck::Substring, &*self, *self.subject, *exp)
    }

    fn is_empty(&mut self) -> (r: Result<(), AssertionMismatch>) {
        is_empty(&*self, *self.subject)
    }
}

impl<'s> StrAssertions for Subject<'s, String> {
    open spec fn text(&self) -> Seq<char> {
        self.subject@
    }

    fn equals_to<'r, E: ExpectedArg<&'r str>>(&mut self, expected: E) -> (r: Result<
        (),
        AssertionMismatch,
    >) {
        let exp: &&'r str = expected.narrowed();
        check_text(TextCheck::Equals, &*self, self.subject.as_str(), *exp)
    }

    fn starts_with<'r, E: ExpectedArg<&'r str>>(&mut self, expected: E) -> (r: Result<
        (),
        AssertionMismatch,
    >) {
        let exp: &&'r str = expected.narrowed();
        check_text(TextCheck::Prefix, &*self, self.subject.as_str(), *exp)
    }

    fn ends_with<'r, E: ExpectedArg<&'r str>>(&mut self, expected: E) -> (r: Result<
        (),
        AssertionMismatch,
    >) {
        let exp: &&'r str = expected.narrowed();
        check_text(TextCheck::Suffix, &*self, self.subject.as_str(), *exp)
    }

    fn contains<'r, E: ExpectedArg<&'r str>>(&mut self, expected: E) -> (r: Result<
        (),
        AssertionMismatch,
    >) {
        let exp: &&'r str = expected.narrowed();
        check_text(TextCheck::Substring, &*self, self.subject.as_str(), *exp)
    }

    fn is_empty(&mut self) -> (r: Result<(), AssertionMismatch>) {
        is_empty(&*self, self.subject.as_str())
    }
}

/// Law: passing the expected text as an owned value, a shared reference or
/// a mutable reference cannot change a textual assertion's verdict, nor
/// any part of the report before the diff block; those depend only on the
/// text the argument stands for.  The diff block itself comes from an
/// outside renderer styled through process-global state, so its bytes are
/// not claimed.
pub proof fn lemma_text_check_ignores_argument_form<
    'r,
    E1: ExpectedArg<&'r str>,
    E2: ExpectedArg<&'r str>,
>(
    c: TextCheck,
    text: Seq<char>,
    m: MetaView,
    e1: E1,
    e2: E2,
    r1: Result<(), AssertionMismatch>,
    r2: Result<(), AssertionMismatch>,
)
    requires
        e1.arg_value()@ == e2.arg_value()@,
        text_check_post(c, text, e1.arg_value()@, m, r1),
        text_check_post(c, text, e2.arg_value()@, m, r2),
    ensures
        r1 is Ok <==> r2 is Ok,
        r1 is Err ==> r2 is Err && text_mismatch_base(c, text, e1.arg_value()@, m).is_prefix_of(
            (r1->Err_0)@,
        ) && text_mismatch_base(c, text, e1.arg_value()@, m).is_prefix_of((r2->Err_0)@),
{
}

/// Law: the empty text is a prefix of, a suffix of and contained in every
/// text, so `starts_with`, `ends_with` and `contains` always succeed for
/// an empty expected text.
pub proof fn lemma_empty_text_matches_everywhere(text: Seq<char>)
    ensures
        text_check_holds(TextCheck::Prefix, text, Seq::<char>::empty()),
        text_check_holds(TextCheck::Suffix, text, Seq::<char>::empty()),
        text_check_holds(TextCheck::Substring, text, Seq::<char>::empty()),
{
    assert(Seq::<char>::empty() =~= text.subrange(0, 0));
    assert(Seq::<char>::empty() =~= text.subrange(
        text.len() as int - 0,
        text.len() as int,
    ));
    assert(0 + Seq::<char>::empty().len() <= text.len() && Seq::<char>::empty()
        == text.subrange(0, 0 + Seq::<char>::empty().len() as int));
}

} // verus!
