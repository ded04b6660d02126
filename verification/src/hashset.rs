//! Assertions over set-like subjects: `std::collections::HashSet`.
//!
//! Membership uses the container's native equality and hashing.  The
//! contracts are tied to the container's mathematical view whenever the
//! element type hashes deterministically (vstd's key model); the
//! `models` predicate of each trait says exactly that.

use core::fmt::Debug;
use core::hash::Hash;
use std::collections::hash_map::RandomState;
use std::collections::HashSet;

use vstd::prelude::*;
use vstd::std_specs::hash::{builds_valid_hashers, obeys_key_model};
use vstd::string::StringExecFns;

use crate::decimal::{decimal, push_decimal};
use crate::expected::ExpectedArg;
use crate::failure::{report_view, AssertionFailure, AssertionMismatch};
use crate::string::{text_check_post, text_mismatch_base, StrAssertions, TextCheck};
use crate::subject::{Describable, MetaView, Subject};

verus! {

broadcast use vstd::std_specs::hash::group_hash_axioms;

/// What the length assertion promises of its result: the verdict follows
/// the container's true size, and a mismatch quotes both the expected
/// length and the true size in decimal.
pub open spec fn set_length_post(
    size: nat,
    expected: nat,
    m: MetaView,
    r: Result<(), AssertionMismatch>,
) -> bool {
    &&& (r is Ok <==> size == expected)
    &&& (r is Err ==> (r->Err_0)@ == report_view(
        m,
        false,
        "hashset to have length <"@ + decimal(expected) + ">"@,
        "<"@ + decimal(size) + ">"@,
        None::<Seq<char>>,
    ))
}

/// What the emptiness assertion promises of its result.
pub open spec fn set_empty_post(size: nat, m: MetaView, r: Result<(), AssertionMismatch>) -> bool {
    &&& (r is Ok <==> size == 0)
    &&& (r is Err ==> (r->Err_0)@ == report_view(
        m,
        false,
        "an empty hashset"@,
        "a hashset with length <"@ + decimal(size) + ">"@,
        None::<Seq<char>>,
    ))
}

/// The chunks joined with a comma and a space between neighbours.
pub open spec fn comma_joined(chunks: Seq<Seq<char>>) -> Seq<char>
    decreases chunks.len(),
{
    if chunks.len() == 0 {
        Seq::empty()
    } else if chunks.len() == 1 {
        chunks[0]
    } else {
        comma_joined(chunks.drop_last()) + ", "@ + chunks.last()
    }
}

/// What the membership assertion promises of its result: the verdict
/// follows true membership; success yields a wrapper around the matched
/// element that carries the original subject's metadata forward; a
/// mismatch brackets a comma-separated rendering with one chunk per
/// element of the container.  The chunks themselves are the elements'
/// `Debug` form, which cannot be pinned for an arbitrary element type.
pub open spec fn set_contains_post<'s, V>(
    s: Set<V>,
    v: V,
    m: MetaView,
    r: Result<Subject<'s, V>, AssertionMismatch>,
) -> bool {
    &&& (r is Ok <==> s.contains(v))
    &&& (r is Ok ==> *(r->Ok_0).subject == v && (r->Ok_0).meta_view() == m)
    &&& (r is Err ==> exists|value_text: Seq<char>, chunks: Seq<Seq<char>>|
        chunks.len() == s.len() && (r->Err_0)@ == report_view(
            m,
            false,
            "hashset to contain value <"@ + value_text + ">"@,
            "<["@ + comma_joined(chunks) + "]>"@,
            None::<Seq<char>>,
        ))
}

/// What the absence assertion promises of its result.
pub open spec fn set_lacks_post<V>(
    s: Set<V>,
    v: V,
    m: MetaView,
    r: Result<(), AssertionMismatch>,
) -> bool {
    &&& (r is Ok <==> !s.contains(v))
    &&& (r is Err ==> exists|value_text: Seq<char>|
        (r->Err_0)@ == report_view(
            m,
            false,
            "hashset to not contain value <"@ + value_text + ">"@,
            "present in hashset"@,
            None::<Seq<char>>,
        ))
}

/// Relies on the `Debug` formatting of the value's type for the rendered
/// form of one value; nothing further is assumed of the text.
#[verifier::external_body]
fn debug_text<T: Debug>(value: &T) -> String {
    format!("{:?}", value)
}

/// Relies on `HashSet::iter`: hands the elements out as references, each
/// element once, in arbitrary order.
#[verifier::external_body]
fn set_items<'a, V>(s: &'a HashSet<V>) -> (r: Vec<&'a V>)
    ensures
        obeys_key_model::<V>() && builds_valid_hashers::<RandomState>() ==> {
            &&& r@.len() == s@.len()
            &&& forall|i: int| 0 <= i < r@.len() ==> s@.contains(*r@[i])
        },
{
    s.iter().collect()
}

/// Render the contents of a set for a report: one chunk per element,
/// comma-separated, in the arbitrary order the container hands them out.
fn items_text<V: Debug>(s: &HashSet<V>) -> (r: String)
    ensures
        obeys_key_model::<V>() && builds_valid_hashers::<RandomState>() ==> exists|
            chunks: Seq<Seq<char>>,
        |
            chunks.len() == s@.len() && r@ == comma_joined(chunks),
{
    let items: Vec<&V> = set_items(s);
    let mut out = String::new();
    let ghost mut chunks: Seq<Seq<char>> = Seq::empty();
    let mut i: usize = 0;
    while i < items.len()
        invariant
            i <= items@.len(),
            chunks.len() == i,
            out@ == comma_joined(chunks),
        decreases items@.len() - i,
    {
        let piece = debug_text(items[i]);
        if i > 0 {
            out.append(", ");
        }
        out.append(piece.as_str());
        proof {
            let prev = chunks;
            chunks = chunks.push(piece@);
            assert(chunks.drop_last() =~= prev);
            if i == 0 {
                assert(out@ =~= comma_joined(chunks));
            } else {
                assert(out@ =~= comma_joined(prev) + ", "@ + piece@);
                assert(out@ =~= comma_joined(chunks));
            }
        }
        i += 1;
    }
    proof {
        if obeys_key_model::<V>() && builds_valid_hashers::<RandomState>() {
            assert(chunks.len() == s@.len() && out@ == comma_joined(chunks));
        }
    }
    out
}

/// Length and emptiness assertions over a set-like subject.
pub trait HashSetAssertions<'s>: Describable + Sized {
    /// Whether the runtime behaviour of the container is tied to its
    /// mathematical view: deterministic hashing of the element type under
    /// the container's hasher.
    spec fn models(&self) -> bool;

    /// The number of elements in the container's view.
    spec fn size(&self) -> nat;

    /// Succeeds exactly when the container holds `expected` elements.
    fn has_length(&mut self, expected: usize) -> (r: Result<(), AssertionMismatch>)
        ensures
            *final(self) == *old(self),
            old(self).models() ==> set_length_post(
                old(self).size(),
                expected as nat,
                old(self).meta_view(),
                r,
            ),
    ;

    /// Succeeds exactly when the container holds no element.
    fn is_empty(&mut self) -> (r: Result<(), AssertionMismatch>)
        ensures
            *final(self) == *old(self),
            old(self).models() ==> set_empty_post(old(self).size(), old(self).meta_view(), r),
    ;
}

/// Membership assertions over a set-like subject.
pub trait ValueHashSetAssertions<'s, V>: Describable + Sized {
    /// Whether the runtime behaviour of the container is tied to its
    /// mathematical view.
    spec fn models(&self) -> bool;

    /// The container's view.
    spec fn set_view(&self) -> Set<V>;

    /// Succeeds exactly when some element of the container equals the
    /// expected value, and then yields a wrapper around that element for
    /// further chaining, with the subject's metadata copied forward.
    fn contains_value<E: ExpectedArg<V>>(&mut self, expected: E) -> (r: Result<
        Subject<'s, V>,
        AssertionMismatch,
    >)
        ensures
            *final(self) == *old(self),
            old(self).models() ==> set_contains_post(
                old(self).set_view(),
                expected.arg_value(),
                old(self).meta_view(),
                r,
            ),
    ;

    /// Succeeds exactly when no element of the container equals the
    /// expected value.
    fn does_not_contain_value<E: ExpectedArg<V>>(&mut self, expected: E) -> (r: Result<
        (),
        AssertionMismatch,
    >)
        ensures
            *final(self) == *old(self),
            old(self).models() ==> set_lacks_post(
                old(self).set_view(),
                expected.arg_value(),
                old(self).meta_view(),
                r,
            ),
    ;
}

impl<'s, V: Debug> HashSetAssertions<'s> for Subject<'s, HashSet<V>> {
    open spec fn models(&self) -> bool {
        obeys_key_model::<V>() && builds_valid_hashers::<RandomState>()
    }

    open spec fn size(&self) -> nat {
        self.subject@.len()
    }

    fn has_length(&mut self, expected: usize) -> (r: Result<(), AssertionMismatch>) {
        let len = self.subject.len();
        if len == expected {
            Ok(())
        } else {
            let mut desc = String::new();
            desc.append("hashset to have length <");
            push_decimal(&mut desc, expected);
            desc.append(">");
            let mut act = String::new();
            act.append("<");
            push_decimal(&mut act, len);
            act.append(">");
            proof {
                assert(desc@ =~= "hashset to have length <"@ + decimal(expected as nat) + ">"@);
                assert(act@ =~= "<"@ + decimal(len as nat) + ">"@);
            }
            Err(AssertionFailure::from_spec(&*self).with_expected(desc).with_actual(act).fail())
        }
    }

    fn is_empty(&mut self) -> (r: Result<(), AssertionMismatch>) {
        let len = self.subject.len();
        if len == 0 {
            Ok(())
        } else {
            let mut desc = String::new();
            desc.append("an empty hashset");
            let mut act = String::new();
            act.append("a hashset with length <");
            push_decimal(&mut act, len);
            act.append(">");
            proof {
                assert(desc@ =~= "an empty hashset"@);
                assert(act@ =~= "a hashset with length <"@ + decimal(len as nat) + ">"@);
            }
            Err(AssertionFailure::from_spec(&*self).with_expected(desc).with_actual(act).fail())
        }
    }
}

impl<'s, V: Hash + Eq + Debug> ValueHashSetAssertions<'s, V> for Subject<'s, HashSet<V>> {
    open spec fn models(&self) -> bool {
        obeys_key_model::<V>() && builds_valid_hashers::<RandomState>()
    }

    open spec fn set_view(&self) -> Set<V> {
        self.subject@
    }

    fn contains_value<E: ExpectedArg<V>>(&mut self, expected: E) -> (r: Result<
        Subject<'s, V>,
        AssertionMismatch,
    >) {
        let exp: &V = expected.narrowed();
        match self.subject.get(exp) {
            Some(value) => Ok(
                Subject {
                    subject: value,
                    subject_name: self.subject_name,
                    location: self.location,
                    description: self.description,
                },
            ),
            None => {
                let vtext = debug_text(exp);
                let itext = items_text(self.subject);
                let ghost vt = vtext@;
                let ghost it = itext@;
                let ghost chosen: Seq<Seq<char>> = choose|chunks: Seq<Seq<char>>|
                    chunks.len() == self.subject@.len() && it == comma_joined(chunks);
                let mut desc = String::new();
                desc.append("hashset to contain value <");
                desc.append(vtext.as_str());
                desc.append(">");
                let mut act = String::new();
                act.append("<[");
                act.append(itext.as_str());
                act.append("]>");
                proof {
                    assert(desc@ =~= "hashset to contain value <"@ + vt + ">"@);
                    assert(act@ =~= "<["@ + it + "]>"@);
                }
                let e = AssertionFailure::from_spec(&*self).with_expected(desc).with_actual(
                    act,
                ).fail();
                proof {
                    if obeys_key_model::<V>() && builds_valid_hashers::<RandomState>() {
                        assert(chosen.len() == self.subject@.len() && it == comma_joined(chosen));
                        assert(e@ == report_view(
                            self.meta_view(),
                            false,
                            "hashset to contain value <"@ + vt + ">"@,
                            "<["@ + comma_joined(chosen) + "]>"@,
                            None::<Seq<char>>,
                        ));
                    }
                }
                Err(e)
            },
        }
    }

    fn does_not_contain_value<E: ExpectedArg<V>>(&mut self, expected: E) -> (r: Result<
        (),
        AssertionMismatch,
    >) {
        let exp: &V = expected.narrowed();
        if self.subject.contains(exp) {
            let mut desc = String::new();
            desc.append("hashset to not contain value <");
            desc.append(debug_text(exp).as_str());
            desc.append(">");
            let mut act = String::new();
            act.append("present in hashset");
            proof {
                assert(act@ =~= "present in hashset"@);
            }
            Err(AssertionFailure::from_spec(&*self).with_expected(desc).with_actual(act).fail())
        } else {
            Ok(())
        }
    }
}

/// Law: for any container and value, the success conditions of
/// `contains_value` and `does_not_contain_value` are mutually exclusive
/// and exhaustive — of two results meeting the two contracts, exactly one
/// is a success.
pub proof fn lemma_exactly_one_of_contains_and_lacks<'s, V>(
    s: Set<V>,
    v: V,
    m: MetaView,
    rc: Result<Subject<'s, V>, AssertionMismatch>,
    rl: Result<(), AssertionMismatch>,
)
    requires
        set_contains_post(s, v, m, rc),
        set_lacks_post(s, v, m, rl),
    ensures
        (rc is Ok) <==> !(rl is Ok),
{
}

/// Law: the membership verdict cannot depend on the borrow form of the
/// expected value; two results meeting the contract for arguments that
/// stand for the same value succeed or fail together.
pub proof fn lemma_set_contains_ignores_argument_form<'s, V, E1: ExpectedArg<V>, E2: ExpectedArg<
    V,
>>(
    s: Set<V>,
    m: MetaView,
    e1: E1,
    e2: E2,
    r1: Result<Subject<'s, V>, AssertionMismatch>,
    r2: Result<Subject<'s, V>, AssertionMismatch>,
)
    requires
        e1.arg_value() == e2.arg_value(),
        set_contains_post(s, e1.arg_value(), m, r1),
        set_contains_post(s, e2.arg_value(), m, r2),
    ensures
        r1 is Ok <==> r2 is Ok,
{
}

/// Law: the absence verdict likewise cannot depend on the borrow form of
/// the expected value.
pub proof fn lemma_set_lacks_ignores_argument_form<V, E1: ExpectedArg<V>, E2: ExpectedArg<V>>(
    s: Set<V>,
    m: MetaView,
    e1: E1,
    e2: E2,
    r1: Result<(), AssertionMismatch>,
    r2: Result<(), AssertionMismatch>,
)
    requires
        e1.arg_value() == e2.arg_value(),
        set_lacks_post(s, e1.arg_value(), m, r1),
        set_lacks_post(s, e2.arg_value(), m, r2),
    ensures
        r1 is Ok <==> r2 is Ok,
{
}

/// Law: a successful drill-down yields a wrapper around an element equal
/// to the expected value, so asserting that equality on the yielded
/// wrapper succeeds as well.
pub proof fn lemma_drill_down_yields_expected<'s>(
    s: Set<&'s str>,
    v: &'s str,
    m: MetaView,
    rc: Result<Subject<'s, &'s str>, AssertionMismatch>,
)
    requires
        set_contains_post(s, v, m, rc),
        rc is Ok,
    ensures
        crate::string::text_check_holds(TextCheck::Equals, (rc->Ok_0).text(), v@),
{
}

/// Law: after a successful drill-down, a failing textual assertion on the
/// yielded wrapper reports the original subject's metadata, not a
/// synthetic one: everything before the diff block is the report built
/// from the root subject's metadata.
pub proof fn lemma_chained_failure_reports_root_subject<'s>(
    s: Set<&'s str>,
    v: &'s str,
    m: MetaView,
    rc: Result<Subject<'s, &'s str>, AssertionMismatch>,
    c: TextCheck,
    expected: Seq<char>,
    r2: Result<(), AssertionMismatch>,
)
    requires
        set_contains_post(s, v, m, rc),
        rc is Ok,
        text_check_post(c, (rc->Ok_0).text(), expected, (rc->Ok_0).meta_view(), r2),
        r2 is Err,
    ensures
        text_mismatch_base(c, (rc->Ok_0).text(), expected, m).is_prefix_of((r2->Err_0)@),
{
}

} // verus!
