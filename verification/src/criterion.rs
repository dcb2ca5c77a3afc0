//! The optional-criterion matcher: the single generic primitive that every
//! rule field reuses.
//!
//! A criterion field of a rule has type `Option<TypeOrVector<T>>`:
//! `None` is a wildcard that accepts every observed value, a single value
//! must satisfy the comparison, and a list is satisfied when any element
//! is. A present criterion never accepts an absent observed value.

use vstd::prelude::*;
use vstd::std_specs::cmp::PartialEqSpec;

verus! {

/// A configured constraint that is either one expected value or a list of
/// acceptable values. Absence of the whole constraint (the wildcard) is
/// expressed by wrapping the criterion in `Option`.
#[derive(Debug)]
pub enum TypeOrVector<T> {
    Type(T),
    Vector(Vec<T>),
}

/// Whether some element of a criterion list satisfies the comparison `p`
/// against the observed value `v`.
pub open spec fn list_accepts<M, D>(ms: Seq<M>, v: D, p: spec_fn(M, D) -> bool) -> bool {
    exists|i: int| 0 <= i < ms.len() && p(#[trigger] ms[i], v)
}

/// What it means for an optional criterion to accept an observed value
/// under a comparison predicate `p`:
/// - no criterion: accept unconditionally (wildcard);
/// - criterion present but no observed value: reject;
/// - a single criterion value `m`: accept iff `p(m, v)`;
/// - a list of criterion values: accept iff `p` holds for some element.
pub open spec fn criterion_accepts<M, D>(
    criterion: Option<TypeOrVector<M>>,
    observed: Option<D>,
    p: spec_fn(M, D) -> bool,
) -> bool {
    match criterion {
        Option::None => true,
        Option::Some(c) => match observed {
            Option::None => false,
            Option::Some(v) => match c {
                TypeOrVector::Type(m) => p(m, v),
                TypeOrVector::Vector(ms) => list_accepts(ms@, v, p),
            },
        },
    }
}

/// Matches a criterion that is known to be present against an observed
/// value that is known to be present, using the comparison `callback`:
/// a single criterion value must satisfy it, a list is satisfied when
/// any element does (the search stops at the first hit).
///
/// The contract does not assume the callback is deterministic: it only
/// states that the result is backed by actual callback outcomes.
pub fn match_criterion_f<MatcherType, DataType, Callback: Fn(&MatcherType, &DataType) -> bool>(
    criterion: &TypeOrVector<MatcherType>,
    value: &DataType,
    callback: Callback,
) -> (r: bool)
    requires
        forall|m: MatcherType, v: DataType| #[trigger] call_requires(callback, (&m, &v)),
    ensures
        *criterion matches TypeOrVector::Type(m) ==> call_ensures(callback, (&m, value), r),
        *criterion matches TypeOrVector::Vector(ms)
            ==> {
                &&& r ==> exists|i: int|
                        0 <= i < ms.len() && call_ensures(callback, (&ms[i], value), true)
                &&& !r ==> forall|i: int|
                        0 <= i < ms.len() ==> call_ensures(callback, (&ms[i], value), false)
            },
{
    match criterion {
        TypeOrVector::Type(m) => callback(m, value),
        TypeOrVector::Vector(ms) => {
            let mut i: usize = 0;
            let mut found = false;
            while i < ms.len()
                invariant_except_break
                    forall|m: MatcherType, d: DataType|
                        #[trigger] call_requires(callback, (&m, &d)),
                    i <= ms.len(),
                    !found,
                    forall|j: int|
                        0 <= j < i ==> call_ensures(callback, (&ms[j], value), false),
                ensures
                    found ==> exists|j: int|
                        0 <= j < ms.len() && call_ensures(callback, (&ms[j], value), true),
                    !found ==> forall|j: int|
                        0 <= j < ms.len() ==> call_ensures(callback, (&ms[j], value), false),
                decreases ms.len() - i,
            {
                if callback(&ms[i], value) {
                    found = true;
                    break;
                }
                i = i + 1;
            }
            found
        },
    }
}

/// Matches an optional criterion against an optional observed value using
/// the comparison `callback`, under the three-way acceptance policy of
/// [`criterion_accepts`]: wildcard accepts, a present criterion rejects an
/// absent value, and a list accepts when any element does.
pub fn match_with_vector_f<MatcherType, DataType, Callback: Fn(&MatcherType, &DataType) -> bool>(
    matcher: &Option<TypeOrVector<MatcherType>>,
    value: &Option<DataType>,
    callback: Callback,
) -> (r: bool)
    requires
        forall|m: MatcherType, v: DataType| #[trigger] call_requires(callback, (&m, &v)),
    ensures
        *matcher is None ==> r,
        *matcher is Some && *value is None ==> !r,
        *matcher matches Option::Some(TypeOrVector::Type(m))
            ==> *value matches Option::Some(v)
            ==> call_ensures(callback, (&m, &v), r),
        *matcher matches Option::Some(TypeOrVector::Vector(ms))
            ==> *value matches Option::Some(v)
            ==> {
                &&& r ==> exists|i: int|
                        0 <= i < ms.len() && call_ensures(callback, (&ms[i], &v), true)
                &&& !r ==> forall|i: int|
                        0 <= i < ms.len() ==> call_ensures(callback, (&ms[i], &v), false)
            },
{
    match matcher {
        Option::None => true,
        Option::Some(c) => match value {
            Option::None => false,
            Option::Some(v) => match_criterion_f(c, v, callback),
        },
    }
}

/// If every possible outcome of the callback agrees with the comparison
/// predicate `p`, the outcome reported by [`match_criterion_f`]'s contract
/// is exactly [`criterion_accepts`] under `p`, for a criterion and a value
/// that are both present.
pub proof fn lemma_callback_criterion_present<MatcherType, DataType, Callback: Fn(&MatcherType, &DataType) -> bool>(
    f: Callback,
    criterion: TypeOrVector<MatcherType>,
    value: DataType,
    p: spec_fn(MatcherType, DataType) -> bool,
    r: bool,
)
    requires
        forall|m: MatcherType, v: DataType, b: bool|
            #[trigger] call_ensures(f, (&m, &v), b) ==> b == p(m, v),
        criterion matches TypeOrVector::Type(m) ==> call_ensures(f, (&m, &value), r),
        criterion matches TypeOrVector::Vector(ms)
            ==> {
                &&& r ==> exists|i: int|
                        0 <= i < ms.len() && call_ensures(f, (&ms[i], &value), true)
                &&& !r ==> forall|i: int|
                        0 <= i < ms.len() ==> call_ensures(f, (&ms[i], &value), false)
            },
    ensures
        r == criterion_accepts(Option::Some(criterion), Option::Some(value), p),
{
    match criterion {
        TypeOrVector::Type(m) => {
            assert(r == p(m, value));
        },
        TypeOrVector::Vector(ms) => {
            if r {
                let i = choose|i: int|
                    0 <= i < ms.len() && call_ensures(f, (&ms[i], &value), true);
                assert(p(ms@[i], value));
                assert(list_accepts(ms@, value, p));
            } else {
                assert forall|i: int| 0 <= i < ms@.len() implies !p(#[trigger] ms@[i], value) by {
                    assert(call_ensures(f, (&ms@[i], &value), false));
                }
                assert(!list_accepts(ms@, value, p));
            }
        },
    }
}

/// The same connection for [`match_with_vector_f`]'s contract: under a
/// callback that agrees with `p`, the result is [`criterion_accepts`].
pub proof fn lemma_callback_criterion<MatcherType, DataType, Callback: Fn(&MatcherType, &DataType) -> bool>(
    f: Callback,
    matcher: Option<TypeOrVector<MatcherType>>,
    value: Option<DataType>,
    p: spec_fn(MatcherType, DataType) -> bool,
    r: bool,
)
    requires
        forall|m: MatcherType, v: DataType, b: bool|
            #[trigger] call_ensures(f, (&m, &v), b) ==> b == p(m, v),
        matcher is None ==> r,
        matcher is Some && value is None ==> !r,
        matcher matches Option::Some(TypeOrVector::Type(m))
            ==> value matches Option::Some(v)
            ==> call_ensures(f, (&m, &v), r),
        matcher matches Option::Some(TypeOrVector::Vector(ms))
            ==> value matches Option::Some(v)
            ==> {
                &&& r ==> exists|i: int|
                        0 <= i < ms.len() && call_ensures(f, (&ms[i], &v), true)
                &&& !r ==> forall|i: int|
                        0 <= i < ms.len() ==> call_ensures(f, (&ms[i], &v), false)
            },
    ensures
        r == criterion_accepts(matcher, value, p),
{
    if matcher is Some && value is Some {
        lemma_callback_criterion_present(f, matcher->Some_0, value->Some_0, p, r);
        assert(matcher == Option::Some(matcher->Some_0));
        assert(value == Option::Some(value->Some_0));
    }
}

/// The equality relation of a type, as a comparison predicate for
/// [`criterion_accepts`].
pub open spec fn eq_comparison<T: PartialEq>() -> spec_fn(T, T) -> bool {
    |m: T, v: T| m.eq_spec(&v)
}

/// Matches an optional criterion against an optional observed value by
/// equality, under the same three-way acceptance policy.
///
/// For a type whose `==` is faithfully specified (`obeys_eq_spec`), the
/// result is exactly [`criterion_accepts`] with the type's equality
/// relation as the comparison.
pub fn match_with_vector<DataType: PartialEq>(
    matcher: &Option<TypeOrVector<DataType>>,
    value: &Option<DataType>,
) -> (r: bool)
    ensures
        DataType::obeys_eq_spec()
            ==> r == criterion_accepts(*matcher, *value, eq_comparison::<DataType>()),
{
    match matcher {
        Option::None => true,
        Option::Some(c) => match value {
            Option::None => false,
            Option::Some(v) => match c {
                TypeOrVector::Type(m) => {
                    let r = m == v;
                    proof {
                        if DataType::obeys_eq_spec() {
                            assert(eq_comparison::<DataType>()(*m, *v) == m.eq_spec(v));
                        }
                    }
                    r
                },
                TypeOrVector::Vector(ms) => {
                    let mut i: usize = 0;
                    let mut found = false;
                    while i < ms.len()
                        invariant_except_break
                            i <= ms.len(),
                            !found,
                            DataType::obeys_eq_spec() ==> forall|j: int|
                                0 <= j < i ==> !(#[trigger] ms[j].eq_spec(v)),
                        ensures
                            DataType::obeys_eq_spec() ==> (found <==> exists|j: int|
                                0 <= j < ms.len() && #[trigger] ms[j].eq_spec(v)),
                        decreases ms.len() - i,
                    {
                        if &ms[i] == v {
                            found = true;
                            break;
                        }
                        i = i + 1;
                    }
                    proof {
                        if DataType::obeys_eq_spec() {
                            let p = eq_comparison::<DataType>();
                            if found {
                                let j = choose|j: int|
                                    0 <= j < ms.len() && #[trigger] ms[j].eq_spec(v);
                                assert(p(ms@[j], *v));
                                assert(list_accepts(ms@, *v, p));
                            } else {
                                assert forall|j: int|
                                    0 <= j < ms@.len() implies !(#[trigger] p(ms@[j], *v)) by {
                                    assert(!ms[j].eq_spec(v));
                                }
                                assert(!list_accepts(ms@, *v, p));
                            }
                        }
                    }
                    found
                },
            },
        },
    }
}

/// A wildcard (absent) criterion accepts every observed value, whatever
/// the element type and the comparison predicate.
pub proof fn lemma_wildcard_accepts<M, D>(observed: Option<D>, p: spec_fn(M, D) -> bool)
    ensures
        criterion_accepts(Option::<TypeOrVector<M>>::None, observed, p),
{
}

/// A present criterion rejects an absent observed value, whatever the
/// element type, the criterion's shape and the comparison predicate.
pub proof fn lemma_present_rejects_absent<M, D>(criterion: TypeOrVector<M>, p: spec_fn(M, D) -> bool)
    ensures
        !criterion_accepts(Option::Some(criterion), Option::<D>::None, p),
{
}

/// Scalar/list equivalence: a criterion given as the single value `c` and
/// one given as the singleton list `[c]` accept exactly the same observed
/// values under any comparison predicate.
pub proof fn lemma_scalar_list_equivalence<M, D>(
    c: M,
    cs: Vec<M>,
    observed: Option<D>,
    p: spec_fn(M, D) -> bool,
)
    requires
        cs@ =~= seq![c],
    ensures
        criterion_accepts(Option::Some(TypeOrVector::Type(c)), observed, p)
            == criterion_accepts(Option::Some(TypeOrVector::Vector(cs)), observed, p),
{
    if observed is Some {
        let v = observed->Some_0;
        if p(c, v) {
            assert(cs@[0] == c);
            assert(list_accepts(cs@, v, p));
        } else {
            assert forall|i: int| 0 <= i < cs@.len() implies !p(#[trigger] cs@[i], v) by {
                assert(cs@[i] == c);
            }
            assert(!list_accepts(cs@, v, p));
        }
    }
}

} // verus!
