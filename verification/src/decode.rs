//! Decoding a one-dimensional array value into a vector.

use crate::element::{from_sql_nullable, from_sql_nullable_spec, FromSql};
use crate::error::{outcome, ErrorView, SqlError};
use crate::types::Type;
use crate::wire::{item_view, next_value, open_array, pending, size_hint_lower, wire_dimensions, wire_values, Step};
use vstd::prelude::*;

verus! {

/// What one step of reading the elements comes to for element type `T`.
pub open spec fn step_outcome<T: FromSql>(member: Type, step: Step) -> Result<T, ErrorView> {
    match step {
        Ok(item) => from_sql_nullable_spec::<T>(member, item),
        Err(msg) => Err(ErrorView::Format(msg)),
    }
}

/// Holds where `r` is what the steps come to: every step in its place if all
/// succeed, and else the failure of the first step that fails.
pub open spec fn steps_decode_to<T: FromSql>(member: Type, steps: Seq<Step>, r: Result<Seq<T>, ErrorView>) -> bool {
    match r {
        Ok(items) => items.len() == steps.len() && forall|i: int|
            0 <= i < steps.len() ==> step_outcome::<T>(member, #[trigger] steps[i]) == Ok::<T, ErrorView>(items[i]),
        Err(e) => exists|i: int|
            first_failure::<T>(member, steps, i) && step_outcome::<T>(member, steps[i]) == Err::<T, ErrorView>(e),
    }
}

/// Holds where step `i` fails and every step before it succeeds.
pub open spec fn first_failure<T: FromSql>(member: Type, steps: Seq<Step>, i: int) -> bool {
    &&& 0 <= i < steps.len()
    &&& step_outcome::<T>(member, steps[i]) is Err
    &&& forall|j: int| 0 <= j < i ==> step_outcome::<T>(member, #[trigger] steps[j]) is Ok
}

/// Holds where `r` is what decoding the buffer `raw` as an array of `member`
/// comes to: a refused buffer gives the parser's message, more than one
/// dimension is refused next, and then the elements decide.
pub open spec fn array_decodes_to<T: FromSql>(member: Type, raw: Seq<u8>, r: Result<Seq<T>, ErrorView>) -> bool {
    match wire_dimensions(raw) {
        Err(msg) => r == Err::<Seq<T>, ErrorView>(ErrorView::Format(msg)),
        Ok(dimensions) => if dimensions > 1 {
            r == Err::<Seq<T>, ErrorView>(ErrorView::TooManyDimensions)
        } else {
            steps_decode_to::<T>(member, wire_values(raw), r)
        },
    }
}

/// A decoded array with the vector and the error taken by their views.
pub open spec fn decoded_view<T>(r: Result<Vec<T>, SqlError>) -> Result<Seq<T>, ErrorView> {
    match r {
        Ok(v) => Ok(v@),
        Err(e) => Err(e@),
    }
}

/// What the element iterator answers when asked for the next element, with
/// the bytes and the message taken by their views.
pub open spec fn answer_view(answer: Result<Option<Option<&[u8]>>, String>) -> Result<Option<Option<Seq<u8>>>, Seq<char>> {
    match answer {
        Ok(Some(item)) => Ok(Some(item_view(item))),
        Ok(None) => Ok(None),
        Err(msg) => Err(msg@),
    }
}

/// Holds where taking the iterator's answer returned `r` and took the
/// elements decoded so far from `before` to `after`.
///
/// An element that decodes is appended, and the reading goes on (`true`). The
/// end of the elements ends the reading (`false`). An element that does not
/// decode fails with its own error, and a failure of the iterator with its
/// message; both leave the elements as they were.
pub open spec fn answer_taken<T: FromSql>(
    member: Type,
    answer: Result<Option<Option<Seq<u8>>>, Seq<char>>,
    before: Seq<T>,
    r: Result<bool, ErrorView>,
    after: Seq<T>,
) -> bool {
    match answer {
        Ok(Some(item)) => match from_sql_nullable_spec::<T>(member, item) {
            Ok(element) => r == Ok::<bool, ErrorView>(true) && after == before.push(element),
            Err(e) => r == Err::<bool, ErrorView>(e) && after == before,
        },
        Ok(None) => r == Ok::<bool, ErrorView>(false) && after == before,
        Err(msg) => r == Err::<bool, ErrorView>(ErrorView::Format(msg)) && after == before,
    }
}

/// Refuses an array of more than one dimension.
pub fn check_dimensions(dimensions: usize) -> (r: Result<(), SqlError>)
    ensures
        dimensions <= 1 ==> r is Ok,
        dimensions > 1 ==> outcome(r) == Err::<(), ErrorView>(ErrorView::TooManyDimensions),
{
    if dimensions > 1 {
        Err(SqlError::TooManyDimensions)
    } else {
        Ok(())
    }
}

/// Takes what the element iterator answered: decodes the element, if there is
/// one, as type `member` and appends it to `v`, and says whether the reading
/// goes on.
pub fn take_answer<T: FromSql>(member: &Type, answer: Result<Option<Option<&[u8]>>, String>, v: &mut Vec<T>) -> (r:
    Result<bool, SqlError>)
    ensures
        answer_taken::<T>(*member, answer_view(answer), old(v)@, outcome(r), final(v)@),
{
    match answer {
        Ok(Some(item)) => {
            match from_sql_nullable::<T>(member, item) {
                Ok(element) => {
                    v.push(element);
                    Ok(true)
                },
                Err(e) => Err(e),
            }
        },
        Ok(None) => Ok(false),
        Err(msg) => Err(SqlError::Format(msg)),
    }
}

/// Decodes an array value into a vector of its elements, in order.
pub fn from_sql<T: FromSql>(ty: &Type, raw: &[u8]) -> (r: Result<Vec<T>, SqlError>)
    requires
        ty.member_spec() is Some,
    ensures
        array_decodes_to::<T>(ty.member_spec().unwrap(), raw@, decoded_view(r)),
{
    let member: &Type = match ty.member() {
        Some(member) => member,
        None => vstd::pervasive::unreached(),
    };
    let (dimensions, mut values) = match open_array(raw) {
        Ok(opened) => opened,
        Err(msg) => return Err(SqlError::Format(msg)),
    };
    match check_dimensions(dimensions) {
        Ok(()) => {},
        Err(e) => return Err(e),
    }
    let ghost steps = wire_values(raw@);
    let mut v: Vec<T> = Vec::with_capacity(size_hint_lower(&values));
    loop
        invariant
            v.len() <= steps.len(),
            pending(values) == steps.skip(v.len() as int),
            forall|j: int|
                0 <= j < v.len() ==> step_outcome::<T>(*member, #[trigger] steps[j]) == Ok::<T, ErrorView>(v@[j]),
            steps == wire_values(raw@),
            wire_dimensions(raw@) == Ok::<nat, Seq<char>>(dimensions as nat),
            dimensions <= 1,
            ty.member_spec() == Some(*member),
        decreases pending(values).len(),
    {
        let ghost at = v.len() as int;
        let answer = next_value(&mut values);
        match take_answer::<T>(member, answer, &mut v) {
            Ok(true) => {},
            Ok(false) => return Ok(v),
            Err(e) => {
                proof {
                    assert(first_failure::<T>(*member, steps, at));
                }
                return Err(e);
            },
        }
    }
}

/// Says whether a vector of `T` can hold values of type `ty`: where `ty` is an
/// array type and `T` holds values of its member type.
pub fn accepts<T: FromSql>(ty: &Type) -> (b: bool)
    ensures
        b == match ty.member_spec() {
            Some(member) => T::accepts_spec(member),
            None => false,
        },
{
    match ty.member() {
        Some(member) => T::accepts(member),
        None => false,
    }
}

/// A list of steps comes to one outcome and no other.
pub proof fn lemma_steps_unique<T: FromSql>(
    member: Type,
    steps: Seq<Step>,
    r1: Result<Seq<T>, ErrorView>,
    r2: Result<Seq<T>, ErrorView>,
)
    requires
        steps_decode_to::<T>(member, steps, r1),
        steps_decode_to::<T>(member, steps, r2),
    ensures
        r1 == r2,
{
    match (r1, r2) {
        (Ok(a), Ok(b)) => {
            assert forall|i: int| 0 <= i < a.len() implies a[i] == b[i] by {
                assert(step_outcome::<T>(member, steps[i]) == Ok::<T, ErrorView>(a[i]));
                assert(step_outcome::<T>(member, steps[i]) == Ok::<T, ErrorView>(b[i]));
            }
            assert(a =~= b);
        },
        (Err(e1), Err(e2)) => {
            let i = choose|i: int|
                first_failure::<T>(member, steps, i) && step_outcome::<T>(member, steps[i]) == Err::<T, ErrorView>(e1);
            let j = choose|j: int|
                first_failure::<T>(member, steps, j) && step_outcome::<T>(member, steps[j]) == Err::<T, ErrorView>(e2);
            if i < j {
                assert(step_outcome::<T>(member, steps[i]) is Ok);
            }
            if j < i {
                assert(step_outcome::<T>(member, steps[j]) is Ok);
            }
        },
        (Ok(a), Err(e)) => {
            let i = choose|i: int|
                first_failure::<T>(member, steps, i) && step_outcome::<T>(member, steps[i]) == Err::<T, ErrorView>(e);
            assert(step_outcome::<T>(member, steps[i]) == Ok::<T, ErrorView>(a[i]));
        },
        (Err(e), Ok(b)) => {
            let i = choose|i: int|
                first_failure::<T>(member, steps, i) && step_outcome::<T>(member, steps[i]) == Err::<T, ErrorView>(e);
            assert(step_outcome::<T>(member, steps[i]) == Ok::<T, ErrorView>(b[i]));
        },
    }
}

/// A buffer decodes to one outcome and no other.
pub proof fn lemma_decode_unique<T: FromSql>(
    member: Type,
    raw: Seq<u8>,
    r1: Result<Seq<T>, ErrorView>,
    r2: Result<Seq<T>, ErrorView>,
)
    requires
        array_decodes_to::<T>(member, raw, r1),
        array_decodes_to::<T>(member, raw, r2),
    ensures
        r1 == r2,
{
    if wire_dimensions(raw) is Ok && wire_dimensions(raw)->Ok_0 <= 1 {
        lemma_steps_unique::<T>(member, wire_values(raw), r1, r2);
    }
}

/// What stands behind the first step that fails has no part in the outcome:
/// two lists of steps that are the same up to and with that step come to the
/// same failure.
pub proof fn lemma_later_steps_ignored<T: FromSql>(
    member: Type,
    steps: Seq<Step>,
    others: Seq<Step>,
    n: int,
    r: Result<Seq<T>, ErrorView>,
)
    requires
        first_failure::<T>(member, steps, n),
        n < others.len(),
        forall|i: int| 0 <= i <= n ==> steps[i] == others[i],
        steps_decode_to::<T>(member, steps, r),
    ensures
        steps_decode_to::<T>(member, others, r),
        r == Err::<Seq<T>, ErrorView>(step_outcome::<T>(member, steps[n])->Err_0),
{
    let e = step_outcome::<T>(member, steps[n])->Err_0;
    assert(steps_decode_to::<T>(member, steps, Err(e)));
    lemma_steps_unique::<T>(member, steps, r, Err(e));
    assert(first_failure::<T>(member, others, n)) by {
        assert forall|j: int| 0 <= j < n implies step_outcome::<T>(member, #[trigger] others[j]) is Ok by {
            assert(steps[j] == others[j]);
            assert(step_outcome::<T>(member, steps[j]) is Ok);
        }
    }
}

/// An array that declares two dimensions or more is refused for that, whatever
/// the element type and whatever its elements.
pub proof fn lemma_many_dimensions_refused<T: FromSql>(
    member: Type,
    raw: Seq<u8>,
    dimensions: nat,
    r: Result<Seq<T>, ErrorView>,
)
    requires
        wire_dimensions(raw) == Ok::<nat, Seq<char>>(dimensions),
        dimensions >= 2,
        array_decodes_to::<T>(member, raw, r),
    ensures
        r == Err::<Seq<T>, ErrorView>(ErrorView::TooManyDimensions),
{
}

/// The element at each place of a decoded array is what the step at that place
/// decodes to, and there are as many elements as steps.
pub proof fn lemma_order_kept<T: FromSql>(member: Type, raw: Seq<u8>, items: Seq<T>, n: int)
    requires
        array_decodes_to::<T>(member, raw, Ok(items)),
        0 <= n < items.len(),
    ensures
        items.len() == wire_values(raw).len(),
        wire_values(raw)[n] is Ok,
        from_sql_nullable_spec::<T>(member, wire_values(raw)[n]->Ok_0) == Ok::<T, ErrorView>(items[n]),
{
    assert(step_outcome::<T>(member, wire_values(raw)[n]) == Ok::<T, ErrorView>(items[n]));
}

/// An array of at most one dimension and no elements decodes to the empty
/// sequence.
pub proof fn lemma_empty_array<T: FromSql>(member: Type, raw: Seq<u8>, dimensions: nat, r: Result<Seq<T>, ErrorView>)
    requires
        wire_dimensions(raw) == Ok::<nat, Seq<char>>(dimensions),
        dimensions <= 1,
        wire_values(raw).len() == 0,
        array_decodes_to::<T>(member, raw, r),
    ensures
        r == Ok::<Seq<T>, ErrorView>(Seq::empty()),
{
    match r {
        Ok(items) => {
            assert(items =~= Seq::empty());
        },
        Err(e) => {},
    }
}

/// A SQL NULL among the elements never fails an array of optional elements,
/// and where the array decodes, the place of the SQL NULL holds `None`.
pub proof fn lemma_null_propagates<T: FromSql>(member: Type, raw: Seq<u8>, r: Result<Seq<Option<T>>, ErrorView>, n: int)
    requires
        array_decodes_to::<Option<T>>(member, raw, r),
        wire_dimensions(raw) is Ok,
        wire_dimensions(raw)->Ok_0 <= 1,
        0 <= n < wire_values(raw).len(),
        wire_values(raw)[n] == Ok::<Option<Seq<u8>>, Seq<char>>(None),
    ensures
        !first_failure::<Option<T>>(member, wire_values(raw), n),
        r matches Ok(items) ==> items[n] is None,
{
    assert(step_outcome::<Option<T>>(member, wire_values(raw)[n]) == Ok::<Option<T>, ErrorView>(None));
}

/// Where an element cannot be decoded and all before it can, the array fails
/// with that element's error, whatever comes after it.
pub proof fn lemma_element_failure_wins<T: FromSql>(
    member: Type,
    raw: Seq<u8>,
    r: Result<Seq<T>, ErrorView>,
    n: int,
    e: ErrorView,
)
    requires
        array_decodes_to::<T>(member, raw, r),
        wire_dimensions(raw) is Ok,
        wire_dimensions(raw)->Ok_0 <= 1,
        first_failure::<T>(member, wire_values(raw), n),
        step_outcome::<T>(member, wire_values(raw)[n]) == Err::<T, ErrorView>(e),
    ensures
        r == Err::<Seq<T>, ErrorView>(e),
{
    assert(array_decodes_to::<T>(member, raw, Err(e)));
    lemma_decode_unique::<T>(member, raw, r, Err(e));
}

} // verus!
