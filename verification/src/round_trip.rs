//! What decoding makes of an array that was encoded.

use crate::decode::{array_decodes_to, step_outcome};
use crate::element::{from_sql_nullable_spec, FromSql, ToSql};
use crate::encode::payloads_of;
use crate::error::ErrorView;
use crate::types::Type;
use crate::wire::{wire_dimensions, wire_values, Step};
use vstd::prelude::*;

verus! {

/// Holds where an element, encoded as `ty` and decoded again, is itself.
pub open spec fn round_trips<T: FromSql + ToSql>(ty: Type, x: T) -> bool {
    x.to_sql_spec(ty) matches Ok(payload) && from_sql_nullable_spec::<T>(ty, payload) == Ok::<T, ErrorView>(x)
}

/// Holds where the reader finds in `raw` one dimension at most and exactly the
/// given payloads, in order, with no failure after them.
pub open spec fn reads_back(raw: Seq<u8>, payloads: Seq<Option<Seq<u8>>>) -> bool {
    &&& wire_dimensions(raw) matches Ok(dimensions) && dimensions <= 1
    &&& wire_values(raw).len() == payloads.len()
    &&& forall|i: int| 0 <= i < payloads.len() ==> #[trigger] wire_values(raw)[i] == Ok::<Option<Seq<u8>>, Seq<char>>(payloads[i])
}

/// Where every element is itself again after encoding and decoding, and the
/// reader finds in the written bytes the payloads that the writer was given,
/// the decoded sequence is the one that was encoded: as long, in the same
/// order, with the same elements.
///
/// That the reader does find them is the agreement of the outside writer with
/// the outside reader. It is a premise here and is not proved.
pub proof fn lemma_round_trip<T: FromSql + ToSql>(member: Type, items: Seq<T>, raw: Seq<u8>)
    requires
        forall|i: int| 0 <= i < items.len() ==> round_trips::<T>(member, #[trigger] items[i]),
        reads_back(raw, payloads_of::<T>(member, items)),
    ensures
        array_decodes_to::<T>(member, raw, Ok(items)),
{
    let steps = wire_values(raw);
    assert forall|i: int| 0 <= i < steps.len() implies step_outcome::<T>(member, #[trigger] steps[i]) == Ok::<
        T,
        ErrorView,
    >(items[i]) by {
        assert(round_trips::<T>(member, items[i]));
        assert(steps[i] == Ok::<Option<Seq<u8>>, Seq<char>>(payloads_of::<T>(member, items)[i]));
    }
}

} // verus!
