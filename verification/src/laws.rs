//! What holds of every scan, stated over the views of sessions and rows.

use crate::config::RandomGUC;
use crate::datum::DatumView;
use crate::datum::TypeTag;
use crate::generator::dispatch_spec;
use crate::generator::half;
use crate::row::BindingView;
use crate::row::ColumnView;
use crate::row::assembled;
use crate::row::bound;
use crate::session::SessionView;
use crate::session::after;
use crate::session::consistent;
use crate::session::nth_fetch;
use crate::session::opened;
use crate::session::rewound;
use crate::stream::StreamState;
use vstd::prelude::*;

verus! {

/// An assembled row has one cell per binding, in order and under the binding's name, and a
/// cell is null exactly where its generator never yields.
pub proof fn lemma_assembled_shape(bindings: Seq<BindingView>, state: StreamState)
    ensures
        assembled(bindings, state).0.len() == bindings.len(),
        forall|i: int|
            0 <= i < bindings.len() ==> {
                &&& (#[trigger] assembled(bindings, state).0[i]).column == bindings[i].name
                &&& assembled(bindings, state).0[i].value is None
                    <==> bindings[i].generator is Null
            },
    decreases bindings.len(),
{
    if bindings.len() > 0 {
        lemma_assembled_shape(bindings.drop_last(), state);
    }
}

/// Fetching moves the cursor one row at a time up to the target and leaves target and
/// bindings alone.
pub proof fn lemma_after(s: SessionView, n: nat)
    requires
        consistent(s),
    ensures
        consistent(after(s, n)),
        after(s, n).target_row_count == s.target_row_count,
        after(s, n).bindings == s.bindings,
        after(s, n).row_cursor == if s.row_cursor + n <= s.target_row_count {
            s.row_cursor + n
        } else {
            s.target_row_count
        },
    decreases n,
{
    if n > 0 {
        lemma_after(s, (n - 1) as nat);
    }
}

/// A scan hands out exactly the rows that are still due and then reports the end of the
/// data: the fetch that follows `n` earlier ones yields a row if and only if
/// `row_cursor + n` is below the target. From a session that has just begun these are the
/// first `target_row_count` fetches and no other.
pub proof fn law_row_count(s: SessionView, n: nat)
    requires
        consistent(s),
    ensures
        nth_fetch(s, n) is Some <==> s.row_cursor + n < s.target_row_count,
{
    lemma_after(s, n);
}

/// After a rescan a scan again hands out exactly `target_row_count` rows, whatever it had
/// handed out before.
pub proof fn law_rescan_row_count(s: SessionView, n: nat)
    requires
        consistent(s),
    ensures
        consistent(rewound(s)),
        nth_fetch(rewound(s), n) is Some <==> n < s.target_row_count,
{
    law_row_count(rewound(s), n);
}

/// Every row of a scan has the columns of the projection, all of them and in its order,
/// whatever their kinds.
pub proof fn law_projection(
    s: SessionView,
    projection: Seq<ColumnView>,
    config: RandomGUC,
    n: nat,
)
    requires
        consistent(s),
        s.bindings == bound(projection, config),
    ensures
        nth_fetch(s, n) matches Some(row) ==> {
            &&& row.len() == projection.len()
            &&& forall|i: int| 0 <= i < row.len() ==> (#[trigger] row[i]).column == projection[i].name
        },
{
    lemma_after(s, n);
    let at = after(s, n);
    lemma_assembled_shape(at.bindings, at.stream);
}

/// A column of a kind without support is null in every row of a scan.
pub proof fn law_unsupported_is_null(
    s: SessionView,
    projection: Seq<ColumnView>,
    config: RandomGUC,
    n: nat,
    i: int,
)
    requires
        consistent(s),
        s.bindings == bound(projection, config),
        0 <= i < projection.len(),
        projection[i].tag is Unsupported,
    ensures
        nth_fetch(s, n) matches Some(row) ==> row[i].value is None,
{
    lemma_after(s, n);
    let at = after(s, n);
    lemma_assembled_shape(at.bindings, at.stream);
}

/// Two scans begun with the same positive seed, the same projection, the same tunables and
/// the same number of rows yield the same sequence of fetches.
pub proof fn law_determinism(
    a: SessionView,
    b: SessionView,
    target_row_count: nat,
    projection: Seq<ColumnView>,
    config: RandomGUC,
    seed: u64,
    n: nat,
)
    requires
        seed > 0,
        a == opened(target_row_count, projection, config, seed),
        b == opened(target_row_count, projection, config, seed),
    ensures
        nth_fetch(a, n) == nth_fetch(b, n),
        after(a, n) == after(b, n),
{
}

/// A value of a bounded kind lies in the range that the tunables give the kind:
/// `[min_integer / 2, max_integer)` for a small integer, `[min_integer, max_integer)` for a
/// standard one, `[min_integer, 2 * max_integer)` for a large one, and a length of
/// `[min_text_length, max_text_length)` for a text.
pub proof fn law_range_containment(tag: TypeTag, config: RandomGUC, value: DatumView)
    requires
        config.wf(),
        dispatch_spec(tag, config).admits(value),
    ensures
        tag is SmallInt ==> (value matches DatumView::SmallInt(v) && half(
            config.spec_min_integer() as int,
        ) <= v < config.spec_max_integer()),
        tag is Integer ==> (value matches DatumView::Integer(v) && config.spec_min_integer() <= v
            < config.spec_max_integer()),
        tag is BigInt ==> (value matches DatumView::BigInt(v) && config.spec_min_integer() <= v
            < 2 * config.spec_max_integer()),
        tag is Text || tag is VarChar || tag is BpChar ==> (value matches DatumView::Text(text)
            && config.spec_min_text_length() <= text.len() < config.spec_max_text_length()),
{
    config.lemma_wf();
}

} // verus!
