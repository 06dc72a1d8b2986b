//! Binding a projection to generators, and assembling a row from the bindings.

use crate::config::RandomGUC;
use crate::datum::Datum;
use crate::datum::DatumView;
use crate::datum::TypeTag;
use crate::datum::view_of;
use crate::generator::ValueGenerator;
use crate::generator::dispatch;
use crate::generator::dispatch_spec;
use crate::stream::StreamState;
use crate::stream::stream_state;
use rand_chacha::ChaCha8Rng;
use vstd::prelude::*;

verus! {

/// A projected column: its name and its kind.
#[derive(Clone, Debug, PartialEq, Eq)]
pub struct Column {
    pub name: String,
    pub tag: TypeTag,
}

/// A `Column` as contracts see it.
pub struct ColumnView {
    pub name: Seq<char>,
    pub tag: TypeTag,
}

impl View for Column {
    type V = ColumnView;

    open spec fn view(&self) -> ColumnView {
        ColumnView { name: self.name@, tag: self.tag }
    }
}

/// A projected column with the generator that was resolved for it.
#[derive(Clone, Debug, PartialEq, Eq)]
pub struct ColumnBinding {
    pub name: String,
    pub tag: TypeTag,
    pub generator: ValueGenerator,
}

/// A `ColumnBinding` as contracts see it.
pub struct BindingView {
    pub name: Seq<char>,
    pub tag: TypeTag,
    pub generator: ValueGenerator,
}

impl View for ColumnBinding {
    type V = BindingView;

    open spec fn view(&self) -> BindingView {
        BindingView { name: self.name@, tag: self.tag, generator: self.generator }
    }
}

/// One entry of a row: the column and its value, or no value where the column is null.
#[derive(Clone, Debug, PartialEq, Eq)]
pub struct Cell {
    pub column: String,
    pub value: Option<Datum>,
}

/// A `Cell` as contracts see it.
pub struct CellView {
    pub column: Seq<char>,
    pub value: Option<DatumView>,
}

impl View for Cell {
    type V = CellView;

    open spec fn view(&self) -> CellView {
        CellView { column: self.column@, value: view_of(self.value) }
    }
}

/// The views of a projection, in order.
pub open spec fn columns_of(projection: Seq<Column>) -> Seq<ColumnView> {
    projection.map_values(|column: Column| column@)
}

/// The views of a list of bindings, in order.
pub open spec fn bindings_of(bindings: Seq<ColumnBinding>) -> Seq<BindingView> {
    bindings.map_values(|binding: ColumnBinding| binding@)
}

/// The views of the cells of a row, in order.
pub open spec fn cells_of(row: Seq<Cell>) -> Seq<CellView> {
    row.map_values(|cell: Cell| cell@)
}

/// The binding of one column under the tunables `config`.
pub open spec fn bound_column(column: ColumnView, config: RandomGUC) -> BindingView {
    BindingView {
        name: column.name,
        tag: column.tag,
        generator: dispatch_spec(column.tag, config),
    }
}

/// The bindings of a projection under the tunables `config`: one per column, in order.
pub open spec fn bound(projection: Seq<ColumnView>, config: RandomGUC) -> Seq<BindingView> {
    projection.map_values(|column: ColumnView| bound_column(column, config))
}

/// Every generator of the list can be run.
pub open spec fn all_drawable(bindings: Seq<BindingView>) -> bool {
    forall|i: int| 0 <= i < bindings.len() ==> (#[trigger] bindings[i]).generator.drawable()
}

/// The row that the bindings give on a stream that stands at `state`, drawn from the first
/// column to the last, and where the draws leave the stream.
pub open spec fn assembled(bindings: Seq<BindingView>, state: StreamState) -> (
    Seq<CellView>,
    StreamState,
)
    decreases bindings.len(),
{
    if bindings.len() == 0 {
        (Seq::empty(), state)
    } else {
        let before = assembled(bindings.drop_last(), state);
        let last = bindings.last();
        let drawn = last.generator.outcome(before.1);
        (before.0.push(CellView { column: last.name, value: drawn.0 }), drawn.1)
    }
}

/// A row answers a list of bindings: one cell per binding, in order, under the binding's
/// name; null exactly where the generator never yields, and otherwise a value that the
/// generator admits.
pub open spec fn answers(row: Seq<CellView>, bindings: Seq<BindingView>) -> bool {
    &&& row.len() == bindings.len()
    &&& forall|i: int|
        0 <= i < row.len() ==> {
            &&& (#[trigger] row[i]).column == bindings[i].name
            &&& row[i].value is None <==> bindings[i].generator is Null
            &&& row[i].value matches Some(datum) ==> bindings[i].generator.admits(datum)
        }
}

/// Resolves a projection into bindings, one per column and in the order given. Every column
/// gets a generator.
pub fn bind(projection: &Vec<Column>, config: &RandomGUC) -> (bindings: Vec<ColumnBinding>)
    requires
        config.wf(),
    ensures
        bindings_of(bindings@) == bound(columns_of(projection@), *config),
        bindings@.len() == projection@.len(),
{
    let mut bindings: Vec<ColumnBinding> = Vec::new();
    let mut i: usize = 0;
    while i < projection.len()
        invariant
            config.wf(),
            i <= projection@.len(),
            bindings@.len() == i,
            forall|j: int|
                0 <= j < i ==> (#[trigger] bindings@[j])@ == bound_column(
                    projection@[j]@,
                    *config,
                ),
        decreases projection@.len() - i,
    {
        let column = &projection[i];
        let binding = ColumnBinding {
            name: column.name.clone(),
            tag: column.tag,
            generator: dispatch(column.tag, config),
        };
        bindings.push(binding);
        i += 1;
    }
    assert(bindings_of(bindings@) =~= bound(columns_of(projection@), *config));
    bindings
}

/// Is every generator of the list ready to be run?
pub fn check_drawable(bindings: &Vec<ColumnBinding>) -> (ok: bool)
    ensures
        ok == all_drawable(bindings_of(bindings@)),
{
    let mut i: usize = 0;
    while i < bindings.len()
        invariant
            i <= bindings@.len(),
            forall|j: int| 0 <= j < i ==> (#[trigger] bindings@[j]).generator.drawable(),
        decreases bindings@.len() - i,
    {
        if !bindings[i].generator.is_drawable() {
            assert(!bindings_of(bindings@)[i as int].generator.drawable());
            return false;
        }
        i += 1;
    }
    assert forall|j: int| 0 <= j < bindings_of(bindings@).len() implies (
    #[trigger] bindings_of(bindings@)[j]).generator.drawable() by {
        assert(bindings@[j].generator.drawable());
    }
    true
}

/// Assembles one row: each binding's generator is run once on the shared stream, from the
/// first column to the last. Assembly has no way to fail.
pub fn assemble(bindings: &Vec<ColumnBinding>, rng: &mut ChaCha8Rng) -> (row: Vec<Cell>)
    requires
        all_drawable(bindings_of(bindings@)),
    ensures
        answers(cells_of(row@), bindings_of(bindings@)),
        cells_of(row@) == assembled(bindings_of(bindings@), stream_state(*old(rng))).0,
        stream_state(*final(rng)) == assembled(
            bindings_of(bindings@),
            stream_state(*old(rng)),
        ).1,
{
    let ghost views = bindings_of(bindings@);
    let ghost start = stream_state(*rng);
    let mut row: Vec<Cell> = Vec::new();
    let mut i: usize = 0;
    while i < bindings.len()
        invariant
            views == bindings_of(bindings@),
            all_drawable(views),
            i <= bindings@.len(),
            row@.len() == i,
            answers(cells_of(row@), views.take(i as int)),
            cells_of(row@) == assembled(views.take(i as int), start).0,
            stream_state(*rng) == assembled(views.take(i as int), start).1,
        decreases bindings@.len() - i,
    {
        let binding = &bindings[i];
        assert(views[i as int] == binding@);
        let ghost before = stream_state(*rng);
        let ghost cells = cells_of(row@);
        let value = binding.generator.generate(rng);
        let cell = Cell { column: binding.name.clone(), value };
        proof {
            let next = views.take(i + 1);
            assert(next.drop_last() =~= views.take(i as int));
            assert(next.last() == views[i as int]);
            assert(cell@ == CellView {
                column: views[i as int].name,
                value: views[i as int].generator.outcome(before).0,
            });
        }
        row.push(cell);
        proof {
            assert(cells_of(row@) =~= cells.push(cell@));
        }
        i += 1;
    }
    assert(views.take(i as int) =~= views);
    row
}

} // verus!
