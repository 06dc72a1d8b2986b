//! The scan session: a cursor over a fixed number of rows, the bindings of the projection
//! and the stream that the rows are drawn from.

use crate::config::RandomGUC;
use crate::row::BindingView;
use crate::row::Cell;
use crate::row::CellView;
use crate::row::Column;
use crate::row::ColumnBinding;
use crate::row::ColumnView;
use crate::row::all_drawable;
use crate::row::answers;
use crate::row::assemble;
use crate::row::assembled;
use crate::row::bind;
use crate::row::bindings_of;
use crate::row::bound;
use crate::row::cells_of;
use crate::row::check_drawable;
use crate::row::columns_of;
use crate::stream::StreamState;
use crate::stream::from_entropy;
use crate::stream::seeded;
use crate::stream::seeded_state;
use crate::stream::stream_state;
use rand_chacha::ChaCha8Rng;
use vstd::prelude::*;

verus! {

/// Number of rows of a scan that names none.
pub const DEFAULT_ROW_COUNT: u64 = 1024;

/// A session as contracts see it.
pub struct SessionView {
    /// Rows handed out since the scan began or was last rewound.
    pub row_cursor: nat,
    /// Rows that the scan hands out before it reports the end of the data.
    pub target_row_count: nat,
    /// Whether the end of the data has been reported.
    pub exhausted: bool,
    /// The bindings of the projection, in its order.
    pub bindings: Seq<BindingView>,
    /// Where the stream stands.
    pub stream: StreamState,
}

/// The session that a scan begins with on a stream seeded with `seed`.
pub open spec fn opened(
    target_row_count: nat,
    projection: Seq<ColumnView>,
    config: RandomGUC,
    seed: u64,
) -> SessionView {
    SessionView {
        row_cursor: 0,
        target_row_count,
        exhausted: false,
        bindings: bound(projection, config),
        stream: seeded_state(seed),
    }
}

/// One fetch: a row and the session after it while rows are due, else the end of the data.
pub open spec fn fetch(s: SessionView) -> (Option<Seq<CellView>>, SessionView) {
    if s.row_cursor < s.target_row_count {
        let made = assembled(s.bindings, s.stream);
        (
            Some(made.0),
            SessionView {
                row_cursor: s.row_cursor + 1,
                target_row_count: s.target_row_count,
                exhausted: false,
                bindings: s.bindings,
                stream: made.1,
            },
        )
    } else {
        (
            None,
            SessionView {
                row_cursor: s.row_cursor,
                target_row_count: s.target_row_count,
                exhausted: true,
                bindings: s.bindings,
                stream: s.stream,
            },
        )
    }
}

/// The session rewound to its first row. Bindings and stream stay as they are.
pub open spec fn rewound(s: SessionView) -> SessionView {
    SessionView {
        row_cursor: 0,
        target_row_count: s.target_row_count,
        exhausted: false,
        bindings: s.bindings,
        stream: s.stream,
    }
}

/// The session after `n` fetches.
pub open spec fn after(s: SessionView, n: nat) -> SessionView
    decreases n,
{
    if n == 0 {
        s
    } else {
        fetch(after(s, (n - 1) as nat)).1
    }
}

/// What the fetch that follows `n` earlier ones yields.
pub open spec fn nth_fetch(s: SessionView, n: nat) -> Option<Seq<CellView>> {
    fetch(after(s, n)).0
}

/// The cursor has not passed the target, and the end is reported only at the target.
pub open spec fn consistent(s: SessionView) -> bool {
    &&& s.row_cursor <= s.target_row_count
    &&& s.exhausted ==> s.row_cursor == s.target_row_count
}

/// The view of a row that may be absent.
pub open spec fn row_view(row: Option<Vec<Cell>>) -> Option<Seq<CellView>> {
    match row {
        Some(cells) => Some(cells_of(cells@)),
        None => None,
    }
}

/// The state of one scan. It is made by `begin`, handed on by `next` and `rescan`, and given
/// up by `end`.
pub struct ScanSession {
    row_cursor: u64,
    target_row_count: u64,
    exhausted: bool,
    bindings: Vec<ColumnBinding>,
    rng: ChaCha8Rng,
}

impl View for ScanSession {
    type V = SessionView;

    closed spec fn view(&self) -> SessionView {
        SessionView {
            row_cursor: self.row_cursor as nat,
            target_row_count: self.target_row_count as nat,
            exhausted: self.exhausted,
            bindings: bindings_of(self.bindings@),
            stream: stream_state(self.rng),
        }
    }
}

impl ScanSession {
    /// The session is consistent.
    pub open spec fn wf(&self) -> bool {
        consistent(self@)
    }

    /// Every generator of the session can be run.
    pub open spec fn ready(&self) -> bool {
        all_drawable(self@.bindings)
    }

    /// The stream of the scan, for the draws that the library leaves to its host. The
    /// session follows the stream wherever the host takes it; nothing else of it changes.
    pub fn stream(&mut self) -> (rng: &mut ChaCha8Rng)
        ensures
            stream_state(*rng) == old(self)@.stream,
            final(self)@ == (SessionView {
                row_cursor: old(self)@.row_cursor,
                target_row_count: old(self)@.target_row_count,
                exhausted: old(self)@.exhausted,
                bindings: old(self)@.bindings,
                stream: stream_state(*final(rng)),
            }),
    {
        &mut self.rng
    }

    /// Begins a scan of `target_row_count` rows over `projection`. The tunables are read
    /// here and never again. A positive `seed` gives a stream that is a function of the
    /// seed; a seed of 0 gives one keyed from entropy.
    pub fn begin(
        target_row_count: u64,
        projection: &Vec<Column>,
        seed: u64,
        config: &RandomGUC,
    ) -> (session: ScanSession)
        requires
            config.wf(),
        ensures
            session.wf(),
            session@.row_cursor == 0,
            session@.target_row_count == target_row_count,
            !session@.exhausted,
            session@.bindings == bound(columns_of(projection@), *config),
            seed > 0 ==> session@ == opened(
                target_row_count as nat,
                columns_of(projection@),
                *config,
                seed,
            ),
    {
        let rng = if seed > 0 {
            seeded(seed)
        } else {
            from_entropy()
        };
        let bindings = bind(projection, config);
        ScanSession { row_cursor: 0, target_row_count, exhausted: false, bindings, rng }
    }

    /// Fetches the next row. While fewer rows than the target have been handed out, one row
    /// is assembled and the cursor moves on; after that the end of the data is reported and
    /// nothing is drawn.
    pub fn next(&mut self) -> (row: Option<Vec<Cell>>)
        requires
            old(self).wf(),
            old(self).ready(),
        ensures
            final(self).wf(),
            final(self).ready(),
            row is Some <==> old(self)@.row_cursor < old(self)@.target_row_count,
            row matches Some(cells) ==> answers(cells_of(cells@), old(self)@.bindings),
            row_view(row) == fetch(old(self)@).0,
            final(self)@ == fetch(old(self)@).1,
    {
        if self.row_cursor < self.target_row_count {
            let cells = assemble(&self.bindings, &mut self.rng);
            self.row_cursor = self.row_cursor + 1;
            self.exhausted = false;
            Some(cells)
        } else {
            self.exhausted = true;
            None
        }
    }

    /// Rewinds the scan to its first row. The bindings are kept, and so is the stream: the
    /// rows that follow are not those that were handed out before.
    pub fn rescan(&mut self)
        ensures
            final(self).wf(),
            final(self)@ == rewound(old(self)@),
    {
        self.row_cursor = 0;
        self.exhausted = false;
    }

    /// Rewinds the scan to its first row and puts a fresh stream in place: a function of
    /// `seed` where it is positive, else one keyed from entropy. After a positive seed the
    /// rows are those of a scan begun with it.
    pub fn rescan_reseeded(&mut self, seed: u64)
        ensures
            final(self).wf(),
            final(self)@.row_cursor == 0,
            !final(self)@.exhausted,
            final(self)@.target_row_count == old(self)@.target_row_count,
            final(self)@.bindings == old(self)@.bindings,
            seed > 0 ==> final(self)@.stream == seeded_state(seed),
    {
        self.rng = if seed > 0 {
            seeded(seed)
        } else {
            from_entropy()
        };
        self.row_cursor = 0;
        self.exhausted = false;
    }

    /// Ends the scan and gives up its state.
    pub fn end(self) {
    }

    /// Rows handed out since the scan began or was last rewound.
    pub fn row_cursor(&self) -> (n: u64)
        ensures
            n == self@.row_cursor,
    {
        self.row_cursor
    }

    /// Rows that the scan hands out before it reports the end of the data.
    pub fn target_row_count(&self) -> (n: u64)
        ensures
            n == self@.target_row_count,
    {
        self.target_row_count
    }

    /// Whether the end of the data has been reported.
    pub fn is_exhausted(&self) -> (b: bool)
        ensures
            b == self@.exhausted,
    {
        self.exhausted
    }

    /// The bindings of the projection, in its order.
    pub fn bindings(&self) -> (bindings: &Vec<ColumnBinding>)
        ensures
            bindings_of(bindings@) == self@.bindings,
    {
        &self.bindings
    }

    /// Can every generator of the session be run?
    pub fn is_ready(&self) -> (ok: bool)
        ensures
            ok == self.ready(),
    {
        check_drawable(&self.bindings)
    }
}

} // verus!
