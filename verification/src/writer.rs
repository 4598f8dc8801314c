use vstd::prelude::*;

use crate::cell::{cells_view, Cell, CellV};
use crate::compression::Codec;
use crate::schema::ColumnarSchema;

verus! {

/// The default batch threshold: how many rows a column batch accumulates
/// before it is flushed as one row group.
pub const DEFAULT_BATCH_ROWS: usize = 10000;

/// The values of a sequence of rows.
pub open spec fn rows_view(rows: Seq<Vec<Cell>>) -> Seq<Seq<CellV>> {
    rows.map_values(|r: Vec<Cell>| cells_view(r@))
}

/// One row group: an independently flushed, independently readable chunk of
/// rows, in acceptance order.
pub struct RowGroup {
    pub rows: Vec<Vec<Cell>>,
}

/// The closing metadata of one export: how many rows were accepted in all,
/// how many row groups were flushed (a non-empty final remainder included),
/// and the codec every group was compressed with.
#[derive(PartialEq, Debug)]
pub struct ExportSummary {
    pub total_rows: usize,
    pub groups: usize,
    pub codec: Codec,
}

/// The Batch Writer: accumulates converted rows and hands back one bounded
/// row group each time the batch threshold is reached, so that peak memory
/// stays bounded whatever the result set's size. The ghost history ties every
/// group ever handed out to the rows accepted, in order.
pub struct BatchWriter {
    /// The immutable output schema.
    pub schema: ColumnarSchema,
    /// The codec of every row group of this file.
    pub codec: Codec,
    /// Rows per row group.
    pub threshold: usize,
    /// Rows accepted since the last flush, in acceptance order.
    pub pending: Vec<Vec<Cell>>,
    /// Rows accepted in all.
    pub total: usize,
    /// Row groups handed out so far.
    pub groups_flushed: usize,
    /// History: every row accepted, in order.
    pub accepted: Ghost<Seq<Seq<CellV>>>,
    /// History: every row group handed out, in order.
    pub emitted: Ghost<Seq<Seq<Seq<CellV>>>>,
}

impl BatchWriter {
    /// The writer's invariant: the groups handed out, concatenated, followed
    /// by the pending rows, are exactly the accepted rows in order; every
    /// group holds exactly `threshold` rows; every accepted row has one cell
    /// per column.
    pub open spec fn wf(self) -> bool {
        &&& self.threshold >= 1
        &&& self.pending@.len() < self.threshold
        &&& self.accepted@ == self.emitted@.flatten() + rows_view(self.pending@)
        &&& self.total == self.accepted@.len()
        &&& self.groups_flushed == self.emitted@.len()
        &&& forall|i: int|
            0 <= i < self.emitted@.len() ==> #[trigger] self.emitted@[i].len() == self.threshold
        &&& forall|i: int|
            0 <= i < self.accepted@.len() ==> #[trigger] self.accepted@[i].len()
                == self.schema.columns@.len()
    }

    /// A fresh writer for one export: fixed schema, codec and threshold,
    /// nothing accepted yet.
    pub fn new(schema: ColumnarSchema, codec: Codec, threshold: usize) -> (w: BatchWriter)
        requires
            threshold >= 1,
        ensures
            w.wf(),
            w.schema == schema,
            w.codec == codec,
            w.threshold == threshold,
            w.accepted@ == Seq::<Seq<CellV>>::empty(),
            w.emitted@ == Seq::<Seq<Seq<CellV>>>::empty(),
            w.total == 0,
    {
        let w = BatchWriter {
            schema,
            codec,
            threshold,
            pending: Vec::new(),
            total: 0,
            groups_flushed: 0,
            accepted: Ghost(Seq::empty()),
            emitted: Ghost(Seq::empty()),
        };
        proof {
            assert(w.emitted@.flatten() =~= Seq::<Seq<CellV>>::empty());
            assert(rows_view(w.pending@) =~= Seq::<Seq<CellV>>::empty());
            assert(w.accepted@ =~= w.emitted@.flatten() + rows_view(w.pending@));
        }
        w
    }

    /// Appends one converted row to the batch. Exactly when the batch reaches
    /// the threshold, the full group is handed back and the batch resets; the
    /// row order of the group is the acceptance order.
    pub fn accept(&mut self, row: Vec<Cell>) -> (g: Option<RowGroup>)
        requires
            old(self).wf(),
            row@.len() == old(self).schema.columns@.len(),
            old(self).total < usize::MAX,
        ensures
            final(self).wf(),
            final(self).schema == old(self).schema,
            final(self).codec == old(self).codec,
            final(self).threshold == old(self).threshold,
            final(self).total == old(self).total + 1,
            final(self).accepted@ == old(self).accepted@.push(cells_view(row@)),
            old(self).pending@.len() + 1 < old(self).threshold ==> g is None
                && final(self).emitted@ == old(self).emitted@,
            old(self).pending@.len() + 1 == old(self).threshold ==> (g matches Some(gr)
                && rows_view(gr.rows@) == rows_view(old(self).pending@).push(cells_view(row@))
                && final(self).emitted@ == old(self).emitted@.push(rows_view(gr.rows@))
                && final(self).pending@.len() == 0),
    {
        proof {
            lemma_uniform_group_len(old(self).emitted@, old(self).threshold as int);
        }
        self.total = self.total + 1;
        self.accepted = Ghost(self.accepted@.push(cells_view(row@)));
        self.pending.push(row);
        proof {
            assert(rows_view(self.pending@) =~= rows_view(old(self).pending@).push(
                cells_view(self.pending@.last()@),
            ));
            assert(self.accepted@ =~= self.emitted@.flatten() + rows_view(self.pending@));
        }
        if self.pending.len() == self.threshold {
            let rows = self.pending.split_off(0);
            self.groups_flushed = self.groups_flushed + 1;
            self.emitted = Ghost(self.emitted@.push(rows_view(rows@)));
            proof {
                broadcast use Seq::lemma_flatten_push;

                assert(rows_view(self.pending@) =~= Seq::<Seq<CellV>>::empty());
                assert(rows_view(rows@) =~= rows_view(old(self).pending@).push(
                    cells_view(rows@.last()@),
                ));
                assert(self.accepted@ =~= self.emitted@.flatten() + rows_view(self.pending@));
            }
            Some(RowGroup { rows })
        } else {
            None
        }
    }

    /// Closes the stream: hands back the non-empty remainder as a final,
    /// possibly short row group — a remainder is never dropped — and the
    /// closing metadata. Zero accepted rows yield no group and a zero row
    /// count: an empty result set is not an error.
    pub fn finish(self) -> (r: (Option<RowGroup>, ExportSummary))
        requires
            self.wf(),
        ensures
            r.1.total_rows == self.total,
            r.1.codec == self.codec,
            self.pending@.len() == 0 ==> r.0 is None && r.1.groups == self.groups_flushed
                && self.emitted@.flatten() == self.accepted@,
            self.pending@.len() > 0 ==> (r.0 matches Some(gr) && rows_view(gr.rows@) == rows_view(
                self.pending@,
            ) && r.1.groups == self.groups_flushed + 1 && self.emitted@.push(
                rows_view(gr.rows@),
            ).flatten() == self.accepted@),
            self.total == 0 ==> r.0 is None && r.1.groups == 0,
    {
        proof {
            lemma_uniform_group_len(self.emitted@, self.threshold as int);
            if self.pending@.len() == 0 {
                assert(rows_view(self.pending@) =~= Seq::<Seq<CellV>>::empty());
                assert(self.emitted@.flatten() =~= self.accepted@);
            }
            if self.total == 0 {
                assert(self.accepted@.len() == 0);
                assert(self.emitted@.flatten().len() >= self.emitted@.len());
                assert(rows_view(self.pending@).len() == self.pending@.len());
            }
        }
        if self.pending.len() == 0 {
            let summary = ExportSummary {
                total_rows: self.total,
                groups: self.groups_flushed,
                codec: self.codec,
            };
            (None, summary)
        } else {
            proof {
                broadcast use Seq::lemma_flatten_push;

            }
            let summary = ExportSummary {
                total_rows: self.total,
                groups: self.groups_flushed + 1,
                codec: self.codec,
            };
            (Some(RowGroup { rows: self.pending }), summary)
        }
    }
}

/// Every group of `ss` holds exactly `t` rows, so the flattened groups hold
/// `ss.len() * t` rows.
proof fn lemma_uniform_group_len(ss: Seq<Seq<Seq<CellV>>>, t: int)
    requires
        t >= 1,
        forall|i: int| 0 <= i < ss.len() ==> #[trigger] ss[i].len() == t,
    ensures
        ss.flatten().len() == ss.len() * t,
        ss.flatten().len() >= ss.len(),
    decreases ss.len(),
{
    if ss.len() == 0 {
        assert(ss.flatten() =~= Seq::<Seq<CellV>>::empty());
    } else {
        assert(ss.flatten() == ss.first() + ss.drop_first().flatten());
        lemma_uniform_group_len(ss.drop_first(), t);
        assert(ss.len() * t == t + (ss.len() - 1) * t) by (nonlinear_arith);
        assert(ss.len() * t >= ss.len()) by (nonlinear_arith)
            requires
                t >= 1,
                ss.len() >= 0,
        ;
    }
}

/// Order preservation: every row a writer has accepted stands in the flushed
/// row groups followed by the pending remainder, in acceptance order, and
/// the row count is exact.
pub proof fn lemma_order_preserved(w: &BatchWriter)
    requires
        w.wf(),
    ensures
        w.emitted@.flatten() + rows_view(w.pending@) == w.accepted@,
        w.accepted@.len() == w.total,
{
}

/// Batch boundary transparency: two writers that accepted the same rows hold
/// the same rows in the same order, however their thresholds chunked them
/// into row groups.
pub proof fn lemma_batch_boundaries_transparent(a: &BatchWriter, b: &BatchWriter)
    requires
        a.wf(),
        b.wf(),
        a.accepted@ == b.accepted@,
    ensures
        a.emitted@.flatten() + rows_view(a.pending@) == b.emitted@.flatten() + rows_view(
            b.pending@,
        ),
{
}

} // verus!
