use vstd::prelude::*;

use crate::cell::{cells_view, CellV, RawCell};
use crate::convert::{cell_error, cell_ok, cell_out, convert_row};
use crate::errors::ExportError;
use crate::writer::{BatchWriter, RowGroup};

verus! {

/// The row the schema dictates for an accepted raw row: each cell converted
/// under its column, in column order.
pub open spec fn row_out(w: BatchWriter, raw: Seq<RawCell>) -> Seq<CellV> {
    Seq::new(raw.len() as nat, |j: int| cell_out(w.schema.columns@[j], raw[j]@))
}

/// One step of the export pipeline: converts one raw row under the writer's
/// schema and hands it to the writer, returning the row group to flush if
/// the batch filled, or the first conversion error, with the writer
/// untouched on failure. Rows pass through strictly one at a time, in order.
pub fn feed_row(w: &mut BatchWriter, raw: &Vec<RawCell>, row_idx: usize) -> (r: Result<
    Option<RowGroup>,
    ExportError,
>)
    requires
        old(w).wf(),
        old(w).schema.wf(),
        old(w).total < usize::MAX,
    ensures
        final(w).wf(),
        final(w).schema == old(w).schema,
        final(w).codec == old(w).codec,
        final(w).threshold == old(w).threshold,
        r is Ok <==> raw@.len() == old(w).schema.columns@.len() && (forall|j: int|
            0 <= j < raw@.len() ==> #[trigger] cell_ok(old(w).schema.columns@[j], raw@[j]@)),
        r is Ok ==> final(w).accepted@ == old(w).accepted@.push(row_out(*old(w), raw@))
            && final(w).total == old(w).total + 1,
        r matches Ok(g) ==> (old(w).pending@.len() + 1 < old(w).threshold ==> g is None)
            && (old(w).pending@.len() + 1 == old(w).threshold ==> (g matches Some(gr)
            && rows_view_of(gr) == rows_view_of_pending(*old(w)).push(row_out(*old(w), raw@)))),
        r is Err ==> *final(w) == *old(w),
        r matches Err(e) ==> (raw@.len() != old(w).schema.columns@.len() ==> (e matches
            ExportError::RowShape { row, expected, actual } && row == row_idx
            && expected == old(w).schema.columns@.len() && actual == raw@.len())),
        r matches Err(e) ==> (raw@.len() == old(w).schema.columns@.len() ==> exists|j: int|
            #![auto]
            0 <= j < raw@.len() && !cell_ok(old(w).schema.columns@[j], raw@[j]@) && cell_error(
                e,
                old(w).schema.columns@[j],
                raw@[j]@,
                row_idx as int,
            )),
{
    match convert_row(raw, &w.schema, row_idx) {
        Ok(cells) => {
            proof {
                assert(cells_view(cells@) =~= row_out(*old(w), raw@));
            }
            Ok(w.accept(cells))
        },
        Err(e) => Err(e),
    }
}

/// The values of a flushed group's rows.
pub open spec fn rows_view_of(g: RowGroup) -> Seq<Seq<CellV>> {
    crate::writer::rows_view(g.rows@)
}

/// The values of a writer's pending rows.
pub open spec fn rows_view_of_pending(w: BatchWriter) -> Seq<Seq<CellV>> {
    crate::writer::rows_view(w.pending@)
}

} // verus!
