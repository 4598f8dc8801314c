use vstd::prelude::*;

use crate::cell::{cells_view, Cell, CellV};
use crate::writer::RowGroup;

verus! {

/// The non-null values of a column, in row order.
pub open spec fn present_values(col: Seq<CellV>) -> Seq<CellV>
    decreases col.len(),
{
    if col.len() == 0 {
        Seq::empty()
    } else if col.last() is Null {
        present_values(col.drop_last())
    } else {
        present_values(col.drop_last()).push(col.last())
    }
}

impl RowGroup {
    /// Number of rows in the group.
    pub fn len(&self) -> (n: usize)
        ensures
            n == self.rows@.len(),
    {
        self.rows.len()
    }

    /// The cells of column `j`, top to bottom: the per-column view of the
    /// group's rows.
    pub fn column(&self, j: usize) -> (col: Vec<Cell>)
        requires
            forall|i: int| 0 <= i < self.rows@.len() ==> j < #[trigger] self.rows@[i]@.len(),
        ensures
            col@.len() == self.rows@.len(),
            forall|i: int| 0 <= i < col@.len() ==> #[trigger] col@[i]@ == self.rows@[i]@[j as int]@,
    {
        let mut col: Vec<Cell> = Vec::new();
        let mut i: usize = 0;
        while i < self.rows.len()
            invariant
                forall|k: int| 0 <= k < self.rows@.len() ==> j < #[trigger] self.rows@[k]@.len(),
                i <= self.rows@.len(),
                col@.len() == i,
                forall|k: int|
                    0 <= k < i ==> #[trigger] col@[k]@ == self.rows@[k]@[j as int]@,
            decreases self.rows@.len() - i,
        {
            col.push(self.rows[i][j].clone());
            i = i + 1;
        }
        col
    }
}

/// The definition levels of a column: 1 where a value is present, 0 where
/// the cell is null, one level per row.
pub fn def_levels(col: &Vec<Cell>) -> (d: Vec<i16>)
    ensures
        d@.len() == col@.len(),
        forall|i: int|
            0 <= i < col@.len() ==> #[trigger] d@[i] == if col@[i]@ is Null {
                0i16
            } else {
                1i16
            },
{
    let mut d: Vec<i16> = Vec::new();
    let mut i: usize = 0;
    while i < col.len()
        invariant
            i <= col@.len(),
            d@.len() == i,
            forall|k: int|
                0 <= k < i ==> #[trigger] d@[k] == if col@[k]@ is Null {
                    0i16
                } else {
                    1i16
                },
        decreases col@.len() - i,
    {
        let level: i16 = match &col[i] {
            Cell::Null => 0,
            _ => 1,
        };
        d.push(level);
        i = i + 1;
    }
    d
}

/// The non-null 32-bit integer values of a column, in row order, or nothing
/// if some present cell is not a 32-bit integer.
pub fn i32_values(col: &Vec<Cell>) -> (r: Option<Vec<i32>>)
    ensures
        r is Some <==> (forall|i: int|
            0 <= i < col@.len() ==> (#[trigger] col@[i]@ is Null || col@[i]@ is Int32)),
        r matches Some(v) ==> v@.map_values(|x: i32| CellV::Int32(x as int)) == present_values(
            cells_view(col@),
        ),
{
    let ghost s = cells_view(col@);
    let ghost f = |x: i32| CellV::Int32(x as int);
    let mut v: Vec<i32> = Vec::new();
    let mut i: usize = 0;
    while i < col.len()
        invariant
            s == cells_view(col@),
            f == (|x: i32| CellV::Int32(x as int)),
            i <= col@.len(),
            forall|k: int| 0 <= k < i ==> (#[trigger] col@[k]@ is Null || col@[k]@ is Int32),
            v@.map_values(f) == present_values(s.take(i as int)),
        decreases col@.len() - i,
    {
        proof {
            assert(s.take(i as int + 1).drop_last() =~= s.take(i as int));
            assert(s.take(i as int + 1).last() == s[i as int]);
        }
        match &col[i] {
            Cell::Null => {},
            Cell::Int32(x) => {
                v.push(*x);
                proof {
                    assert(v@.map_values(f) =~= v@.drop_last().map_values(f).push(f(*x)));
                }
            },
            _ => {
                return None;
            },
        }
        i = i + 1;
    }
    proof {
        assert(s.take(col@.len() as int) =~= s);
    }
    Some(v)
}

/// The non-null 64-bit integer values of a column, in row order, or nothing
/// if some present cell is not a 64-bit integer.
pub fn i64_values(col: &Vec<Cell>) -> (r: Option<Vec<i64>>)
    ensures
        r is Some <==> (forall|i: int|
            0 <= i < col@.len() ==> (#[trigger] col@[i]@ is Null || col@[i]@ is Int64)),
        r matches Some(v) ==> v@.map_values(|x: i64| CellV::Int64(x as int)) == present_values(
            cells_view(col@),
        ),
{
    let ghost s = cells_view(col@);
    let ghost f = |x: i64| CellV::Int64(x as int);
    let mut v: Vec<i64> = Vec::new();
    let mut i: usize = 0;
    while i < col.len()
        invariant
            s == cells_view(col@),
            f == (|x: i64| CellV::Int64(x as int)),
            i <= col@.len(),
            forall|k: int| 0 <= k < i ==> (#[trigger] col@[k]@ is Null || col@[k]@ is Int64),
            v@.map_values(f) == present_values(s.take(i as int)),
        decreases col@.len() - i,
    {
        proof {
            assert(s.take(i as int + 1).drop_last() =~= s.take(i as int));
            assert(s.take(i as int + 1).last() == s[i as int]);
        }
        match &col[i] {
            Cell::Null => {},
            Cell::Int64(x) => {
                v.push(*x);
                proof {
                    assert(v@.map_values(f) =~= v@.drop_last().map_values(f).push(f(*x)));
                }
            },
            _ => {
                return None;
            },
        }
        i = i + 1;
    }
    proof {
        assert(s.take(col@.len() as int) =~= s);
    }
    Some(v)
}

/// The non-null boolean values of a column, in row order, or nothing if some
/// present cell is not a boolean.
pub fn bool_values(col: &Vec<Cell>) -> (r: Option<Vec<bool>>)
    ensures
        r is Some <==> (forall|i: int|
            0 <= i < col@.len() ==> (#[trigger] col@[i]@ is Null || col@[i]@ is Boolean)),
        r matches Some(v) ==> v@.map_values(|x: bool| CellV::Boolean(x)) == present_values(
            cells_view(col@),
        ),
{
    let ghost s = cells_view(col@);
    let ghost f = |x: bool| CellV::Boolean(x);
    let mut v: Vec<bool> = Vec::new();
    let mut i: usize = 0;
    while i < col.len()
        invariant
            s == cells_view(col@),
            f == (|x: bool| CellV::Boolean(x)),
            i <= col@.len(),
            forall|k: int| 0 <= k < i ==> (#[trigger] col@[k]@ is Null || col@[k]@ is Boolean),
            v@.map_values(f) == present_values(s.take(i as int)),
        decreases col@.len() - i,
    {
        proof {
            assert(s.take(i as int + 1).drop_last() =~= s.take(i as int));
            assert(s.take(i as int + 1).last() == s[i as int]);
        }
        match &col[i] {
            Cell::Null => {},
            Cell::Boolean(x) => {
                v.push(*x);
                proof {
                    assert(v@.map_values(f) =~= v@.drop_last().map_values(f).push(f(*x)));
                }
            },
            _ => {
                return None;
            },
        }
        i = i + 1;
    }
    proof {
        assert(s.take(col@.len() as int) =~= s);
    }
    Some(v)
}

/// The non-null 4-byte floating-point bit patterns of a column, in row
/// order, or nothing if some present cell is not one.
pub fn float_bits_values(col: &Vec<Cell>) -> (r: Option<Vec<u32>>)
    ensures
        r is Some <==> (forall|i: int|
            0 <= i < col@.len() ==> (#[trigger] col@[i]@ is Null || col@[i]@ is Float32)),
        r matches Some(v) ==> v@.map_values(|x: u32| CellV::Float32(x as int)) == present_values(
            cells_view(col@),
        ),
{
    let ghost s = cells_view(col@);
    let ghost f = |x: u32| CellV::Float32(x as int);
    let mut v: Vec<u32> = Vec::new();
    let mut i: usize = 0;
    while i < col.len()
        invariant
            s == cells_view(col@),
            f == (|x: u32| CellV::Float32(x as int)),
            i <= col@.len(),
            forall|k: int| 0 <= k < i ==> (#[trigger] col@[k]@ is Null || col@[k]@ is Float32),
            v@.map_values(f) == present_values(s.take(i as int)),
        decreases col@.len() - i,
    {
        proof {
            assert(s.take(i as int + 1).drop_last() =~= s.take(i as int));
            assert(s.take(i as int + 1).last() == s[i as int]);
        }
        match &col[i] {
            Cell::Null => {},
            Cell::Float32(x) => {
                v.push(*x);
                proof {
                    assert(v@.map_values(f) =~= v@.drop_last().map_values(f).push(f(*x)));
                }
            },
            _ => {
                return None;
            },
        }
        i = i + 1;
    }
    proof {
        assert(s.take(col@.len() as int) =~= s);
    }
    Some(v)
}

/// The non-null 8-byte floating-point bit patterns of a column, in row
/// order, or nothing if some present cell is not one.
pub fn double_bits_values(col: &Vec<Cell>) -> (r: Option<Vec<u64>>)
    ensures
        r is Some <==> (forall|i: int|
            0 <= i < col@.len() ==> (#[trigger] col@[i]@ is Null || col@[i]@ is Float64)),
        r matches Some(v) ==> v@.map_values(|x: u64| CellV::Float64(x as int)) == present_values(
            cells_view(col@),
        ),
{
    let ghost s = cells_view(col@);
    let ghost f = |x: u64| CellV::Float64(x as int);
    let mut v: Vec<u64> = Vec::new();
    let mut i: usize = 0;
    while i < col.len()
        invariant
            s == cells_view(col@),
            f == (|x: u64| CellV::Float64(x as int)),
            i <= col@.len(),
            forall|k: int| 0 <= k < i ==> (#[trigger] col@[k]@ is Null || col@[k]@ is Float64),
            v@.map_values(f) == present_values(s.take(i as int)),
        decreases col@.len() - i,
    {
        proof {
            assert(s.take(i as int + 1).drop_last() =~= s.take(i as int));
            assert(s.take(i as int + 1).last() == s[i as int]);
        }
        match &col[i] {
            Cell::Null => {},
            Cell::Float64(x) => {
                v.push(*x);
                proof {
                    assert(v@.map_values(f) =~= v@.drop_last().map_values(f).push(f(*x)));
                }
            },
            _ => {
                return None;
            },
        }
        i = i + 1;
    }
    proof {
        assert(s.take(col@.len() as int) =~= s);
    }
    Some(v)
}

/// The non-null text values of a column, in row order, or nothing if some
/// present cell is not text.
pub fn text_values(col: &Vec<Cell>) -> (r: Option<Vec<String>>)
    ensures
        r is Some <==> (forall|i: int|
            0 <= i < col@.len() ==> (#[trigger] col@[i]@ is Null || col@[i]@ is Text)),
        r matches Some(v) ==> v@.map_values(|x: String| CellV::Text(x@)) == present_values(
            cells_view(col@),
        ),
{
    let ghost s = cells_view(col@);
    let ghost f = |x: String| CellV::Text(x@);
    let mut v: Vec<String> = Vec::new();
    let mut i: usize = 0;
    while i < col.len()
        invariant
            s == cells_view(col@),
            f == (|x: String| CellV::Text(x@)),
            i <= col@.len(),
            forall|k: int| 0 <= k < i ==> (#[trigger] col@[k]@ is Null || col@[k]@ is Text),
            v@.map_values(f) == present_values(s.take(i as int)),
        decreases col@.len() - i,
    {
        proof {
            assert(s.take(i as int + 1).drop_last() =~= s.take(i as int));
            assert(s.take(i as int + 1).last() == s[i as int]);
        }
        match &col[i] {
            Cell::Null => {},
            Cell::Text(x) => {
                v.push(x.clone());
                proof {
                    assert(v@.map_values(f) =~= v@.drop_last().map_values(f).push(f(v@.last())));
                }
            },
            _ => {
                return None;
            },
        }
        i = i + 1;
    }
    proof {
        assert(s.take(col@.len() as int) =~= s);
    }
    Some(v)
}

/// The non-null byte-string values of a column, in row order, or nothing if
/// some present cell is not a byte string.
pub fn byte_values(col: &Vec<Cell>) -> (r: Option<Vec<Vec<u8>>>)
    ensures
        r is Some <==> (forall|i: int|
            0 <= i < col@.len() ==> (#[trigger] col@[i]@ is Null || col@[i]@ is Bytes)),
        r matches Some(v) ==> v@.map_values(|x: Vec<u8>| CellV::Bytes(x@)) == present_values(
            cells_view(col@),
        ),
{
    let ghost s = cells_view(col@);
    let ghost f = |x: Vec<u8>| CellV::Bytes(x@);
    let mut v: Vec<Vec<u8>> = Vec::new();
    let mut i: usize = 0;
    while i < col.len()
        invariant
            s == cells_view(col@),
            f == (|x: Vec<u8>| CellV::Bytes(x@)),
            i <= col@.len(),
            forall|k: int| 0 <= k < i ==> (#[trigger] col@[k]@ is Null || col@[k]@ is Bytes),
            v@.map_values(f) == present_values(s.take(i as int)),
        decreases col@.len() - i,
    {
        proof {
            assert(s.take(i as int + 1).drop_last() =~= s.take(i as int));
            assert(s.take(i as int + 1).last() == s[i as int]);
        }
        match &col[i] {
            Cell::Null => {},
            Cell::Bytes(x) => {
                let c = x.clone();
                proof {
                    assert(c@ =~= x@);
                }
                v.push(c);
                proof {
                    assert(v@.map_values(f) =~= v@.drop_last().map_values(f).push(f(v@.last())));
                }
            },
            _ => {
                return None;
            },
        }
        i = i + 1;
    }
    proof {
        assert(s.take(col@.len() as int) =~= s);
    }
    Some(v)
}

} // verus!
