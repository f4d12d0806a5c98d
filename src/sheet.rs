use vstd::prelude::*;
use crate::cell::Cell;

verus! {

/// True when every cell of the row is `Empty`. Text made of blanks is not
/// `Empty`, so such a row does not count as empty.
pub open spec fn row_is_empty(row: Seq<Cell>) -> bool {
    forall|j: int| 0 <= j < row.len() ==> (#[trigger] row[j]) is Empty
}

/// True when every row has exactly `width` cells.
pub open spec fn rectangular(width: nat, rows: Seq<Seq<Cell>>) -> bool {
    forall|i: int| 0 <= i < rows.len() ==> (#[trigger] rows[i]).len() == width
}

/// A decoded worksheet: rows of cells, each row exactly `width` cells long.
pub struct Sheet {
    width: usize,
    rows: Vec<Vec<Cell>>,
}

impl Sheet {
    /// The number of columns.
    pub closed spec fn width_spec(&self) -> nat {
        self.width as nat
    }

    /// The rows, top to bottom, each in column order.
    pub closed spec fn rows_spec(&self) -> Seq<Seq<Cell>> {
        self.rows@.map_values(|r: Vec<Cell>| r@)
    }

    #[verifier::type_invariant]
    closed spec fn shaped(&self) -> bool {
        rectangular(self.width as nat, self.rows_spec())
    }

    /// Builds a sheet of the given width; `None` when some row has another length.
    pub fn from_rows(width: usize, rows: Vec<Vec<Cell>>) -> (r: Option<Sheet>)
        ensures
            (forall|i: int| 0 <= i < rows@.len() ==> (#[trigger] rows@[i])@.len() == width)
                <==> r is Some,
            r matches Some(s) ==> s.width_spec() == width && s.rows_spec() == rows@.map_values(
                |v: Vec<Cell>| v@,
            ),
    {
        let mut i: usize = 0;
        while i < rows.len()
            invariant
                i <= rows@.len(),
                forall|k: int| 0 <= k < i ==> (#[trigger] rows@[k])@.len() == width,
            decreases rows@.len() - i,
        {
            if rows[i].len() != width {
                return None;
            }
            i = i + 1;
        }
        proof {
            assert(rectangular(width as nat, rows@.map_values(|v: Vec<Cell>| v@)));
        }
        Some(Sheet { width, rows })
    }

    /// The number of columns.
    pub fn width(&self) -> (r: usize)
        ensures
            r == self.width_spec(),
            rectangular(self.width_spec(), self.rows_spec()),
    {
        proof {
            use_type_invariant(self);
        }
        self.width
    }

    /// The number of rows.
    pub fn row_count(&self) -> (r: usize)
        ensures
            r == self.rows_spec().len(),
            rectangular(self.width_spec(), self.rows_spec()),
    {
        proof {
            use_type_invariant(self);
        }
        self.rows.len()
    }

    /// The row at index `i`, in column order.
    pub fn row(&self, i: usize) -> (r: &Vec<Cell>)
        requires
            i < self.rows_spec().len(),
        ensures
            r@ == self.rows_spec()[i as int],
            r@.len() == self.width_spec(),
    {
        proof {
            use_type_invariant(self);
        }
        &self.rows[i]
    }
}

/// Whether every cell of the row is `Empty`.
pub fn is_empty_row(row: &Vec<Cell>) -> (r: bool)
    ensures
        r == row_is_empty(row@),
{
    let mut j: usize = 0;
    while j < row.len()
        invariant
            j <= row@.len(),
            forall|k: int| 0 <= k < j ==> (#[trigger] row@[k]) is Empty,
        decreases row@.len() - j,
    {
        match &row[j] {
            Cell::Empty => {},
            _ => {
                return false;
            },
        }
        j = j + 1;
    }
    true
}

} // verus!
