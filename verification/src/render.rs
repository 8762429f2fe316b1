use vstd::prelude::*;
use vstd::string::StringExecFns;

verus! {

/// Rows fetched per batch while streaming a result set: bounds peak memory
/// for large results. An internal chunking detail only: the output does not
/// depend on it (see `lemma_batching_irrelevant`).
pub const ROW_BATCH_CAPACITY: usize = 256;

/// Upper bound on the text buffer of a single cell, in bytes.
pub const CELL_TEXT_CAPACITY: usize = 1024;

/// Joins `parts` with `sep` between consecutive parts; empty for no parts.
pub open spec fn join(parts: Seq<Seq<char>>, sep: Seq<char>) -> Seq<char>
    decreases parts.len(),
{
    if parts.len() == 0 {
        Seq::empty()
    } else if parts.len() == 1 {
        parts[0]
    } else {
        join(parts.drop_last(), sep) + sep + parts.last()
    }
}

/// The cells of a row that rendered as text, in row order.
///
/// A cell is `None` where its value could not be rendered; such a cell is
/// dropped from the row's output rather than failing the row, so a row with
/// unrenderable cells yields a line with fewer fields than columns.
pub open spec fn present_cells(row: Seq<Option<Seq<char>>>) -> Seq<Seq<char>>
    decreases row.len(),
{
    if row.len() == 0 {
        Seq::empty()
    } else {
        present_cells(row.drop_last()) + (match row.last() {
            Some(c) => seq![c],
            None => Seq::empty(),
        })
    }
}

/// One output line for one row: its rendered cells joined by `;`.
pub open spec fn row_line(row: Seq<Option<Seq<char>>>) -> Seq<char> {
    join(present_cells(row), ";"@)
}

/// The lines made from the data rows alone, one line per row, in row order.
pub open spec fn lines_of_rows(rows: Seq<Seq<Option<Seq<char>>>>) -> Seq<Seq<char>> {
    rows.map_values(|r: Seq<Option<Seq<char>>>| row_line(r))
}

/// All output lines of a result set: the header line (the column names that
/// rendered, joined by `;`), then one line per row in arrival order.
pub open spec fn result_lines(cols: Seq<Option<Seq<char>>>, rows: Seq<Seq<Option<Seq<char>>>>) -> Seq<
    Seq<char>,
> {
    seq![row_line(cols)] + lines_of_rows(rows)
}

/// The whole result text: every output line, joined by newline.
pub open spec fn render_spec(cols: Seq<Option<Seq<char>>>, rows: Seq<Seq<Option<Seq<char>>>>) -> Seq<
    char,
> {
    join(result_lines(cols, rows), "\n"@)
}

/// Appends to `out` the rendered cells of `row`, joined by `;`.
fn push_row_line(out: &mut String, row: &Vec<Option<String>>)
    ensures
        final(out)@ == old(out)@ + row_line(row.deep_view()),
{
    let ghost rv = row.deep_view();
    let mut i: usize = 0;
    let mut any: bool = false;
    proof {
        assert(rv.take(0) =~= Seq::<Option<Seq<char>>>::empty());
    }
    while i < row.len()
        invariant
            i <= row.len(),
            rv == row.deep_view(),
            rv.len() == row.len(),
            out@ == old(out)@ + join(present_cells(rv.take(i as int)), ";"@),
            any <==> present_cells(rv.take(i as int)).len() > 0,
        decreases row.len() - i,
    {
        let ghost ps = present_cells(rv.take(i as int));
        proof {
            assert(rv.take(i as int + 1).drop_last() =~= rv.take(i as int));
            assert(rv.take(i as int + 1).last() == rv[i as int]);
        }
        match &row[i] {
            Some(c) => {
                if any {
                    out.append(";");
                }
                out.append(c.as_str());
                any = true;
                proof {
                    assert(present_cells(rv.take(i as int + 1)) =~= ps.push(c@));
                    assert(ps.push(c@).drop_last() =~= ps);
                    assert(out@ == old(out)@ + join(present_cells(rv.take(i as int + 1)), ";"@));
                }
            },
            None => {
                proof {
                    assert(present_cells(rv.take(i as int + 1)) =~= ps);
                }
            },
        }
        i += 1;
    }
    proof {
        assert(rv.take(row.len() as int) =~= rv);
    }
}

/// Streams a result set into its delimited text form.
///
/// Construction writes the header line; each fetched row or batch of rows is
/// then appended in arrival order, and `finish` returns the full text. Batch
/// boundaries leave no trace: only the concatenation of the pushed rows
/// determines the output (see `lemma_batching_irrelevant`).
pub struct ResultBuilder {
    text: String,
    cols: Ghost<Seq<Option<Seq<char>>>>,
    rows: Ghost<Seq<Seq<Option<Seq<char>>>>>,
}

impl ResultBuilder {
    /// The column names the builder was created with.
    pub closed spec fn cols(&self) -> Seq<Option<Seq<char>>> {
        self.cols@
    }

    /// The rows pushed so far, in order.
    pub closed spec fn rows(&self) -> Seq<Seq<Option<Seq<char>>>> {
        self.rows@
    }

    /// The accumulated text is exactly the rendering of header and rows.
    pub closed spec fn wf(&self) -> bool {
        self.text@ == render_spec(self.cols@, self.rows@)
    }

    /// Starts a result text with the header line built from `column_names`
    /// (names that failed to render are dropped from the header).
    pub fn new(column_names: &Vec<Option<String>>) -> (b: ResultBuilder)
        ensures
            b.wf(),
            b.cols() == column_names.deep_view(),
            b.rows() == Seq::<Seq<Option<Seq<char>>>>::empty(),
    {
        let mut text = String::new();
        push_row_line(&mut text, column_names);
        proof {
            let cv = column_names.deep_view();
            assert(lines_of_rows(Seq::empty()) =~= Seq::<Seq<char>>::empty());
            assert(result_lines(cv, Seq::empty()) =~= seq![row_line(cv)]);
            assert(text@ == render_spec(cv, Seq::empty()));
        }
        ResultBuilder {
            text,
            cols: Ghost(column_names.deep_view()),
            rows: Ghost(Seq::empty()),
        }
    }

    /// Appends one row as one line.
    pub fn push_row(&mut self, row: &Vec<Option<String>>)
        requires
            old(self).wf(),
        ensures
            final(self).wf(),
            final(self).cols() == old(self).cols(),
            final(self).rows() == old(self).rows().push(row.deep_view()),
    {
        let ghost c = self.cols@;
        let ghost rs = self.rows@;
        let ghost r = row.deep_view();
        self.text.append("\n");
        push_row_line(&mut self.text, row);
        proof {
            self.rows@ = rs.push(r);
            let l1 = result_lines(c, rs);
            let l2 = result_lines(c, rs.push(r));
            assert(lines_of_rows(rs.push(r)) =~= lines_of_rows(rs).push(row_line(r)));
            assert(l2 =~= l1.push(row_line(r)));
            assert(l2.drop_last() =~= l1);
            assert(l2.last() == row_line(r));
            assert(self.text@ == render_spec(c, rs.push(r)));
        }
    }

    /// Appends every row of one fetched batch, in arrival order.
    pub fn push_batch(&mut self, batch: &Vec<Vec<Option<String>>>)
        requires
            old(self).wf(),
        ensures
            final(self).wf(),
            final(self).cols() == old(self).cols(),
            final(self).rows() == old(self).rows() + batch.deep_view(),
    {
        let ghost bv = batch.deep_view();
        let mut j: usize = 0;
        proof {
            assert(self.rows@ + bv.take(0) =~= self.rows@);
        }
        while j < batch.len()
            invariant
                j <= batch.len(),
                bv == batch.deep_view(),
                bv.len() == batch.len(),
                self.wf(),
                self.cols() == old(self).cols(),
                self.rows() == old(self).rows() + bv.take(j as int),
            decreases batch.len() - j,
        {
            let ghost before = self.rows@;
            self.push_row(&batch[j]);
            proof {
                assert(bv.take(j as int + 1) =~= bv.take(j as int).push(bv[j as int]));
                assert(old(self).rows() + bv.take(j as int + 1) =~= before.push(bv[j as int]));
            }
            j += 1;
        }
        proof {
            assert(bv.take(batch.len() as int) =~= bv);
        }
    }

    /// The finished text.
    pub fn finish(self) -> (r: String)
        requires
            self.wf(),
        ensures
            r@ == render_spec(self.cols(), self.rows()),
    {
        self.text
    }
}

/// Renders a complete result set at once: the header line from
/// `column_names`, then one line per row, all joined by newline.
pub fn render_result(column_names: &Vec<Option<String>>, rows: &Vec<Vec<Option<String>>>) -> (r:
    String)
    ensures
        r@ == render_spec(column_names.deep_view(), rows.deep_view()),
{
    let mut b = ResultBuilder::new(column_names);
    proof {
        assert(Seq::<Seq<Option<Seq<char>>>>::empty() + rows.deep_view() =~= rows.deep_view());
    }
    b.push_batch(rows);
    b.finish()
}

/// A result set of `rows.len()` data rows yields exactly `rows.len() + 1`
/// output lines, and line 0 is the header: the rendered column names joined
/// by `;`.
pub proof fn lemma_line_count(cols: Seq<Option<Seq<char>>>, rows: Seq<Seq<Option<Seq<char>>>>)
    ensures
        result_lines(cols, rows).len() == rows.len() + 1,
        result_lines(cols, rows)[0] == row_line(cols),
{
}

/// A line holds one field per cell that rendered: never more fields than
/// cells, and exactly one per cell where every cell of the row rendered.
/// For the header line this bounds the joined names by the column count.
pub proof fn lemma_present_cell_count(row: Seq<Option<Seq<char>>>)
    ensures
        present_cells(row).len() <= row.len(),
        (forall|i: int| 0 <= i < row.len() ==> row[i] is Some) ==> present_cells(row).len()
            == row.len(),
    decreases row.len(),
{
    if row.len() > 0 {
        lemma_present_cell_count(row.drop_last());
        assert(forall|i: int| 0 <= i < row.len() - 1 ==> row.drop_last()[i] == row[i]);
    }
}

/// Row-batch boundaries are an internal chunking detail only: two batchings
/// whose concatenations hold the same rows in the same order render to the
/// same text, character for character.
pub proof fn lemma_batching_irrelevant(
    cols: Seq<Option<Seq<char>>>,
    batches1: Seq<Seq<Seq<Option<Seq<char>>>>>,
    batches2: Seq<Seq<Seq<Option<Seq<char>>>>>,
)
    requires
        batches1.flatten() == batches2.flatten(),
    ensures
        render_spec(cols, batches1.flatten()) == render_spec(cols, batches2.flatten()),
{
}

} // verus!
