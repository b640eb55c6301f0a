use vstd::prelude::*;

use crate::cells::{cell_supported, cell_text, format_cell, CellValue, RenderError};
use crate::data::{Batch, Field, ResultSet};

verus! {

/// The displayable grid derived from a result set: the column names and the
/// formatted rows, in batch order and, within each batch, row order.  It is
/// recomputed on every render cycle and never persisted.
#[derive(Clone, Debug)]
pub struct RenderedTable {
    pub header: Vec<String>,
    pub rows: Vec<Vec<String>>,
}

/// The column names of a schema, in schema order.
pub open spec fn header_names(schema: Seq<Field>) -> Seq<Seq<char>> {
    schema.map_values(|f: Field| f.name@)
}

/// The header a result set renders to: the first batch's column names, or
/// nothing at all when there is no batch.
pub open spec fn result_header(bs: Seq<Batch>) -> Seq<Seq<char>> {
    if bs.len() == 0 {
        Seq::<Seq<char>>::empty()
    } else {
        header_names(bs[0].schema@)
    }
}

/// The rows of one batch, each as a sequence of cells.
pub open spec fn batch_row_cells(b: Batch) -> Seq<Seq<CellValue>> {
    b.rows@.map_values(|r: Vec<CellValue>| r@)
}

/// All rows of a sequence of batches, concatenated in batch order.
pub open spec fn rows_of(bs: Seq<Batch>) -> Seq<Seq<CellValue>>
    decreases bs.len(),
{
    if bs.len() == 0 {
        Seq::<Seq<CellValue>>::empty()
    } else {
        rows_of(bs.drop_last()) + batch_row_cells(bs.last())
    }
}

/// The display texts of one row of cells.
pub open spec fn row_texts(r: Seq<CellValue>) -> Seq<Seq<char>> {
    r.map_values(|c: CellValue| cell_text(c))
}

/// The display texts of many rows.
pub open spec fn formatted_rows(rs: Seq<Seq<CellValue>>) -> Seq<Seq<Seq<char>>> {
    rs.map_values(|r: Seq<CellValue>| row_texts(r))
}

/// Whether every cell of a row can be formatted.
pub open spec fn row_supported(r: Seq<CellValue>) -> bool {
    forall|i: int| 0 <= i < r.len() ==> cell_supported(#[trigger] r[i])
}

/// Whether every cell of every row can be formatted.
pub open spec fn all_supported(rs: Seq<Seq<CellValue>>) -> bool {
    forall|i: int| 0 <= i < rs.len() ==> row_supported(#[trigger] rs[i])
}

/// The total number of rows across a sequence of batches.
pub open spec fn total_rows(bs: Seq<Batch>) -> nat
    decreases bs.len(),
{
    if bs.len() == 0 {
        0
    } else {
        total_rows(bs.drop_last()) + bs.last().rows@.len()
    }
}

/// Rendering a sequence of batches with row counts `r1, ..., rn` yields
/// exactly `r1 + ... + rn` rows: the concatenation of all batches' rows has
/// the summed length, and formatting keeps it.
pub proof fn lemma_rendered_row_total(bs: Seq<Batch>)
    ensures
        rows_of(bs).len() == total_rows(bs),
        formatted_rows(rows_of(bs)).len() == total_rows(bs),
    decreases bs.len(),
{
    if bs.len() > 0 {
        lemma_rendered_row_total(bs.drop_last());
    }
}

/// Splitting off the batch at `k`: the rows of the first `k + 1` batches are
/// the rows of the first `k` followed by the rows of batch `k`.
proof fn lemma_rows_of_take(bs: Seq<Batch>, k: int)
    requires
        0 <= k < bs.len(),
    ensures
        rows_of(bs.take(k + 1)) == rows_of(bs.take(k)) + batch_row_cells(bs[k]),
{
    assert(bs.take(k + 1).drop_last() =~= bs.take(k));
    assert(bs.take(k + 1).last() == bs[k]);
}

/// The rows of a prefix of the batches are a prefix of all the rows.
proof fn lemma_rows_of_prefix(bs: Seq<Batch>, k: int)
    requires
        0 <= k <= bs.len(),
    ensures
        rows_of(bs.take(k)).is_prefix_of(rows_of(bs)),
    decreases bs.len() - k,
{
    if k == bs.len() {
        assert(bs.take(k) =~= bs);
    } else {
        lemma_rows_of_take(bs, k);
        lemma_rows_of_prefix(bs, k + 1);
    }
}

/// Converts a result set into its displayable grid.  An empty result set
/// yields an empty header and no rows.  Otherwise the header is the first
/// batch's column names, and the rows are all batches' rows in order, each
/// cell formatted; the first cell that cannot be formatted makes the whole
/// render fail with a `RenderError` instead of producing substitute output.
pub fn render_result(rs: &ResultSet) -> (r: Result<RenderedTable, RenderError>)
    ensures
        r is Ok <==> all_supported(rows_of(rs.batches@)),
        r is Ok ==> r->Ok_0.header.deep_view() == result_header(rs.batches@),
        r is Ok ==> r->Ok_0.rows.deep_view() == formatted_rows(rows_of(rs.batches@)),
{
    let ghost bs = rs.batches@;
    let mut header: Vec<String> = Vec::new();
    if rs.batches.len() > 0 {
        let schema = &rs.batches[0].schema;
        let mut i: usize = 0;
        while i < schema.len()
            invariant
                i <= schema@.len(),
                header.deep_view() == header_names(schema@.take(i as int)),
            decreases schema@.len() - i,
        {
            let ghost pre = header.deep_view();
            header.push(schema[i].name.clone());
            proof {
                assert(header.deep_view() =~= pre.push(schema@[i as int].name@));
                assert(pre.push(schema@[i as int].name@) =~= header_names(
                    schema@.take(i + 1 as int),
                ));
            }
            i = i + 1;
        }
        proof {
            assert(schema@.take(schema@.len() as int) =~= schema@);
        }
    }
    proof {
        assert(header.deep_view() =~= result_header(bs));
    }

    let mut out_rows: Vec<Vec<String>> = Vec::new();
    let mut bi: usize = 0;
    while bi < rs.batches.len()
        invariant
            bi <= bs.len(),
            bs == rs.batches@,
            header.deep_view() == result_header(bs),
            all_supported(rows_of(bs.take(bi as int))),
            out_rows.deep_view() == formatted_rows(rows_of(bs.take(bi as int))),
        decreases bs.len() - bi,
    {
        let b = &rs.batches[bi];
        let ghost done = rows_of(bs.take(bi as int));
        let mut ri: usize = 0;
        while ri < b.rows.len()
            invariant
                ri <= b.rows@.len(),
                bs == rs.batches@,
                0 <= bi < bs.len(),
                b == &rs.batches[bi as int],
                done == rows_of(bs.take(bi as int)),
                all_supported(done),
                all_supported(batch_row_cells(*b).take(ri as int)),
                out_rows.deep_view() == formatted_rows(
                    done + batch_row_cells(*b).take(ri as int),
                ),
            decreases b.rows@.len() - ri,
        {
            let row = &b.rows[ri];
            let mut cells: Vec<String> = Vec::new();
            let mut ci: usize = 0;
            while ci < row.len()
                invariant
                    ci <= row@.len(),
                    bs == rs.batches@,
                    0 <= bi < bs.len(),
                    0 <= ri < b.rows@.len(),
                    b == &rs.batches[bi as int],
                    row == &b.rows[ri as int],
                    done == rows_of(bs.take(bi as int)),
                    all_supported(done),
                    all_supported(batch_row_cells(*b).take(ri as int)),
                    forall|j: int| 0 <= j < ci ==> cell_supported(#[trigger] row@[j]),
                    cells.deep_view() == row_texts(row@.take(ci as int)),
                decreases row@.len() - ci,
            {
                match format_cell(&row[ci]) {
                    Ok(text) => {
                        let ghost pre = cells.deep_view();
                        cells.push(text);
                        proof {
                            assert(cells.deep_view() =~= pre.push(cell_text(row@[ci as int])));
                            assert(pre.push(cell_text(row@[ci as int])) =~= row_texts(
                                row@.take(ci + 1 as int),
                            ));
                        }
                        ci = ci + 1;
                    },
                    Err(e) => {
                        proof {
                            let cs = batch_row_cells(bs[bi as int]);
                            assert(cs[ri as int] == row@);
                            assert(!row_supported(row@));
                            lemma_rows_of_take(bs, bi as int);
                            lemma_rows_of_prefix(bs, bi as int + 1);
                            let j = done.len() + ri;
                            assert(rows_of(bs.take(bi as int + 1))[j as int] == row@);
                            assert(rows_of(bs)[j as int] == row@);
                            assert(!all_supported(rows_of(bs)));
                        }
                        return Err(e);
                    },
                }
            }
            let ghost prerows = out_rows.deep_view();
            out_rows.push(cells);
            proof {
                assert(row@.take(row@.len() as int) =~= row@);
                assert(row_supported(row@));
                let upto = batch_row_cells(*b).take(ri as int);
                assert(batch_row_cells(*b).take(ri + 1 as int) =~= upto.push(row@));
                assert(all_supported(batch_row_cells(*b).take(ri + 1 as int)));
                assert(out_rows.deep_view() =~= prerows.push(row_texts(row@)));
                assert(prerows.push(row_texts(row@)) =~= formatted_rows(
                    done + batch_row_cells(*b).take(ri + 1 as int),
                ));
            }
            ri = ri + 1;
        }
        proof {
            assert(batch_row_cells(*b).take(b.rows@.len() as int) =~= batch_row_cells(*b));
            lemma_rows_of_take(bs, bi as int);
            assert(done + batch_row_cells(*b) == rows_of(bs.take(bi as int + 1)));
            assert(all_supported(rows_of(bs.take(bi as int + 1))));
        }
        bi = bi + 1;
    }
    proof {
        assert(bs.take(bs.len() as int) =~= bs);
    }
    Ok(RenderedTable { header, rows: out_rows })
}

/// The text of the bordered grid that a header and rows lay out to.  The
/// layout (column widths, border and padding characters) is the grid
/// library's; it depends on the header and row cells alone.
pub uninterp spec fn grid_chars(header: Seq<Seq<char>>, rows: Seq<Seq<Seq<char>>>) -> Seq<char>;

/// Relies on `comfy_table::Table`'s `Display`: with content arrangement left
/// disabled, the grid text is computed from the header and row cells alone,
/// with lines joined by `'\n'` and no trailing newline.
#[verifier::external_body]
fn table_grid_chars(t: &RenderedTable) -> (r: Vec<char>)
    ensures
        r@ == grid_chars(t.header.deep_view(), t.rows.deep_view()),
{
    let mut table = comfy_table::Table::new();
    table.load_preset("||--+-++|    ++++++");
    table.set_header(t.header.clone());
    table.add_rows(t.rows.clone());
    table.to_string().chars().collect()
}

impl RenderedTable {
    /// Lays the table out as one block of grid text, ready to be scrolled
    /// and drawn.
    pub fn grid(&self) -> (g: Vec<char>)
        ensures
            g@ == grid_chars(self.header.deep_view(), self.rows.deep_view()),
    {
        table_grid_chars(self)
    }
}

/// The inline notice shown in place of the grid when a result value cannot
/// be formatted.
pub open spec fn render_failure_text() -> Seq<char> {
    seq!['f', 'o', 'r', 'm', 'a', 't', ' ', 'e', 'r', 'r', 'o', 'r']
}

/// Builds the render-failure notice.
pub fn render_failure_chars() -> (v: Vec<char>)
    ensures
        v@ == render_failure_text(),
{
    let mut v: Vec<char> = Vec::new();
    v.push('f');
    v.push('o');
    v.push('r');
    v.push('m');
    v.push('a');
    v.push('t');
    v.push(' ');
    v.push('e');
    v.push('r');
    v.push('r');
    v.push('o');
    v.push('r');
    proof {
        assert(v@ =~= render_failure_text());
    }
    v
}

/// The number of newline characters in a text.
pub open spec fn newline_count(s: Seq<char>) -> nat
    decreases s.len(),
{
    if s.len() == 0 {
        0
    } else {
        newline_count(s.drop_last()) + if s.last() == '\n' {
            1nat
        } else {
            0nat
        }
    }
}

/// The number of lines a text occupies when drawn: none for an empty text,
/// otherwise one more than the number of newline characters.
pub open spec fn line_count(s: Seq<char>) -> nat {
    if s.len() == 0 {
        0
    } else {
        newline_count(s) + 1
    }
}

proof fn lemma_newline_count_bound(s: Seq<char>)
    ensures
        newline_count(s) <= s.len(),
    decreases s.len(),
{
    if s.len() > 0 {
        lemma_newline_count_bound(s.drop_last());
    }
}

/// Counts the lines of a text, saturating at the machine limit.
pub fn count_lines(v: &Vec<char>) -> (n: usize)
    ensures
        n as nat == if line_count(v@) > usize::MAX as nat {
            usize::MAX as nat
        } else {
            line_count(v@)
        },
{
    if v.len() == 0 {
        return 0;
    }
    let mut count: usize = 0;
    let mut i: usize = 0;
    while i < v.len()
        invariant
            i <= v@.len(),
            count as nat == newline_count(v@.take(i as int)),
            count <= i,
        decreases v@.len() - i,
    {
        proof {
            assert(v@.take(i + 1 as int).drop_last() =~= v@.take(i as int));
        }
        if v[i] == '\n' {
            count = count + 1;
        }
        i = i + 1;
    }
    proof {
        assert(v@.take(v@.len() as int) =~= v@);
        lemma_newline_count_bound(v@);
    }
    count.saturating_add(1)
}

} // verus!
