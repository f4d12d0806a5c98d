use vstd::prelude::*;
use vstd::string::StringExecFns;
use crate::cell::{Cell, cell_text, render_cell};
use crate::sheet::{Sheet, is_empty_row, rectangular, row_is_empty};

verus! {

/// How rows become text: the field separator, the line terminator, and
/// whether rows made only of `Empty` cells still give a line.
pub struct OutputConfig {
    pub separator: String,
    pub end_of_line: String,
    pub keep_empty_rows: bool,
}

/// The default field separator: one tab character.
pub open spec fn default_separator() -> Seq<char> {
    seq!['\t']
}

/// The line terminator of the platform: CR LF on Windows, LF elsewhere.
pub open spec fn platform_end_of_line(windows: bool) -> Seq<char> {
    if windows {
        seq!['\r', '\n']
    } else {
        seq!['\n']
    }
}

impl OutputConfig {
    /// A configuration with the given separator, terminator and empty-row policy.
    pub fn new(separator: String, end_of_line: String, keep_empty_rows: bool) -> (r: OutputConfig)
        ensures
            r.separator@ == separator@,
            r.end_of_line@ == end_of_line@,
            r.keep_empty_rows == keep_empty_rows,
    {
        OutputConfig { separator, end_of_line, keep_empty_rows }
    }

    /// The defaults: a tab between fields, the platform's line terminator,
    /// and rows made only of `Empty` cells left out.
    pub fn with_defaults(windows: bool) -> (r: OutputConfig)
        ensures
            r.separator@ == default_separator(),
            r.end_of_line@ == platform_end_of_line(windows),
            !r.keep_empty_rows,
    {
        proof {
            reveal_strlit("\t");
        }
        OutputConfig {
            separator: String::from_str("\t"),
            end_of_line: end_of_line_for(windows),
            keep_empty_rows: false,
        }
    }
}

/// The platform's line terminator: `"\r\n"` when `windows`, else `"\n"`.
pub fn end_of_line_for(windows: bool) -> (r: String)
    ensures
        r@ == platform_end_of_line(windows),
{
    proof {
        reveal_strlit("\r\n");
        reveal_strlit("\n");
    }
    if windows {
        String::from_str("\r\n")
    } else {
        String::from_str("\n")
    }
}

/// The fields joined with `sep` between neighbours, none before the first
/// or after the last.
pub open spec fn joined(fields: Seq<Seq<char>>, sep: Seq<char>) -> Seq<char>
    decreases fields.len(),
{
    if fields.len() == 0 {
        Seq::empty()
    } else if fields.len() == 1 {
        fields[0]
    } else {
        joined(fields.drop_last(), sep) + sep + fields.last()
    }
}

/// The rendered fields of a row, in column order.
pub open spec fn row_fields(row: Seq<Cell>) -> Seq<Seq<char>> {
    row.map_values(|c: Cell| cell_text(c))
}

/// The line of a row: its fields joined by the separator, then the terminator.
pub open spec fn line_text(row: Seq<Cell>, sep: Seq<char>, eol: Seq<char>) -> Seq<char> {
    joined(row_fields(row), sep) + eol
}

/// Whether a row gives a line.
pub open spec fn row_kept(row: Seq<Cell>, keep_empty_rows: bool) -> bool {
    keep_empty_rows || !row_is_empty(row)
}

/// The lines of the output, one per kept row, in row order.
pub open spec fn output_lines(
    rows: Seq<Seq<Cell>>,
    sep: Seq<char>,
    eol: Seq<char>,
    keep_empty_rows: bool,
) -> Seq<Seq<char>>
    decreases rows.len(),
{
    if rows.len() == 0 {
        Seq::empty()
    } else {
        let before = output_lines(rows.drop_last(), sep, eol, keep_empty_rows);
        if row_kept(rows.last(), keep_empty_rows) {
            before.push(line_text(rows.last(), sep, eol))
        } else {
            before
        }
    }
}

/// The whole output: the lines one after another.
pub open spec fn output_text(rows: Seq<Seq<Cell>>, config: OutputConfig) -> Seq<char> {
    output_lines(rows, config.separator@, config.end_of_line@, config.keep_empty_rows).flatten()
}

/// The line of `row`: each cell's canonical text, `sep` between them, then `eol`.
pub fn render_line(row: &Vec<Cell>, sep: &str, eol: &str) -> (r: String)
    ensures
        r@ == line_text(row@, sep@, eol@),
{
    let mut line = String::new();
    let mut j: usize = 0;
    while j < row.len()
        invariant
            j <= row@.len(),
            line@ == joined(row_fields(row@.subrange(0, j as int)), sep@),
        decreases row@.len() - j,
    {
        let text = render_cell(&row[j]);
        proof {
            let fields = row_fields(row@.subrange(0, j + 1));
            assert(fields.drop_last() =~= row_fields(row@.subrange(0, j as int)));
            assert(fields.last() == cell_text(row@[j as int]));
        }
        if j > 0 {
            line.append(sep);
        } else {
            proof {
                assert(row_fields(row@.subrange(0, 1)) =~= seq![cell_text(row@[0])]);
            }
        }
        line.append(text.as_str());
        j = j + 1;
    }
    proof {
        assert(row@.subrange(0, row@.len() as int) =~= row@);
    }
    line.append(eol);
    line
}

/// The line of row `i`, or `None` when the row is made only of `Empty` cells
/// and such rows are not kept.
pub fn row_line(sheet: &Sheet, config: &OutputConfig, i: usize) -> (r: Option<String>)
    requires
        i < sheet.rows_spec().len(),
    ensures
        r is Some <==> row_kept(sheet.rows_spec()[i as int], config.keep_empty_rows),
        r matches Some(line) ==> line@ == line_text(
            sheet.rows_spec()[i as int],
            config.separator@,
            config.end_of_line@,
        ),
{
    let row = sheet.row(i);
    if !config.keep_empty_rows && is_empty_row(row) {
        None
    } else {
        Some(render_line(row, config.separator.as_str(), config.end_of_line.as_str()))
    }
}

/// The whole text of the sheet: the line of each kept row, top to bottom.
pub fn render_sheet(sheet: &Sheet, config: &OutputConfig) -> (r: String)
    ensures
        r@ == output_text(sheet.rows_spec(), *config),
{
    let ghost rows = sheet.rows_spec();
    let ghost sep = config.separator@;
    let ghost eol = config.end_of_line@;
    let ghost keep = config.keep_empty_rows;
    let mut out = String::new();
    let mut i: usize = 0;
    let n = sheet.row_count();
    while i < n
        invariant
            n == rows.len(),
            i <= n,
            rows == sheet.rows_spec(),
            sep == config.separator@,
            eol == config.end_of_line@,
            keep == config.keep_empty_rows,
            out@ == output_lines(rows.subrange(0, i as int), sep, eol, keep).flatten(),
        decreases n - i,
    {
        let line = row_line(sheet, config, i);
        proof {
            let upto = rows.subrange(0, i + 1);
            assert(upto.drop_last() =~= rows.subrange(0, i as int));
            assert(upto.last() == rows[i as int]);
            broadcast use Seq::lemma_flatten_push;
        }
        match line {
            Some(l) => out.append(l.as_str()),
            None => {},
        }
        i = i + 1;
    }
    proof {
        assert(rows.subrange(0, n as int) =~= rows);
    }
    out
}

/// With empty rows kept, the output has exactly one line per row, the
/// line of row `i` at position `i`.
pub proof fn lemma_all_rows_kept(rows: Seq<Seq<Cell>>, sep: Seq<char>, eol: Seq<char>)
    ensures
        output_lines(rows, sep, eol, true).len() == rows.len(),
        forall|i: int|
            0 <= i < rows.len() ==> #[trigger] output_lines(rows, sep, eol, true)[i] == line_text(
                rows[i],
                sep,
                eol,
            ),
    decreases rows.len(),
{
    if rows.len() > 0 {
        lemma_all_rows_kept(rows.drop_last(), sep, eol);
        let before = output_lines(rows.drop_last(), sep, eol, true);
        assert forall|i: int| 0 <= i < rows.len() implies #[trigger] output_lines(
            rows,
            sep,
            eol,
            true,
        )[i] == line_text(rows[i], sep, eol) by {
            if i < rows.len() - 1 {
                assert(before[i] == line_text(rows.drop_last()[i], sep, eol));
            }
        }
    }
}

/// With empty rows left out, the output has one line per row that holds a
/// cell other than `Empty`.
pub proof fn lemma_empty_rows_dropped(rows: Seq<Seq<Cell>>, sep: Seq<char>, eol: Seq<char>)
    ensures
        output_lines(rows, sep, eol, false).len() == rows.filter(
            |r: Seq<Cell>| !row_is_empty(r),
        ).len(),
    decreases rows.len(),
{
    reveal(Seq::filter);
    if rows.len() > 0 {
        lemma_empty_rows_dropped(rows.drop_last(), sep, eol);
    }
}

/// Every line of the output, for a sheet whose rows are all `width` cells
/// long, is `width` fields joined by the separator, then the terminator;
/// rows made only of `Empty` cells included when they are kept.
pub proof fn lemma_line_has_width_fields(
    width: nat,
    rows: Seq<Seq<Cell>>,
    sep: Seq<char>,
    eol: Seq<char>,
    keep_empty_rows: bool,
)
    requires
        rectangular(width, rows),
    ensures
        forall|i: int|
            0 <= i < output_lines(rows, sep, eol, keep_empty_rows).len() ==> exists|
                fields: Seq<Seq<char>>,
            |
                fields.len() == width && #[trigger] output_lines(rows, sep, eol, keep_empty_rows)[i]
                    == joined(fields, sep) + eol,
    decreases rows.len(),
{
    if rows.len() > 0 {
        lemma_line_has_width_fields(width, rows.drop_last(), sep, eol, keep_empty_rows);
        let before = output_lines(rows.drop_last(), sep, eol, keep_empty_rows);
        let lines = output_lines(rows, sep, eol, keep_empty_rows);
        assert forall|i: int| 0 <= i < lines.len() implies exists|fields: Seq<Seq<char>>|
            fields.len() == width && #[trigger] lines[i] == joined(fields, sep) + eol by {
            if i < before.len() {
                assert(lines[i] == before[i]);
            } else {
                let fields = row_fields(rows.last());
                assert(rows.last() == rows[rows.len() - 1]);
                assert(fields.len() == width);
                assert(lines[i] == joined(fields, sep) + eol);
            }
        }
    }
}

/// Converting a sheet twice with the same configuration gives the same text:
/// the output depends on the rows and the configuration's contents alone.
pub proof fn lemma_conversion_repeatable(
    first: Sheet,
    second: Sheet,
    config: OutputConfig,
    again: OutputConfig,
)
    requires
        first.rows_spec() == second.rows_spec(),
        config.separator@ == again.separator@,
        config.end_of_line@ == again.end_of_line@,
        config.keep_empty_rows == again.keep_empty_rows,
    ensures
        output_text(first.rows_spec(), config) == output_text(second.rows_spec(), again),
{
}

} // verus!
