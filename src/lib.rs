//! Conversion of one worksheet of a decoded spreadsheet into delimited text.
//!
//! The library holds the cell model and its canonical rendering, the sheet
//! grid with its rectangular shape, the choice of the target sheet by name,
//! and the assembly of rows into separator-joined, terminated lines.
mod cell;
mod select;
mod serialize;
mod sheet;

pub use cell::{Cell, cell_text, decimal_text, digit_char, digits_text, render_cell, render_int};
pub use select::{
    ConvertError, Workbook, find_sheet, first_position, has_name, names_view, resolve_sheet_name,
};
pub use serialize::{
    OutputConfig, default_separator, end_of_line_for, joined, lemma_all_rows_kept,
    lemma_conversion_repeatable, lemma_empty_rows_dropped, lemma_line_has_width_fields, line_text,
    output_lines, output_text, platform_end_of_line, render_line, render_sheet, row_fields,
    row_kept, row_line,
};
pub use sheet::{Sheet, is_empty_row, rectangular, row_is_empty};
