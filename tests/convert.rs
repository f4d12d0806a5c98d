use xlsx2csv::{
    end_of_line_for, find_sheet, is_empty_row, render_cell, render_int, render_line, render_sheet,
    resolve_sheet_name, row_line, Cell, ConvertError, OutputConfig, Sheet, Workbook,
};

fn text(s: &str) -> Cell {
    Cell::Text(s.to_string())
}

fn config(sep: &str, eol: &str, keep: bool) -> OutputConfig {
    OutputConfig::new(sep.to_string(), eol.to_string(), keep)
}

fn two_by_two() -> Sheet {
    Sheet::from_rows(2, vec![vec![Cell::Int(1), text("a")], vec![Cell::Empty, Cell::Empty]]).unwrap()
}

fn names(list: &[&str]) -> Vec<String> {
    list.iter().map(|s| s.to_string()).collect()
}

#[test]
fn empty_rows_dropped_by_default_policy() {
    let out = render_sheet(&two_by_two(), &config(",", "\n", false));
    assert_eq!(out, "1,a\n");
}

#[test]
fn empty_rows_kept_when_asked() {
    let out = render_sheet(&two_by_two(), &config(",", "\n", true));
    assert_eq!(out, "1,a\n,\n");
}

#[test]
fn missing_sheet_is_not_found() {
    let book = Workbook::new().with_sheet("Data".to_string(), two_by_two());
    let r = book.select_sheet(Some("Missing".to_string()));
    assert_eq!(r.err(), Some(ConvertError::SheetNotFound("Missing".to_string())));
    let r = resolve_sheet_name(&names(&["Data"]), Some("Missing".to_string()));
    assert_eq!(r, Err(ConvertError::SheetNotFound("Missing".to_string())));
}

#[test]
fn sheet_name_match_is_case_sensitive() {
    let r = resolve_sheet_name(&names(&["Data"]), Some("data".to_string()));
    assert_eq!(r, Err(ConvertError::SheetNotFound("data".to_string())));
    let r = resolve_sheet_name(&names(&["Data", "data"]), Some("data".to_string()));
    assert_eq!(r, Ok("data".to_string()));
}

#[test]
fn unresolved_datetime_renders_raw_text() {
    let c = Cell::DateTime { raw: "45000.5".to_string(), resolved: None };
    assert_eq!(render_cell(&c), "45000.5");
    let sheet = Sheet::from_rows(2, vec![vec![c, Cell::Int(7)]]).unwrap();
    assert_eq!(render_sheet(&sheet, &config("\t", "\n", false)), "45000.5\t7\n");
}

#[test]
fn resolved_datetime_renders_timestamp() {
    let c = Cell::DateTime {
        raw: "45000.5".to_string(),
        resolved: Some("2023-03-15 12:00:00".to_string()),
    };
    assert_eq!(render_cell(&c), "2023-03-15 12:00:00");
}

#[test]
fn defaults_are_tab_and_platform_newline() {
    let unix = OutputConfig::with_defaults(false);
    assert_eq!(unix.separator, "\t");
    assert_eq!(unix.end_of_line, "\n");
    assert!(!unix.keep_empty_rows);
    let windows = OutputConfig::with_defaults(true);
    assert_eq!(windows.separator, "\t");
    assert_eq!(windows.end_of_line, "\r\n");
    assert_eq!(end_of_line_for(true), "\r\n");
    assert_eq!(end_of_line_for(false), "\n");
}

#[test]
fn defaults_can_be_overridden_one_at_a_time() {
    let mut c = OutputConfig::with_defaults(false);
    c.separator = ";".to_string();
    assert_eq!(render_sheet(&two_by_two(), &c), "1;a\n");
    let mut c = OutputConfig::with_defaults(false);
    c.end_of_line = "\r\n".to_string();
    assert_eq!(render_sheet(&two_by_two(), &c), "1\ta\r\n");
}

#[test]
fn kept_rows_give_one_line_each() {
    let sheet = Sheet::from_rows(
        3,
        vec![
            vec![Cell::Empty, Cell::Empty, Cell::Empty],
            vec![Cell::Int(1), Cell::Empty, Cell::Int(3)],
            vec![Cell::Empty, Cell::Empty, Cell::Empty],
        ],
    )
    .unwrap();
    let out = render_sheet(&sheet, &config(",", "\n", true));
    assert_eq!(out, ",,\n1,,3\n,,\n");
    assert_eq!(out.lines().count(), sheet.row_count());
}

#[test]
fn dropped_rows_leave_one_line_per_nonempty_row() {
    let sheet = Sheet::from_rows(
        2,
        vec![
            vec![Cell::Empty, Cell::Empty],
            vec![Cell::Empty, text("x")],
            vec![Cell::Empty, Cell::Empty],
            vec![Cell::Bool(true), Cell::Empty],
        ],
    )
    .unwrap();
    let out = render_sheet(&sheet, &config(",", "\n", false));
    assert_eq!(out, ",x\ntrue,\n");
    assert_eq!(out.lines().count(), 2);
}

#[test]
fn each_line_has_width_fields() {
    let sheet = Sheet::from_rows(
        4,
        vec![vec![Cell::Int(-2), Cell::Empty, text("b"), Cell::Empty], vec![Cell::Empty; 4]],
    )
    .unwrap();
    let out = render_sheet(&sheet, &config("|", "\n", true));
    for line in out.lines() {
        assert_eq!(line.split('|').count(), sheet.width());
    }
    assert_eq!(out, "-2||b|\n|||\n");
}

#[test]
fn conversion_is_repeatable() {
    let sheet = two_by_two();
    let c = config(",", "\n", true);
    assert_eq!(render_sheet(&sheet, &c), render_sheet(&sheet, &c));
}

#[test]
fn whitespace_text_keeps_row() {
    let row = vec![text("  "), Cell::Empty];
    assert!(!is_empty_row(&row));
    assert!(is_empty_row(&vec![Cell::Empty, Cell::Empty]));
    assert!(is_empty_row(&vec![]));
    let sheet = Sheet::from_rows(2, vec![row]).unwrap();
    assert_eq!(render_sheet(&sheet, &config(",", "\n", false)), "  ,\n");
}

#[test]
fn integers_render_in_decimal() {
    assert_eq!(render_int(0), "0");
    assert_eq!(render_int(7), "7");
    assert_eq!(render_int(-5), "-5");
    assert_eq!(render_int(1234567890), "1234567890");
    assert_eq!(render_int(i64::MAX), "9223372036854775807");
    assert_eq!(render_int(i64::MIN), "-9223372036854775808");
}

#[test]
fn every_variant_renders() {
    assert_eq!(render_cell(&Cell::Int(-40)), "-40");
    assert_eq!(render_cell(&Cell::Float("2.5".to_string())), "2.5");
    assert_eq!(render_cell(&text("a,b")), "a,b");
    assert_eq!(render_cell(&Cell::Bool(true)), "true");
    assert_eq!(render_cell(&Cell::Bool(false)), "false");
    assert_eq!(render_cell(&Cell::Error("#DIV/0!".to_string())), "#DIV/0!");
    assert_eq!(render_cell(&Cell::Empty), "");
}

#[test]
fn separator_inside_text_is_not_escaped() {
    let row = vec![text("a,b"), text("c\nd")];
    assert_eq!(render_line(&row, ",", "\n"), "a,b,c\nd\n");
}

#[test]
fn empty_cells_between_values_give_adjacent_separators() {
    let row = vec![Cell::Int(1), Cell::Empty, Cell::Int(2)];
    assert_eq!(render_line(&row, "--", "\r\n"), "1----2\r\n");
    assert_eq!(render_line(&vec![], ",", "\n"), "\n");
}

#[test]
fn row_line_follows_policy() {
    let sheet = two_by_two();
    let drop = config(",", "\n", false);
    assert_eq!(row_line(&sheet, &drop, 0), Some("1,a\n".to_string()));
    assert_eq!(row_line(&sheet, &drop, 1), None);
    let keep = config(",", "\n", true);
    assert_eq!(row_line(&sheet, &keep, 1), Some(",\n".to_string()));
}

#[test]
fn ragged_rows_are_refused() {
    assert!(Sheet::from_rows(2, vec![vec![Cell::Empty], vec![Cell::Empty, Cell::Empty]]).is_none());
    let s = Sheet::from_rows(5, vec![]).unwrap();
    assert_eq!(s.width(), 5);
    assert_eq!(s.row_count(), 0);
    assert_eq!(render_sheet(&s, &config(",", "\n", true)), "");
}

#[test]
fn default_sheet_is_the_first() {
    let r = resolve_sheet_name(&names(&["First", "Second"]), None);
    assert_eq!(r, Ok("First".to_string()));
    assert_eq!(resolve_sheet_name(&names(&[]), None), Err(ConvertError::NoSheets));
    let other = Sheet::from_rows(1, vec![vec![text("second")]]).unwrap();
    let book = Workbook::new()
        .with_sheet("First".to_string(), two_by_two())
        .with_sheet("Second".to_string(), other);
    let first = book.select_sheet(None).unwrap();
    assert_eq!(first.row_count(), 2);
    let second = book.select_sheet(Some("Second".to_string())).unwrap();
    assert_eq!(render_sheet(second, &config(",", "\n", false)), "second\n");
    assert_eq!(book.sheet_names(), &names(&["First", "Second"]));
    assert_eq!(Workbook::new().select_sheet(None).err(), Some(ConvertError::NoSheets));
}

#[test]
fn duplicate_names_pick_the_first() {
    let n = names(&["A", "B", "A"]);
    assert_eq!(find_sheet(&n, &"A".to_string()), Some(0));
    assert_eq!(find_sheet(&n, &"B".to_string()), Some(1));
    assert_eq!(find_sheet(&n, &"C".to_string()), None);
    let one = Sheet::from_rows(1, vec![vec![text("one")]]).unwrap();
    let two = Sheet::from_rows(1, vec![vec![text("two")]]).unwrap();
    let book = Workbook::new().with_sheet("A".to_string(), one).with_sheet("A".to_string(), two);
    let s = book.select_sheet(Some("A".to_string())).unwrap();
    assert_eq!(render_sheet(s, &config(",", "\n", false)), "one\n");
}
