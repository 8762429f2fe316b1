use dbtext::render::{render_result, ResultBuilder};

fn cells(values: &[Option<&str>]) -> Vec<Option<String>> {
    values.iter().map(|v| v.map(|s| s.to_string())).collect()
}

fn row(values: &[&str]) -> Vec<Option<String>> {
    values.iter().map(|v| Some(v.to_string())).collect()
}

#[test]
fn two_rows_two_columns() {
    let cols = row(&["a", "b"]);
    let rows = vec![row(&["1", "x"]), row(&["2", "y"])];
    assert_eq!(render_result(&cols, &rows), "a;b\n1;x\n2;y");
}

#[test]
fn line_count_is_rows_plus_one() {
    let cols = row(&["a", "b", "c"]);
    let rows: Vec<Vec<Option<String>>> = (0..17).map(|i| row(&[&i.to_string(), "v", "w"])).collect();
    let text = render_result(&cols, &rows);
    let lines: Vec<&str> = text.split('\n').collect();
    assert_eq!(lines.len(), rows.len() + 1);
    assert_eq!(lines[0], "a;b;c");
}

#[test]
fn no_rows_yields_header_only() {
    let cols = row(&["id", "name"]);
    let rows: Vec<Vec<Option<String>>> = Vec::new();
    assert_eq!(render_result(&cols, &rows), "id;name");
}

#[test]
fn unrenderable_cell_is_dropped_from_its_row() {
    let cols = row(&["a", "b", "c"]);
    let rows = vec![
        cells(&[Some("1"), None, Some("3")]),
        cells(&[None, None, None]),
        cells(&[Some("x"), Some("y"), Some("z")]),
    ];
    assert_eq!(render_result(&cols, &rows), "a;b;c\n1;3\n\nx;y;z");
}

#[test]
fn unrenderable_column_name_is_dropped_from_header() {
    let cols = cells(&[Some("a"), None, Some("c")]);
    let rows = vec![row(&["1", "2", "3"])];
    assert_eq!(render_result(&cols, &rows), "a;c\n1;2;3");
}

#[test]
fn empty_cells_are_kept() {
    let cols = row(&["a", "b"]);
    let rows = vec![cells(&[Some(""), Some("")])];
    assert_eq!(render_result(&cols, &rows), "a;b\n;");
}

#[test]
fn batching_does_not_change_the_output() {
    let cols = row(&["n", "sq"]);
    let all_rows: Vec<Vec<Option<String>>> =
        (0..1000u64).map(|i| row(&[&i.to_string(), &(i * i).to_string()])).collect();

    // One shot.
    let whole = render_result(&cols, &all_rows);

    // One batch holding everything.
    let mut one = ResultBuilder::new(&cols);
    one.push_batch(&all_rows.clone());
    let one_text = one.finish();

    // Batches of at most 256 rows, as a bounded fetch loop would hand them over.
    let mut chunked = ResultBuilder::new(&cols);
    for chunk in all_rows.chunks(256) {
        chunked.push_batch(&chunk.to_vec());
    }
    let chunked_text = chunked.finish();

    // Row by row.
    let mut single = ResultBuilder::new(&cols);
    for r in &all_rows {
        single.push_row(r);
    }
    let single_text = single.finish();

    assert_eq!(whole, one_text);
    assert_eq!(whole, chunked_text);
    assert_eq!(whole, single_text);
    assert_eq!(whole.split('\n').count(), 1001);
}

#[test]
fn builder_matches_one_shot_rendering() {
    let cols = row(&["a"]);
    let rows = vec![row(&["1"]), row(&["2"])];
    let mut b = ResultBuilder::new(&cols);
    b.push_batch(&rows);
    assert_eq!(b.finish(), render_result(&cols, &rows));
}
