use thermal_printer::commands_esc_pos::text::table::{
    lines_to_bytes, pad_right, process_row, process_table, remove_accents,
    split_columns_into_groups, take_chars, truncate_text, wrap_text, wrap_word_list, ColumnGroup,
};
use thermal_printer::models::print_sections::{Table, Text};
use thermal_printer::strings::is_white_space_char;

fn cell(text: &str) -> Text {
    Text { text: text.to_string(), styles: None }
}

fn row(cells: &[&str]) -> Vec<Text> {
    cells.iter().map(|c| cell(c)).collect()
}

fn text_of(bytes: Vec<u8>) -> String {
    String::from_utf8(bytes).unwrap()
}

#[test]
fn accents_are_removed_and_case_is_kept() {
    assert_eq!(remove_accents("áàâäã éèêë íìîï óòôöõ úùûü"), "aaaaa eeee iiii ooooo uuuu");
    assert_eq!(remove_accents("ÁÀÂÄÃ ÉÈÊË ÍÌÎÏ ÓÒÔÖÕ ÚÙÛÜ"), "AAAAA EEEE IIII OOOOO UUUU");
    assert_eq!(remove_accents("Ñandú niño"), "Nandu nino");
    assert_eq!(remove_accents("plain €"), "plain €");
}

#[test]
fn truncation_compares_bytes_and_cuts_characters() {
    assert_eq!(truncate_text("hello", 5), "hello");
    assert_eq!(truncate_text("hello", 10), "hello");
    assert_eq!(truncate_text("hello", 3), "hel");
    assert_eq!(truncate_text("hello", 0), "");
    assert_eq!(truncate_text("€€", 4), "€€");
    assert_eq!(truncate_text("€€", 6), "€€");
    assert_eq!(take_chars("€uro", 2), "€u");
    assert_eq!(take_chars("ab", 5), "ab");
}

#[test]
fn padding_counts_characters() {
    assert_eq!(pad_right("ab", 5), "ab   ");
    assert_eq!(pad_right("abcdef", 3), "abcdef");
    assert_eq!(pad_right("", 2), "  ");
    assert_eq!(pad_right("€", 3), "€  ");
}

#[test]
fn wrap_fills_lines_greedily() {
    assert_eq!(wrap_text("the quick brown fox", 10), vec!["the quick", "brown fox"]);
    assert_eq!(wrap_text("a b c", 100), vec!["a b c"]);
    assert_eq!(wrap_text("", 10), Vec::<String>::new());
    assert_eq!(wrap_text("   ", 10), Vec::<String>::new());
}

#[test]
fn wrap_splits_on_any_white_space() {
    assert_eq!(wrap_text("  one\ttwo \n three  ", 100), vec!["one two three"]);
    assert_eq!(wrap_text("one\ttwo", 4), vec!["one", "two"]);
}

#[test]
fn wrap_counts_a_byte_for_the_space() {
    assert_eq!(wrap_text("abcd", 5), vec!["abcd"]);
    assert_eq!(wrap_text("abcde", 5), vec!["abcde"]);
    assert_eq!(wrap_text("abcdefgh", 5), vec!["abcde"]);
    assert_eq!(wrap_text("ab cd", 5), vec!["ab cd"]);
    assert_eq!(wrap_text("ab cde", 5), vec!["ab", "cde"]);
    assert_eq!(wrap_text("ab cdefghij kl", 5), vec!["ab", "cdefghij", "kl"]);
    assert_eq!(wrap_text("abcdefgh ij", 5), vec!["abcde", "ij"]);
}

#[test]
fn wrap_word_list_takes_words_as_given() {
    let words = vec!["uno".to_string(), "dos".to_string(), "tres".to_string()];
    assert_eq!(wrap_word_list(&words, 8), vec!["uno dos", "tres"]);
    assert_eq!(wrap_word_list(&Vec::new(), 8), Vec::<String>::new());
}

#[test]
fn groups_split_greedily() {
    let groups = split_columns_into_groups(&vec![10, 10, 10, 10], 25);
    assert_eq!(
        groups,
        vec![ColumnGroup { start: 0, end: 2 }, ColumnGroup { start: 2, end: 4 }]
    );
    let groups = split_columns_into_groups(&vec![10, 20, 30], 60);
    assert_eq!(groups, vec![ColumnGroup { start: 0, end: 3 }]);
    assert_eq!(split_columns_into_groups(&Vec::new(), 60), Vec::<ColumnGroup>::new());
}

#[test]
fn a_column_wider_than_the_budget_stands_alone() {
    let groups = split_columns_into_groups(&vec![5, 50, 5, 5], 12);
    assert_eq!(
        groups,
        vec![
            ColumnGroup { start: 0, end: 1 },
            ColumnGroup { start: 1, end: 2 },
            ColumnGroup { start: 2, end: 4 }
        ]
    );
    let groups = split_columns_into_groups(&vec![50], 12);
    assert_eq!(groups, vec![ColumnGroup { start: 0, end: 1 }]);
}

#[test]
fn groups_cover_every_column_once() {
    let widths: Vec<i32> = vec![7, 3, 12, 1, 1, 9, 30, 2, 2, 2, 8];
    for budget in [0, 1, 5, 10, 12, 20, 40, 100] {
        let groups = split_columns_into_groups(&widths, budget);
        let mut next = 0;
        for group in &groups {
            assert_eq!(group.start, next);
            assert!(group.start < group.end);
            let sum: i32 = widths[group.start..group.end].iter().sum();
            assert!(sum <= budget || group.end == group.start + 1);
            if group.end < widths.len() {
                assert!(sum + widths[group.end] > budget);
            }
            next = group.end;
        }
        assert_eq!(next, widths.len());
    }
}

#[test]
fn row_pads_cells_and_trims_the_line() {
    let lines = process_row(&row(&["ab", "cd", "e"]), &vec![4, 4, 4], true);
    assert_eq!(lines, vec!["ab  cd  e"]);
    let lines = process_row(&row(&["ab", "", ""]), &vec![4, 4, 4], true);
    assert_eq!(lines, vec!["ab"]);
    let lines = process_row(&row(&["abcdef", "x"]), &vec![3, 3], true);
    assert_eq!(lines, vec!["abcx"]);
}

#[test]
fn row_trims_white_space_of_any_kind() {
    let lines = process_row(&row(&["a", "b\t"]), &vec![2, 4], true);
    assert_eq!(lines, vec!["a b"]);
}

#[test]
fn row_wraps_cells_side_by_side() {
    let lines = process_row(&row(&["uno dos tres", "x"]), &vec![8, 3], false);
    assert_eq!(lines, vec!["uno dos x", "tres"]);
    let lines = process_row(&row(&["x", "uno dos tres"]), &vec![3, 8], false);
    assert_eq!(lines, vec!["x  uno dos", "   tres"]);
}

#[test]
fn row_without_cells_is_one_empty_line() {
    assert_eq!(process_row(&Vec::new(), &vec![4], true), vec![""]);
    assert_eq!(process_row(&row(&["", ""]), &vec![4, 4], false), Vec::<String>::new());
}

#[test]
fn cells_beyond_the_widths_are_ten_wide() {
    let lines = process_row(&row(&["a", "b", "c"]), &vec![2], true);
    assert_eq!(lines, vec!["a b         c"]);
}

#[test]
fn row_strips_accents() {
    assert_eq!(process_row(&row(&["Café", "Ñu"]), &vec![6, 3], true), vec!["Cafe  Nu"]);
}

#[test]
fn table_without_columns_prints_nothing() {
    let table = Table {
        columns: 0,
        column_widths: None,
        header: Some(row(&["a"])),
        body: vec![row(&["b"])],
        truncate: true,
    };
    assert_eq!(process_table(&table, 576, true), Vec::<u8>::new());
}

#[test]
fn table_with_given_widths() {
    let table = Table {
        columns: 3,
        column_widths: Some(vec![25, 8, 15]),
        header: Some(row(&["Producto", "Cant", "Precio"])),
        body: vec![row(&["Producto A", "2", "$10.50"]), row(&["Producto C Largo", "5", "$8.99"])],
        truncate: true,
    };
    let text = text_of(process_table(&table, 576, true));
    assert_eq!(
        text,
        "Producto                 Cant    Precio\n\
         Producto A               2       $10.50\n\
         Producto C Largo         5       $8.99\n"
    );
}

#[test]
fn table_shares_the_width_equally() {
    let table = Table {
        columns: 2,
        column_widths: None,
        header: None,
        body: vec![row(&["a", "b"])],
        truncate: true,
    };
    assert_eq!(text_of(process_table(&table, 10, true)), "a    b\n");
    let wrong_count = Table { column_widths: Some(vec![1, 2, 3]), ..table };
    assert_eq!(text_of(process_table(&wrong_count, 10, true)), "a    b\n");
}

#[test]
fn table_too_wide_is_printed_in_groups() {
    let table = Table {
        columns: 3,
        column_widths: Some(vec![6, 6, 6]),
        header: Some(row(&["h1", "h2", "h3"])),
        body: vec![row(&["a", "b", "c"]), row(&["d", "e"])],
        truncate: true,
    };
    let text = text_of(process_table(&table, 12, true));
    assert_eq!(text, "h1    h2\nh3\na     b\nc\nd     e\n\n");
}

#[test]
fn table_empty_header_is_left_out() {
    let table = Table {
        columns: 1,
        column_widths: Some(vec![5]),
        header: Some(Vec::new()),
        body: vec![row(&["x"])],
        truncate: false,
    };
    assert_eq!(text_of(process_table(&table, 100, false)), "x\n");
}

#[test]
fn lines_end_with_line_feeds() {
    let lines = vec!["a".to_string(), "".to_string(), "é".to_string()];
    assert_eq!(lines_to_bytes(&lines), vec![0x61, 0x0A, 0x0A, 0xC3, 0xA9, 0x0A]);
}

#[test]
fn white_space_is_what_the_standard_library_says() {
    let mut count = 0;
    for code in 0..=0x10FFFFu32 {
        if let Some(c) = char::from_u32(code) {
            assert_eq!(is_white_space_char(c), c.is_whitespace());
            if c.is_whitespace() {
                count += 1;
                let text = format!("a{}b{}", c, c);
                assert_eq!(wrap_text(&text, 100), vec!["a b"]);
                let cells = vec![Text { text: text.clone(), styles: None }];
                assert_eq!(process_row(&cells, &vec![100], true), vec![format!("a{}b", c)]);
            }
        }
    }
    assert_eq!(count, 25);
    assert_eq!(wrap_text("a\u{200B}b\u{FEFF}c", 100), vec!["a\u{200B}b\u{FEFF}c"]);
}
