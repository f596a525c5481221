//! The table layout engine: column widths, groups of columns that fit the
//! paper, wrapped or truncated cells, and rows of fixed-width text.

use vstd::prelude::*;
use vstd::string::*;
use crate::models::print_sections::{Table, Text};
use crate::strings::{byte_len, split_words, texts, trimmed_end, utf8, utf8_bytes, words_of};

verus! {

/// The letter without its accent, for the accented letters of Western
/// European languages; every other character as it is.
pub open spec fn unaccented(c: char) -> char {
    if c == 'á' || c == 'à' || c == 'â' || c == 'ä' || c == 'ã' {
        'a'
    } else if c == 'é' || c == 'è' || c == 'ê' || c == 'ë' {
        'e'
    } else if c == 'í' || c == 'ì' || c == 'î' || c == 'ï' {
        'i'
    } else if c == 'ó' || c == 'ò' || c == 'ô' || c == 'ö' || c == 'õ' {
        'o'
    } else if c == 'ú' || c == 'ù' || c == 'û' || c == 'ü' {
        'u'
    } else if c == 'Á' || c == 'À' || c == 'Â' || c == 'Ä' || c == 'Ã' {
        'A'
    } else if c == 'É' || c == 'È' || c == 'Ê' || c == 'Ë' {
        'E'
    } else if c == 'Í' || c == 'Ì' || c == 'Î' || c == 'Ï' {
        'I'
    } else if c == 'Ó' || c == 'Ò' || c == 'Ô' || c == 'Ö' || c == 'Õ' {
        'O'
    } else if c == 'Ú' || c == 'Ù' || c == 'Û' || c == 'Ü' {
        'U'
    } else if c == 'ñ' {
        'n'
    } else if c == 'Ñ' {
        'N'
    } else {
        c
    }
}

/// A text with each letter unaccented.
pub open spec fn unaccented_text(text: Seq<char>) -> Seq<char> {
    text.map_values(|c: char| unaccented(c))
}

/// The first `width` characters of a text; the whole text where it has no more.
pub open spec fn first_chars(text: Seq<char>, width: int) -> Seq<char> {
    if width >= text.len() {
        text
    } else if width <= 0 {
        Seq::<char>::empty()
    } else {
        text.take(width)
    }
}

/// A text cut to a column: the text itself where its UTF-8 form has at most
/// `width` bytes, else its first `width` characters.
pub open spec fn truncated(text: Seq<char>, width: int) -> Seq<char> {
    if utf8(text).len() <= width {
        text
    } else {
        first_chars(text, width)
    }
}

/// `n` spaces.
pub open spec fn spaces(n: int) -> Seq<char> {
    Seq::new((if n > 0 { n } else { 0 }) as nat, |i: int| ' ')
}

/// A text followed by the spaces that bring it to `width` characters; the
/// text alone where it is as long or longer.
pub open spec fn padded(text: Seq<char>, width: int) -> Seq<char> {
    text + spaces(width - text.len())
}

/// The state of wrapping: the lines that are complete, and the line that is
/// being filled.
pub struct Wrapping {
    pub lines: Seq<Seq<char>>,
    pub current: Seq<char>,
}

/// Takes one more word into a wrapping. A word joins the line being filled,
/// after a space where the line has words already, as long as the bytes of
/// the line, the bytes of the word and one more byte are no more than
/// `width`. A word that does not fit ends the line and starts the next;
/// where the line was empty, the first `width` characters of the word form a
/// line of their own.
pub open spec fn wrap_word(state: Wrapping, word: Seq<char>, width: int) -> Wrapping {
    if utf8(state.current).len() + utf8(word).len() + 1 > width {
        if state.current.len() > 0 {
            Wrapping { lines: state.lines.push(state.current), current: word }
        } else {
            Wrapping { lines: state.lines.push(first_chars(word, width)), current: state.current }
        }
    } else if state.current.len() > 0 {
        Wrapping { lines: state.lines, current: state.current.push(' ') + word }
    } else {
        Wrapping { lines: state.lines, current: state.current + word }
    }
}

/// The wrapping after the words have been taken in order.
pub open spec fn wrap_words(words: Seq<Seq<char>>, width: int) -> Wrapping
    decreases words.len(),
{
    if words.len() == 0 {
        Wrapping { lines: Seq::empty(), current: Seq::empty() }
    } else {
        wrap_word(wrap_words(words.drop_last(), width), words.last(), width)
    }
}

/// The lines of words wrapped to a width: the complete lines, and the line
/// that was being filled where it holds anything.
pub open spec fn wrapped_lines(words: Seq<Seq<char>>, width: int) -> Seq<Seq<char>> {
    let state = wrap_words(words, width);
    if state.current.len() > 0 {
        state.lines.push(state.current)
    } else {
        state.lines
    }
}

/// Replaces accented letters by their plain letters.
pub fn remove_accents(text: &str) -> (r: String)
    ensures
        r@ == unaccented_text(text@),
{
    let mut out: String = String::new();
    for c in it: text.chars()
        invariant
            it.seq() == text@,
            out@ =~= unaccented_text(text@.take(it.index())),
    {
        let plain: char = if c == 'á' || c == 'à' || c == 'â' || c == 'ä' || c == 'ã' {
            'a'
        } else if c == 'é' || c == 'è' || c == 'ê' || c == 'ë' {
            'e'
        } else if c == 'í' || c == 'ì' || c == 'î' || c == 'ï' {
            'i'
        } else if c == 'ó' || c == 'ò' || c == 'ô' || c == 'ö' || c == 'õ' {
            'o'
        } else if c == 'ú' || c == 'ù' || c == 'û' || c == 'ü' {
            'u'
        } else if c == 'Á' || c == 'À' || c == 'Â' || c == 'Ä' || c == 'Ã' {
            'A'
        } else if c == 'É' || c == 'È' || c == 'Ê' || c == 'Ë' {
            'E'
        } else if c == 'Í' || c == 'Ì' || c == 'Î' || c == 'Ï' {
            'I'
        } else if c == 'Ó' || c == 'Ò' || c == 'Ô' || c == 'Ö' || c == 'Õ' {
            'O'
        } else if c == 'Ú' || c == 'Ù' || c == 'Û' || c == 'Ü' {
            'U'
        } else if c == 'ñ' {
            'n'
        } else if c == 'Ñ' {
            'N'
        } else {
            c
        };
        out.push(plain);
    }
    assert(text@.take(text@.len() as int) =~= text@);
    out
}

/// The first `width` characters of a text, as a string of its own.
pub fn take_chars(text: &str, width: usize) -> (r: String)
    ensures
        r@ == first_chars(text@, width as int),
{
    let count: usize = text.unicode_len();
    if width >= count {
        text.to_owned()
    } else {
        let head: &str = text.substring_char(0, width);
        assert(text@.subrange(0, width as int) =~= first_chars(text@, width as int));
        head.to_owned()
    }
}

/// Cuts a text to a column of `width`.
pub fn truncate_text(text: &str, width: usize) -> (r: String)
    ensures
        r@ == truncated(text@, width as int),
{
    if byte_len(text) <= width {
        text.to_owned()
    } else {
        take_chars(text, width)
    }
}

/// A text padded with spaces on the right to `width` characters.
pub fn pad_right(text: &str, width: usize) -> (r: String)
    ensures
        r@ == padded(text@, width as int),
{
    let count: usize = text.unicode_len();
    let mut out: String = text.to_owned();
    let mut n: usize = count;
    assert(out@ =~= text@ + spaces(0));
    while n < width
        invariant
            count == text@.len(),
            count <= n,
            n <= width || n == count,
            out@ =~= text@ + spaces(n - count),
        decreases width - n,
    {
        out.push(' ');
        n += 1;
    }
    assert(out@ =~= padded(text@, width as int));
    out
}

/// Wraps words, taken in order, to lines of `width`.
pub fn wrap_word_list(words: &Vec<String>, width: usize) -> (r: Vec<String>)
    ensures
        texts(r@) == wrapped_lines(texts(words@), width as int),
{
    let mut lines: Vec<String> = Vec::new();
    let mut current: String = String::new();
    let mut i: usize = 0;
    assert(texts(words@).take(0) =~= Seq::<Seq<char>>::empty());
    assert(texts(lines@) =~= Seq::<Seq<char>>::empty());
    while i < words.len()
        invariant
            i <= words.len(),
            wrap_words(texts(words@).take(i as int), width as int) == (Wrapping {
                lines: texts(lines@),
                current: current@,
            }),
        decreases words.len() - i,
    {
        let word: &str = words[i].as_str();
        let ghost before = Wrapping { lines: texts(lines@), current: current@ };
        let ghost old_lines = lines@;
        proof {
            let prefix = texts(words@).take(i as int + 1);
            assert(prefix.drop_last() =~= texts(words@).take(i as int));
            assert(prefix.last() == word@);
        }
        let needed: u128 = byte_len(current.as_str()) as u128 + byte_len(word) as u128 + 1;
        if needed > width as u128 {
            if !current.as_str().is_empty() {
                lines.push(current);
                current = word.to_owned();
                assert(texts(lines@) =~= texts(old_lines).push(before.current));
            } else {
                let head: String = take_chars(word, width);
                lines.push(head);
                assert(texts(lines@) =~= texts(old_lines).push(first_chars(word@, width as int)));
            }
        } else {
            if !current.as_str().is_empty() {
                current.push(' ');
            }
            current.append(word);
        }
        i += 1;
    }
    assert(texts(words@).take(words@.len() as int) =~= texts(words@));
    if !current.as_str().is_empty() {
        let ghost old_lines = lines@;
        lines.push(current);
        assert(texts(lines@) =~= texts(old_lines).push(current@));
    }
    lines
}

/// Wraps a text to lines of `width`: its words, in order, as many to a line
/// as fit.
pub fn wrap_text(text: &str, width: usize) -> (r: Vec<String>)
    ensures
        texts(r@) == wrapped_lines(words_of(text@), width as int),
{
    let words: Vec<String> = split_words(text);
    wrap_word_list(&words, width)
}

/// A run of neighbouring columns that are printed side by side: the columns
/// from `start` up to, not including, `end`.
#[derive(Debug, Clone, Copy, PartialEq, Eq, Structural)]
pub struct ColumnGroup {
    pub start: usize,
    pub end: usize,
}

/// The groups of a vector as pairs of column numbers.
pub open spec fn group_ranges(groups: Seq<ColumnGroup>) -> Seq<(int, int)> {
    Seq::new(groups.len(), |i: int| (groups[i].start as int, groups[i].end as int))
}

/// The sum of the widths of the columns from `start` up to `end`.
pub open spec fn width_sum(widths: Seq<i32>, start: int, end: int) -> int
    decreases end - start,
{
    if end <= start {
        0
    } else {
        width_sum(widths, start, end - 1) + widths[end - 1]
    }
}

/// Where the group that starts at column `start` ends, given that it holds
/// the columns up to `end` already: it takes each next column as long as the
/// sum of its widths stays within `max_width`.
pub open spec fn group_end(widths: Seq<i32>, max_width: int, start: int, end: int) -> int
    decreases widths.len() - end,
{
    if end < widths.len() && width_sum(widths, start, end) + widths[end] <= max_width {
        group_end(widths, max_width, start, end + 1)
    } else {
        end
    }
}

/// The groups of the columns from `start` on, from left to right. Each group
/// holds its first column, whatever its width, and then as many of the next
/// columns as fit within `max_width`.
pub open spec fn groups_from(widths: Seq<i32>, max_width: int, start: int) -> Seq<(int, int)>
    decreases widths.len() - start,
{
    let end = group_end(widths, max_width, start, start + 1);
    if 0 <= start < end <= widths.len() {
        seq![(start, end)] + groups_from(widths, max_width, end)
    } else {
        Seq::empty()
    }
}

/// A column lies in a group.
pub open spec fn in_group(group: (int, int), column: int) -> bool {
    group.0 <= column < group.1
}

/// A column lies in one of the groups.
pub open spec fn in_some_group(groups: Seq<(int, int)>, column: int) -> bool {
    exists|i: int| 0 <= i < groups.len() && in_group(#[trigger] groups[i], column)
}

/// The width of column `i`; ten where no width is given for it.
pub open spec fn column_width(widths: Seq<i32>, i: int) -> int {
    if 0 <= i < widths.len() {
        widths[i] as int
    } else {
        10
    }
}

/// The lines of one cell: the unaccented text cut to the width, or wrapped
/// to it.
pub open spec fn cell_lines(text: Seq<char>, width: int, truncate: bool) -> Seq<Seq<char>> {
    if truncate {
        seq![truncated(unaccented_text(text), width)]
    } else {
        wrapped_lines(words_of(unaccented_text(text)), width)
    }
}

/// The texts of the cells of a row.
pub open spec fn cell_texts_of(row: Seq<Text>) -> Seq<Seq<char>> {
    Seq::new(row.len(), |i: int| row[i].text@)
}

/// The lines of each cell of a row of texts.
pub open spec fn row_cells(row: Seq<Seq<char>>, widths: Seq<i32>, truncate: bool) -> Seq<
    Seq<Seq<char>>,
> {
    Seq::new(row.len(), |i: int| cell_lines(row[i], column_width(widths, i), truncate))
}

/// The greatest number of lines of a cell.
pub open spec fn most_lines(cells: Seq<Seq<Seq<char>>>) -> nat
    decreases cells.len(),
{
    if cells.len() == 0 {
        0
    } else if most_lines(cells.drop_last()) >= cells.last().len() {
        most_lines(cells.drop_last())
    } else {
        cells.last().len()
    }
}

/// The number of lines that a row prints: that of its longest cell, and one
/// for a row without cells.
pub open spec fn line_count(cells: Seq<Seq<Seq<char>>>) -> nat {
    if cells.len() == 0 {
        1
    } else {
        most_lines(cells)
    }
}

/// Line `k` of a cell; nothing where the cell has fewer lines.
pub open spec fn cell_part(cell: Seq<Seq<char>>, k: int) -> Seq<char> {
    if 0 <= k < cell.len() {
        cell[k]
    } else {
        Seq::empty()
    }
}

/// Line `k` of the first `n` cells, each padded to its column.
pub open spec fn joined_cells(cells: Seq<Seq<Seq<char>>>, widths: Seq<i32>, k: int, n: int) -> Seq<
    char,
>
    decreases n,
{
    if n <= 0 {
        Seq::empty()
    } else {
        joined_cells(cells, widths, k, n - 1) + padded(
            cell_part(cells[n - 1], k),
            column_width(widths, n - 1),
        )
    }
}

/// The lines of a row: line `k` holds line `k` of each cell, padded to its
/// column, and loses the white space at its end.
pub open spec fn row_lines(row: Seq<Seq<char>>, widths: Seq<i32>, truncate: bool) -> Seq<Seq<char>> {
    let cells = row_cells(row, widths, truncate);
    Seq::new(
        line_count(cells),
        |k: int| trimmed_end(joined_cells(cells, widths, k, cells.len() as int)),
    )
}

/// The part of a row that falls into a group, printed as a row of its own.
pub open spec fn group_lines(row: Seq<Seq<char>>, widths: Seq<i32>, group: (int, int), truncate: bool) -> Seq<
    Seq<char>,
> {
    let from = if group.0 < row.len() { group.0 } else { row.len() as int };
    let to = if group.1 < row.len() { group.1 } else { row.len() as int };
    row_lines(row.subrange(from, to), widths.subrange(group.0, group.1), truncate)
}

/// A row printed group by group, the groups below each other.
pub open spec fn grouped_row_lines(
    row: Seq<Seq<char>>,
    widths: Seq<i32>,
    groups: Seq<(int, int)>,
    truncate: bool,
) -> Seq<Seq<char>>
    decreases groups.len(),
{
    if groups.len() == 0 {
        Seq::empty()
    } else {
        grouped_row_lines(row, widths, groups.drop_last(), truncate) + group_lines(
            row,
            widths,
            groups.last(),
            truncate,
        )
    }
}

/// The lines of one row of a table: in one piece where the columns fit
/// `max_width` together, else group by group.
pub open spec fn table_row_lines(row: Seq<Seq<char>>, widths: Seq<i32>, max_width: int, truncate: bool) -> Seq<
    Seq<char>,
> {
    if width_sum(widths, 0, widths.len() as int) > max_width {
        grouped_row_lines(row, widths, groups_from(widths, max_width, 0), truncate)
    } else {
        row_lines(row, widths, truncate)
    }
}

/// The widths of the columns of a table: those that it gives, where it gives
/// one for each column, else equal shares of `max_width`.
pub open spec fn table_widths(table: Table, max_width: int) -> Seq<i32> {
    match table.column_widths {
        Some(given) if given@.len() == table.columns => Seq::new(
            table.columns as nat,
            |i: int| given@[i] as i32,
        ),
        _ => Seq::new(table.columns as nat, |i: int| (max_width / (table.columns as int)) as i32),
    }
}

/// The rows of a table: its header, where it has one with cells, and the
/// rows of its body.
pub open spec fn table_rows(table: Table) -> Seq<Seq<Seq<char>>> {
    let body = Seq::new(table.body@.len(), |i: int| cell_texts_of(table.body@[i]@));
    match table.header {
        Some(header) if header@.len() > 0 => seq![cell_texts_of(header@)] + body,
        _ => body,
    }
}

/// The lines of rows, one row after the other.
pub open spec fn rows_lines(
    rows: Seq<Seq<Seq<char>>>,
    widths: Seq<i32>,
    max_width: int,
    truncate: bool,
) -> Seq<Seq<char>>
    decreases rows.len(),
{
    if rows.len() == 0 {
        Seq::empty()
    } else {
        rows_lines(rows.drop_last(), widths, max_width, truncate) + table_row_lines(
            rows.last(),
            widths,
            max_width,
            truncate,
        )
    }
}

/// The lines of a table. A table without columns has none.
pub open spec fn table_lines(table: Table, max_width: int, truncate: bool) -> Seq<Seq<char>> {
    if table.columns == 0 {
        Seq::empty()
    } else {
        rows_lines(table_rows(table), table_widths(table, max_width), max_width, truncate)
    }
}

/// Lines as bytes: each in UTF-8, with a line feed after it.
pub open spec fn lines_bytes(lines: Seq<Seq<char>>) -> Seq<u8>
    decreases lines.len(),
{
    if lines.len() == 0 {
        Seq::empty()
    } else {
        lines_bytes(lines.drop_last()) + utf8(lines.last()) + seq![0x0Au8]
    }
}

/// A table gives a width for each of its columns.
pub open spec fn gives_widths(table: Table) -> bool {
    table.column_widths matches Some(given) && given@.len() == table.columns
}

/// The bytes that print a table.
pub open spec fn table_bytes(table: Table, max_width: int, truncate: bool) -> Seq<u8> {
    lines_bytes(table_lines(table, max_width, truncate))
}

proof fn width_sum_bounds(widths: Seq<i32>, start: int, end: int)
    requires
        0 <= start <= end <= widths.len(),
    ensures
        -(end - start) * 0x8000_0000 <= width_sum(widths, start, end) <= (end - start) * 0x8000_0000,
    decreases end - start,
{
    if end > start {
        width_sum_bounds(widths, start, end - 1);
    }
}

/// Splits the columns into the groups that are printed below each other.
pub fn split_columns_into_groups(column_widths: &Vec<i32>, max_width: i32) -> (groups: Vec<
    ColumnGroup,
>)
    ensures
        group_ranges(groups@) == groups_from(column_widths@, max_width as int, 0),
        forall|i: int|
            0 <= i < groups@.len() ==> (#[trigger] groups@[i]).start < groups@[i].end
                <= column_widths@.len(),
{
    let n: usize = column_widths.len();
    let mut groups: Vec<ColumnGroup> = Vec::new();
    let mut start: usize = 0;
    assert(group_ranges(groups@) =~= Seq::<(int, int)>::empty());
    while start < n
        invariant
            n == column_widths@.len(),
            start <= n,
            group_ranges(groups@) + groups_from(column_widths@, max_width as int, start as int)
                == groups_from(column_widths@, max_width as int, 0),
        decreases n - start,
    {
        let mut end: usize = start + 1;
        let mut width: i128 = column_widths[start] as i128;
        assert(width_sum(column_widths@, start as int, start as int) == 0);
        while end < n && width + column_widths[end] as i128 <= max_width as i128
            invariant
                n == column_widths@.len(),
                start < end <= n,
                width == width_sum(column_widths@, start as int, end as int),
                -(end - start) * 0x8000_0000 <= width <= (end - start) * 0x8000_0000,
                group_end(column_widths@, max_width as int, start as int, end as int) == group_end(
                    column_widths@,
                    max_width as int,
                    start as int,
                    start as int + 1,
                ),
            decreases n - end,
        {
            width = width + column_widths[end] as i128;
            end += 1;
        }
        let ghost before = groups@;
        groups.push(ColumnGroup { start, end });
        proof {
            let rest = groups_from(column_widths@, max_width as int, end as int);
            assert(groups_from(column_widths@, max_width as int, start as int) == seq![
                (start as int, end as int),
            ] + rest);
            assert(group_ranges(groups@) =~= group_ranges(before).push((start as int, end as int)));
            assert(group_ranges(groups@) + rest =~= group_ranges(before) + (seq![
                (start as int, end as int),
            ] + rest));
        }
        start = end;
    }
    assert(groups_from(column_widths@, max_width as int, start as int) =~= Seq::<
        (int, int),
    >::empty());
    assert(group_ranges(groups@) + Seq::<(int, int)>::empty() =~= group_ranges(groups@));
    proof {
        groups_from_in_order(column_widths@, max_width as int, 0);
        assert forall|i: int| 0 <= i < groups@.len() implies (#[trigger] groups@[i]).start
            < groups@[i].end <= column_widths@.len() by {
            assert(group_ranges(groups@)[i] == (groups@[i].start as int, groups@[i].end as int));
        }
    }
    groups
}

proof fn group_end_fits(widths: Seq<i32>, max_width: int, start: int, end: int)
    requires
        0 <= start < end <= widths.len(),
        end == start + 1 || width_sum(widths, start, end) <= max_width,
    ensures
        end <= group_end(widths, max_width, start, end) <= widths.len(),
        group_end(widths, max_width, start, end) == start + 1 || width_sum(
            widths,
            start,
            group_end(widths, max_width, start, end),
        ) <= max_width,
        group_end(widths, max_width, start, end) < widths.len() ==> width_sum(
            widths,
            start,
            group_end(widths, max_width, start, end),
        ) + widths[group_end(widths, max_width, start, end)] > max_width,
    decreases widths.len() - end,
{
    if end < widths.len() && width_sum(widths, start, end) + widths[end] <= max_width {
        group_end_fits(widths, max_width, start, end + 1);
    }
}

/// What holds of the groups of the columns from `start` on.
spec fn groups_in_order(widths: Seq<i32>, max_width: int, start: int, groups: Seq<(int, int)>) -> bool {
    &&& forall|i: int|
        0 <= i < groups.len() ==> start <= (#[trigger] groups[i]).0 < groups[i].1 <= widths.len()
    &&& forall|i: int, j: int|
        0 <= i < j < groups.len() ==> (#[trigger] groups[i]).1 <= (#[trigger] groups[j]).0
    &&& forall|c: int| start <= c < widths.len() ==> #[trigger] in_some_group(groups, c)
    &&& forall|i: int|
        0 <= i < groups.len() ==> width_sum(widths, (#[trigger] groups[i]).0, groups[i].1)
            <= max_width || groups[i].1 == groups[i].0 + 1
    &&& forall|i: int|
        0 <= i < groups.len() && groups[i].1 < widths.len() ==> width_sum(
            widths,
            (#[trigger] groups[i]).0,
            groups[i].1,
        ) + widths[groups[i].1] > max_width
}

proof fn groups_from_in_order(widths: Seq<i32>, max_width: int, start: int)
    requires
        0 <= start,
    ensures
        groups_in_order(widths, max_width, start, groups_from(widths, max_width, start)),
    decreases widths.len() - start,
{
    let groups = groups_from(widths, max_width, start);
    let end = group_end(widths, max_width, start, start + 1);
    if start < widths.len() {
        group_end_fits(widths, max_width, start, start + 1);
        let rest = groups_from(widths, max_width, end);
        groups_from_in_order(widths, max_width, end);
        assert(groups == seq![(start, end)] + rest);
        assert(groups[0] == (start, end));
        assert forall|i: int| 1 <= i < groups.len() implies groups[i] == rest[i - 1] by {}
        assert forall|i: int, j: int| 0 <= i < j < groups.len() implies (#[trigger] groups[i]).1 <= (
        #[trigger] groups[j]).0 by {
            assert(groups[j] == rest[j - 1]);
            if i > 0 {
                assert(groups[i] == rest[i - 1]);
            }
        }
        assert forall|c: int| start <= c < widths.len() implies #[trigger] in_some_group(
            groups,
            c,
        ) by {
            if c < end {
                assert(in_group(groups[0], c));
            } else {
                assert(in_some_group(rest, c));
                let k = choose|k: int| 0 <= k < rest.len() && in_group(#[trigger] rest[k], c);
                assert(groups[k + 1] == rest[k]);
                assert(in_group(groups[k + 1], c));
            }
        }
        assert forall|i: int| 0 <= i < groups.len() implies start <= (#[trigger] groups[i]).0
            < groups[i].1 <= widths.len() by {
            if i > 0 {
                assert(groups[i] == rest[i - 1]);
            }
        }
        assert forall|i: int| 0 <= i < groups.len() implies width_sum(
            widths,
            (#[trigger] groups[i]).0,
            groups[i].1,
        ) <= max_width || groups[i].1 == groups[i].0 + 1 by {
            if i > 0 {
                assert(groups[i] == rest[i - 1]);
            }
        }
        assert forall|i: int| 0 <= i < groups.len() && groups[i].1 < widths.len() implies width_sum(
            widths,
            (#[trigger] groups[i]).0,
            groups[i].1,
        ) + widths[groups[i].1] > max_width by {
            if i > 0 {
                assert(groups[i] == rest[i - 1]);
            }
        }
    }
}

/// The groups cover the columns: every column lies in a group, and in one
/// group only; a group holds columns of the table only. No group is wider
/// than `max_width`, but for a group of one column, which may be as wide as
/// that column is. And no group could take the column that follows it.
pub proof fn groups_cover_columns(widths: Seq<i32>, max_width: int)
    ensures
        forall|c: int|
            0 <= c < widths.len() ==> #[trigger] in_some_group(
                groups_from(widths, max_width, 0),
                c,
            ),
        forall|i: int, j: int, c: int|
            0 <= i < groups_from(widths, max_width, 0).len() && 0 <= j < groups_from(
                widths,
                max_width,
                0,
            ).len() && #[trigger] in_group(groups_from(widths, max_width, 0)[i], c)
                && #[trigger] in_group(groups_from(widths, max_width, 0)[j], c) ==> i == j,
        forall|i: int|
            0 <= i < groups_from(widths, max_width, 0).len() ==> 0 <= (#[trigger] groups_from(
                widths,
                max_width,
                0,
            )[i]).0 < groups_from(widths, max_width, 0)[i].1 <= widths.len(),
        forall|i: int|
            0 <= i < groups_from(widths, max_width, 0).len() ==> width_sum(
                widths,
                (#[trigger] groups_from(widths, max_width, 0)[i]).0,
                groups_from(widths, max_width, 0)[i].1,
            ) <= max_width || groups_from(widths, max_width, 0)[i].1 == groups_from(
                widths,
                max_width,
                0,
            )[i].0 + 1,
        forall|i: int|
            0 <= i < groups_from(widths, max_width, 0).len() && groups_from(widths, max_width, 0)[i].1
                < widths.len() ==> width_sum(
                widths,
                (#[trigger] groups_from(widths, max_width, 0)[i]).0,
                groups_from(widths, max_width, 0)[i].1,
            ) + widths[groups_from(widths, max_width, 0)[i].1] > max_width,
{
    let groups = groups_from(widths, max_width, 0);
    groups_from_in_order(widths, max_width, 0);
    assert forall|i: int, j: int, c: int|
        0 <= i < groups.len() && 0 <= j < groups.len() && #[trigger] in_group(groups[i], c)
            && #[trigger] in_group(groups[j], c) implies i == j by {
        if i < j {
            assert(groups[i].1 <= groups[j].0);
        }
        if j < i {
            assert(groups[j].1 <= groups[i].0);
        }
    }
}

/// The lines of each cell of a vector of cells.
pub open spec fn cells_view(cells: Seq<Vec<String>>) -> Seq<Seq<Seq<char>>> {
    Seq::new(cells.len(), |i: int| texts(cells[i]@))
}

/// No width is negative.
pub open spec fn widths_ok(widths: Seq<i32>) -> bool {
    forall|i: int| 0 <= i < widths.len() ==> #[trigger] widths[i] >= 0
}

fn width_at(widths: &Vec<i32>, i: usize) -> (r: usize)
    requires
        widths_ok(widths@),
    ensures
        r as int == column_width(widths@, i as int),
{
    if i < widths.len() {
        widths[i] as usize
    } else {
        10
    }
}

fn cell_texts(text: &str, width: usize, truncate: bool) -> (r: Vec<String>)
    ensures
        texts(r@) == cell_lines(text@, width as int, truncate),
{
    let plain: String = remove_accents(text);
    if truncate {
        let cut: String = truncate_text(plain.as_str(), width);
        let lines: Vec<String> = vec![cut];
        assert(texts(lines@) =~= seq![cut@]);
        lines
    } else {
        wrap_text(plain.as_str(), width)
    }
}

fn joined_line(cells: &Vec<Vec<String>>, widths: &Vec<i32>, k: usize) -> (r: String)
    requires
        widths_ok(widths@),
    ensures
        r@ == joined_cells(cells_view(cells@), widths@, k as int, cells@.len() as int),
{
    let mut line: String = String::new();
    let mut c: usize = 0;
    while c < cells.len()
        invariant
            c <= cells.len(),
            widths_ok(widths@),
            line@ == joined_cells(cells_view(cells@), widths@, k as int, c as int),
        decreases cells.len() - c,
    {
        let width: usize = width_at(widths, c);
        let part: String = if k < cells[c].len() {
            pad_right(cells[c][k].as_str(), width)
        } else {
            let nothing: String = String::new();
            pad_right(nothing.as_str(), width)
        };
        proof {
            let view = cells_view(cells@);
            assert(view[c as int] == texts(cells@[c as int]@));
            assert(part@ == padded(cell_part(view[c as int], k as int), column_width(
                widths@,
                c as int,
            )));
        }
        line.append(part.as_str());
        c += 1;
    }
    line
}

/// The lines of the cells `from` up to `to` of a row, the first of them in
/// the column of the first width.
fn process_cells(row: &Vec<Text>, from: usize, to: usize, widths: &Vec<i32>, truncate: bool) -> (r:
    Vec<String>)
    requires
        from <= to <= row@.len(),
        widths_ok(widths@),
    ensures
        texts(r@) == row_lines(
            cell_texts_of(row@).subrange(from as int, to as int),
            widths@,
            truncate,
        ),
{
    let mut cells: Vec<Vec<String>> = Vec::new();
    let mut most: usize = 0;
    let mut i: usize = from;
    while i < to
        invariant
            from <= i <= to <= row@.len(),
            widths_ok(widths@),
            cells_view(cells@) =~= row_cells(
                cell_texts_of(row@).subrange(from as int, i as int),
                widths@,
                truncate,
            ),
            most == most_lines(cells_view(cells@)),
        decreases to - i,
    {
        let width: usize = width_at(widths, i - from);
        let lines: Vec<String> = cell_texts(row[i].text.as_str(), width, truncate);
        let ghost before = cells@;
        if lines.len() > most {
            most = lines.len();
        }
        cells.push(lines);
        proof {
            let view = cells_view(cells@);
            assert(view.drop_last() =~= cells_view(before));
            assert(view.last() == texts(lines@));
            let all = cell_texts_of(row@);
            let next = row_cells(all.subrange(from as int, i as int + 1), widths@, truncate);
            let short = all.subrange(from as int, i as int);
            let long = all.subrange(from as int, i as int + 1);
            assert(long[i as int - from as int] == row@[i as int].text@);
            assert forall|j: int| 0 <= j < view.len() implies view[j] == next[j] by {
                if j < i - from {
                    assert(short[j] == long[j]);
                    assert(view[j] == cells_view(before)[j]);
                    assert(cells_view(before)[j] == row_cells(short, widths@, truncate)[j]);
                } else {
                    assert(view[j] == texts(lines@));
                }
            }
            assert(view =~= next);
        }
        i += 1;
    }
    let count: usize = if cells.len() == 0 { 1 } else { most };
    let ghost view = cells_view(cells@);
    let mut result: Vec<String> = Vec::new();
    let mut k: usize = 0;
    while k < count
        invariant
            k <= count,
            widths_ok(widths@),
            view == cells_view(cells@),
            texts(result@) =~= Seq::new(
                k as nat,
                |j: int| trimmed_end(joined_cells(view, widths@, j, view.len() as int)),
            ),
        decreases count - k,
    {
        let line: String = joined_line(&cells, widths, k);
        let trimmed: String = line.as_str().trim_end().to_owned();
        let ghost before = result@;
        result.push(trimmed);
        proof {
            assert(view.len() == cells@.len());
            assert(trimmed@ == trimmed_end(joined_cells(view, widths@, k as int, view.len() as int)));
            assert(texts(result@) =~= texts(before).push(trimmed@));
        }
        k += 1;
    }
    result
}

/// The lines of a row: each cell cut or wrapped to its column, and the lines
/// of the cells set side by side. Widths must not be negative.
pub fn process_row(row: &Vec<Text>, column_widths: &Vec<i32>, truncate: bool) -> (r: Vec<String>)
    requires
        widths_ok(column_widths@),
    ensures
        texts(r@) == row_lines(cell_texts_of(row@), column_widths@, truncate),
{
    assert(cell_texts_of(row@).subrange(0, row@.len() as int) =~= cell_texts_of(row@));
    process_cells(row, 0, row.len(), column_widths, truncate)
}

fn widths_between(widths: &Vec<i32>, start: usize, end: usize) -> (r: Vec<i32>)
    requires
        start <= end <= widths@.len(),
        widths_ok(widths@),
    ensures
        r@ == widths@.subrange(start as int, end as int),
        widths_ok(r@),
{
    let mut out: Vec<i32> = Vec::new();
    let mut i: usize = start;
    while i < end
        invariant
            start <= i <= end <= widths@.len(),
            out@ =~= widths@.subrange(start as int, i as int),
        decreases end - i,
    {
        out.push(widths[i]);
        i += 1;
    }
    out
}

fn append_lines(lines: &mut Vec<String>, more: Vec<String>)
    ensures
        texts(final(lines)@) == texts(old(lines)@) + texts(more@),
{
    let mut rest: Vec<String> = more;
    lines.append(&mut rest);
    assert(texts(lines@) =~= texts(old(lines)@) + texts(more@));
}

fn grouped_row(row: &Vec<Text>, widths: &Vec<i32>, groups: &Vec<ColumnGroup>, truncate: bool) -> (r:
    Vec<String>)
    requires
        widths_ok(widths@),
        forall|i: int|
            0 <= i < groups@.len() ==> (#[trigger] groups@[i]).start < groups@[i].end
                <= widths@.len(),
    ensures
        texts(r@) == grouped_row_lines(
            cell_texts_of(row@),
            widths@,
            group_ranges(groups@),
            truncate,
        ),
{
    let mut lines: Vec<String> = Vec::new();
    let mut g: usize = 0;
    assert(group_ranges(groups@).take(0) =~= Seq::<(int, int)>::empty());
    assert(texts(lines@) =~= Seq::<Seq<char>>::empty());
    while g < groups.len()
        invariant
            g <= groups@.len(),
            widths_ok(widths@),
            forall|i: int|
                0 <= i < groups@.len() ==> (#[trigger] groups@[i]).start < groups@[i].end
                    <= widths@.len(),
            texts(lines@) == grouped_row_lines(
                cell_texts_of(row@),
                widths@,
                group_ranges(groups@).take(g as int),
                truncate,
            ),
        decreases groups@.len() - g,
    {
        let group: ColumnGroup = groups[g];
        let from: usize = if group.start < row.len() { group.start } else { row.len() };
        let to: usize = if group.end < row.len() { group.end } else { row.len() };
        let part: Vec<i32> = widths_between(widths, group.start, group.end);
        let more: Vec<String> = process_cells(row, from, to, &part, truncate);
        proof {
            let ranges = group_ranges(groups@);
            let prefix = ranges.take(g as int + 1);
            assert(prefix.drop_last() =~= ranges.take(g as int));
            assert(prefix.last() == (group.start as int, group.end as int));
            assert(texts(more@) == group_lines(
                cell_texts_of(row@),
                widths@,
                prefix.last(),
                truncate,
            ));
        }
        append_lines(&mut lines, more);
        g += 1;
    }
    assert(group_ranges(groups@).take(groups@.len() as int) =~= group_ranges(groups@));
    lines
}

proof fn widths_sum_nonnegative(widths: Seq<i32>, start: int, end: int)
    requires
        0 <= start <= end <= widths.len(),
        widths_ok(widths),
    ensures
        0 <= width_sum(widths, start, end) <= (end - start) * 0x7fff_ffff,
    decreases end - start,
{
    if end > start {
        widths_sum_nonnegative(widths, start, end - 1);
    }
}

/// Whether the columns are too wide to stand side by side.
fn exceeds(widths: &Vec<i32>, max_width: i32) -> (r: bool)
    requires
        widths_ok(widths@),
    ensures
        r == (width_sum(widths@, 0, widths@.len() as int) > max_width),
{
    let mut total: u128 = 0;
    let mut i: usize = 0;
    while i < widths.len()
        invariant
            i <= widths@.len(),
            widths_ok(widths@),
            total == width_sum(widths@, 0, i as int),
            total <= i * 0x7fff_ffff,
        decreases widths@.len() - i,
    {
        total = total + widths[i] as u128;
        i += 1;
    }
    max_width < 0 || total > max_width as u128
}

fn resolve_widths(table: &Table, max_width: i32) -> (r: Vec<i32>)
    requires
        table.columns > 0,
        max_width >= 0 || gives_widths(*table),
    ensures
        r@ == table_widths(*table, max_width as int),
        widths_ok(r@),
{
    let columns: usize = table.columns as usize;
    let mut out: Vec<i32> = Vec::new();
    match &table.column_widths {
        Some(given) if given.len() == columns => {
            let mut i: usize = 0;
            while i < columns
                invariant
                    i <= columns,
                    columns == given@.len(),
                    out@ =~= Seq::new(i as nat, |j: int| given@[j] as i32),
                decreases columns - i,
            {
                out.push(given[i] as i32);
                i += 1;
            }
        },
        _ => {
            let share: i32 = max_width / (table.columns as i32);
            let mut i: usize = 0;
            while i < columns
                invariant
                    i <= columns,
                    share >= 0,
                    out@ =~= Seq::new(i as nat, |j: int| share),
                decreases columns - i,
            {
                out.push(share);
                i += 1;
            }
        },
    }
    out
}

fn table_row(
    row: &Vec<Text>,
    widths: &Vec<i32>,
    grouped: bool,
    groups: &Vec<ColumnGroup>,
    truncate: bool,
) -> (r: Vec<String>)
    requires
        widths_ok(widths@),
        forall|i: int|
            0 <= i < groups@.len() ==> (#[trigger] groups@[i]).start < groups@[i].end
                <= widths@.len(),
    ensures
        texts(r@) == (if grouped {
            grouped_row_lines(cell_texts_of(row@), widths@, group_ranges(groups@), truncate)
        } else {
            row_lines(cell_texts_of(row@), widths@, truncate)
        }),
{
    if grouped {
        grouped_row(row, widths, groups, truncate)
    } else {
        process_row(row, widths, truncate)
    }
}

/// Lines as bytes, each with a line feed after it.
pub fn lines_to_bytes(lines: &Vec<String>) -> (r: Vec<u8>)
    ensures
        r@ == lines_bytes(texts(lines@)),
{
    let mut output: Vec<u8> = Vec::new();
    let mut i: usize = 0;
    assert(texts(lines@).take(0) =~= Seq::<Seq<char>>::empty());
    while i < lines.len()
        invariant
            i <= lines@.len(),
            output@ == lines_bytes(texts(lines@).take(i as int)),
        decreases lines@.len() - i,
    {
        let bytes: Vec<u8> = utf8_bytes(lines[i].as_str());
        proof {
            let prefix = texts(lines@).take(i as int + 1);
            assert(prefix.drop_last() =~= texts(lines@).take(i as int));
            assert(prefix.last() == lines@[i as int]@);
        }
        output.extend_from_slice(bytes.as_slice());
        output.push(0x0A);
        assert(output@ =~= lines_bytes(texts(lines@).take(i as int)) + utf8(lines@[i as int]@)
            + seq![0x0Au8]);
        i += 1;
    }
    assert(texts(lines@).take(lines@.len() as int) =~= texts(lines@));
    output
}

/// Renders a table for paper `max_width` wide. Columns that do not fit side
/// by side are split into groups, and each row is printed group by group.
/// Where the table leaves the widths to be shared out, `max_width` must not
/// be negative.
pub fn process_table(table: &Table, max_width: i32, truncate: bool) -> (r: Vec<u8>)
    requires
        max_width >= 0 || gives_widths(*table),
    ensures
        r@ == table_bytes(*table, max_width as int, truncate),
{
    if table.columns == 0 {
        return Vec::new();
    }
    let widths: Vec<i32> = resolve_widths(table, max_width);
    let grouped: bool = exceeds(&widths, max_width);
    let groups: Vec<ColumnGroup> = if grouped {
        split_columns_into_groups(&widths, max_width)
    } else {
        Vec::new()
    };
    let mut lines: Vec<String> = Vec::new();
    let ghost rows = table_rows(*table);
    let ghost body = Seq::new(table.body@.len(), |i: int| cell_texts_of(table.body@[i]@));
    let ghost mut done: int = 0;
    assert(texts(lines@) =~= rows_lines(rows.take(0), widths@, max_width as int, truncate));
    match &table.header {
        Some(header) if header.len() > 0 => {
            let more: Vec<String> = table_row(header, &widths, grouped, &groups, truncate);
            proof {
                assert(rows.take(1).drop_last() =~= rows.take(0));
                assert(rows.take(1).last() == cell_texts_of(header@));
                done = 1;
            }
            append_lines(&mut lines, more);
            assert(texts(lines@) =~= rows_lines(rows.take(1), widths@, max_width as int, truncate));
        },
        _ => {},
    }
    assert(rows =~= rows.take(done) + body);
    let mut i: usize = 0;
    while i < table.body.len()
        invariant
            i <= table.body@.len(),
            widths_ok(widths@),
            rows == table_rows(*table),
            body == Seq::new(table.body@.len(), |j: int| cell_texts_of(table.body@[j]@)),
            0 <= done <= 1,
            rows =~= rows.take(done) + body,
            grouped == (width_sum(widths@, 0, widths@.len() as int) > max_width),
            grouped ==> group_ranges(groups@) == groups_from(widths@, max_width as int, 0),
            forall|j: int|
                0 <= j < groups@.len() ==> (#[trigger] groups@[j]).start < groups@[j].end
                    <= widths@.len(),
            texts(lines@) == rows_lines(
                rows.take(done + i as int),
                widths@,
                max_width as int,
                truncate,
            ),
        decreases table.body@.len() - i,
    {
        let more: Vec<String> = table_row(&table.body[i], &widths, grouped, &groups, truncate);
        proof {
            let prefix = rows.take(done + i as int + 1);
            assert(prefix.drop_last() =~= rows.take(done + i as int));
            assert(prefix.last() == rows[done + i as int]);
            assert(rows[done + i as int] == body[i as int]);
        }
        append_lines(&mut lines, more);
        i += 1;
    }
    assert(rows.take(done + table.body@.len() as int) =~= rows);
    lines_to_bytes(&lines)
}

} // verus!
