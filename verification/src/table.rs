//! The state of the interactive table: which row is selected, how the rows are
//! sorted, and how wide the columns must be. Drawing it is the caller's business.
use crate::licenses::{LicenseCompatibility, LicenseInfo};
use crate::order::{order_of_texts, text_order, Order};
use crate::text::{chars_of, push_str, string_from_chars};
use crate::versions::{compare_versions, version_order};
use vstd::prelude::*;

verus! {

/// The two lines of key bindings shown below the table.
pub const INFO_TEXT: [&'static str; 2] = [
    "(Esc) quit | (↑↓) move | (←→) columns | (s) sort mode",
    "(In sort mode: ←→ select column, Enter toggle sort, Esc/q exit sort)",
];

/// Number of terminal lines that one row takes.
pub const ITEM_HEIGHT: usize = 4;

/// Column sorting direction.
#[derive(Debug, Clone, Copy, PartialEq, Eq, Structural)]
pub enum SortDirection {
    Ascending,
    Descending,
}

/// The column by which the rows are sorted.
#[derive(Debug, Clone, Copy, PartialEq, Eq, Structural, PartialOrd, Ord)]
pub enum SortColumn {
    Name,
    Version,
    License,
    Restrictive,
    Compatibility,
    OsiStatus,
}

/// Whether the keys move the selection or choose a sort column.
#[derive(Debug, Clone, Copy, PartialEq, Eq, Structural)]
pub enum AppMode {
    Normal,
    Sorting,
}

/// The sort columns in the order in which the table shows them.
pub open spec fn all_columns() -> Seq<SortColumn> {
    seq![
        SortColumn::Name,
        SortColumn::Version,
        SortColumn::License,
        SortColumn::Restrictive,
        SortColumn::Compatibility,
        SortColumn::OsiStatus,
    ]
}

impl SortColumn {
    /// The heading of the column.
    pub open spec fn heading(self) -> Seq<char> {
        match self {
            SortColumn::Name => "Name"@,
            SortColumn::Version => "Version"@,
            SortColumn::License => "License"@,
            SortColumn::Restrictive => "Restrictive"@,
            SortColumn::Compatibility => "Compatibility"@,
            SortColumn::OsiStatus => "OSI Status"@,
        }
    }

    /// Position of the column in the table.
    pub open spec fn position(self) -> int {
        match self {
            SortColumn::Name => 0,
            SortColumn::Version => 1,
            SortColumn::License => 2,
            SortColumn::Restrictive => 3,
            SortColumn::Compatibility => 4,
            SortColumn::OsiStatus => 5,
        }
    }

    /// All sort columns, in the order in which the table shows them.
    pub fn all() -> (columns: [SortColumn; 6])
        ensures
            columns@ == all_columns(),
    {
        let columns = [
            SortColumn::Name,
            SortColumn::Version,
            SortColumn::License,
            SortColumn::Restrictive,
            SortColumn::Compatibility,
            SortColumn::OsiStatus,
        ];
        assert(columns@ =~= all_columns());
        columns
    }

    /// The heading of the column.
    pub fn display_name(&self) -> (name: &'static str)
        ensures
            name@ == self.heading(),
    {
        match self {
            SortColumn::Name => "Name",
            SortColumn::Version => "Version",
            SortColumn::License => "License",
            SortColumn::Restrictive => "Restrictive",
            SortColumn::Compatibility => "Compatibility",
            SortColumn::OsiStatus => "OSI Status",
        }
    }
}

/// The order of two truth values: `false` comes first.
pub open spec fn flag_order(a: bool, b: bool) -> Order {
    if a == b {
        Order::Same
    } else if b {
        Order::Before
    } else {
        Order::After
    }
}

/// Position of a verdict in the order of the verdicts' names.
pub open spec fn verdict_rank(verdict: LicenseCompatibility) -> int {
    match verdict {
        LicenseCompatibility::Compatible => 0,
        LicenseCompatibility::Incompatible => 1,
        LicenseCompatibility::Unknown => 2,
    }
}

/// The order of two verdicts: that of their names.
pub open spec fn verdict_order(a: LicenseCompatibility, b: LicenseCompatibility) -> Order {
    if verdict_rank(a) < verdict_rank(b) {
        Order::Before
    } else if verdict_rank(a) > verdict_rank(b) {
        Order::After
    } else {
        Order::Same
    }
}

/// Where row `a` stands relative to row `b` when the table is sorted by
/// `column` in the given direction. Versions have an order of their own; every
/// other column is ordered by its value and the order reversed when sorting
/// downwards. A record carries no OSI status, so that column ranks all rows alike.
pub open spec fn row_order(a: LicenseInfo, b: LicenseInfo, column: SortColumn, ascending: bool)
    -> Order {
    match column {
        SortColumn::Name => text_order(a.name@, b.name@).oriented(ascending),
        SortColumn::Version => version_order(a.version@, b.version@, ascending),
        SortColumn::License => text_order(a.license_text(), b.license_text()).oriented(ascending),
        SortColumn::Restrictive => flag_order(a.is_restrictive, b.is_restrictive).oriented(
            ascending,
        ),
        SortColumn::Compatibility => verdict_order(a.compatibility, b.compatibility).oriented(
            ascending,
        ),
        SortColumn::OsiStatus => Order::Same,
    }
}

fn rank_of(verdict: LicenseCompatibility) -> (rank: u8)
    ensures
        rank == verdict_rank(verdict),
{
    match verdict {
        LicenseCompatibility::Compatible => 0,
        LicenseCompatibility::Incompatible => 1,
        LicenseCompatibility::Unknown => 2,
    }
}

/// Compares two rows for sorting by `column` in the given direction.
pub fn compare_rows(a: &LicenseInfo, b: &LicenseInfo, column: SortColumn, ascending: bool) -> (r:
    Order)
    ensures
        r == row_order(*a, *b, column, ascending),
        row_order(*b, *a, column, ascending) == r.reversed(),
{
    match column {
        SortColumn::Name => {
            let x = chars_of(a.name.as_str());
            let y = chars_of(b.name.as_str());
            order_of_texts(&x, &y).orient(ascending)
        },
        SortColumn::Version => compare_versions(a.version.as_str(), b.version.as_str(), ascending),
        SortColumn::License => {
            let x = chars_of(a.get_license().as_str());
            let y = chars_of(b.get_license().as_str());
            order_of_texts(&x, &y).orient(ascending)
        },
        SortColumn::Restrictive => {
            let order = if a.is_restrictive == b.is_restrictive {
                Order::Same
            } else if b.is_restrictive {
                Order::Before
            } else {
                Order::After
            };
            order.orient(ascending)
        },
        SortColumn::Compatibility => {
            let x = rank_of(a.compatibility);
            let y = rank_of(b.compatibility);
            let order = if x < y {
                Order::Before
            } else if x > y {
                Order::After
            } else {
                Order::Same
            };
            order.orient(ascending)
        },
        SortColumn::OsiStatus => Order::Same,
    }
}

/// The row at position `k` does not stand before its predecessor.
pub open spec fn follows(rows: Seq<LicenseInfo>, k: int, column: SortColumn, ascending: bool)
    -> bool {
    row_order(rows[k], rows[k - 1], column, ascending) != Order::Before
}

/// Among the first `n` rows, none stands before its predecessor.
pub open spec fn in_order_up_to(
    rows: Seq<LicenseInfo>,
    n: int,
    column: SortColumn,
    ascending: bool,
) -> bool {
    forall|k: int| 0 < k < n && k < rows.len() ==> #[trigger] follows(rows, k, column, ascending)
}

/// No row stands before its predecessor.
pub open spec fn in_order(rows: Seq<LicenseInfo>, column: SortColumn, ascending: bool) -> bool {
    in_order_up_to(rows, rows.len() as int, column, ascending)
}

/// The rows with the one at position `from` moved forward to position `to`.
pub open spec fn moved(rows: Seq<LicenseInfo>, from: int, to: int) -> Seq<LicenseInfo> {
    rows.remove(from).insert(to, rows[from])
}

/// Moving a row forward keeps the rows and shifts those in between by one.
proof fn lemma_moved(rows: Seq<LicenseInfo>, from: int, to: int)
    requires
        0 <= to <= from < rows.len(),
    ensures
        moved(rows, from, to).len() == rows.len(),
        moved(rows, from, to).to_multiset() == rows.to_multiset(),
        forall|k: int|
            0 <= k < rows.len() ==> #[trigger] moved(rows, from, to)[k] == (if k < to {
                rows[k]
            } else if k == to {
                rows[from]
            } else if k <= from {
                rows[k - 1]
            } else {
                rows[k]
            }),
{
    broadcast use {vstd::seq_lib::to_multiset_remove, vstd::seq_lib::to_multiset_insert};

    let without = rows.remove(from);
    assert(without.to_multiset() =~= rows.to_multiset().remove(rows[from]));
    assert(without.insert(to, rows[from]).to_multiset() =~= without.to_multiset().insert(
        rows[from],
    ));
    assert(rows.to_multiset().count(rows[from]) > 0) by {
        rows.to_multiset_ensures();
        assert(rows.contains(rows[from]));
    }
    assert(rows.to_multiset().remove(rows[from]).insert(rows[from]) =~= rows.to_multiset());
}

/// Moving the row that follows an ordered prefix forward, to just behind the
/// last row that it does not stand before, extends the ordered prefix by one.
proof fn lemma_moved_in_order(
    rows: Seq<LicenseInfo>,
    from: int,
    to: int,
    column: SortColumn,
    ascending: bool,
)
    requires
        0 <= to < from < rows.len(),
        in_order_up_to(rows, from, column, ascending),
        row_order(rows[to], rows[from], column, ascending) == Order::After,
        to > 0 ==> row_order(rows[from], rows[to - 1], column, ascending) != Order::Before,
    ensures
        in_order_up_to(moved(rows, from, to), from + 1, column, ascending),
{
    lemma_moved(rows, from, to);
    let after = moved(rows, from, to);
    assert forall|k: int| 0 < k < from + 1 && k < after.len() implies #[trigger] follows(
        after,
        k,
        column,
        ascending,
    ) by {
        assert(after[k] == moved(rows, from, to)[k]);
        assert(after[k - 1] == moved(rows, from, to)[k - 1]);
        if k < to {
            assert(follows(rows, k, column, ascending));
        } else if k == to {
        } else if k == to + 1 {
        } else {
            assert(follows(rows, k - 1, column, ascending));
        }
    }
}

/// Where, among the first `n` rows, a row `x` that follows them belongs: just
/// behind the last of them that `x` does not stand before.
pub open spec fn insertion_point(
    rows: Seq<LicenseInfo>,
    x: LicenseInfo,
    n: int,
    column: SortColumn,
    ascending: bool,
) -> int
    decreases n,
{
    if n <= 0 {
        0
    } else if row_order(x, rows[n - 1], column, ascending) == Order::Before {
        insertion_point(rows, x, n - 1, column, ascending)
    } else {
        n
    }
}

/// The rows with the first `n` of them sorted: one after the other, each row
/// is moved forward to where it belongs among those before it. Rows that rank
/// alike keep the order in which they came.
pub open spec fn sorted_up_to(rows: Seq<LicenseInfo>, n: int, column: SortColumn, ascending: bool)
    -> Seq<LicenseInfo>
    decreases n,
{
    if n <= 1 || n > rows.len() {
        rows
    } else {
        let before = sorted_up_to(rows, n - 1, column, ascending);
        moved(
            before,
            n - 1,
            insertion_point(before, before[n - 1], n - 1, column, ascending),
        )
    }
}

/// The rows sorted by `column` in the given direction.
pub open spec fn sorted(rows: Seq<LicenseInfo>, column: SortColumn, ascending: bool) -> Seq<
    LicenseInfo,
> {
    sorted_up_to(rows, rows.len() as int, column, ascending)
}

/// Sorts the rows by `column` in the given direction. The sort is stable: rows
/// that rank alike keep the order in which they came.
pub fn sort_rows(rows: &mut Vec<LicenseInfo>, column: SortColumn, ascending: bool)
    ensures
        final(rows)@ == sorted(old(rows)@, column, ascending),
        final(rows)@.to_multiset() == old(rows)@.to_multiset(),
        final(rows)@.len() == old(rows)@.len(),
        in_order(final(rows)@, column, ascending),
{
    let mut i: usize = 1;
    while i < rows.len()
        invariant
            1 <= i,
            rows@.len() == old(rows)@.len(),
            rows@.to_multiset() == old(rows)@.to_multiset(),
            in_order_up_to(rows@, i as int, column, ascending),
            i <= rows@.len() ==> rows@ == sorted_up_to(old(rows)@, i as int, column, ascending),
            i > rows@.len() ==> rows@.len() == 0 && rows@ == old(rows)@,
        decreases rows.len() - i,
    {
        let mut j: usize = i;
        while j > 0 && compare_rows(&rows[i], &rows[j - 1], column, ascending) == Order::Before
            invariant
                j <= i < rows.len(),
                j < i ==> row_order(rows@[j as int], rows@[i as int], column, ascending)
                    == Order::After,
                insertion_point(rows@, rows@[i as int], i as int, column, ascending)
                    == insertion_point(rows@, rows@[i as int], j as int, column, ascending),
            decreases j,
        {
            j -= 1;
        }
        proof {
            lemma_moved(rows@, i as int, j as int);
            if j < i {
                lemma_moved_in_order(rows@, i as int, j as int, column, ascending);
            } else {
                assert(moved(rows@, i as int, j as int) =~= rows@);
                assert(follows(rows@, i as int, column, ascending));
            }
        }
        if j < i {
            let row = rows.remove(i);
            rows.insert(j, row);
        }
        i += 1;
    }
}

/// The number of terminal columns that `unicode-width` gives a text.
pub uninterp spec fn width_of(text: Seq<char>) -> usize;

/// `UnicodeWidthStr::width`: the displayed width of the text in columns.
#[verifier::external_body]
fn display_width(text: &str) -> (width: usize)
    ensures
        width == width_of(text@),
{
    unicode_width::UnicodeWidthStr::width(text)
}

/// What a row shows in one of the three columns whose width depends on the rows.
pub open spec fn cell_text(row: LicenseInfo, column: SortColumn) -> Seq<char> {
    match column {
        SortColumn::Name => row.name@,
        SortColumn::Version => row.version@,
        _ => row.license_text(),
    }
}

/// The greatest width of the cells of `column` among the first `n` rows, and
/// zero where there are none.
pub open spec fn widest(rows: Seq<LicenseInfo>, column: SortColumn, n: int) -> usize
    decreases n,
{
    if n <= 0 || n > rows.len() {
        0
    } else {
        let rest = widest(rows, column, n - 1);
        let width = width_of(cell_text(rows[n - 1], column));
        if width > rest {
            width
        } else {
            rest
        }
    }
}

/// The greater of two widths.
pub open spec fn wider(a: usize, b: usize) -> usize {
    if a >= b {
        a
    } else {
        b
    }
}

/// A width cut down to the sixteen bits in which column widths are kept.
pub open spec fn cut(width: usize) -> u16 {
    (width % 65536) as u16
}

/// The widths that the six columns need: for name, version and license the
/// widest cell among the rows; for the other three the widest of the texts
/// that they can show.
pub open spec fn column_widths(rows: Seq<LicenseInfo>) -> (u16, u16, u16, u16, u16, u16) {
    (
        cut(widest(rows, SortColumn::Name, rows.len() as int)),
        cut(widest(rows, SortColumn::Version, rows.len() as int)),
        cut(widest(rows, SortColumn::License, rows.len() as int)),
        cut(wider(width_of("true"@), width_of("false"@))),
        cut(
            wider(
                wider(width_of("Compatible"@), width_of("Incompatible"@)),
                width_of("Unknown"@),
            ),
        ),
        cut(
            wider(
                wider(width_of("approved"@), width_of("not-approved"@)),
                width_of("unknown"@),
            ),
        ),
    )
}

fn widest_cell(rows: &Vec<LicenseInfo>, column: SortColumn) -> (width: usize)
    ensures
        width == widest(rows@, column, rows@.len() as int),
{
    let mut width: usize = 0;
    let mut i: usize = 0;
    while i < rows.len()
        invariant
            i <= rows.len(),
            width == widest(rows@, column, i as int),
        decreases rows.len() - i,
    {
        let cell = match column {
            SortColumn::Name => display_width(rows[i].name.as_str()),
            SortColumn::Version => display_width(rows[i].version.as_str()),
            _ => display_width(rows[i].get_license().as_str()),
        };
        if cell > width {
            width = cell;
        }
        i += 1;
    }
    width
}

fn max_width(a: usize, b: usize) -> (width: usize)
    ensures
        width == wider(a, b),
{
    if a >= b {
        a
    } else {
        b
    }
}

fn cut_width(width: usize) -> (short: u16)
    ensures
        short == cut(width),
{
    (width % 65536) as u16
}

/// The widths that the six columns need to show `items`.
pub fn constraint_len_calculator(items: &Vec<LicenseInfo>) -> (widths: (
    u16,
    u16,
    u16,
    u16,
    u16,
    u16,
))
    ensures
        widths == column_widths(items@),
{
    let name_len = widest_cell(items, SortColumn::Name);
    let version_len = widest_cell(items, SortColumn::Version);
    let license_len = widest_cell(items, SortColumn::License);
    let restricted_len = max_width(display_width("true"), display_width("false"));
    let compatibility_len = max_width(
        max_width(display_width("Compatible"), display_width("Incompatible")),
        display_width("Unknown"),
    );
    let osi_status_len = max_width(
        max_width(display_width("approved"), display_width("not-approved")),
        display_width("unknown"),
    );
    (
        cut_width(name_len),
        cut_width(version_len),
        cut_width(license_len),
        cut_width(restricted_len),
        cut_width(compatibility_len),
        cut_width(osi_status_len),
    )
}

/// Which row and which column of the table are selected.
#[derive(Debug, Clone, Copy, PartialEq, Eq, Structural)]
pub struct Selection {
    /// Index of the selected row.
    pub row: Option<usize>,
    /// Index of the selected column.
    pub column: Option<usize>,
}

/// The column after `column`: the first where none is selected, and the same
/// again where the index cannot grow.
pub open spec fn column_after(column: Option<usize>) -> usize {
    match column {
        None => 0,
        Some(c) => if c < usize::MAX {
            (c + 1) as usize
        } else {
            c
        },
    }
}

/// The column before `column`: the last that an index can name where none is
/// selected, and the first again at the first.
pub open spec fn column_before(column: Option<usize>) -> usize {
    match column {
        None => usize::MAX,
        Some(c) => if c > 0 {
            (c - 1) as usize
        } else {
            c
        },
    }
}

impl Selection {
    /// Index of the selected row.
    pub fn selected(&self) -> (row: Option<usize>)
        ensures
            row == self.row,
    {
        self.row
    }

    /// Index of the selected column.
    pub fn selected_column(&self) -> (column: Option<usize>)
        ensures
            column == self.column,
    {
        self.column
    }

    /// Selects a row, or none.
    pub fn select(&mut self, index: Option<usize>)
        ensures
            final(self).row == index,
            final(self).column == old(self).column,
    {
        self.row = index;
    }

    /// Selects the column after the selected one.
    pub fn select_next_column(&mut self)
        ensures
            final(self).column == Some(column_after(old(self).column)),
            final(self).row == old(self).row,
    {
        let next = match self.column {
            None => 0,
            Some(c) => if c < usize::MAX {
                c + 1
            } else {
                c
            },
        };
        self.column = Some(next);
    }

    /// Selects the column before the selected one.
    pub fn select_previous_column(&mut self)
        ensures
            final(self).column == Some(column_before(old(self).column)),
            final(self).row == old(self).row,
    {
        let previous = match self.column {
            None => usize::MAX,
            Some(c) => if c > 0 {
                c - 1
            } else {
                c
            },
        };
        self.column = Some(previous);
    }
}

/// How far the scrollbar has come.
#[derive(Debug, Clone, Copy, PartialEq, Eq, Structural)]
pub struct Scroll {
    /// Length of what is scrolled over, in terminal lines.
    pub content_length: usize,
    /// Line at which the view stands.
    pub position: usize,
}

/// The state of the interactive table.
pub struct App {
    /// The selected row and column.
    pub state: Selection,
    /// The rows, in the order in which they are shown.
    pub items: Vec<LicenseInfo>,
    /// The widths that the columns need.
    pub longest_item_lens: (u16, u16, u16, u16, u16, u16),
    /// The scrollbar.
    pub scroll_state: Scroll,
    /// The project's own license, if it is known.
    pub project_license: Option<String>,
    /// The column by which the rows are sorted, if they are.
    pub sort_column: Option<SortColumn>,
    /// The direction in which they are sorted.
    pub sort_direction: SortDirection,
    /// Whether the keys move the selection or choose a sort column.
    pub mode: AppMode,
    /// Position, among all columns, of the one offered for sorting.
    pub sort_column_selection: usize,
}

/// The last valid row index of a table of `len` rows, and zero for an empty table.
pub open spec fn last_row(len: nat) -> nat {
    if len == 0 {
        0
    } else {
        (len - 1) as nat
    }
}

/// The row below the selected one, going round from the last to the first.
pub open spec fn row_below(selected: Option<usize>, len: nat) -> nat {
    match selected {
        Some(i) => if i >= last_row(len) {
            0
        } else {
            (i + 1) as nat
        },
        None => 0,
    }
}

/// The row above the selected one, going round from the first to the last.
pub open spec fn row_above(selected: Option<usize>, len: nat) -> nat {
    match selected {
        Some(i) => if i == 0 {
            last_row(len)
        } else {
            (i - 1) as nat
        },
        None => 0,
    }
}

/// The direction after another request to sort by the column already sorted by.
pub open spec fn toggled(direction: SortDirection) -> SortDirection {
    match direction {
        SortDirection::Ascending => SortDirection::Descending,
        SortDirection::Descending => SortDirection::Ascending,
    }
}

impl App {
    /// The state is coherent: the selected row exists (or is the first of an
    /// empty table), the column offered for sorting is one of the six, and the
    /// scrollbar's positions can be counted.
    pub open spec fn well_formed(&self) -> bool {
        &&& self.items@.len() * ITEM_HEIGHT <= usize::MAX
        &&& self.sort_column_selection < all_columns().len()
        &&& match self.state.row {
            Some(i) => i <= last_row(self.items@.len()),
            None => true,
        }
    }

    /// The rows, how they are sorted, and the mode are as in `other`.
    pub open spec fn same_rows_as(&self, other: &App) -> bool {
        &&& self.items == other.items
        &&& self.longest_item_lens == other.longest_item_lens
        &&& self.project_license == other.project_license
        &&& self.sort_column == other.sort_column
        &&& self.sort_direction == other.sort_direction
        &&& self.mode == other.mode
        &&& self.sort_column_selection == other.sort_column_selection
    }

    /// Everything but the selected row and the scroll position is as in `other`.
    pub open spec fn same_table_as(&self, other: &App) -> bool {
        &&& self.same_rows_as(other)
        &&& self.state.column == other.state.column
        &&& self.scroll_state.content_length == other.scroll_state.content_length
    }

    /// Everything but the mode and the column offered for sorting is as in `other`.
    pub open spec fn same_view_as(&self, other: &App) -> bool {
        &&& self.items == other.items
        &&& self.longest_item_lens == other.longest_item_lens
        &&& self.project_license == other.project_license
        &&& self.sort_column == other.sort_column
        &&& self.sort_direction == other.sort_direction
        &&& self.state == other.state
        &&& self.scroll_state == other.scroll_state
    }

    /// The table over `license_data`: first row selected, unsorted, in normal mode.
    pub fn new(license_data: Vec<LicenseInfo>, project_license: Option<String>) -> (app: App)
        requires
            license_data@.len() * ITEM_HEIGHT <= usize::MAX,
        ensures
            app.well_formed(),
            app.items == license_data,
            app.project_license == project_license,
            app.state == (Selection { row: Some(0), column: None }),
            app.longest_item_lens == column_widths(license_data@),
            app.scroll_state == (Scroll {
                content_length: (last_row(license_data@.len()) * ITEM_HEIGHT) as usize,
                position: 0,
            }),
            app.sort_column is None,
            app.sort_direction == SortDirection::Ascending,
            app.mode == AppMode::Normal,
            app.sort_column_selection == 0,
    {
        let widths = constraint_len_calculator(&license_data);
        let last = if license_data.len() == 0 {
            0
        } else {
            license_data.len() - 1
        };
        assert(last * ITEM_HEIGHT <= license_data@.len() * ITEM_HEIGHT) by (nonlinear_arith)
            requires
                last <= license_data@.len(),
        ;
        App {
            state: Selection { row: Some(0), column: None },
            longest_item_lens: widths,
            scroll_state: Scroll { content_length: last * ITEM_HEIGHT, position: 0 },
            items: license_data,
            project_license,
            sort_column: None,
            sort_direction: SortDirection::Ascending,
            mode: AppMode::Normal,
            sort_column_selection: 0,
        }
    }

    fn select_row(&mut self, row: usize)
        requires
            old(self).well_formed(),
            row <= last_row(old(self).items@.len()),
        ensures
            final(self).well_formed(),
            final(self).same_table_as(old(self)),
            final(self).state.row == Some(row),
            final(self).scroll_state.position == row * ITEM_HEIGHT,
    {
        assert(row * ITEM_HEIGHT <= self.items@.len() * ITEM_HEIGHT) by (nonlinear_arith)
            requires
                row <= self.items@.len(),
        ;
        self.state.select(Some(row));
        self.scroll_state.position = row * ITEM_HEIGHT;
    }

    /// Moves the selection one row down, from the last row to the first.
    pub fn next_row(&mut self)
        requires
            old(self).well_formed(),
        ensures
            final(self).well_formed(),
            final(self).same_table_as(old(self)),
            final(self).state.row == Some(
                row_below(old(self).state.row, old(self).items@.len()) as usize,
            ),
            final(self).scroll_state.position == row_below(
                old(self).state.row,
                old(self).items@.len(),
            ) * ITEM_HEIGHT,
    {
        let last = if self.items.len() == 0 {
            0
        } else {
            self.items.len() - 1
        };
        let i = match self.state.selected() {
            Some(i) => if i >= last {
                0
            } else {
                i + 1
            },
            None => 0,
        };
        self.select_row(i);
    }

    /// Moves the selection one row up, from the first row to the last.
    pub fn previous_row(&mut self)
        requires
            old(self).well_formed(),
        ensures
            final(self).well_formed(),
            final(self).same_table_as(old(self)),
            final(self).state.row == Some(
                row_above(old(self).state.row, old(self).items@.len()) as usize,
            ),
            final(self).scroll_state.position == row_above(
                old(self).state.row,
                old(self).items@.len(),
            ) * ITEM_HEIGHT,
    {
        let last = if self.items.len() == 0 {
            0
        } else {
            self.items.len() - 1
        };
        let i = match self.state.selected() {
            Some(i) => if i == 0 {
                last
            } else {
                i - 1
            },
            None => 0,
        };
        self.select_row(i);
    }

    /// Moves the selection one column to the right.
    pub fn next_column(&mut self)
        ensures
            final(self).state.column == Some(column_after(old(self).state.column)),
            final(self).state.row == old(self).state.row,
            final(self).scroll_state == old(self).scroll_state,
            final(self).same_rows_as(old(self)),
            old(self).well_formed() ==> final(self).well_formed(),
    {
        self.state.select_next_column();
    }

    /// Moves the selection one column to the left.
    pub fn previous_column(&mut self)
        ensures
            final(self).state.column == Some(column_before(old(self).state.column)),
            final(self).state.row == old(self).state.row,
            final(self).scroll_state == old(self).scroll_state,
            final(self).same_rows_as(old(self)),
            old(self).well_formed() ==> final(self).well_formed(),
    {
        self.state.select_previous_column();
    }

    /// Enters sort mode, offering the column sorted by, or the first column
    /// where the rows are not sorted.
    pub fn enter_sort_mode(&mut self)
        ensures
            final(self).mode == AppMode::Sorting,
            final(self).sort_column_selection == (match old(self).sort_column {
                Some(column) => column.position(),
                None => 0,
            }),
            final(self).same_view_as(old(self)),
            old(self).items@.len() * ITEM_HEIGHT <= usize::MAX && (match old(self).state.row {
                Some(i) => i <= last_row(old(self).items@.len()),
                None => true,
            }) ==> final(self).well_formed(),
    {
        self.mode = AppMode::Sorting;
        self.sort_column_selection = match self.sort_column {
            Some(SortColumn::Name) => 0,
            Some(SortColumn::Version) => 1,
            Some(SortColumn::License) => 2,
            Some(SortColumn::Restrictive) => 3,
            Some(SortColumn::Compatibility) => 4,
            Some(SortColumn::OsiStatus) => 5,
            None => 0,
        };
    }

    /// Leaves sort mode without sorting.
    pub fn exit_sort_mode(&mut self)
        ensures
            final(self).mode == AppMode::Normal,
            final(self).sort_column_selection == old(self).sort_column_selection,
            final(self).same_view_as(old(self)),
            old(self).well_formed() ==> final(self).well_formed(),
    {
        self.mode = AppMode::Normal;
    }

    /// Offers the next column for sorting; at the last column nothing changes.
    pub fn next_sort_column(&mut self)
        ensures
            final(self).sort_column_selection == (if old(self).sort_column_selection + 1
                < all_columns().len() {
                (old(self).sort_column_selection + 1) as usize
            } else {
                old(self).sort_column_selection
            }),
            final(self).mode == old(self).mode,
            final(self).same_view_as(old(self)),
            old(self).well_formed() ==> final(self).well_formed(),
    {
        if self.sort_column_selection < 5 {
            self.sort_column_selection += 1;
        }
    }

    /// Offers the previous column for sorting; at the first column nothing changes.
    pub fn previous_sort_column(&mut self)
        ensures
            final(self).sort_column_selection == (if old(self).sort_column_selection > 0 {
                (old(self).sort_column_selection - 1) as usize
            } else {
                old(self).sort_column_selection
            }),
            final(self).mode == old(self).mode,
            final(self).same_view_as(old(self)),
            old(self).well_formed() ==> final(self).well_formed(),
    {
        if self.sort_column_selection > 0 {
            self.sort_column_selection -= 1;
        }
    }

    /// Sorts the rows by the sort column in the sort direction, selects the
    /// first row and rewinds the scrollbar. Where no sort column is set,
    /// nothing changes.
    pub fn apply_sort(&mut self)
        requires
            old(self).well_formed(),
        ensures
            final(self).well_formed(),
            final(self).longest_item_lens == old(self).longest_item_lens,
            final(self).project_license == old(self).project_license,
            final(self).sort_column == old(self).sort_column,
            final(self).sort_direction == old(self).sort_direction,
            final(self).mode == old(self).mode,
            final(self).sort_column_selection == old(self).sort_column_selection,
            final(self).state.column == old(self).state.column,
            match old(self).sort_column {
                Some(column) => {
                    &&& final(self).items@ == sorted(
                        old(self).items@,
                        column,
                        old(self).sort_direction == SortDirection::Ascending,
                    )
                    &&& final(self).state.row == Some(0usize)
                    &&& final(self).scroll_state == (Scroll {
                        content_length: (last_row(old(self).items@.len()) * ITEM_HEIGHT) as usize,
                        position: 0,
                    })
                },
                None => {
                    &&& final(self).items == old(self).items
                    &&& final(self).state == old(self).state
                    &&& final(self).scroll_state == old(self).scroll_state
                },
            },
    {
        match self.sort_column {
            Some(column) => {
                let ascending = self.sort_direction == SortDirection::Ascending;
                sort_rows(&mut self.items, column, ascending);
                self.state.select(Some(0));
                let last = if self.items.len() == 0 {
                    0
                } else {
                    self.items.len() - 1
                };
                assert(last * ITEM_HEIGHT <= self.items@.len() * ITEM_HEIGHT) by (nonlinear_arith)
                    requires
                        last <= self.items@.len(),
                ;
                self.scroll_state = Scroll { content_length: last * ITEM_HEIGHT, position: 0 };
            },
            None => {},
        }
    }

    /// Sorts by the column offered: downwards or upwards in turn where the
    /// rows are already sorted by it, upwards otherwise. Then leaves sort mode.
    pub fn apply_current_sort(&mut self)
        requires
            old(self).well_formed(),
        ensures
            final(self).well_formed(),
            final(self).mode == AppMode::Normal,
            final(self).sort_column == Some(
                all_columns()[old(self).sort_column_selection as int],
            ),
            final(self).sort_direction == (if old(self).sort_column == final(self).sort_column {
                toggled(old(self).sort_direction)
            } else {
                SortDirection::Ascending
            }),
            final(self).items@ == sorted(
                old(self).items@,
                all_columns()[old(self).sort_column_selection as int],
                final(self).sort_direction == SortDirection::Ascending,
            ),
            final(self).state.row == Some(0usize),
            final(self).state.column == old(self).state.column,
            final(self).scroll_state == (Scroll {
                content_length: (last_row(old(self).items@.len()) * ITEM_HEIGHT) as usize,
                position: 0,
            }),
            final(self).sort_column_selection == old(self).sort_column_selection,
            final(self).longest_item_lens == old(self).longest_item_lens,
            final(self).project_license == old(self).project_license,
    {
        let columns = SortColumn::all();
        let column = columns[self.sort_column_selection];
        let same = match self.sort_column {
            Some(current) => current == column,
            None => false,
        };
        if same {
            self.sort_direction = match self.sort_direction {
                SortDirection::Ascending => SortDirection::Descending,
                SortDirection::Descending => SortDirection::Ascending,
            };
        } else {
            self.sort_column = Some(column);
            self.sort_direction = SortDirection::Ascending;
        }
        self.apply_sort();
        self.exit_sort_mode();
    }
}

/// The arrow that shows a sort direction.
pub open spec fn arrow(direction: SortDirection) -> Seq<char> {
    match direction {
        SortDirection::Ascending => "↑"@,
        SortDirection::Descending => "↓"@,
    }
}

/// The label at the head of a column: its heading, and the arrow of the sort
/// direction where the rows are sorted by it.
pub open spec fn header_label(
    column: SortColumn,
    sort_column: Option<SortColumn>,
    direction: SortDirection,
) -> Seq<char> {
    if sort_column == Some(column) {
        column.heading() + " "@ + arrow(direction)
    } else {
        column.heading()
    }
}

/// How sort mode offers the first `n` columns: the one offered for sorting
/// between marks, the others plain.
pub open spec fn column_choices(selection: int, n: int) -> Seq<char>
    decreases n,
{
    if n <= 0 || n > all_columns().len() {
        Seq::empty()
    } else if selection == n - 1 {
        column_choices(selection, n - 1) + "[>"@ + all_columns()[n - 1].heading() + "< ] "@
    } else {
        column_choices(selection, n - 1) + " "@ + all_columns()[n - 1].heading() + "  "@
    }
}

/// How the current sort is named in sort mode.
pub open spec fn current_sort(sort_column: Option<SortColumn>, direction: SortDirection) -> Seq<
    char,
> {
    match sort_column {
        Some(column) => "Current: "@ + column.heading() + " "@ + arrow(direction),
        None => "Current: None"@,
    }
}

/// How the current sort is named in normal mode; nothing where the rows are
/// not sorted.
pub open spec fn sort_indicator(sort_column: Option<SortColumn>, direction: SortDirection) -> Seq<
    char,
> {
    match sort_column {
        Some(column) => " | Sort: "@ + column.heading() + " "@ + arrow(direction),
        None => Seq::empty(),
    }
}

fn arrow_of(direction: SortDirection) -> (text: &'static str)
    ensures
        text@ == arrow(direction),
{
    match direction {
        SortDirection::Ascending => "↑",
        SortDirection::Descending => "↓",
    }
}

impl App {
    /// The text below the table: in sort mode the columns to choose from and
    /// the current sort; in normal mode the project's license, the key
    /// bindings, and the current sort.
    pub open spec fn footer(&self) -> Seq<char> {
        match self.mode {
            AppMode::Sorting => "Sort Mode\n"@ + column_choices(
                self.sort_column_selection as int,
                all_columns().len() as int,
            ) + "\n"@ + current_sort(self.sort_column, self.sort_direction),
            AppMode::Normal => "Project: "@ + (match self.project_license {
                Some(license) => license@,
                None => "Unknown"@,
            }) + " | "@ + INFO_TEXT[0]@ + sort_indicator(self.sort_column, self.sort_direction)
                + "\n"@ + INFO_TEXT[1]@,
        }
    }

    /// The labels at the heads of the six columns.
    pub fn header_labels(&self) -> (labels: Vec<String>)
        ensures
            labels@.len() == all_columns().len(),
            forall|i: int|
                0 <= i < labels@.len() ==> #[trigger] labels@[i]@ == header_label(
                    all_columns()[i],
                    self.sort_column,
                    self.sort_direction,
                ),
    {
        let columns = SortColumn::all();
        let mut labels: Vec<String> = Vec::new();
        let mut i: usize = 0;
        while i < 6
            invariant
                i <= 6,
                columns@ == all_columns(),
                labels@.len() == i,
                forall|j: int|
                    0 <= j < i ==> #[trigger] labels@[j]@ == header_label(
                        all_columns()[j],
                        self.sort_column,
                        self.sort_direction,
                    ),
            decreases 6 - i,
        {
            let column = columns[i];
            let mut label: Vec<char> = Vec::new();
            push_str(&mut label, column.display_name());
            let sorted_by = match self.sort_column {
                Some(current) => current == column,
                None => false,
            };
            if sorted_by {
                push_str(&mut label, " ");
                push_str(&mut label, arrow_of(self.sort_direction));
            }
            assert(label@ =~= header_label(column, self.sort_column, self.sort_direction));
            labels.push(string_from_chars(&label));
            i += 1;
        }
        labels
    }

    /// The text below the table.
    pub fn footer_text(&self) -> (text: String)
        ensures
            text@ == self.footer(),
    {
        let mut out: Vec<char> = Vec::new();
        match self.mode {
            AppMode::Sorting => {
                push_str(&mut out, "Sort Mode\n");
                let columns = SortColumn::all();
                let mut i: usize = 0;
                while i < 6
                    invariant
                        i <= 6,
                        columns@ == all_columns(),
                        out@ == "Sort Mode\n"@ + column_choices(
                            self.sort_column_selection as int,
                            i as int,
                        ),
                    decreases 6 - i,
                {
                    let ghost before = out@;
                    if i == self.sort_column_selection {
                        push_str(&mut out, "[>");
                        push_str(&mut out, columns[i].display_name());
                        push_str(&mut out, "< ] ");
                    } else {
                        push_str(&mut out, " ");
                        push_str(&mut out, columns[i].display_name());
                        push_str(&mut out, "  ");
                    }
                    assert(out@ =~= "Sort Mode\n"@ + column_choices(
                        self.sort_column_selection as int,
                        i + 1,
                    ));
                    i += 1;
                }
                push_str(&mut out, "\n");
                match self.sort_column {
                    Some(column) => {
                        push_str(&mut out, "Current: ");
                        push_str(&mut out, column.display_name());
                        push_str(&mut out, " ");
                        push_str(&mut out, arrow_of(self.sort_direction));
                    },
                    None => {
                        push_str(&mut out, "Current: None");
                    },
                }
                assert(out@ =~= self.footer());
            },
            AppMode::Normal => {
                push_str(&mut out, "Project: ");
                match &self.project_license {
                    Some(license) => {
                        push_str(&mut out, license.as_str());
                    },
                    None => {
                        push_str(&mut out, "Unknown");
                    },
                }
                push_str(&mut out, " | ");
                push_str(&mut out, INFO_TEXT[0]);
                match self.sort_column {
                    Some(column) => {
                        push_str(&mut out, " | Sort: ");
                        push_str(&mut out, column.display_name());
                        push_str(&mut out, " ");
                        push_str(&mut out, arrow_of(self.sort_direction));
                    },
                    None => {},
                }
                push_str(&mut out, "\n");
                push_str(&mut out, INFO_TEXT[1]);
                assert(out@ =~= self.footer());
            },
        }
        string_from_chars(&out)
    }
}

/// A key that was pressed.
#[derive(Debug, Clone, Copy, PartialEq, Eq, Structural)]
pub enum Key {
    Char(char),
    Esc,
    Enter,
    Up,
    Down,
    Left,
    Right,
    /// Any other key.
    Other,
}

/// What a key press asks for.
#[derive(Debug, Clone, Copy, PartialEq, Eq, Structural)]
pub enum Command {
    Quit,
    NextRow,
    PreviousRow,
    NextColumn,
    PreviousColumn,
    EnterSortMode,
    ExitSortMode,
    NextSortColumn,
    PreviousSortColumn,
    ApplyCurrentSort,
    Nothing,
}

/// What a key asks for in a mode. In normal mode `q` and escape quit, the
/// arrows and `h`, `j`, `k`, `l` move the selection, and `s` enters sort
/// mode. In sort mode left and right, or `h` and `l`, choose the column,
/// enter sorts by it, and `q` and escape leave the mode.
pub open spec fn command_of(mode: AppMode, key: Key) -> Command {
    match mode {
        AppMode::Normal => match key {
            Key::Char('q') | Key::Esc => Command::Quit,
            Key::Char('j') | Key::Down => Command::NextRow,
            Key::Char('k') | Key::Up => Command::PreviousRow,
            Key::Char('l') | Key::Right => Command::NextColumn,
            Key::Char('h') | Key::Left => Command::PreviousColumn,
            Key::Char('s') => Command::EnterSortMode,
            _ => Command::Nothing,
        },
        AppMode::Sorting => match key {
            Key::Left | Key::Char('h') => Command::PreviousSortColumn,
            Key::Right | Key::Char('l') => Command::NextSortColumn,
            Key::Enter => Command::ApplyCurrentSort,
            Key::Char('q') | Key::Esc => Command::ExitSortMode,
            _ => Command::Nothing,
        },
    }
}

/// What a key asks for in a mode.
pub fn command_for(mode: AppMode, key: Key) -> (command: Command)
    ensures
        command == command_of(mode, key),
{
    match mode {
        AppMode::Normal => match key {
            Key::Char('q') | Key::Esc => Command::Quit,
            Key::Char('j') | Key::Down => Command::NextRow,
            Key::Char('k') | Key::Up => Command::PreviousRow,
            Key::Char('l') | Key::Right => Command::NextColumn,
            Key::Char('h') | Key::Left => Command::PreviousColumn,
            Key::Char('s') => Command::EnterSortMode,
            _ => Command::Nothing,
        },
        AppMode::Sorting => match key {
            Key::Left | Key::Char('h') => Command::PreviousSortColumn,
            Key::Right | Key::Char('l') => Command::NextSortColumn,
            Key::Enter => Command::ApplyCurrentSort,
            Key::Char('q') | Key::Esc => Command::ExitSortMode,
            _ => Command::Nothing,
        },
    }
}

} // verus!
