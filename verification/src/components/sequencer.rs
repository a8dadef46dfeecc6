use vstd::prelude::*;

use crate::action::Action;
use crate::components::tab::{in_front_after, FocusedTab};
use crate::key::{is_down, is_left, is_right, is_up, Key};
use crate::layout::{
    all_lengths, bottom_edge, header_part, is_band_of, is_strip_of, lemma_repeated_lengths,
    repeat_constraint, repeated, rest_part, right_edge, split_horizontal, split_vertical,
    total_length, within_columns, within_lines, Constraint, Rect,
};

verus! {

/// Cells per row of a table: the note, the volume and the effect of a tile.
pub const CELLS_PER_TABLE: usize = 3;

/// Tables side by side on the sequencer screen.
pub const TABLE_COUNT: usize = 5;

/// Rows of each table.
pub const ROW_COUNT: usize = 5;

/// What the keys do: move the cursor, or type into a cell, or type a command.
#[derive(Clone, Copy, Debug, PartialEq, Eq, Structural)]
pub enum Mode {
    Normal,
    Edit,
    Command,
}

impl Default for Mode {
    /// The sequencer starts in normal mode.
    fn default() -> (mode: Mode)
        ensures
            mode == Mode::Normal,
    {
        Mode::Normal
    }
}

/// One row of a table: the note played, its volume and its effect.
pub struct Tile {
    note: String,
    vol: String,
    fx: String,
}

/// The abstract state of the sequencer: the table size, the cursor, the mode,
/// and the cell that each table shows as selected.
pub struct SequencerView {
    pub active: bool,
    pub columns: usize,
    pub rows: usize,
    pub table: usize,
    pub row: usize,
    pub column: usize,
    pub mode: Mode,
    pub selections: Seq<Option<(usize, usize)>>,
}

impl SequencerView {
    /// The shape is sound, every table has a selection slot, and the cursor
    /// lies inside the tables.
    pub open spec fn shape_ok(self) -> bool {
        &&& 1 <= self.columns
        &&& 1 <= self.rows
        &&& self.table < self.columns
        &&& self.row < self.rows
        &&& self.column < CELLS_PER_TABLE
        &&& self.selections.len() == self.columns
    }

    /// The shape is sound, the cursor lies inside it, and no table but the
    /// one under the cursor shows a selected cell; that one, if any, shows
    /// the cursor's cell.
    pub open spec fn wf(self) -> bool {
        &&& self.shape_ok()
        &&& forall|t: int|
            0 <= t < self.columns && t != self.table ==> #[trigger] self.selections[t] is None
        &&& (self.selections[self.table as int] is None || self.selections[self.table as int]
            == Some((self.row, self.column)))
    }

    /// The cursor's place on the strip of cells that runs through all the
    /// tables from left to right.
    pub open spec fn position(self) -> int {
        CELLS_PER_TABLE * self.table + self.column
    }
}

/// The place on the strip of `cells` cells after the key: left and right
/// move one cell, and stop at the ends of the strip.
pub open spec fn moved_position(position: int, cells: int, key: Key) -> int {
    if is_left(key) {
        if position == 0 {
            0
        } else {
            position - 1
        }
    } else if is_right(key) {
        if position + 1 < cells {
            position + 1
        } else {
            position
        }
    } else {
        position
    }
}

/// The row after the key: up and down move one row, and stop at the first
/// and the last row.
pub open spec fn moved_row(row: int, rows: int, key: Key) -> int {
    if is_down(key) && row + 1 < rows {
        row + 1
    } else if is_up(key) && row > 0 {
        row - 1
    } else {
        row
    }
}

/// Every table but `table` shows no selection; `table` shows `cell`.
pub open spec fn only_selected(columns: nat, table: int, cell: (usize, usize)) -> Seq<
    Option<(usize, usize)>,
> {
    Seq::new(columns, |t: int| if t == table { Some(cell) } else { None })
}

/// The state after a key in normal mode: the cursor moves along the strip of
/// cells or between rows, `i` enters edit mode, `:` enters command mode; the
/// table the cursor leaves shows no selection any more, and the table under
/// the cursor shows the cursor's cell selected.
pub open spec fn normal_mode_step(v: SequencerView, key: Key) -> SequencerView {
    let p = moved_position(v.position(), CELLS_PER_TABLE * v.columns, key);
    let table = (p / CELLS_PER_TABLE as int) as usize;
    let column = (p % CELLS_PER_TABLE as int) as usize;
    let row = moved_row(v.row as int, v.rows as int, key) as usize;
    let mode = if key == Key::Char('i') {
        Mode::Edit
    } else if key == Key::Char(':') {
        Mode::Command
    } else {
        v.mode
    };
    SequencerView {
        table,
        column,
        row,
        mode,
        selections: v.selections.update(v.table as int, None).update(
            table as int,
            Some((row, column)),
        ),
        ..v
    }
}

/// The state after a key in edit or command mode: escape goes back to normal
/// mode, and nothing else changes.
pub open spec fn typing_mode_step(v: SequencerView, key: Key) -> SequencerView {
    if key == Key::Esc {
        SequencerView { mode: Mode::Normal, ..v }
    } else {
        v
    }
}

/// The state after a key: an inactive sequencer ignores keys; otherwise the
/// mode decides.
pub open spec fn key_step(v: SequencerView, key: Key) -> SequencerView {
    if !v.active {
        v
    } else {
        match v.mode {
            Mode::Normal => normal_mode_step(v, key),
            _ => typing_mode_step(v, key),
        }
    }
}

/// Rows of table blocks on the sequencer screen.
pub const BLOCK_ROWS: usize = 9;

/// Tables in each row of blocks.
pub const BLOCKS_PER_ROW: usize = 5;

/// The most lines a block of tables takes.
pub const BLOCK_HEIGHT: u16 = 10;

/// The width of a table, in cells.
pub const BLOCK_WIDTH: u16 = 11;

/// The screen has a line for the title: its top line lies above its capped
/// bottom.
pub open spec fn has_title_line(area: Rect) -> bool {
    area.y + 1 <= bottom_edge(area)
}

/// The five tables of a row fit side by side across the screen.
pub open spec fn tables_fit(area: Rect) -> bool {
    area.x + BLOCK_WIDTH * BLOCKS_PER_ROW <= right_edge(area)
}

/// Where table `j` of a row whose first table is `first` lies on the screen
/// `area`: within the screen, on the same lines as the row's first table,
/// below the title line when there is one, and, when the tables fit, eleven
/// cells wide and eleven cells further right than the one before.
pub open spec fn table_placed(table: Rect, area: Rect, first: Rect, j: int) -> bool {
    &&& within_lines(table, area)
    &&& within_columns(table, area)
    &&& table.y == first.y
    &&& table.height == first.height
    &&& has_title_line(area) ==> table.y >= area.y + 1
    &&& tables_fit(area) ==> table.x == area.x + BLOCK_WIDTH * j && table.width == BLOCK_WIDTH
}

/// The placeholder shown in cell `i` of an empty row: `---` in a note's
/// cell, `--` in a volume's or an effect's.
pub open spec fn blank_cell(i: int) -> &'static str {
    if i % CELLS_PER_TABLE as int == 0 {
        "---"
    } else {
        "--"
    }
}

/// Tables of notes, edited with a cursor that moves like in a modal editor.
pub struct SequencerWidgit {
    active: bool,
    columns: usize,
    rows: usize,
    active_column: usize,
    active_row: usize,
    active_table: usize,
    mode: Mode,
    /// The cell that each table shows as selected, if any.
    table_states: Vec<Option<(usize, usize)>>,
}

impl View for SequencerWidgit {
    type V = SequencerView;

    closed spec fn view(&self) -> SequencerView {
        SequencerView {
            active: self.active,
            columns: self.columns,
            rows: self.rows,
            table: self.active_table,
            row: self.active_row,
            column: self.active_column,
            mode: self.mode,
            selections: self.table_states@,
        }
    }
}

impl SequencerWidgit {
    /// The widget's shape always holds: every table has a selection slot and
    /// the cursor lies inside the tables.
    #[verifier::type_invariant]
    spec fn shape_holds(&self) -> bool {
        self@.shape_ok()
    }

    /// An inactive sequencer of five tables of five rows, in normal mode,
    /// with the cursor on the middle cell of the second row of the first
    /// table and no cell selected.
    pub fn new() -> (s: SequencerWidgit)
        ensures
            s@.wf(),
            !s@.active,
            s@.columns == TABLE_COUNT,
            s@.rows == ROW_COUNT,
            s@.table == 0,
            s@.row == 1,
            s@.column == 1,
            s@.mode == Mode::Normal,
            s@.selections == Seq::new(TABLE_COUNT as nat, |t: int| None::<(usize, usize)>),
    {
        let mut table_states: Vec<Option<(usize, usize)>> = Vec::new();
        for _i in 0..TABLE_COUNT
            invariant
                table_states@ == Seq::new(_i as nat, |t: int| None::<(usize, usize)>),
        {
            table_states.push(None);
        }
        SequencerWidgit {
            active: false,
            columns: TABLE_COUNT,
            rows: ROW_COUNT,
            active_column: 1,
            active_row: 1,
            active_table: 0,
            mode: Mode::default(),
            table_states,
        }
    }

    /// Moves the cursor or changes the mode, then selects the cursor's cell
    /// in the table under it.
    fn normal_mode(&mut self, key: Key)
        ensures
            final(self)@ == normal_mode_step(old(self)@, key),
            old(self)@.wf() ==> final(self)@.wf(),
            final(self)@.columns == old(self)@.columns,
            final(self)@.rows == old(self)@.rows,
    {
        proof {
            use_type_invariant(&*self);
        }
        let ghost v = self@;
        match key {
            Key::Char('h') | Key::Left => {
                if self.active_column == 0 {
                    if self.active_table != 0 {
                        self.active_column = 2;
                        self.table_states[self.active_table] = None;
                        self.active_table -= 1;
                    }
                } else {
                    self.active_column -= 1;
                }
            },
            Key::Char('j') | Key::Down => {
                if self.active_row < self.rows - 1 {
                    self.active_row += 1;
                }
            },
            Key::Char('k') | Key::Up => {
                if self.active_row != 0 {
                    self.active_row -= 1;
                }
            },
            Key::Char('l') | Key::Right => {
                let next = self.active_column + 1;
                if next > 2 && self.active_table != self.columns - 1 {
                    self.active_column = 0;
                    self.table_states[self.active_table] = None;
                    self.active_table += 1;
                } else if next > 2 {
                    self.active_column = 2;
                } else {
                    self.active_column = next;
                }
            },
            Key::Char('i') => {
                self.mode = Mode::Edit;
            },
            Key::Char(':') => {
                self.mode = Mode::Command;
            },
            _ => {},
        }
        self.table_states[self.active_table] = Some((self.active_row, self.active_column));
        proof {
            let w = normal_mode_step(v, key);
            assert(self.active_table == w.table && self.active_column == w.column);
            assert(self.table_states@ =~= w.selections);
            if v.wf() {
                lemma_normal_mode_step_keeps_wf(v, key);
            }
        }
    }

    /// Escape goes back to normal mode; other keys are not acted on yet.
    fn edit_mode(&mut self, key: Key)
        ensures
            final(self)@ == typing_mode_step(old(self)@, key),
    {
        proof {
            use_type_invariant(&*self);
        }
        match key {
            Key::Esc => {
                self.mode = Mode::Normal;
            },
            _ => {},
        }
    }

    /// Escape goes back to normal mode; other keys are not acted on yet.
    fn command_mode(&mut self, key: Key)
        ensures
            final(self)@ == typing_mode_step(old(self)@, key),
    {
        proof {
            use_type_invariant(&*self);
        }
        match key {
            Key::Esc => {
                self.mode = Mode::Normal;
            },
            _ => {},
        }
    }

    /// Acts on a key when the sequencer is in front, as its mode directs.
    pub fn handle_key_event(&mut self, key: Key)
        ensures
            final(self)@ == key_step(old(self)@, key),
            final(self)@.shape_ok(),
            old(self)@.wf() ==> final(self)@.wf(),
    {
        proof {
            use_type_invariant(&*self);
        }
        if self.active {
            match self.mode {
                Mode::Normal => self.normal_mode(key),
                Mode::Edit => self.edit_mode(key),
                Mode::Command => self.command_mode(key),
            }
        }
        proof {
            use_type_invariant(&*self);
            if old(self)@.wf() {
                lemma_key_step_keeps_wf(old(self)@, key);
            }
        }
    }

    /// Comes to the front when the sequencer tab is focused, and leaves it
    /// when another tab is; other actions change nothing.
    pub fn update(&mut self, action: &Action) -> (reply: Option<Action>)
        ensures
            reply.is_none(),
            final(self)@.shape_ok(),
            old(self)@.wf() ==> final(self)@.wf(),
            final(self)@ == (match action {
                Action::TabFocus(_) => SequencerView {
                    active: in_front_after(FocusedTab::Sequencer, *action, old(self)@.active),
                    ..old(self)@
                },
                _ => old(self)@,
            }),
    {
        proof {
            use_type_invariant(&*self);
        }
        match action {
            Action::Tick => {},
            Action::Render => {},
            Action::TabFocus(focus) => {
                self.active = *focus == FocusedTab::Sequencer;
            },
            _ => {},
        }
        None
    }

    /// Whether the sequencer is in front.
    pub fn is_active(&self) -> (b: bool)
        ensures
            b == self@.active,
    {
        self.active
    }

    /// What the keys do now.
    pub fn mode(&self) -> (m: Mode)
        ensures
            m == self@.mode,
    {
        self.mode
    }

    /// The number of tables.
    pub fn columns(&self) -> (n: usize)
        ensures
            n == self@.columns,
    {
        self.columns
    }

    /// The number of rows of each table.
    pub fn rows(&self) -> (n: usize)
        ensures
            n == self@.rows,
    {
        self.rows
    }

    /// The cursor: its table, its row and its cell in the row.
    pub fn cursor(&self) -> (c: (usize, usize, usize))
        ensures
            c == (self@.table, self@.row, self@.column),
    {
        (self.active_table, self.active_row, self.active_column)
    }

    /// The cell (row, cell in the row) that table `table` shows as selected.
    pub fn selected_cell(&self, table: usize) -> (cell: Option<(usize, usize)>)
        requires
            table < self@.selections.len(),
        ensures
            cell == self@.selections[table as int],
    {
        proof {
            use_type_invariant(self);
        }
        self.table_states[table]
    }

    /// Lays out the sequencer screen: a title line on top, and below it nine
    /// rows of blocks, each row divided into five tables eleven cells wide,
    /// side by side from the left. Returns the title's area and, for each
    /// row of blocks, the areas of its tables. Every table lies within the
    /// screen, below the title line; how high each row of blocks is, and so
    /// where it falls below the title, is ratatui's solver's choice.
    pub fn calculate_layout(&self, area: Rect) -> (layout: (Rect, Vec<Vec<Rect>>))
        ensures
            is_band_of(layout.0, area),
            has_title_line(area) ==> layout.0 == header_part(area, 1),
            layout.1@.len() == BLOCK_ROWS,
            forall|i: int| 0 <= i < BLOCK_ROWS ==> (#[trigger] layout.1@[i])@.len() == BLOCKS_PER_ROW,
            forall|i: int, j: int|
                0 <= i < BLOCK_ROWS && 0 <= j < BLOCKS_PER_ROW ==> table_placed(
                    #[trigger] layout.1@[i]@[j],
                    area,
                    layout.1@[i]@[0],
                    j,
                ),
            forall|i: int, j: int|
                0 <= i < BLOCK_ROWS && 0 <= j && j + 1 < BLOCKS_PER_ROW && tables_fit(area) ==> (
                #[trigger] layout.1@[i]@[j]).x + layout.1@[i]@[j].width == layout.1@[i]@[j + 1].x,
    {
        let outer = split_vertical(area, &vec![Constraint::Length(1), Constraint::Min(0)]);
        let title_area = outer[0];
        let main_area = outer[1];
        proof {
            assert(outer@.len() == 2);
        }
        let rows = split_vertical(main_area, &repeat_constraint(Constraint::Max(BLOCK_HEIGHT), BLOCK_ROWS));
        let widths = repeat_constraint(Constraint::Length(BLOCK_WIDTH), BLOCKS_PER_ROW);
        proof {
            lemma_repeated_lengths(BLOCK_WIDTH, BLOCKS_PER_ROW as nat);
            assert forall|j: int| 0 <= j <= BLOCKS_PER_ROW implies total_length(
                #[trigger] widths@.take(j),
            ) == BLOCK_WIDTH * j by {
                lemma_repeated_lengths(BLOCK_WIDTH, j as nat);
            }
        }
        let mut main_areas: Vec<Vec<Rect>> = Vec::new();
        for i in 0..rows.len()
            invariant
                is_band_of(main_area, area),
                has_title_line(area) ==> main_area == rest_part(area, 1),
                rows@.len() == BLOCK_ROWS,
                forall|k: int| 0 <= k < rows@.len() ==> is_band_of(#[trigger] rows@[k], main_area),
                widths@ == repeated(Constraint::Length(BLOCK_WIDTH), BLOCKS_PER_ROW as nat),
                all_lengths(widths@),
                total_length(widths@) == BLOCK_WIDTH * BLOCKS_PER_ROW,
                forall|j: int|
                    0 <= j <= BLOCKS_PER_ROW ==> total_length(#[trigger] widths@.take(j))
                        == BLOCK_WIDTH * j,
                main_areas@.len() == i,
                forall|k: int| 0 <= k < i ==> (#[trigger] main_areas@[k])@.len() == BLOCKS_PER_ROW,
                forall|k: int, j: int|
                    0 <= k < i && 0 <= j < BLOCKS_PER_ROW ==> table_placed(
                        #[trigger] main_areas@[k]@[j],
                        area,
                        main_areas@[k]@[0],
                        j,
                    ),
        {
            let row = rows[i];
            assert(is_band_of(row, main_area));
            let tables = split_horizontal(row, &widths);
            main_areas.push(tables);
            proof {
                assert forall|k: int, j: int|
                    0 <= k < i + 1 && 0 <= j < BLOCKS_PER_ROW implies table_placed(
                        #[trigger] main_areas@[k]@[j],
                        area,
                        main_areas@[k]@[0],
                        j,
                    ) by {
                    if k == i {
                        assert(main_areas@[k]@[j] == tables@[j]);
                        assert(main_areas@[k]@[0] == tables@[0]);
                        assert(is_strip_of(tables@[j], row));
                        assert(is_strip_of(tables@[0], row));
                    }
                }
            }
        }
        proof {
            assert forall|i: int, j: int|
                0 <= i < BLOCK_ROWS && 0 <= j && j + 1 < BLOCKS_PER_ROW && tables_fit(
                    area,
                ) implies (#[trigger] main_areas@[i]@[j]).x + main_areas@[i]@[j].width
                == main_areas@[i]@[j + 1].x by {
                assert(table_placed(main_areas@[i]@[j], area, main_areas@[i]@[0], j));
                assert(table_placed(main_areas@[i]@[j + 1], area, main_areas@[i]@[0], j + 1));
            }
        }
        (title_area, main_areas)
    }

    /// The cells of an empty row of the screen: for each table, a three-wide
    /// placeholder for the note and two-wide ones for the volume and the
    /// effect.
    pub fn blank_row(&self) -> (cells: Vec<&'static str>)
        requires
            self@.columns * CELLS_PER_TABLE <= usize::MAX,
        ensures
            cells@.len() == self@.columns * CELLS_PER_TABLE,
            forall|i: int| 0 <= i < cells@.len() ==> #[trigger] cells@[i] == blank_cell(i),
    {
        let n = self.columns * CELLS_PER_TABLE;
        let mut cells: Vec<&'static str> = Vec::new();
        for i in 0..n
            invariant
                cells@.len() == i,
                forall|j: int| 0 <= j < i ==> #[trigger] cells@[j] == blank_cell(j),
        {
            if i % CELLS_PER_TABLE == 0 {
                cells.push("---");
            } else {
                cells.push("--");
            }
        }
        cells
    }
}

/// The cursor stays inside the tables, and only the table under the cursor
/// shows a selected cell, and that cell is the cursor's, whatever key comes.
pub proof fn lemma_key_step_keeps_wf(v: SequencerView, key: Key)
    requires
        v.wf(),
    ensures
        key_step(v, key).wf(),
{
    lemma_normal_mode_step_keeps_wf(v, key);
}

/// A key in normal mode keeps the shape of the tables, keeps the cursor
/// inside them, and leaves only the table under the cursor showing a selected
/// cell, the cursor's.
pub proof fn lemma_normal_mode_step_keeps_wf(v: SequencerView, key: Key)
    requires
        v.wf(),
    ensures
        normal_mode_step(v, key).wf(),
        normal_mode_step(v, key).columns == v.columns,
        normal_mode_step(v, key).rows == v.rows,
        normal_mode_step(v, key).selections == only_selected(
            v.columns as nat,
            normal_mode_step(v, key).table as int,
            (normal_mode_step(v, key).row, normal_mode_step(v, key).column),
        ),
{
    let w = normal_mode_step(v, key);
    assert(w.selections.len() == w.columns);
    assert(w.table < w.columns);
    assert(w.selections =~= only_selected(v.columns as nat, w.table as int, (w.row, w.column)));
}

/// In normal mode, whatever the mode field holds, a step right followed by a
/// step left puts the cursor back where it was unless it stood on the last
/// cell, also across a table boundary; a step left followed by a step right
/// does the same unless it stood on the first cell.
pub proof fn lemma_normal_steps_undo(v: SequencerView)
    requires
        v.wf(),
    ensures
        v.position() + 1 < CELLS_PER_TABLE * v.columns ==> same_cursor(
            normal_mode_step(normal_mode_step(v, Key::Right), Key::Left),
            v,
        ),
        v.position() > 0 ==> same_cursor(
            normal_mode_step(normal_mode_step(v, Key::Left), Key::Right),
            v,
        ),
        v.position() + 1 < CELLS_PER_TABLE * v.columns ==> same_cursor(
            normal_mode_step(normal_mode_step(v, Key::Char('l')), Key::Char('h')),
            v,
        ),
        v.position() > 0 ==> same_cursor(
            normal_mode_step(normal_mode_step(v, Key::Char('h')), Key::Char('l')),
            v,
        ),
{
    lemma_normal_mode_step_keeps_wf(v, Key::Right);
    lemma_normal_mode_step_keeps_wf(v, Key::Left);
    lemma_normal_mode_step_keeps_wf(v, Key::Char('l'));
    lemma_normal_mode_step_keeps_wf(v, Key::Char('h'));
}

/// The two states have the cursor on the same table, cell and row.
pub open spec fn same_cursor(v: SequencerView, w: SequencerView) -> bool {
    &&& v.table == w.table
    &&& v.column == w.column
    &&& v.row == w.row
}

/// In normal mode, a step right followed by a step left puts the cursor back
/// where it was, unless it stood on the last cell; a step left followed by a
/// step right does the same unless it stood on the first cell. Either way the
/// table under the cursor then shows the cursor's cell, and no other table
/// shows one.
pub proof fn lemma_horizontal_steps_undo(v: SequencerView)
    requires
        v.wf(),
        v.active,
        v.mode == Mode::Normal,
    ensures
        v.position() + 1 < CELLS_PER_TABLE * v.columns ==> {
            let w = key_step(key_step(v, Key::Right), Key::Left);
            &&& same_cursor(w, v)
            &&& w.mode == Mode::Normal
            &&& w.selections == only_selected(v.columns as nat, v.table as int, (v.row, v.column))
        },
        v.position() > 0 ==> {
            let w = key_step(key_step(v, Key::Left), Key::Right);
            &&& same_cursor(w, v)
            &&& w.mode == Mode::Normal
            &&& w.selections == only_selected(v.columns as nat, v.table as int, (v.row, v.column))
        },
{
    lemma_key_step_keeps_wf(v, Key::Right);
    lemma_key_step_keeps_wf(v, Key::Left);
}

/// In normal mode, a step down followed by a step up puts the cursor back on
/// its row, unless it stood on the last row; a step up followed by a step
/// down does the same unless it stood on the first row.
pub proof fn lemma_vertical_steps_undo(v: SequencerView)
    requires
        v.wf(),
        v.active,
        v.mode == Mode::Normal,
    ensures
        v.row + 1 < v.rows ==> same_cursor(key_step(key_step(v, Key::Down), Key::Up), v),
        v.row > 0 ==> same_cursor(key_step(key_step(v, Key::Up), Key::Down), v),
{
}

/// Whatever keys come, the cursor stays on the strip of cells, and left and
/// right at its ends leave it where it is.
pub proof fn lemma_cursor_stops_at_ends(v: SequencerView)
    requires
        v.wf(),
        v.active,
        v.mode == Mode::Normal,
    ensures
        v.position() == 0 ==> same_cursor(key_step(v, Key::Left), v),
        v.position() + 1 == CELLS_PER_TABLE * v.columns ==> same_cursor(key_step(v, Key::Right), v),
        v.row == 0 ==> same_cursor(key_step(v, Key::Up), v),
        v.row + 1 == v.rows ==> same_cursor(key_step(v, Key::Down), v),
{
}

/// Entering edit or command mode and leaving it with escape brings the
/// sequencer back to normal mode with the cursor where it was, and keys typed
/// in between move nothing.
pub proof fn lemma_typing_round_trip(v: SequencerView, enter: Key, typed: Key)
    requires
        v.wf(),
        v.active,
        v.mode == Mode::Normal,
        enter == Key::Char('i') || enter == Key::Char(':'),
        typed != Key::Esc,
    ensures
        ({
            let entered = key_step(v, enter);
            let w = key_step(key_step(entered, typed), Key::Esc);
            &&& entered.mode != Mode::Normal
            &&& key_step(entered, typed) == entered
            &&& same_cursor(w, v)
            &&& w.mode == Mode::Normal
        }),
{
}

/// In normal mode `i` enters edit mode and `:` command mode, and no other
/// key changes the mode; neither of the two moves the cursor.
pub proof fn lemma_mode_changes_only_on_i_and_colon(v: SequencerView, key: Key)
    requires
        v.wf(),
    ensures
        normal_mode_step(v, Key::Char('i')).mode == Mode::Edit,
        normal_mode_step(v, Key::Char(':')).mode == Mode::Command,
        key != Key::Char('i') && key != Key::Char(':') ==> normal_mode_step(v, key).mode == v.mode,
        same_cursor(normal_mode_step(v, Key::Char('i')), v),
        same_cursor(normal_mode_step(v, Key::Char(':')), v),
{
}

/// In normal mode only `h`, `j`, `k`, `l` and the arrows move the cursor:
/// every other key leaves it where it is, and afterwards the table under the
/// cursor shows the cursor's cell and no other table shows one.
pub proof fn lemma_other_keys_keep_cursor(v: SequencerView, key: Key)
    requires
        v.wf(),
        key != Key::Char('h') && key != Key::Left,
        key != Key::Char('j') && key != Key::Down,
        key != Key::Char('k') && key != Key::Up,
        key != Key::Char('l') && key != Key::Right,
    ensures
        same_cursor(normal_mode_step(v, key), v),
        normal_mode_step(v, key).selections == only_selected(
            v.columns as nat,
            v.table as int,
            (v.row, v.column),
        ),
{
    lemma_normal_mode_step_keeps_wf(v, key);
}

/// Each arrow moves the cursor by exactly one step where there is room: left
/// and right one cell along the strip of cells, up and down one row.
pub proof fn lemma_arrows_move_one_step(v: SequencerView)
    requires
        v.wf(),
    ensures
        v.position() > 0 ==> normal_mode_step(v, Key::Left).position() == v.position() - 1,
        v.position() + 1 < CELLS_PER_TABLE * v.columns ==> normal_mode_step(v, Key::Right).position()
            == v.position() + 1,
        v.row > 0 ==> normal_mode_step(v, Key::Up).row == v.row - 1,
        v.row + 1 < v.rows ==> normal_mode_step(v, Key::Down).row == v.row + 1,
        normal_mode_step(v, Key::Left).row == v.row,
        normal_mode_step(v, Key::Right).row == v.row,
        same_cursor(normal_mode_step(v, Key::Char('h')), normal_mode_step(v, Key::Left)),
        same_cursor(normal_mode_step(v, Key::Char('l')), normal_mode_step(v, Key::Right)),
        same_cursor(normal_mode_step(v, Key::Char('k')), normal_mode_step(v, Key::Up)),
        same_cursor(normal_mode_step(v, Key::Char('j')), normal_mode_step(v, Key::Down)),
{
}

/// In edit or command mode only escape does anything: it goes back to normal
/// mode and leaves the cursor and the selections as they were; every other
/// key changes nothing at all.
pub proof fn lemma_only_escape_leaves_typing(v: SequencerView, key: Key)
    ensures
        key != Key::Esc ==> typing_mode_step(v, key) == v,
        typing_mode_step(v, Key::Esc).mode == Mode::Normal,
        same_cursor(typing_mode_step(v, Key::Esc), v),
        typing_mode_step(v, Key::Esc).selections == v.selections,
        (v.active && v.mode != Mode::Normal && key != Key::Esc) ==> key_step(v, key) == v,
        !v.active ==> key_step(v, key) == v,
{
}

/// In an empty row, each table shows a three-wide placeholder in its note
/// cell and two-wide ones in its volume and effect cells.
pub proof fn lemma_blank_cells_fit_their_columns(table: int)
    requires
        table >= 0,
    ensures
        blank_cell(CELLS_PER_TABLE * table)@.len() == 3,
        blank_cell(CELLS_PER_TABLE * table + 1)@.len() == 2,
        blank_cell(CELLS_PER_TABLE * table + 2)@.len() == 2,
{
    reveal_strlit("---");
    reveal_strlit("--");
}

} // verus!
