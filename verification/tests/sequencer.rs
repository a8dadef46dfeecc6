use ratatui::layout::{Constraint, Layout};
use tracker::action::Action;
use tracker::components::sequencer::{Mode, SequencerWidgit};
use tracker::components::tab::FocusedTab;
use tracker::key::Key;
use tracker::layout::Rect;

fn focused() -> SequencerWidgit {
    let mut s = SequencerWidgit::new();
    s.update(&Action::TabFocus(FocusedTab::Sequencer));
    s
}

#[test]
fn new_sequencer_starts_in_second_row_middle_cell() {
    let s = SequencerWidgit::new();
    assert!(!s.is_active());
    assert_eq!(s.columns(), 5);
    assert_eq!(s.rows(), 5);
    assert_eq!(s.cursor(), (0, 1, 1));
    assert_eq!(s.mode(), Mode::Normal);
    for t in 0..5 {
        assert_eq!(s.selected_cell(t), None);
    }
}

#[test]
fn inactive_sequencer_ignores_keys() {
    let mut s = SequencerWidgit::new();
    s.handle_key_event(Key::Right);
    s.handle_key_event(Key::Char('i'));
    assert_eq!(s.cursor(), (0, 1, 1));
    assert_eq!(s.mode(), Mode::Normal);
    assert_eq!(s.selected_cell(0), None);
}

#[test]
fn focus_on_other_tab_deactivates() {
    let mut s = focused();
    assert!(s.is_active());
    s.update(&Action::Tick);
    assert!(s.is_active());
    s.update(&Action::TabFocus(FocusedTab::Sampler));
    assert!(!s.is_active());
}

#[test]
fn right_moves_across_tables_and_moves_selection() {
    let mut s = focused();
    s.handle_key_event(Key::Right);
    assert_eq!(s.cursor(), (0, 1, 2));
    assert_eq!(s.selected_cell(0), Some((1, 2)));
    s.handle_key_event(Key::Char('l'));
    assert_eq!(s.cursor(), (1, 1, 0));
    assert_eq!(s.selected_cell(0), None);
    assert_eq!(s.selected_cell(1), Some((1, 0)));
}

#[test]
fn left_moves_back_to_previous_table() {
    let mut s = focused();
    s.handle_key_event(Key::Right);
    s.handle_key_event(Key::Right);
    s.handle_key_event(Key::Char('h'));
    assert_eq!(s.cursor(), (0, 1, 2));
    assert_eq!(s.selected_cell(1), None);
    assert_eq!(s.selected_cell(0), Some((1, 2)));
}

#[test]
fn cursor_stops_at_left_end() {
    let mut s = focused();
    s.handle_key_event(Key::Left);
    s.handle_key_event(Key::Left);
    s.handle_key_event(Key::Left);
    assert_eq!(s.cursor(), (0, 1, 0));
    assert_eq!(s.selected_cell(0), Some((1, 0)));
}

#[test]
fn cursor_stops_at_right_end() {
    let mut s = focused();
    for _ in 0..20 {
        s.handle_key_event(Key::Char('l'));
    }
    assert_eq!(s.cursor(), (4, 1, 2));
    for t in 0..4 {
        assert_eq!(s.selected_cell(t), None);
    }
    assert_eq!(s.selected_cell(4), Some((1, 2)));
}

#[test]
fn rows_stop_at_first_and_last() {
    let mut s = focused();
    s.handle_key_event(Key::Up);
    s.handle_key_event(Key::Char('k'));
    assert_eq!(s.cursor(), (0, 0, 1));
    for _ in 0..10 {
        s.handle_key_event(Key::Char('j'));
    }
    assert_eq!(s.cursor(), (0, 4, 1));
    s.handle_key_event(Key::Down);
    assert_eq!(s.cursor(), (0, 4, 1));
    assert_eq!(s.selected_cell(0), Some((4, 1)));
}

#[test]
fn right_then_left_returns() {
    let mut s = focused();
    s.handle_key_event(Key::Char('l'));
    s.handle_key_event(Key::Char('h'));
    assert_eq!(s.cursor(), (0, 1, 1));
    s.handle_key_event(Key::Down);
    s.handle_key_event(Key::Up);
    assert_eq!(s.cursor(), (0, 1, 1));
}

#[test]
fn edit_mode_and_back() {
    let mut s = focused();
    s.handle_key_event(Key::Char('i'));
    assert_eq!(s.mode(), Mode::Edit);
    assert_eq!(s.selected_cell(0), Some((1, 1)));
    s.handle_key_event(Key::Char('l'));
    s.handle_key_event(Key::Down);
    assert_eq!(s.cursor(), (0, 1, 1));
    assert_eq!(s.mode(), Mode::Edit);
    s.handle_key_event(Key::Esc);
    assert_eq!(s.mode(), Mode::Normal);
    s.handle_key_event(Key::Char('l'));
    assert_eq!(s.cursor(), (0, 1, 2));
}

#[test]
fn command_mode_and_back() {
    let mut s = focused();
    s.handle_key_event(Key::Char(':'));
    assert_eq!(s.mode(), Mode::Command);
    s.handle_key_event(Key::Char('q'));
    assert_eq!(s.mode(), Mode::Command);
    s.handle_key_event(Key::Esc);
    assert_eq!(s.mode(), Mode::Normal);
}

#[test]
fn escape_in_normal_mode_selects_cursor_only() {
    let mut s = focused();
    s.handle_key_event(Key::Esc);
    assert_eq!(s.mode(), Mode::Normal);
    assert_eq!(s.cursor(), (0, 1, 1));
    assert_eq!(s.selected_cell(0), Some((1, 1)));
}

#[test]
fn blank_row_cycles_placeholders() {
    let s = SequencerWidgit::new();
    let row = s.blank_row();
    assert_eq!(row.len(), 15);
    assert_eq!(&row[0..6], &["---", "--", "--", "---", "--", "--"]);
    assert_eq!(row[14], "--");
}

#[test]
fn layout_has_title_line_and_nine_rows_of_five_tables() {
    let s = SequencerWidgit::new();
    let area = Rect { x: 0, y: 0, width: 80, height: 24 };
    let (title, rows) = s.calculate_layout(area);
    assert_eq!(title, Rect { x: 0, y: 0, width: 80, height: 1 });
    assert_eq!(rows.len(), 9);
    for row in &rows {
        assert_eq!(row.len(), 5);
    }
    let first = &rows[0];
    for (i, cell) in first.iter().enumerate() {
        assert_eq!(cell.x, 11 * i as u16);
        assert_eq!(cell.width, 11);
    }
}

#[test]
fn layout_agrees_with_ratatui() {
    let s = SequencerWidgit::new();
    let area = Rect { x: 2, y: 3, width: 100, height: 40 };
    let (title, rows) = s.calculate_layout(area);
    let r = ratatui::layout::Rect::new(2, 3, 100, 40);
    let [t, main] = Layout::vertical([Constraint::Length(1), Constraint::Min(0)]).areas(r);
    assert_eq!((title.x, title.y, title.width, title.height), (t.x, t.y, t.width, t.height));
    let blocks = Layout::vertical([Constraint::Max(10); 9]).split(main);
    for (i, b) in blocks.iter().enumerate() {
        let cells = Layout::horizontal([Constraint::Length(11); 5]).split(*b);
        for (j, c) in cells.iter().enumerate() {
            let mine = rows[i][j];
            assert_eq!((mine.x, mine.y, mine.width, mine.height), (c.x, c.y, c.width, c.height));
        }
    }
}

#[test]
fn layout_tables_sit_side_by_side_below_title() {
    let s = SequencerWidgit::new();
    let area = Rect { x: 3, y: 2, width: 70, height: 30 };
    let (title, rows) = s.calculate_layout(area);
    assert_eq!(title, Rect { x: 3, y: 2, width: 70, height: 1 });
    for row in &rows {
        for (j, table) in row.iter().enumerate() {
            assert_eq!(table.x, 3 + 11 * j as u16);
            assert_eq!(table.width, 11);
            assert!(table.y >= 3);
            assert!(table.y + table.height <= 32);
            assert_eq!(table.y, row[0].y);
        }
    }
}
