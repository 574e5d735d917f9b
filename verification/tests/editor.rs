use mdedit::cursor::Cursor;
use mdedit::editor::is_exit_key;
use mdedit::editor::Editor;
use mdedit::editor::EditorMode;
use mdedit::editor::Refresh;
use mdedit::keys::Key;
use mdedit::keys::Modifiers;
use mdedit::menu_bar::MenuBar;
use mdedit::menu_bar::MenuCmd;
use mdedit::simple_dialog::SimpleDialog;

const W: u16 = 80;
const H: u16 = 24;

fn none() -> Modifiers {
    Modifiers::none()
}

#[test]
fn test_editor_new_defaults() {
    let ed = Editor::new();
    assert_eq!(ed.line_count(), 1);
    assert_eq!(ed.line_text(0).unwrap(), "");
    assert_eq!(ed.cursor.x, 0);
    assert_eq!(ed.cursor.get_y(), 0);
    assert_eq!(ed.mode, EditorMode::Editing);
}

#[test]
fn test_editor_insert_and_backspace() {
    let mut ed = Editor::new();
    let (r, save) = ed.on_key(none(), Key::Char('a'), W, H);
    assert_eq!(r, Refresh::Line);
    assert!(!save);
    ed.on_key(none(), Key::Char('가'), W, H);
    assert_eq!(ed.line_text(0).unwrap(), "a가");
    assert_eq!(ed.cursor.x, 3);

    let (r2, _) = ed.on_key(none(), Key::Backspace, W, H);
    assert_eq!(r2, Refresh::Line);
    assert_eq!(ed.line_text(0).unwrap(), "a");
    assert_eq!(ed.cursor.x, 1);
}

#[test]
fn test_editor_backspace_at_start_is_noop() {
    let mut ed = Editor::new();
    ed.on_key(none(), Key::Backspace, W, H);
    assert_eq!(ed.line_text(0).unwrap(), "");
    assert_eq!(ed.cursor.x, 0);
}

#[test]
fn test_editor_left_right() {
    let mut ed = Editor::new();
    ed.on_key(none(), Key::Char('가'), W, H);
    ed.on_key(none(), Key::Char('b'), W, H);
    assert_eq!(ed.cursor.x, 3);

    ed.on_key(none(), Key::Left, W, H);
    assert_eq!(ed.cursor.x, 2);
    ed.on_key(none(), Key::Left, W, H);
    assert_eq!(ed.cursor.x, 0);
    ed.on_key(none(), Key::Left, W, H);
    assert_eq!(ed.cursor.x, 0);

    ed.on_key(none(), Key::Right, W, H);
    assert_eq!(ed.cursor.x, 2);
    ed.on_key(none(), Key::Right, W, H);
    assert_eq!(ed.cursor.x, 3);
    ed.on_key(none(), Key::Right, W, H);
    assert_eq!(ed.cursor.x, 3);
}

#[test]
fn test_editor_enter_appends_line() {
    let mut ed = Editor::new();
    ed.on_key(none(), Key::Char('x'), W, H);
    let (r, _) = ed.on_key(none(), Key::Enter, W, H);
    assert_eq!(r, Refresh::Screen);
    assert_eq!(ed.line_count(), 2);
    assert_eq!(ed.cursor.get_y(), 1);
    assert_eq!(ed.cursor.x, 0);
    assert_eq!(ed.line_text(1).unwrap(), "");
}

#[test]
fn test_vertical_move_preserves_visual_column() {
    // Line A = "가b다" (widths 2, 1, 2), line B = "Hello". A cursor at
    // column 3 on A (byte offset 4) moving down to B lands at column 3,
    // byte offset 3.
    let mut ed = Editor::new();
    ed.load(vec![String::from("가b다"), String::from("Hello")]);

    ed.on_key(none(), Key::Right, W, H);
    ed.on_key(none(), Key::Right, W, H);
    assert_eq!(ed.cursor.x, 3);
    assert_eq!(ed.contents[0].get_byte_index(), 4);

    let (r, _) = ed.on_key(none(), Key::Down, W, H);
    assert_eq!(r, Refresh::Screen);
    assert_eq!(ed.cursor.get_y(), 1);
    assert_eq!(ed.cursor.x, 3);
    assert_eq!(ed.contents[1].get_byte_index(), 3);
}

#[test]
fn test_vertical_move_snaps_before_wide_glyph() {
    // Moving from "Hello" at column 3 up to "가b다" cannot land inside the
    // second wide glyph: the column snaps back to the byte offset after
    // "가b" (column 3, byte 4); from column 4 it would snap to column 3.
    let mut ed = Editor::new();
    ed.load(vec![String::from("가b다"), String::from("Hello")]);
    ed.on_key(none(), Key::Down, W, H);
    for _ in 0..4 {
        ed.on_key(none(), Key::Right, W, H);
    }
    assert_eq!(ed.cursor.x, 4);

    ed.on_key(none(), Key::Up, W, H);
    assert_eq!(ed.cursor.get_y(), 0);
    assert_eq!(ed.cursor.x, 3);
    assert_eq!(ed.contents[0].get_byte_index(), 4);
}

#[test]
fn test_menu_open_navigate_and_close() {
    let mut ed = Editor::new();
    let (r, _) = ed.on_key(none(), Key::F(10), W, H);
    assert_eq!(r, Refresh::Screen);
    assert_eq!(ed.mode, EditorMode::MenuOpen(0));

    // Wrap-around selection over the two default groups.
    ed.on_key(none(), Key::Right, W, H);
    assert_eq!(ed.mode, EditorMode::MenuOpen(1));
    ed.on_key(none(), Key::Right, W, H);
    assert_eq!(ed.mode, EditorMode::MenuOpen(0));
    ed.on_key(none(), Key::Left, W, H);
    assert_eq!(ed.mode, EditorMode::MenuOpen(1));

    let (r2, _) = ed.on_key(none(), Key::Esc, W, H);
    assert_eq!(r2, Refresh::Screen);
    assert_eq!(ed.mode, EditorMode::Editing);
}

#[test]
fn test_menu_enter_queues_command_for_next_tick() {
    let mut ed = Editor::new();
    assert_eq!(ed.poll_command(), None);

    ed.on_key(none(), Key::F(10), W, H);
    ed.on_key(none(), Key::Enter, W, H);
    // The command is queued, not executed inside the key handler.
    assert_eq!(ed.mode, EditorMode::Editing);
    assert_eq!(ed.poll_command(), Some(MenuCmd::Exit));
    assert_eq!(ed.poll_command(), None);
}

#[test]
fn test_menu_about_opens_dialog_via_queue() {
    let mut ed = Editor::new();
    ed.on_key(none(), Key::F(10), W, H);
    ed.on_key(none(), Key::Right, W, H);
    ed.on_key(none(), Key::Enter, W, H);
    let cmd = ed.poll_command().unwrap();
    assert_eq!(cmd, MenuCmd::About);
    let exit = ed.apply_command(cmd);
    assert!(!exit);
    assert_eq!(ed.mode, EditorMode::DialogOpen);
}

#[test]
fn test_apply_exit_command() {
    let mut ed = Editor::new();
    assert!(ed.apply_command(MenuCmd::Exit));
    assert!(!ed.apply_command(MenuCmd::NoOp));
}

#[test]
fn test_dialog_open_and_close() {
    let mut ed = Editor::new();
    let (r, _) = ed.on_key(none(), Key::F(1), W, H);
    assert_eq!(r, Refresh::Screen);
    assert_eq!(ed.mode, EditorMode::DialogOpen);

    // Keys other than plain Esc are ignored by the dialog.
    let (r2, _) = ed.on_key(none(), Key::Char('a'), W, H);
    assert_eq!(r2, Refresh::CursorOnly);
    assert_eq!(ed.mode, EditorMode::DialogOpen);
    assert_eq!(ed.line_text(0).unwrap(), "");

    let (r3, _) = ed.on_key(none(), Key::Esc, W, H);
    assert_eq!(r3, Refresh::Screen);
    assert_eq!(ed.mode, EditorMode::Editing);
}

#[test]
fn test_ctrl_s_requests_save() {
    let mut ed = Editor::new();
    ed.on_key(none(), Key::Char('a'), W, H);
    let (r, save) = ed.on_key(Modifiers::ctrl(), Key::Char('s'), W, H);
    assert_eq!(r, Refresh::CursorOnly);
    assert!(save);
    assert_eq!(ed.line_text(0).unwrap(), "a");
}

#[test]
fn test_modified_keys_are_ignored() {
    let mut ed = Editor::new();
    let alt = Modifiers { ctrl: false, alt: true, shift: false };
    let (r, save) = ed.on_key(alt, Key::Enter, W, H);
    assert_eq!(r, Refresh::CursorOnly);
    assert!(!save);
    assert_eq!(ed.line_count(), 1);
    let (r2, _) = ed.on_key(alt, Key::F(1), W, H);
    assert_eq!(r2, Refresh::CursorOnly);
    assert_eq!(ed.mode, EditorMode::Editing);
}

#[test]
fn test_command_queue_is_first_in_first_out() {
    let mut ed = Editor::new();
    ed.on_key(none(), Key::F(10), W, H);
    ed.on_key(none(), Key::Enter, W, H);
    ed.on_key(none(), Key::F(10), W, H);
    ed.on_key(none(), Key::Right, W, H);
    ed.on_key(none(), Key::Enter, W, H);
    assert_eq!(ed.poll_command(), Some(MenuCmd::Exit));
    assert_eq!(ed.poll_command(), Some(MenuCmd::About));
    assert_eq!(ed.poll_command(), None);
}

#[test]
fn test_is_exit_key() {
    assert!(is_exit_key(Modifiers::ctrl(), Key::Char('q')));
    assert!(is_exit_key(Modifiers::none(), Key::F(12)));
    assert!(is_exit_key(Modifiers::ctrl(), Key::F(12)));
    assert!(!is_exit_key(Modifiers::none(), Key::Char('q')));
    assert!(!is_exit_key(Modifiers::none(), Key::F(1)));
}

#[test]
fn test_load_and_empty_load() {
    let mut ed = Editor::new();
    ed.load(vec![String::from("one"), String::from("두줄")]);
    assert_eq!(ed.line_count(), 2);
    assert_eq!(ed.line_text(0).unwrap(), "one");
    assert_eq!(ed.line_text(1).unwrap(), "두줄");
    assert_eq!(ed.line_text(2), None);
    assert_eq!(ed.cursor.get_y(), 0);

    // An open failure hands over no records: the document falls back to its
    // default single empty line.
    ed.load(Vec::new());
    assert_eq!(ed.line_count(), 1);
    assert_eq!(ed.line_text(0).unwrap(), "");
}

#[test]
fn test_edit_area_height() {
    let mut ed = Editor::new();
    assert_eq!(ed.edit_area_height(24), 1);
    ed.load(vec![
        String::from("a"),
        String::from("b"),
        String::from("c"),
        String::from("d"),
    ]);
    assert_eq!(ed.edit_area_height(24), 4);
    assert_eq!(ed.edit_area_height(5), 2);
    assert_eq!(ed.edit_area_height(2), 0);
}

#[test]
fn test_cursor_moves_clamp() {
    let mut c = Cursor::new();
    c.move_left(1);
    assert_eq!(c.x, 0);
    c.move_right(10, 4);
    assert_eq!(c.x, 4);
    // A move past the limit is rejected entirely, not clamped.
    c.move_right(10, 7);
    assert_eq!(c.x, 4);
    c.move_left(2);
    assert_eq!(c.x, 2);
    // A move past zero is rejected entirely.
    c.move_left(3);
    assert_eq!(c.x, 2);

    c.move_up();
    assert_eq!(c.get_y(), 0);
    c.move_down(2);
    c.move_down(2);
    c.move_down(2);
    assert_eq!(c.get_y(), 2);
    c.move_up();
    assert_eq!(c.get_y(), 1);
    assert_eq!(c.screen_y(), 2);
}

#[test]
fn test_menu_bar_model() {
    let bar = MenuBar::new();
    assert_eq!(bar.groups.len(), 2);
    assert_eq!(bar.groups[0].name, "File");
    assert_eq!(bar.groups[1].name, "Help");
    assert_eq!(bar.groups[0].get_menu_cmd(), MenuCmd::Exit);
    assert_eq!(bar.groups[1].get_menu_cmd(), MenuCmd::About);

    assert_eq!(bar.move_left(0), 1);
    assert_eq!(bar.move_left(1), 0);
    assert_eq!(bar.move_right(1), 0);
    assert_eq!(bar.move_right(0), 1);

    let (cmd, sel) = bar.handle_keyinput(Modifiers::none(), Key::Esc, 0);
    assert_eq!(cmd, MenuCmd::CloseMenu);
    assert_eq!(sel, 0);
    let (cmd2, _) = bar.handle_keyinput(Modifiers::none(), Key::Char('z'), 0);
    assert_eq!(cmd2, MenuCmd::NoOp);
}

#[test]
fn test_simple_dialog_geometry() {
    let d = SimpleDialog::new(80, 24);
    assert_eq!(d.x, 20);
    assert_eq!(d.y, 10);
    assert_eq!(d.w, 40);
    assert_eq!(d.h, 4);

    // Centering a message of width 10: columns 20..60 center at 40.
    assert_eq!(d.message_x(10), 35);
    // A message wider than the screen clamps to the left edge.
    assert_eq!(d.message_x(100), 0);

    assert!(d.handle_keyinput(Modifiers::none(), Key::Esc));
    assert!(!d.handle_keyinput(Modifiers::ctrl(), Key::Esc));
    assert!(!d.handle_keyinput(Modifiers::none(), Key::Enter));

    // A tiny terminal clamps the dialog to the top edge.
    let tiny = SimpleDialog::new(8, 2);
    assert_eq!(tiny.y, 0);
}
