use luru::ui::{fit_line, get_char_len, str_slince, UI};

fn ui_with(cursor: usize, from: usize, rows: u16) -> UI {
    let mut ui = UI::new();
    ui.content_cursor = cursor;
    ui.content_render_from = from;
    ui.content_render_items = rows;
    ui
}

#[test]
fn reclamp_resets_past_end() {
    let mut ui = ui_with(7, 0, 5);
    ui.reclamp(7);
    assert_eq!(ui.content_cursor, 0);
    let mut ui = ui_with(3, 0, 5);
    ui.reclamp(7);
    assert_eq!(ui.content_cursor, 3);
    let mut ui = ui_with(0, 0, 5);
    ui.reclamp(0);
    assert_eq!(ui.content_cursor, 0);
}

#[test]
fn reclamp_keeps_cursor_inside() {
    for len in 1..10usize {
        for c in 0..20usize {
            let mut ui = ui_with(c, 0, 5);
            ui.reclamp(len);
            assert!(ui.content_cursor < len);
        }
    }
}

#[test]
fn scroll_keeps_cursor_visible() {
    for len in 1..15usize {
        for rows in 1..6usize {
            for c in 0..len {
                for from in 0..20usize {
                    let mut ui = ui_with(c, from, 5);
                    ui.scroll_to_keep_visible(len, rows);
                    let f = ui.content_render_from;
                    assert!(f <= c && c < f + rows, "len {} rows {} c {} from {}", len, rows, c, from);
                }
            }
        }
    }
}

#[test]
fn scroll_examples() {
    let mut ui = ui_with(4, 4, 3);
    ui.scroll_to_keep_visible(10, 3);
    assert_eq!(ui.content_render_from, 3);
    let mut ui = ui_with(9, 0, 3);
    ui.scroll_to_keep_visible(10, 3);
    assert_eq!(ui.content_render_from, 7);
    let mut ui = ui_with(0, 2, 3);
    ui.scroll_to_keep_visible(10, 3);
    assert_eq!(ui.content_render_from, 0);
}

#[test]
fn overflow_counts() {
    let ui = ui_with(0, 2, 5);
    assert_eq!(ui.items_above(), 2);
    assert_eq!(ui.items_below(10), 3);
    assert_eq!(ui.items_below(4), 0);
    assert_eq!(ui.render_end(10), 8);
    assert_eq!(ui.render_end(5), 5);
}

#[test]
fn cursor_moves_and_big_steps() {
    let mut ui = ui_with(3, 0, 5);
    ui.move_selection_up(true);
    assert_eq!(ui.content_cursor, 0);
    ui.move_selection_up(false);
    assert_eq!(ui.content_cursor, 0);
    ui.move_selection_down(4, true);
    assert_eq!(ui.content_cursor, 3);
    ui.move_selection_down(4, false);
    assert_eq!(ui.content_cursor, 3);
    let mut ui = ui_with(0, 0, 5);
    ui.move_selection_down(20, true);
    assert_eq!(ui.content_cursor, 5);
    ui.move_selection_up(false);
    assert_eq!(ui.content_cursor, 4);
    ui.move_selection_down(0, false);
    assert_eq!(ui.content_cursor, 4);
}

#[test]
fn layout_for_terminal_size() {
    let mut ui = UI::new();
    assert!(ui.begin_layout(80, 24));
    assert_eq!(ui.safe_height, (2, 21));
    assert_eq!(ui.content_render_items, 19);
    assert!(!ui.begin_layout(80, 9));
    ui.set_window_size(100, 2);
    assert_eq!(ui.window_size, (100, 2));
    assert_eq!(ui.safe_height, (2, 0));
}

#[test]
fn frame_labels_and_trimming() {
    let mut ui = UI::new();
    assert_eq!(ui.desc_label, "description label");
    ui.set_frame_content("/p".to_string(), "d".to_string());
    assert_eq!(ui.path_label, "/p");
    assert_eq!(ui.desc_label, "d");
    assert_eq!(ui.trim_str_to("/home/user/docs", 4), "docs");
    assert_eq!(ui.trim_str_to("abc", 4), "abc");
    assert_eq!(ui.trim_str_to("héllo", 4), "éllo");
}

#[test]
fn char_slices_and_lengths() {
    assert_eq!(str_slince("héllo", 1, 3), "él");
    assert_eq!(get_char_len("héllo"), 5);
    assert_eq!(fit_line("abc", 5), "abc  ");
    assert_eq!(fit_line("abcdef", 4), "abcd");
    assert_eq!(fit_line("", 0), "");
}
