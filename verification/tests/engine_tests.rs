use cirro::app_state::App;
use cirro::event_loop::{handle_event, simulate, EventKind, LoopState};
use cirro::layout::frame_layout;
use cirro::palette::{mocha_palette, Rgb};
use cirro::records::{compose_address, generate_fake_names, sort_records, str_le, Data};
use cirro::status_line::{status_colors, status_line_spans, status_segments, SpanKind};
use cirro::table::{build_grid, column_widths, Highlight};
use cirro::tabs::tab_strip;

fn record(name: &str, address: &str, email: &str) -> Data {
    Data { name: name.to_string(), address: address.to_string(), email: email.to_string() }
}

#[test]
fn generating_n_records_yields_n_sorted_entries() {
    for n in [0usize, 1, 5, 20] {
        let records = generate_fake_names(n);
        assert_eq!(records.len(), n);
        for w in records.windows(2) {
            assert!(w[0].name <= w[1].name);
        }
    }
}

#[test]
fn sort_records_orders_by_name_and_keeps_rows_together() {
    let batch = vec![
        record("Carol", "3 Oak St", "carol@example.com"),
        record("Alice", "1 Elm St", "alice@example.com"),
        record("Bob", "2 Fir St", "bob@example.com"),
    ];
    let sorted = sort_records(batch);
    let names: Vec<&str> = sorted.iter().map(|d| d.name.as_str()).collect();
    assert_eq!(names, ["Alice", "Bob", "Carol"]);
    assert_eq!(sorted[0].address, "1 Elm St");
    assert_eq!(sorted[1].email, "bob@example.com");
    assert_eq!(sorted[2].address, "3 Oak St");
}

#[test]
fn str_le_is_lexicographic() {
    assert!(str_le("abc", "abd"));
    assert!(!str_le("abd", "abc"));
    assert!(str_le("", "a"));
    assert!(str_le("ab", "abc"));
    assert!(!str_le("abc", "ab"));
    assert!(str_le("same", "same"));
}

#[test]
fn compose_address_joins_the_parts() {
    let a = compose_address("12 High St", "Leeds", "WY", "LS1");
    assert_eq!(a, "12 High St\nLeeds, WY LS1");
}

#[test]
fn record_accessors_expose_the_fields() {
    let d = record("Ada", "7 Row", "ada@example.com");
    assert_eq!(d.name(), "Ada");
    assert_eq!(d.address(), "7 Row");
    assert_eq!(d.email(), "ada@example.com");
    let fields = d.ref_array();
    assert_eq!(fields[0], "Ada");
    assert_eq!(fields[1], "7 Row");
    assert_eq!(fields[2], "ada@example.com");
}

#[test]
fn new_app_starts_with_sorted_records_and_no_selection() {
    let app = App::new();
    assert_eq!(app.items.len(), 20);
    assert_eq!(app.active_tab, 0);
    assert!(app.selected_row.is_none());
    assert!(app.selected_column.is_none());
    for w in app.items.windows(2) {
        assert!(w[0].name <= w[1].name);
    }
}

#[test]
fn tab_navigation_wraps_both_ways() {
    let mut app = App::new();
    assert_eq!(app.active_tab, 0);
    app.prev_tab();
    assert_eq!(app.active_tab, 3);
    app.next_tab();
    assert_eq!(app.active_tab, 0);
    app.next_tab();
    app.next_tab();
    assert_eq!(app.active_tab, 2);
    assert_eq!(app.items.len(), 20);
}

#[test]
fn detail_pane_shows_the_placeholder_text() {
    let app = App::new();
    assert_eq!(app.detail_text(), "Hello, World!");
}

#[test]
fn frame_layout_bands_for_a_standard_terminal() {
    let l = frame_layout(80, 24);
    assert_eq!((l.header.x, l.header.y, l.header.width, l.header.height), (0, 0, 80, 1));
    assert_eq!((l.table.x, l.table.y, l.table.width, l.table.height), (0, 1, 56, 22));
    assert_eq!((l.detail.x, l.detail.y, l.detail.width, l.detail.height), (56, 1, 24, 22));
    assert_eq!((l.footer.x, l.footer.y, l.footer.width, l.footer.height), (0, 23, 80, 1));
}

#[test]
fn frame_layout_keeps_single_row_bands_for_any_height() {
    for h in [3u16, 4, 10, 500] {
        let l = frame_layout(101, h);
        assert_eq!(l.header.height, 1);
        assert_eq!(l.footer.height, 1);
        assert_eq!(l.table.height, h - 2);
        // 70% of 101 rounds down.
        assert_eq!(l.table.width, 70);
        assert_eq!(l.detail.width, 31);
    }
}

#[test]
fn column_widths_fix_the_minimums_and_grow_the_last() {
    assert_eq!(column_widths(100), [11, 21, 68]);
    assert_eq!(column_widths(32), [11, 21, 0]);
    assert_eq!(column_widths(10), [11, 21, 0]);
}

#[test]
fn empty_store_renders_header_only() {
    let items: Vec<Data> = Vec::new();
    let grid = build_grid(&items, &None, &None);
    assert_eq!(grid.header, ["Name", "Address", "Email"]);
    assert!(grid.rows.is_empty());
}

#[test]
fn grid_striping_selection_and_highlights_compose() {
    let items = vec![
        record("Alice", "1 Elm St", "alice@example.com"),
        record("Bob", "2 Fir St", "bob@example.com"),
    ];
    let grid = build_grid(&items, &Some(1), &Some(2));
    assert_eq!(grid.rows.len(), 2);

    assert!(grid.rows[0].even);
    assert!(!grid.rows[1].even);
    assert!(!grid.rows[0].selected);
    assert!(grid.rows[1].selected);

    assert_eq!(grid.rows[0].cells[0].content, "Alice");
    assert_eq!(grid.rows[1].cells[1].content, "2 Fir St");
    assert_eq!(grid.rows[1].cells[2].content, "bob@example.com");

    // The cell highlight dominates at the intersection.
    assert_eq!(grid.rows[1].cells[2].highlight, Highlight::Cell);
    assert_eq!(grid.rows[1].cells[0].highlight, Highlight::Row);
    assert_eq!(grid.rows[0].cells[2].highlight, Highlight::Column);
    assert_eq!(grid.rows[0].cells[0].highlight, Highlight::Plain);
}

#[test]
fn tab_strip_marks_exactly_the_active_tab() {
    let strip = tab_strip(2);
    let labels: Vec<&str> = strip.iter().map(|t| t.label.as_str()).collect();
    assert_eq!(labels, ["To Review", "To merge", "Failing CI", "Jira"]);
    let actives: Vec<bool> = strip.iter().map(|t| t.active).collect();
    assert_eq!(actives, [false, false, true, false]);
}

#[test]
fn status_line_emits_one_separator_per_segment() {
    let palette = mocha_palette();
    let segments = status_segments();
    let colors = status_colors(&palette);
    let spans = status_line_spans(&segments, &colors, palette.crust, '>');
    assert_eq!(spans.len(), 6);
    let expected_labels = [" Hello there ", " Oh yes ", " Very nice "];
    for i in 0..3 {
        match &spans[2 * i].kind {
            SpanKind::Label(l) => assert_eq!(l, expected_labels[i]),
            SpanKind::Separator(_) => panic!("expected a label at {}", 2 * i),
        }
        assert_eq!(spans[2 * i].bg, colors[i % colors.len()]);
        assert!(spans[2 * i].bold);
        match &spans[2 * i + 1].kind {
            SpanKind::Separator(c) => assert_eq!(*c, '>'),
            SpanKind::Label(_) => panic!("expected a separator at {}", 2 * i + 1),
        }
        assert_eq!(spans[2 * i + 1].fg, colors[i % colors.len()]);
        assert_eq!(spans[2 * i + 1].bg, colors[(i + 1) % colors.len()]);
        assert!(!spans[2 * i + 1].bold);
    }
}

#[test]
fn status_line_color_cycle_wraps_independently_of_segment_count() {
    let colors = vec![Rgb { r: 1, g: 0, b: 0 }, Rgb { r: 2, g: 0, b: 0 }];
    let text_fg = Rgb { r: 9, g: 9, b: 9 };

    // A single segment still renders one label and one separator.
    let one = vec!["only".to_string()];
    let spans = status_line_spans(&one, &colors, text_fg, '|');
    assert_eq!(spans.len(), 2);
    assert_eq!(spans[0].bg, colors[0]);
    assert_eq!(spans[1].fg, colors[0]);
    assert_eq!(spans[1].bg, colors[1]);

    // More segments than colors: the cycle wraps around.
    let five: Vec<String> = (0..5).map(|i| format!("s{i}")).collect();
    let spans = status_line_spans(&five, &colors, text_fg, '|');
    assert_eq!(spans.len(), 10);
    assert_eq!(spans[4].bg, colors[0]);
    assert_eq!(spans[5].fg, colors[0]);
    assert_eq!(spans[5].bg, colors[1]);
    assert_eq!(spans[9].fg, colors[0]);
    assert_eq!(spans[9].bg, colors[1]);
}

#[test]
fn mocha_palette_has_the_published_values() {
    let p = mocha_palette();
    assert_eq!(p.text, Rgb { r: 205, g: 214, b: 244 });
    assert_eq!(p.blue, Rgb { r: 137, g: 180, b: 250 });
    assert_eq!(p.base, Rgb { r: 30, g: 30, b: 46 });
    assert_eq!(p.surface0, Rgb { r: 49, g: 50, b: 68 });
    assert_eq!(p.crust, Rgb { r: 17, g: 17, b: 27 });
    assert_eq!(p.rosewater, Rgb { r: 245, g: 224, b: 220 });
    assert_eq!(p.sapphire, Rgb { r: 116, g: 199, b: 236 });
}

#[test]
fn key_after_non_key_draws_two_frames_and_terminates() {
    let events = vec![EventKind::Other, EventKind::Key];
    let outcome = simulate(&events);
    assert_eq!(outcome.frames, 2);
    assert!(outcome.terminated);
}

#[test]
fn session_without_key_keeps_running() {
    let outcome = simulate(&Vec::new());
    assert_eq!(outcome.frames, 1);
    assert!(!outcome.terminated);

    let outcome = simulate(&vec![EventKind::Other, EventKind::Other]);
    assert_eq!(outcome.frames, 3);
    assert!(!outcome.terminated);
}

#[test]
fn first_key_terminates_immediately() {
    let outcome = simulate(&vec![EventKind::Key, EventKind::Other]);
    assert_eq!(outcome.frames, 1);
    assert!(outcome.terminated);
}

#[test]
fn handle_event_classifies_transitions() {
    assert_eq!(handle_event(&EventKind::Key), LoopState::Terminated);
    assert_eq!(handle_event(&EventKind::Other), LoopState::Running);
}
