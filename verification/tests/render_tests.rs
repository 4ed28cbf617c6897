use hal::api::{ApiResponse, Usage};
use hal::app::{App, AppState, ModelPoll, PermissionModal, Surroundings};
use hal::chatview::{
    chat_lines, code_of_diff_line, highlight_diff_line, lines_to_highlight, render_assistant_line,
    ColoredText,
};
use hal::config::{Config, Mode};
use hal::journal::{ChatMessage, MessageRole};
use hal::layout::{
    calculate_input_height, calculate_wrapped_cursor, clamp_scroll, content_height,
    cursor_position, get_spinner_frame, modal_area, padded, picker_area, poll_timeout, Rect,
};
use hal::picker::PickerMode;
use hal::sandbox::{SandboxConfig, ToolchainEnv};
use hal::screen::{
    draw, draw_chat, draw_header, draw_input, draw_permission_modal, draw_picker, line_width,
    wrap_input_lines,
};
use hal::styled::{Color, Line, Span, Style};
use hal::summary::format_tool_result;

fn texts(line: &Line) -> Vec<String> {
    line.spans.iter().map(|s| s.content.clone()).collect()
}

fn plain_text(lines: &[Line]) -> Vec<String> {
    lines.iter().map(|l| texts(l).concat()).collect()
}

fn app() -> App {
    App::new(Config::default(), None, Some("k".to_string()), None, 1).unwrap()
}

#[test]
fn errors_are_shown_as_they_are() {
    assert_eq!(format_tool_result("read_file", Some("a"), "Error reading file: x"), "Error reading file: x");
    assert_eq!(format_tool_result("anything", None, "Errors happen"), "Errors happen");
}

#[test]
fn a_read_is_summed_up_by_its_lines() {
    assert_eq!(format_tool_result("read_file", Some("a.rs"), "1: a\n2: b\n"), "Read a.rs (2 lines)");
    assert_eq!(format_tool_result("read_file", None, ""), "Read file (0 lines)");
}

#[test]
fn a_listing_is_summed_up_by_its_names() {
    assert_eq!(format_tool_result("list_dir", Some("src"), "a\nb/\nc"), "Listed src (a  b/  c)");
    assert_eq!(format_tool_result("list_dir", None, "a"), "Listed . (a)");
    assert_eq!(
        format_tool_result("list_dir", None, "1\n2\n3\n4\n5\n6\n7\n8"),
        "Listed . (1  2  3  4  5  6  7  8)"
    );
    assert_eq!(format_tool_result("list_dir", None, "1\n2\n3\n4\n5\n6\n7\n8\n9"), "Listed . (9 items)");
}

#[test]
fn a_search_is_summed_up_by_its_files() {
    assert_eq!(format_tool_result("search_files", None, "a\nb"), "Found a, b");
    assert_eq!(format_tool_result("search_files", None, "1\n2\n3\n4\n5\n6"), "Found 1, 2, 3, 4, 5, 6");
    assert_eq!(format_tool_result("search_files", None, "1\n2\n3\n4\n5\n6\n7"), "Found 7 files");
    assert_eq!(format_tool_result("search_files", None, "No files found"), "Found No files found");
}

#[test]
fn a_write_is_summed_up_by_its_first_line() {
    assert_eq!(format_tool_result("write_file", None, "Wrote a\n-x\n+y\n"), "Wrote a");
    assert_eq!(format_tool_result("write_file", None, ""), "");
}

#[test]
fn a_command_is_summed_up_by_its_first_lines() {
    assert_eq!(format_tool_result("bash", None, "$ ls\n"), "$ ls");
    assert_eq!(format_tool_result("bash", None, ""), "$ ?");
    assert_eq!(format_tool_result("bash", None, "$ ls\na\nb"), "$ ls\na\nb");
    let ten: String = (1..=10).map(|i| format!("\n{}", i)).collect();
    assert_eq!(format_tool_result("bash", None, &format!("$ x{}", ten)), format!("$ x{}", ten));
    let eleven: String = (1..=11).map(|i| format!("\n{}", i)).collect();
    assert_eq!(
        format_tool_result("bash", None, &format!("$ x{}", eleven)),
        "$ x\n1\n2\n3\n4\n5\n6\n7\n8\n... (3 more lines)"
    );
}

#[test]
fn a_grep_is_summed_up_by_its_matches() {
    // The header of a search without matches does not end in a colon, so that
    // its pattern is not read from it.
    assert_eq!(format_tool_result("grep", None, "grep 'fn': no matches"), "Grep '?': no matches");
    assert_eq!(format_tool_result("grep", None, "grep 'fn':\n--"), "Grep 'fn': no matches");
    assert_eq!(
        format_tool_result("grep", None, "grep 'fn':\na:1:  fn a\n--\nb:2:  fn b\n--"),
        "Grep 'fn':\na:1:  fn a\nb:2:  fn b"
    );
    let long = "x".repeat(70);
    assert_eq!(
        format_tool_result("grep", None, &format!("grep 'x':\n{}", long)),
        format!("Grep 'x':\n{}...", "x".repeat(60))
    );
    assert_eq!(
        format_tool_result("grep", None, "grep 'a':\n1\n2\n3\n4\n5"),
        "Grep 'a': 5 matches\n1\n2\n3\n..."
    );
    assert_eq!(format_tool_result("grep", None, "something else\nline"), "Grep '?':\nline");
    assert_eq!(format_tool_result("grep", None, ""), "Grep '?': no matches");
}

#[test]
fn any_other_result_is_cut_at_60_characters() {
    assert_eq!(format_tool_result("view_projects", None, "# P"), "# P");
    assert_eq!(format_tool_result("x", None, &"a".repeat(60)), "a".repeat(60));
    assert_eq!(format_tool_result("x", None, &"a".repeat(61)), format!("{}...", "a".repeat(60)));
    assert_eq!(format_tool_result("x", None, &"é".repeat(61)), format!("{}...", "é".repeat(60)));
}

#[test]
fn the_cursor_wraps_with_the_input() {
    assert_eq!(calculate_wrapped_cursor(0, 2, 10), (2, 0));
    assert_eq!(calculate_wrapped_cursor(8, 2, 10), (10, 0));
    assert_eq!(calculate_wrapped_cursor(9, 2, 10), (1, 1));
    assert_eq!(calculate_wrapped_cursor(18, 2, 10), (0, 2));
    assert_eq!(calculate_wrapped_cursor(19, 2, 10), (1, 2));
    assert_eq!(calculate_wrapped_cursor(5, 2, 2), (1, 3));
    assert_eq!(calculate_wrapped_cursor(5, 2, 0), (7, 0));
    assert_eq!(calculate_wrapped_cursor(0, 2, 1), (2, 0));
}

#[test]
fn the_input_area_grows_with_the_input() {
    assert_eq!(calculate_input_height(0, 10), 2);
    assert_eq!(calculate_input_height(8, 10), 2);
    assert_eq!(calculate_input_height(9, 10), 3);
    assert_eq!(calculate_input_height(18, 10), 3);
    assert_eq!(calculate_input_height(19, 10), 4);
    assert_eq!(calculate_input_height(100, 2), 2);
    assert_eq!(calculate_input_height(100, 0), 2);
    assert_eq!(calculate_input_height(5, 3), 4);
    assert_eq!(calculate_input_height(usize::MAX, 3), u16::MAX);
}

#[test]
fn the_spinner_has_ten_frames_of_80_milliseconds() {
    let frames = ['⠋', '⠙', '⠹', '⠸', '⠼', '⠴', '⠦', '⠧', '⠇', '⠏'];
    assert_eq!(get_spinner_frame(0), '⠋');
    assert_eq!(get_spinner_frame(79), '⠋');
    assert_eq!(get_spinner_frame(80), '⠙');
    for k in 0..25u128 {
        assert_eq!(get_spinner_frame(k * 80 + 40), frames[(k % 10) as usize]);
    }
    assert_eq!(poll_timeout(true), None);
    assert_eq!(poll_timeout(false), Some(50));
}

#[test]
fn the_scroll_offset_is_kept_in_range() {
    let s = clamp_scroll(0, 100, 20);
    assert_eq!((s.offset, s.top), (0, 80));
    let s = clamp_scroll(30, 100, 20);
    assert_eq!((s.offset, s.top), (30, 50));
    let s = clamp_scroll(500, 100, 20);
    assert_eq!((s.offset, s.top), (80, 0));
    let s = clamp_scroll(7, 10, 20);
    assert_eq!((s.offset, s.top), (0, 0));
    assert_eq!(content_height(&vec![0, 5, 10, 25], 10), 1 + 1 + 2 + 3);
    assert_eq!(content_height(&vec![0, 5], 0), 2);
    assert_eq!(content_height(&vec![], 10), 0);
    assert_eq!(content_height(&vec![usize::MAX, 3], 1), u16::MAX);
}

#[test]
fn areas_are_placed_on_the_screen() {
    let r = Rect { x: 0, y: 5, width: 80, height: 10 };
    assert_eq!(padded(r), Rect { x: 1, y: 5, width: 78, height: 10 });
    assert_eq!(padded(Rect { x: 0, y: 0, width: 1, height: 1 }).width, 0);
    assert_eq!(picker_area(Rect { x: 0, y: 20, width: 80, height: 3 }, 4), Rect { x: 3, y: 14, width: 40, height: 6 });
    assert_eq!(picker_area(Rect { x: 0, y: 2, width: 30, height: 3 }, 50), Rect { x: 3, y: 0, width: 26, height: 12 });
    assert_eq!(modal_area(Rect { x: 0, y: 0, width: 100, height: 40 }), Rect { x: 20, y: 15, width: 60, height: 10 });
    assert_eq!(modal_area(Rect { x: 0, y: 0, width: 20, height: 8 }), Rect { x: 2, y: 2, width: 16, height: 4 });
    let inner = Rect { x: 1, y: 20, width: 10, height: 3 };
    assert_eq!(cursor_position(inner, 0), (3, 20));
    assert_eq!(cursor_position(inner, 9), (2, 21));
    assert_eq!(cursor_position(inner, 200), (3, 22));
}

#[test]
fn the_input_is_wrapped_on_characters() {
    let lines = wrap_input_lines("› ", "abcdefghij", 2, 6);
    assert_eq!(plain_text(&lines), vec!["› abcd", "efghij"]);
    assert_eq!(lines[0].spans[0].style.fg, Some(Color::Cyan));
    let lines = wrap_input_lines("› ", "héllo wörld!", 2, 5);
    assert_eq!(plain_text(&lines), vec!["› hél", "lo wö", "rld!"]);
    assert_eq!(plain_text(&wrap_input_lines("› ", "", 2, 10)), vec!["› "]);
    assert_eq!(plain_text(&wrap_input_lines("› ", "abc", 2, 2)), vec!["› abc"]);
    assert_eq!(plain_text(&wrap_input_lines("› ", "abc", 2, 40)), vec!["› abc"]);
}

#[test]
fn the_input_area_shows_the_line_and_the_cursor() {
    let mut a = app();
    a.editor.input = "abcdefghijkl".to_string();
    a.editor.input_cursor = 10;
    let shown = draw_input(&a, Rect { x: 1, y: 20, width: 10, height: 3 });
    assert_eq!(plain_text(&shown.lines), vec!["› abcdefgh", "ijkl"]);
    assert_eq!(shown.cursor, (3, 21));
    a.editor.input_cursor = 0;
    assert_eq!(draw_input(&a, Rect { x: 1, y: 20, width: 10, height: 3 }).cursor, (3, 20));
}

#[test]
fn widths_are_counted_in_columns() {
    assert_eq!(line_width(&Line::blank()), 0);
    assert_eq!(line_width(&Line::single(Span::raw("abc"))), 3);
    // Wide characters take two columns each.
    assert_eq!(line_width(&Line::pair(Span::raw("日本"), Span::raw("x"))), 5);
}

#[test]
fn the_header_shows_what_is_in_use() {
    let area = Rect { x: 0, y: 0, width: 100, height: 1 };
    let h = draw_header(area, "0.1.0", "gemini", Mode::Coding, Some((120, 45)), "/home/u/project");
    assert_eq!(texts(&h.left), vec![" hal 0.1.0", " · ", "gemini", " [coding]"]);
    assert!(h.left.spans[0].style.bold);
    assert_eq!(h.left.spans[0].style.fg, Some(Color::Magenta));
    let right = h.right.unwrap();
    assert_eq!(right.text, "120 in / 45 out ");
    assert_eq!(right.area, Rect { x: 84, y: 0, width: 16, height: 1 });
    let center = h.center.unwrap();
    assert_eq!(center.text, "/home/u/project");
    assert_eq!(center.area, Rect { x: 42, y: 0, width: 15, height: 1 });

    let h = draw_header(area, "0.1.0", "gemini", Mode::Coach, None, "");
    assert_eq!(texts(&h.left)[3], " [coach]");
    assert!(h.right.is_none());
    assert!(h.center.is_none());

    // A long directory is cut at its start. The left part counts for 30
    // columns and the right one for 31, so that 37 are left of 100.
    let long = format!("/home/u/{}", "d".repeat(42));
    let h = draw_header(area, "0.1.0", "gemini", Mode::Coding, Some((u32::MAX, u32::MAX)), &long);
    assert_eq!(h.right.unwrap().text, "4294967295 in / 4294967295 out ");
    let center = h.center.unwrap();
    assert_eq!(center.text.chars().count(), 37);
    assert!(center.text.starts_with('…'));
    assert!(center.text.ends_with("ddd"));
    assert_eq!(center.area, Rect { x: 31, y: 0, width: 37, height: 1 });
    // Without the right part the cut directory would begin inside the left one.
    let h = draw_header(area, "0.1.0", "gemini", Mode::Coding, None, &long);
    assert!(h.center.is_none());

    // No room in the middle: the directory is left out.
    let narrow = Rect { x: 0, y: 0, width: 40, height: 1 };
    let h = draw_header(narrow, "0.1.0", "gemini", Mode::Coding, None, "/home/u/project");
    assert!(h.center.is_none());
}

#[test]
fn the_picker_marks_the_selection() {
    let results = vec!["clear".to_string(), "help".to_string()];
    let (title, lines) = draw_picker(&results, 1, PickerMode::Commands).unwrap();
    assert_eq!(title, " Commands ");
    assert_eq!(plain_text(&lines), vec!["  /clear", "› /help"]);
    assert!(lines[1].spans[0].style.bold);
    assert_eq!(lines[1].spans[1].style.fg, Some(Color::Magenta));
    assert_eq!(lines[0].spans[1].style.fg, Some(Color::Gray));
    let (title, lines) = draw_picker(&results, 0, PickerMode::Files).unwrap();
    assert_eq!(title, " Files ");
    assert_eq!(plain_text(&lines), vec!["› clear", "  help"]);
    assert!(draw_picker(&results, 0, PickerMode::Closed).is_none());
}

#[test]
fn the_question_lists_its_answers() {
    let mut modal =
        PermissionModal::new("/home/u/.cargo".to_string(), "Cargo needs it".to_string(), "c1".to_string());
    modal.selected = 2;
    let lines = draw_permission_modal(&modal);
    assert_eq!(
        plain_text(&lines),
        vec![
            "Permission Required",
            "",
            "Path: /home/u/.cargo",
            "Cargo needs it",
            "",
            "  Allow for project",
            "  Allow globally",
            "› Allow once",
            "  Deny",
        ]
    );
    assert_eq!(lines[2].spans[1].style.fg, Some(Color::Yellow));
    assert!(lines[7].spans[0].style.bold);
    assert_eq!(lines[5].spans[0].style.fg, Some(Color::White));
}

#[test]
fn lines_of_the_assistant_are_styled() {
    let line = |s: &str| render_assistant_line(&s.chars().collect());
    let l = line("### Small");
    assert_eq!(texts(&l), vec!["Small"]);
    assert!(l.spans[0].style.italic);
    assert_eq!(l.spans[0].style.fg, Some(Color::Magenta));
    let l = line("## Middle");
    assert_eq!(texts(&l), vec!["Middle"]);
    assert!(!l.spans[0].style.bold && !l.spans[0].style.italic);
    let l = line("# Big");
    assert_eq!(texts(&l), vec!["Big"]);
    assert!(l.spans[0].style.bold);
    let l = line("- a **b** c");
    assert_eq!(texts(&l), vec!["  • ", "a ", "b", " c"]);
    assert!(l.spans[2].style.bold);
    let l = line("* star");
    assert_eq!(texts(&l), vec!["  • ", "star"]);
    let l = line("```rust");
    assert_eq!(texts(&l), vec!["```rust"]);
    assert_eq!(l.spans[0].style.fg, Some(Color::Gray));
    let l = line("**All bold**");
    assert_eq!(texts(&l), vec!["All bold"]);
    assert!(l.spans[0].style.bold);
    let l = line("plain `code`");
    assert_eq!(texts(&l), vec!["plain ", "code"]);
    let l = line("#NoHeading");
    assert_eq!(texts(&l), vec!["#NoHeading"]);
}

#[test]
fn lines_of_a_diff_are_coloured() {
    assert_eq!(code_of_diff_line("+   1│let a = 1;"), "   1│let a = 1;");
    assert_eq!(code_of_diff_line("-x"), "x");
    assert_eq!(code_of_diff_line(" x"), " x");
    assert_eq!(code_of_diff_line(""), "");
    let spans = highlight_diff_line("+let a", &None);
    assert_eq!(spans.len(), 2);
    assert_eq!(spans[0].content, "+");
    assert_eq!(spans[0].style, Style { fg: Some(Color::Green), bg: Some(Color::Rgb(30, 50, 30)), bold: false, italic: false });
    assert_eq!(spans[1].content, "let a");
    assert_eq!(spans[1].style.fg, Some(Color::Green));
    let spans = highlight_diff_line("-let a", &None);
    assert_eq!(spans[0].style.fg, Some(Color::Red));
    assert_eq!(spans[1].style.bg, Some(Color::Rgb(50, 30, 30)));
    let spans = highlight_diff_line(" let a", &None);
    assert_eq!(spans.len(), 1);
    assert_eq!(spans[0].content, " let a");
    assert_eq!(spans[0].style, Style { fg: Some(Color::Gray), bg: None, bold: false, italic: false });
    let pieces = Some(vec![
        ColoredText { color: Color::Rgb(1, 2, 3), text: "let".to_string() },
        ColoredText { color: Color::Rgb(4, 5, 6), text: " a".to_string() },
    ]);
    let spans = highlight_diff_line("+let a", &pieces);
    assert_eq!(spans.len(), 3);
    assert_eq!(spans[1].content, "let");
    assert_eq!(spans[1].style.fg, Some(Color::Rgb(1, 2, 3)));
    assert_eq!(spans[1].style.bg, Some(Color::Rgb(30, 50, 30)));
    assert_eq!(spans[2].content, " a");
}

#[test]
fn only_the_body_of_a_diff_goes_to_the_highlighter() {
    let diff = ChatMessage::tool("edit_file", Some("a.rs".to_string()), "Edited a.rs\n-   1│x\n\n+   1│y\n  ctx\n");
    assert_eq!(
        lines_to_highlight(&diff),
        vec![
            None,
            Some("   1│x".to_string()),
            None,
            Some("   1│y".to_string()),
            Some("  ctx".to_string()),
        ]
    );
    let written = ChatMessage::tool("write_file", None, "Created n\n+a\n");
    assert_eq!(lines_to_highlight(&written), vec![None, Some("a".to_string())]);
    assert!(lines_to_highlight(&ChatMessage::tool("bash", None, "$ ls\n+a\n")).is_empty());
    assert!(lines_to_highlight(&ChatMessage::user("+a\n-b")).is_empty());
    assert!(lines_to_highlight(&ChatMessage::assistant("+a\n-b")).is_empty());
    assert!(lines_to_highlight(&ChatMessage::tool("edit_file", None, "")).is_empty());
}

#[test]
fn the_transcript_is_drawn_message_by_message() {
    let mut a = app();
    a.messages.push(ChatMessage::user("hi"));
    a.messages.push(ChatMessage::assistant("# Title\nsome `code`\n"));
    a.messages.push(ChatMessage::tool("read_file", Some("a.rs".to_string()), "1\n2\n"));
    a.messages.push(ChatMessage::tool("bash", None, "$ ls\na\nb"));
    a.messages.push(ChatMessage::tool("edit_file", Some("a.rs".to_string()), "Edited a.rs\n-   1│x\n\n+   1│y\n"));
    let lines = chat_lines(&a, '⠋', &vec![]);
    assert_eq!(
        plain_text(&lines),
        vec![
            "",
            "› hi",
            "",
            "Title",
            "some code",
            "  ◇ Read a.rs (2 lines)",
            "  ◇ $ ls",
            "    a",
            "    b",
            "  ◇ Edited a.rs",
            "    -   1│x",
            "    +   1│y",
        ]
    );
    assert_eq!(lines[1].spans[0].style.fg, Some(Color::Rgb(100, 220, 215)));
    assert_eq!(lines[10].spans[1].content, "-");
    assert_eq!(lines[10].spans[2].style.bg, Some(Color::Rgb(50, 30, 30)));

    // Highlights are given by message and by line.
    let highlights = vec![
        vec![],
        vec![],
        vec![],
        vec![],
        vec![None, Some(vec![ColoredText { color: Color::Rgb(9, 9, 9), text: "   1│x".to_string() }])],
    ];
    let lines = chat_lines(&a, '⠋', &highlights);
    assert_eq!(lines[10].spans[2].style.fg, Some(Color::Rgb(9, 9, 9)));
    assert_eq!(lines[11].spans[2].style.fg, Some(Color::Green));
}

#[test]
fn the_state_and_the_error_end_the_transcript() {
    let mut a = app();
    a.messages.push(ChatMessage::user("hi"));
    a.state = AppState::Thinking;
    a.pending_response = true;
    a.error = Some("bad".to_string());
    let lines = chat_lines(&a, '⠙', &vec![]);
    assert_eq!(plain_text(&lines), vec!["", "› hi", "", "⠙ Thinking...", "", "✗ bad"]);
    assert_eq!(lines[5].spans[0].style.fg, Some(Color::Red));
    a.state = AppState::ToolCall("read a".to_string());
    let lines = chat_lines(&a, '⠙', &vec![]);
    assert_eq!(plain_text(&lines)[3], "⠙ read a");
}

#[test]
fn an_empty_transcript_shows_a_hint() {
    let mut a = app();
    a.scroll_offset = 9;
    let frame = draw_chat(&mut a, Rect { x: 1, y: 2, width: 40, height: 10 }, '⠋', &vec![]);
    assert_eq!(plain_text(&frame.lines), vec!["Type /help for commands"]);
    assert_eq!(frame.top, 0);
    assert_eq!(a.scroll_offset, 9);
}

#[test]
fn the_transcript_scrolls_to_its_end() {
    let mut a = app();
    for i in 0..10 {
        a.messages.push(ChatMessage::user(&format!("message {}", i)));
    }
    // 20 lines: a blank one and the message, ten times.
    let inner = Rect { x: 1, y: 2, width: 40, height: 8 };
    let frame = draw_chat(&mut a, inner, '⠋', &vec![]);
    assert_eq!(frame.lines.len(), 20);
    assert_eq!(frame.top, 12);
    assert_eq!(a.scroll_offset, 0);
    a.scroll_offset = 5;
    assert_eq!(draw_chat(&mut a, inner, '⠋', &vec![]).top, 7);
    a.scroll_offset = 500;
    let frame = draw_chat(&mut a, inner, '⠋', &vec![]);
    assert_eq!(frame.top, 0);
    assert_eq!(a.scroll_offset, 12);
    // Lines that wrap take more rows: "› message 0" is 11 columns wide.
    let narrow = Rect { x: 1, y: 2, width: 10, height: 8 };
    a.scroll_offset = 0;
    assert_eq!(draw_chat(&mut a, narrow, '⠋', &vec![]).top, 30 - 8);
}

#[test]
fn a_frame_is_planned_from_the_state() {
    let mut a = app();
    let plan = draw(&a, 80);
    assert_eq!(plan.input_height, 2);
    assert!(!plan.show_picker);
    assert!(!plan.show_modal);
    a.editor.input = "x".repeat(100);
    a.editor.input_cursor = 100;
    // 78 columns: 76 characters beside the prompt, 24 on the next line.
    assert_eq!(draw(&a, 80).input_height, 3);
    assert_eq!(draw(&a, 1).input_height, 2);
    a.editor.clear_input();
    a.insert_char('/');
    assert!(draw(&a, 80).show_picker);
    a.insert_char('z');
    assert!(a.picker_active());
    assert!(!draw(&a, 80).show_picker);

    let mut a = app();
    a.editor.input = "go".to_string();
    a.editor.input_cursor = 2;
    a.submit_input(hal::submit::Supply::Files(vec![]), 1);
    let env = Surroundings {
        now: 1,
        sandbox: SandboxConfig { allowed_paths: vec![] },
        toolchain: ToolchainEnv { home: None, cargo_home: None, rustup_home: None, nvm_dir: None, gopath: None },
    };
    a.poll_api_response(
        ModelPoll::Reply(Ok(ApiResponse {
            content: None,
            tool_calls: Some(vec!["{\"id\":\"1\",\"function\":{\"name\":\"bash\",\"arguments\":\"{\\\"command\\\":\\\"git log\\\"}\"}}".to_string()]),
            usage: Some(Usage { prompt_tokens: 1, completion_tokens: 2, total_tokens: 3 }),
        })),
        &env,
    );
    assert!(draw(&a, 80).show_modal);
    assert_eq!(a.permission_modal.as_ref().unwrap().path, "~/.gitconfig");
    assert!(matches!(a.messages[0].role, MessageRole::User));
}
