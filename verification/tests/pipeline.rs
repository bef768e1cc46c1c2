use rusty_grep::config::Config;
use rusty_grep::config::Flags;
use rusty_grep::line_grep::LineGrep;
use rusty_grep::line_src::classify_path;
use rusty_grep::line_src::probe_is_utf8;
use rusty_grep::line_src::skip_diagnostic;
use rusty_grep::line_src::FileCheck;
use rusty_grep::line_src::LinesFromFiles;
use rusty_grep::present::process_line;
use rusty_grep::present::render;
use rusty_grep::present::RenderedBody;

fn flags(ignore_case: bool, print_line_nums: bool, use_color: bool) -> Flags {
    Flags { ignore_case, print_line_nums, use_color }
}

#[test]
fn config_needs_a_pattern() {
    assert!(Config::from_parts(vec![], true, true, true).is_none());
}

#[test]
fn config_splits_pattern_and_files() {
    let c = Config::from_parts(
        vec!["pat".to_string(), "f1".to_string(), "f2".to_string()],
        true,
        false,
        true,
    )
    .unwrap();
    assert_eq!(c.pattern, Some("pat".to_string()));
    assert_eq!(c.files, vec!["f1".to_string(), "f2".to_string()]);
    assert!(c.flags.ignore_case);
    assert!(!c.flags.print_line_nums);
    assert!(c.flags.use_color);
}

#[test]
fn render_without_span_is_silent() {
    let text = "some line".to_string();
    assert_eq!(render(&flags(false, true, true), &"l".to_string(), 1, &text, None), None);
}

#[test]
fn render_plain_keeps_whole_line() {
    let text = "This is a test string...".to_string();
    let line = render(&flags(false, false, false), &"".to_string(), 1, &text, Some((10, 21)))
        .unwrap();
    assert_eq!(line.label, None);
    assert_eq!(line.line_no, None);
    assert_eq!(line.body, RenderedBody::Whole(text));
}

#[test]
fn render_with_color_splits_at_the_span() {
    let text = "This is a test string...".to_string();
    let line = render(&flags(false, true, true), &"f.txt".to_string(), 3, &text, Some((10, 21)))
        .unwrap();
    assert_eq!(line.label, Some("f.txt".to_string()));
    assert_eq!(line.line_no, Some(3));
    assert_eq!(
        line.body,
        RenderedBody::Split {
            before: "This is a ".to_string(),
            matched: "test string".to_string(),
            after: "...".to_string(),
        }
    );
}

#[test]
fn render_splits_multibyte_text_on_char_boundaries() {
    let text = "caf\u{e9} noir".to_string();
    let mut grep = LineGrep::new("noir".to_string(), false).unwrap();
    let span = grep.feed(&text);
    let line = render(&flags(false, false, true), &"".to_string(), 1, &text, span).unwrap();
    assert_eq!(
        line.body,
        RenderedBody::Split {
            before: "caf\u{e9} ".to_string(),
            matched: "noir".to_string(),
            after: "".to_string(),
        }
    );
}

#[test]
fn process_line_renders_only_matches() {
    let mut grep = LineGrep::new("test string".to_string(), false).unwrap();
    let fl = flags(false, true, true);
    let text = "This is a test string...".to_string();
    let line = process_line(&mut grep, &fl, &"lbl".to_string(), 7, &text).unwrap();
    assert_eq!(line.label, Some("lbl".to_string()));
    assert_eq!(line.line_no, Some(7));
    assert_eq!(
        line.body,
        RenderedBody::Split {
            before: "This is a ".to_string(),
            matched: "test string".to_string(),
            after: "...".to_string(),
        }
    );
    assert_eq!(process_line(&mut grep, &fl, &"lbl".to_string(), 8, &"nothing here".to_string()), None);
}

#[test]
fn probed_out_file_is_skipped_with_a_diagnostic_and_no_lines() {
    let mut src = LinesFromFiles::new(vec!["good.txt".to_string(), "utf16.txt".to_string()]);
    let mut emitted: Vec<(String, u32, String)> = Vec::new();

    let path = src.pop_next().unwrap();
    assert_eq!(path, "utf16.txt");
    let check = classify_path(true, false, probe_is_utf8(2, 0xFF, 0xFE));
    assert_eq!(check, FileCheck::NotUtf8);
    let diag = skip_diagnostic(check, &path);
    assert_eq!(diag, Some("\"utf16.txt\" is not a UTF-8 encoded file!".to_string()));
    // the file is never opened, so it contributes no records

    let path = src.pop_next().unwrap();
    let check = classify_path(true, false, probe_is_utf8(2, b'o', b'k'));
    assert_eq!(check, FileCheck::Usable);
    src.begin_file(&path);
    emitted.push(src.next_line("only line".to_string()));

    assert_eq!(emitted, vec![("good.txt".to_string(), 1, "only line".to_string())]);
}

#[test]
fn two_file_run_labels_and_numbers_each_match() {
    // two files, neither matching on its first line, both matching on the
    // second; files are processed from the end of the queue
    let files = vec![
        ("a/alpha.txt", vec!["nothing here", "a needle sits"]),
        ("b/beta.txt", vec!["still nothing", "another needle"]),
    ];
    let mut src = LinesFromFiles::new(
        files.iter().map(|(p, _)| p.to_string()).collect::<Vec<String>>(),
    );
    let mut grep = LineGrep::new("needle".to_string(), false).unwrap();
    let fl = flags(false, true, false);
    let mut shown: Vec<(Option<String>, Option<u32>)> = Vec::new();

    let mut expected_order: Vec<&str> = Vec::new();
    for _ in 0..files.len() {
        let path = src.pop_next().unwrap();
        let content = files.iter().find(|(p, _)| *p == path).unwrap().1.clone();
        src.begin_file(&path);
        for raw in content {
            let (label, index, text) = src.next_line(raw.to_string());
            if let Some(line) = process_line(&mut grep, &fl, &label, index, &text) {
                shown.push((line.label, line.line_no));
            }
        }
        src.end_file();
        expected_order.push(if path.starts_with("a/") { "alpha.txt" } else { "beta.txt" });
    }

    assert_eq!(expected_order, vec!["beta.txt", "alpha.txt"]);
    assert_eq!(
        shown,
        vec![
            (Some("beta.txt".to_string()), Some(2)),
            (Some("alpha.txt".to_string()), Some(2)),
        ]
    );
}
