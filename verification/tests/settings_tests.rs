use photomap::settings::{find_setting, parse_settings, render_settings, Settings};
use photomap::text::{append_digits, append_i32, is_whitespace, strips, Strip};

fn settings(folder: Option<&str>, start_browser: bool, top: i32, left: i32) -> Settings {
    Settings { last_folder: folder.map(|f| f.to_string()), start_browser, top, left }
}

fn same(a: &Settings, b: &Settings) -> bool {
    a.last_folder == b.last_folder
        && a.start_browser == b.start_browser
        && a.top == b.top
        && a.left == b.left
}

/// The number that a value spells, told by setting two keys whose defaults differ.
fn number_of(value: &str) -> Option<i32> {
    let (loaded, _) = parse_settings(&format!("top ={}\nleft={}", value, value));
    if loaded.top == loaded.left {
        Some(loaded.top)
    } else {
        assert_eq!((loaded.top, loaded.left), (12, 52));
        None
    }
}

/// Whether a value switches the browser off: only `false` does.
fn switches_off(value: &str) -> bool {
    let (loaded, _) = parse_settings(&format!("start_browser={}", value));
    !loaded.start_browser
}

#[test]
fn text_of_the_defaults_has_its_heading() {
    let text = render_settings(&Settings::default());
    assert!(text.contains("# PhotoMap Configuration File"));
    let (loaded, complete) = parse_settings(&text);
    assert!(complete);
    assert!(same(&loaded, &Settings::default()));
}

#[test]
fn default_settings_are_rendered_line_by_line() {
    assert_eq!(
        render_settings(&Settings::default()),
        "# PhotoMap Configuration File\nstart_browser = true\ntop = 12\nleft = 52\n"
    );
    assert_eq!(
        render_settings(&settings(Some("/home/me/Photos"), false, -7, 0)),
        "# PhotoMap Configuration File\nlast_folder = \"/home/me/Photos\"\nstart_browser = false\ntop = -7\nleft = 0\n"
    );
    assert_eq!(
        render_settings(&settings(None, true, i32::MIN, i32::MAX)),
        "# PhotoMap Configuration File\nstart_browser = true\ntop = -2147483648\nleft = 2147483647\n"
    );
}

#[test]
fn rendered_settings_are_read_back() {
    for s in [
        settings(None, true, 12, 52),
        settings(Some("/photos"), false, 0, -1),
        settings(Some("C:\\Users\\me\\My Pictures"), true, i32::MIN, i32::MAX),
        settings(Some(" spaced = out "), false, 1000, 10),
        settings(Some(""), true, -12, -52),
    ] {
        let (loaded, complete) = parse_settings(&render_settings(&s));
        assert!(complete);
        assert!(same(&loaded, &s));
    }
}

#[test]
fn empty_text_holds_the_defaults() {
    let (loaded, complete) = parse_settings("");
    assert!(!complete);
    assert!(same(&loaded, &Settings::default()));
    let (loaded, complete) = parse_settings("\n\n   \n# top = 5\n");
    assert!(!complete);
    assert!(same(&loaded, &Settings::default()));
}

#[test]
fn later_line_of_a_key_stands() {
    let (loaded, complete) = parse_settings("top = 1\nleft = 2\ntop = 3\n");
    assert!(complete);
    assert_eq!((loaded.top, loaded.left), (3, 2));
    assert_eq!(find_setting("top = 1\nleft = 2\ntop = 3\n", "top"), Some((23, 24)));
    assert_eq!(find_setting("top = 1\nleft = 2\ntop = 3\n", "left"), Some((15, 16)));
    assert_eq!(find_setting("top = 1\nleft = 2\ntop = 3\n", "right"), None);
}

#[test]
fn value_of_another_shape_leaves_the_default() {
    let (loaded, complete) =
        parse_settings("top = twelve\nleft = 99999999999\nstart_browser = yes\n");
    assert!(complete);
    assert!(same(&loaded, &Settings::default()));
    let (loaded, complete) = parse_settings("top =\nstart_browser = TRUE\n");
    assert!(!complete);
    assert!(same(&loaded, &Settings::default()));
}

#[test]
fn lines_are_read_leniently() {
    let text = "  # indented comments are lines like any other\r\n\
                \ttop\t=\t 7 \r\n\
                left=8\r\n\
                start_browser =false\n\
                no equals sign here\n\
                last_folder = \"\"quoted\"\"   \n\
                #left = 11";
    let (loaded, complete) = parse_settings(text);
    assert!(complete);
    assert_eq!(loaded.top, 7);
    assert_eq!(loaded.left, 8);
    assert!(!loaded.start_browser);
    assert_eq!(loaded.last_folder.as_deref(), Some("quoted"));
}

#[test]
fn value_runs_from_the_first_equals_sign_to_the_end_of_the_line() {
    let (loaded, complete) = parse_settings("left = 8\nleft = 9 = 10\ntop = 1\n");
    assert!(complete);
    assert_eq!(loaded.left, 52);
    assert_eq!(find_setting("left = 8\nleft = 9 = 10\n", "left"), Some((16, 22)));
}

#[test]
fn folder_without_quotes_is_taken_as_written() {
    let (loaded, _) = parse_settings("last_folder = /plain/path with spaces\n");
    assert_eq!(loaded.last_folder.as_deref(), Some("/plain/path with spaces"));
    let (loaded, _) = parse_settings("last_folder =\n");
    assert_eq!(loaded.last_folder.as_deref(), Some(""));
    let (loaded, _) = parse_settings("last_folder = \"a\"b\"\n");
    assert_eq!(loaded.last_folder.as_deref(), Some("a\"b"));
    let (loaded, _) = parse_settings("last_folder = \"p\u{e9}re\u{2003}\"\u{2003}\n");
    assert_eq!(loaded.last_folder.as_deref(), Some("p\u{e9}re\u{2003}"));
    let (loaded, _) = parse_settings("Last_folder = x\n");
    assert_eq!(loaded.last_folder, None);
}

#[test]
fn integers_are_read_as_the_standard_library_reads_them() {
    for text in [
        "0", "-0", "+0", "7", "+7", "-7", "007", "2147483647", "-2147483648", "+2147483647",
        "2147483648", "-2147483649", "99999999999999999999", "", "+", "-", "--1", "+-1", "1-",
        "1_000", "0x10", "1.0", "\u{664}", "12a", "a12", "1 2",
    ] {
        assert_eq!(number_of(text), text.parse::<i32>().ok());
    }
    assert_eq!(number_of("  42\t"), Some(42));
    assert_eq!(number_of("\u{3000}-42\u{a0}\r"), Some(-42));
}

#[test]
fn truth_values_are_read_exactly() {
    assert!(switches_off("false"));
    assert!(switches_off("  false \r"));
    assert!(!switches_off("true"));
    assert!(!switches_off("False"));
    assert!(!switches_off("FALSE"));
    assert!(!switches_off("falsee"));
    assert!(!switches_off("0"));
    assert!(!switches_off(""));
    let (loaded, _) = parse_settings("start_browser = false\nstart_browser = true\n");
    assert!(loaded.start_browser);
    let (loaded, _) = parse_settings("start_browser = false\nstart_browser = maybe\n");
    assert!(loaded.start_browser);
}

#[test]
fn white_space_is_that_of_unicode() {
    for code in 0u32..0x3100 {
        if let Some(c) = char::from_u32(code) {
            assert_eq!(is_whitespace(c), c.is_whitespace());
            assert_eq!(strips(Strip::Spaces, c), c.is_whitespace());
            assert_eq!(strips(Strip::Quotes, c), c == '"');
        }
    }
    assert!(!is_whitespace('\u{feff}'));
    assert!(!is_whitespace('\u{10ffff}'));
}

#[test]
fn values_are_found_without_the_space_around_them() {
    assert_eq!(find_setting("  a b  =  c d  ", "a b"), Some((10, 13)));
    assert_eq!(find_setting("key==", "key"), Some((4, 5)));
    assert_eq!(find_setting("key=", "key"), Some((4, 4)));
    assert_eq!(find_setting("=value", ""), Some((1, 6)));
    assert_eq!(find_setting("key", "key"), None);
    assert_eq!(find_setting("#key=1", "#key"), None);
    assert_eq!(find_setting(" #key=1", "#key"), Some((6, 7)));
    assert_eq!(find_setting("a=1\n\nb=2", "b"), Some((7, 8)));
    assert_eq!(find_setting("a=1\n\nb=2\n", "a"), Some((2, 3)));
    assert_eq!(find_setting("p\u{e9}re=\u{e9}", "p\u{e9}re"), Some((5, 6)));
}

#[test]
fn numbers_are_written_in_decimal() {
    for n in [0i32, 1, 9, 10, 11, 99, 100, 12345, -1, -10, i32::MAX, i32::MIN] {
        let mut out = String::from("n=");
        append_i32(&mut out, n);
        assert_eq!(out, format!("n={}", n));
    }
    for n in [0u32, 7, 10, 4096, u32::MAX] {
        let mut out = String::new();
        append_digits(&mut out, n);
        assert_eq!(out, format!("{}", n));
    }
}

#[test]
fn folder_with_quotes_at_its_ends_is_not_read_back() {
    let odd = settings(Some("\"quoted\""), true, 12, 52);
    let (loaded, complete) = parse_settings(&render_settings(&odd));
    assert!(complete);
    assert_eq!(loaded.last_folder.as_deref(), Some("quoted"));
    let broken = settings(Some("two\nlines"), true, 12, 52);
    let (loaded, _) = parse_settings(&render_settings(&broken));
    assert_eq!(loaded.last_folder.as_deref(), Some("two"));
}
