use window_shell::error::ErrorKind;
use window_shell::navigation::{append_escaped, escape_url, navigate, navigation_script};

const PREFIX: &str = "window.location.href = '";
const SUFFIX: &str = "';";

/// Drops each escaping backslash and keeps the character behind it.
fn unescape(text: &str) -> String {
    let mut out = String::new();
    let mut chars = text.chars();
    while let Some(c) = chars.next() {
        if c == '\\' {
            match chars.next() {
                Some(kept) => out.push(kept),
                None => out.push(c),
            }
        } else {
            out.push(c);
        }
    }
    out
}

/// The contents of the literal that the prefix opens, as a script engine
/// reads them: up to the first single quote that no backslash escapes. What
/// follows the literal has to be the suffix.
fn target_of(script: &str) -> &str {
    assert!(script.starts_with(PREFIX));
    let tail = &script[PREFIX.len()..];
    let mut escaping = false;
    let mut end: Option<usize> = None;
    for (at, c) in tail.char_indices() {
        if escaping {
            escaping = false;
        } else if c == '\\' {
            escaping = true;
        } else if c == '\'' {
            end = Some(at);
            break;
        }
    }
    let end: usize = end.expect("the literal is never closed");
    assert_eq!(&tail[end..], SUFFIX);
    &tail[..end]
}

#[test]
fn plain_url_is_not_changed_by_escaping() {
    assert_eq!(escape_url("http://127.0.0.1:1420/a?b=c"), "http://127.0.0.1:1420/a?b=c");
    assert_eq!(escape_url(""), "");
}

#[test]
fn single_quote_is_escaped() {
    assert_eq!(escape_url("it's"), "it\\'s");
    assert_eq!(escape_url("'"), "\\'");
    assert_eq!(escape_url("'\"\\"), "\\'\\\"\\\\");
}

#[test]
fn backslash_and_quote_are_escaped() {
    assert_eq!(escape_url("a\"b\\c"), "a\\\"b\\\\c");
    assert_eq!(escape_url("\\"), "\\\\");
    assert_eq!(escape_url("\""), "\\\"");
    assert_eq!(escape_url("\\\""), "\\\\\\\"");
}

#[test]
fn other_characters_pass_through() {
    assert_eq!(escape_url("a b;c/d?e=f&g#h"), "a b;c/d?e=f&g#h");
    assert_eq!(escape_url("h\u{e9}llo/\u{8bbe}\u{7f6e}"), "h\u{e9}llo/\u{8bbe}\u{7f6e}");
}

#[test]
fn escaping_equals_replacements_with_the_backslash_first() {
    let urls: Vec<&str> =
        vec!["", "plain", "a\"b\\c", "\\\\\"\"", "x\\", "\"x", "\\\"\\\"", "'a'\\'"];
    for url in urls {
        let replaced: String =
            url.replace('\\', "\\\\").replace('"', "\\\"").replace('\'', "\\'");
        assert_eq!(escape_url(url), replaced);
    }
}

#[test]
fn url_without_single_quote_is_escaped_by_two_replacements() {
    let urls: Vec<&str> = vec!["", "plain", "a\"b\\c", "\\\\\"\"", "x\\", "\"x", "\\\"\\\""];
    for url in urls {
        assert_eq!(escape_url(url), url.replace('\\', "\\\\").replace('"', "\\\""));
    }
}

#[test]
fn append_escaped_adds_at_the_end() {
    let mut text = String::from("go: ");
    append_escaped(&mut text, "a\\b");
    assert_eq!(text, "go: a\\\\b");
    append_escaped(&mut text, "");
    assert_eq!(text, "go: a\\\\b");
}

#[test]
fn script_assigns_the_location() {
    assert_eq!(
        navigation_script("http://127.0.0.1:9999"),
        "window.location.href = 'http://127.0.0.1:9999';"
    );
    assert_eq!(navigation_script(""), "window.location.href = '';");
}

#[test]
fn script_escapes_quote_and_backslash() {
    let url = "http://host/a\"b\\c";
    let script = navigation_script(url);
    assert_eq!(script, "window.location.href = 'http://host/a\\\"b\\\\c';");
    let target = target_of(&script);
    assert!(target.contains("\\\""));
    assert!(target.contains("\\\\"));
    assert_eq!(unescape(target), url);
}

#[test]
fn unescaped_target_is_the_url() {
    let urls: Vec<&str> = vec![
        "",
        "http://example.com",
        "\"",
        "\\",
        "\\\\",
        "\"\"",
        "a\\\"b",
        "\\n",
        "';alert(1);'",
        "a';alert(1);//",
        "a\";alert(1);//",
        "a\\\";alert(1);//",
        "\\",
        "x\\\\\"",
    ];
    for url in urls {
        let script = navigation_script(url);
        assert_eq!(unescape(target_of(&script)), url);
    }
}

#[test]
fn single_quote_in_the_url_does_not_end_the_literal() {
    let url = "a';alert(1);//";
    let script = navigation_script(url);
    assert_eq!(script, "window.location.href = 'a\\';alert(1);//';");
    assert_eq!(unescape(target_of(&script)), url);
}

#[test]
fn double_quote_in_the_url_does_not_end_the_literal() {
    let url = "a\";alert(1);//";
    let script = navigation_script(url);
    assert_eq!(script, "window.location.href = 'a\\\";alert(1);//';");
    assert_eq!(unescape(target_of(&script)), url);
}

#[test]
fn backslash_at_the_end_of_the_url_does_not_swallow_the_closing_quote() {
    let url = "a\\";
    let script = navigation_script(url);
    assert_eq!(script, "window.location.href = 'a\\\\';");
    assert_eq!(unescape(target_of(&script)), url);
}

#[test]
fn no_quote_stands_bare_in_the_target() {
    let script = navigation_script("\"a\"'\"b\\\"''");
    let target: Vec<char> = target_of(&script).chars().collect();
    for at in 0..target.len() {
        if target[at] == '"' || target[at] == '\'' {
            assert!(at > 0 && target[at - 1] == '\\');
        }
    }
}

#[test]
fn navigate_gives_the_script() {
    assert_eq!(
        navigate(true, "http://example.com"),
        Ok(String::from("window.location.href = 'http://example.com';"))
    );
}

#[test]
fn navigate_does_not_examine_the_url() {
    assert_eq!(navigate(true, "not a url"), Ok(String::from("window.location.href = 'not a url';")));
}

#[test]
fn navigate_escapes_backslashes_and_double_quotes() {
    assert_eq!(
        navigate(true, "a\"b\\c"),
        Ok(String::from("window.location.href = 'a\\\"b\\\\c';"))
    );
}

#[test]
fn navigate_without_primary_window_fails() {
    let failed = navigate(false, "http://example.com");
    assert_eq!(failed, Err(ErrorKind::WindowNotFound));
    assert_eq!(failed.unwrap_err().message(), "main window not found");
}
