use vibe_hub::chars::{
    contains, lines, replace_all, split, starts_with, strip_prefixes, strip_suffixes, text_of, to_chars,
    to_text, trim,
};
use vibe_hub::records::{discard, find, split_done, ByPriority};
use vibe_hub::sequences::stable_sort;
use vibe_hub::text::{discard_text, lookup, text_before_eq};
use vibe_hub::models::{FeedbackItem, FeedbackStatus};

fn chars(s: &str) -> Vec<char> {
    s.chars().collect()
}

fn texts(parts: Vec<Vec<char>>) -> Vec<String> {
    parts.iter().map(|p| p.iter().collect()).collect()
}

fn record(id: &str, priority: u8, status: FeedbackStatus) -> FeedbackItem {
    FeedbackItem {
        id: id.to_string(),
        text: String::new(),
        priority,
        status,
        created_at: String::new(),
        completed_at: None,
        refined_into_issue_ids: None,
        review_notes: None,
        github_issue_number: None,
        github_issue_url: None,
    }
}

#[test]
fn text_converts_to_characters_and_back() {
    assert_eq!(to_chars("h\u{e9}llo"), chars("h\u{e9}llo"));
    assert_eq!(text_of(&chars("h\u{e9}llo")), "h\u{e9}llo");
    assert_eq!(to_text(&chars("hello"), 1, 3), "el");
    assert_eq!(to_text(&chars("hello"), 2, 2), "");
    assert!(to_chars("").is_empty());
}

#[test]
fn trimming_removes_white_space_at_both_ends() {
    assert_eq!(text_of(&trim(&chars("  a b \t\r\n"))), "a b");
    assert_eq!(text_of(&trim(&chars("\u{a0}\u{3000}x\u{2003}"))), "x");
    assert_eq!(text_of(&trim(&chars("   "))), "");
    assert_eq!(text_of(&trim(&chars(""))), "");
    assert_eq!(text_of(&trim(&chars("x"))), "x");
    for sample in ["  a b \t\r\n", "\u{a0}x\u{85}", " ", "", "none", "\u{200b} zero width "] {
        assert_eq!(text_of(&trim(&chars(sample))), sample.trim());
    }
}

#[test]
fn white_space_is_what_the_unicode_property_lists() {
    let listed = |c: char| {
        matches!(
            c,
            '\u{9}'..='\u{d}'
                | ' '
                | '\u{85}'
                | '\u{a0}'
                | '\u{1680}'
                | '\u{2000}'..='\u{200a}'
                | '\u{2028}'
                | '\u{2029}'
                | '\u{202f}'
                | '\u{205f}'
                | '\u{3000}'
        )
    };
    let mut count = 0;
    for code in 0..=0x10ffff_u32 {
        if let Some(c) = char::from_u32(code) {
            let kept = trim(&vec![c]);
            assert_eq!(kept.is_empty(), listed(c), "code point {:x}", code);
            if kept.is_empty() {
                count += 1;
            }
        }
    }
    assert_eq!(count, 25);
}

#[test]
fn prefixes_and_suffixes_are_stripped_repeatedly() {
    assert!(starts_with(&chars("Name: x"), "Name:"));
    assert!(!starts_with(&chars("Nam"), "Name:"));
    assert!(starts_with(&chars("abc"), ""));
    assert_eq!(text_of(&strip_prefixes(&chars("ababc"), "ab")), "c");
    assert_eq!(text_of(&strip_prefixes(&chars("abc"), "")), "abc");
    assert_eq!(text_of(&strip_prefixes(&chars("abc"), "bc")), "abc");
    assert_eq!(text_of(&strip_suffixes(&chars("repo.git.git"), ".git")), "repo");
    assert_eq!(text_of(&strip_suffixes(&chars("a///"), "/")), "a");
    assert_eq!(text_of(&strip_suffixes(&chars(".git"), ".git")), "");
    assert_eq!(text_of(&strip_suffixes(&chars("git"), ".git")), "git");
    for (sample, part) in [("ababc", "ab"), ("aaa", "a"), ("xyz", "z"), ("", "a")] {
        assert_eq!(text_of(&strip_prefixes(&chars(sample), part)), sample.trim_start_matches(part));
        assert_eq!(text_of(&strip_suffixes(&chars(sample), part)), sample.trim_end_matches(part));
    }
}

#[test]
fn splitting_keeps_empty_parts() {
    assert_eq!(texts(split(&chars("a/b//c/"), '/')), vec!["a", "b", "", "c", ""]);
    assert_eq!(texts(split(&chars(""), '/')), vec![""]);
    assert_eq!(texts(split(&chars("abc"), '/')), vec!["abc"]);
    for sample in ["a/b//c/", "", "/", "no separator", "//"] {
        let expected: Vec<String> = sample.split('/').map(|p| p.to_string()).collect();
        assert_eq!(texts(split(&chars(sample), '/')), expected);
    }
}

#[test]
fn lines_end_with_line_feeds() {
    assert_eq!(texts(lines(&chars("a\nb\r\nc"))), vec!["a", "b", "c"]);
    assert_eq!(texts(lines(&chars("a\n\nb\n"))), vec!["a", "", "b"]);
    assert!(lines(&chars("")).is_empty());
    for sample in ["a\nb\r\nc", "a\n\nb\n", "", "\n", "\r\n", "a\r", "a\r\n\r\n", "x\ry\n", "last\n\r"] {
        let expected: Vec<String> = sample.lines().map(|l| l.to_string()).collect();
        assert_eq!(texts(lines(&chars(sample))), expected);
    }
}

#[test]
fn search_and_replacement_go_from_left_to_right() {
    assert!(contains(&chars("https://github.com/x"), "github.com"));
    assert!(!contains(&chars("https://gitlab.com/x"), "github.com"));
    assert!(contains(&chars("abc"), ""));
    assert!(contains(&chars(""), ""));
    assert!(!contains(&chars("ab"), "abc"));
    assert_eq!(text_of(&replace_all(&chars("aaa"), &chars("aa"), &chars("b"))), "ba");
    assert_eq!(text_of(&replace_all(&chars("a b c"), &chars(" "), &chars("-"))), "a-b-c");
    assert_eq!(text_of(&replace_all(&chars("abc"), &chars(""), &chars("-"))), "abc");
    for (sample, from, to) in [("aaa", "aa", "b"), ("it's", "'", "'\\''"), ("", "a", "b"), ("abcabc", "bc", "")] {
        assert_eq!(
            text_of(&replace_all(&chars(sample), &chars(from), &chars(to))),
            sample.replace(from, to)
        );
    }
}

#[test]
fn texts_are_ordered_by_their_bytes() {
    assert!(text_before_eq("a", "b"));
    assert!(!text_before_eq("b", "a"));
    assert!(text_before_eq("a", "a"));
    assert!(text_before_eq("", "a"));
    assert!(text_before_eq("ab", "abc"));
    assert!(!text_before_eq("abc", "ab"));
    assert!(text_before_eq("Z", "a"));
    assert!(text_before_eq("z", "\u{e9}"));
    for (a, b) in [("2024-01-01", "2024-01-02"), ("10", "9"), ("", ""), ("\u{ffff}", "\u{10000}")] {
        assert_eq!(text_before_eq(a, b), a <= b);
        assert_eq!(text_before_eq(b, a), b <= a);
    }
}

#[test]
fn records_are_found_removed_and_parted() {
    let mut items = vec![
        record("a", 1, FeedbackStatus::Pending),
        record("b", 1, FeedbackStatus::Completed),
        record("a", 2, FeedbackStatus::Completed),
        record("c", 1, FeedbackStatus::Refined),
    ];
    assert_eq!(find(&items, &"a".to_string()), Some(0));
    assert_eq!(find(&items, &"c".to_string()), Some(3));
    assert_eq!(find(&items, &"d".to_string()), None);
    discard(&mut items, &"a".to_string());
    assert_eq!(items.iter().map(|i| i.id.as_str()).collect::<Vec<_>>(), vec!["b", "c"]);
    let (open, closed) = split_done(items);
    assert_eq!(open.iter().map(|i| i.id.as_str()).collect::<Vec<_>>(), vec!["c"]);
    assert_eq!(closed.iter().map(|i| i.id.as_str()).collect::<Vec<_>>(), vec!["b"]);
}

#[test]
fn sorting_is_stable() {
    let mut items = vec![
        record("c3", 3, FeedbackStatus::Pending),
        record("a1", 1, FeedbackStatus::Pending),
        record("d3", 3, FeedbackStatus::Pending),
        record("b1", 1, FeedbackStatus::Pending),
        record("e2", 2, FeedbackStatus::Pending),
        record("f0", 0, FeedbackStatus::Pending),
    ];
    stable_sort::<FeedbackItem, ByPriority>(&mut items);
    assert_eq!(
        items.iter().map(|i| i.id.as_str()).collect::<Vec<_>>(),
        vec!["f0", "a1", "b1", "e2", "c3", "d3"]
    );
    let mut none: Vec<FeedbackItem> = vec![];
    stable_sort::<FeedbackItem, ByPriority>(&mut none);
    assert!(none.is_empty());
}

#[test]
fn texts_are_removed_and_looked_up() {
    let mut ids = vec!["a".to_string(), "b".to_string(), "a".to_string(), "c".to_string()];
    discard_text(&mut ids, &"a".to_string());
    assert_eq!(ids, vec!["b".to_string(), "c".to_string()]);
    let pairs = vec![
        ("k".to_string(), "first".to_string()),
        ("k".to_string(), "second".to_string()),
    ];
    assert_eq!(lookup(&pairs, "k"), Some("first".to_string()));
    assert_eq!(lookup(&pairs, "other"), None);
}
