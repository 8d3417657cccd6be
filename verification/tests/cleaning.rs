//! Cleaning of recognized lines, and the text helpers below it.

use screen_context::ocr::clean::{
    clean_ocr_lines, clean_ocr_text, is_cjk, is_likely_timestamp_or_meta, is_mostly_noise,
    is_significant_char, noise_by_counts, remove_spaces_between_cjk, screen_text_of,
    significant_given,
};
use screen_context::ocr::engine::{OcrLine, OcrResult};
use screen_context::strings;

fn line(text: &str, confidence: Option<u32>) -> OcrLine {
    OcrLine { text: text.to_string(), confidence }
}

#[test]
fn significant_characters_are_letters_digits_and_east_asian() {
    for c in ['a', 'Z', '7', '中', 'あ', 'カ', '한', 'é', 'Ω', '٣', '\u{30FB}'] {
        assert!(is_significant_char(c), "{c}");
    }
    for c in [' ', '.', '★', '😀', '-', '，'] {
        assert!(!is_significant_char(c), "{c}");
    }
    assert!(significant_given('★', true));
    assert!(!significant_given('★', false));
    assert!(is_cjk('中') && !is_cjk('あ') && is_cjk('\u{9FFF}') && !is_cjk('\u{A000}'));
}

#[test]
fn noise_has_too_few_significant_characters() {
    assert!(is_mostly_noise(""));
    assert!(is_mostly_noise("★★a"));
    assert!(!is_mostly_noise("★a"));
    assert!(is_mostly_noise("😀😀😀"));
    assert!(!is_mostly_noise("你好！"));
    assert!(noise_by_counts(0, 0));
    assert!(!noise_by_counts(1, 2));
    assert!(noise_by_counts(1, 3));
    assert!(!noise_by_counts(usize::MAX, usize::MAX));
}

#[test]
fn time_stamps_are_recognized() {
    for text in [
        "10:30", "14:20:05", "1 2 3", "2024-08-10", "2024/08/10", "2024年8月10日", "10.12",
        "8/10", "12/1", "昨天 10:30", "今天1", "上午 9 点", "下午3:00", "123",
    ] {
        assert!(is_likely_timestamp_or_meta(text), "{text}");
    }
    for text in ["8/1", "1.23", "9.99", "3.14", "1:2", "昨天", "10:30 hello", "会议 10:30", "上午", "2024 年 8 月"] {
        assert!(!is_likely_timestamp_or_meta(text), "{text}");
    }
}

#[test]
fn spaces_between_ideographs_are_removed() {
    assert_eq!(remove_spaces_between_cjk("你 好"), "你好");
    assert_eq!(remove_spaces_between_cjk("你 好 吗"), "你好吗");
    assert_eq!(remove_spaces_between_cjk("你  好"), "你  好");
    assert_eq!(remove_spaces_between_cjk("你 a 好"), "你 a 好");
    assert_eq!(remove_spaces_between_cjk(" 你 "), " 你 ");
    assert_eq!(remove_spaces_between_cjk("a b"), "a b");
    assert_eq!(remove_spaces_between_cjk("你\t好"), "你\t好");
    assert_eq!(remove_spaces_between_cjk(""), "");
}

#[test]
fn a_line_is_kept_trimmed_and_closed_up_or_dropped() {
    assert_eq!(clean_ocr_text("  你 好  ").as_deref(), Some("你好"));
    assert_eq!(clean_ocr_text("\u{3000}ok\n").as_deref(), Some("ok"));
    assert!(clean_ocr_text("").is_none());
    assert!(clean_ocr_text(" \t").is_none());
    assert!(clean_ocr_text("----").is_none());
    assert!(clean_ocr_text(" 10:30 ").is_none());
}

#[test]
fn lines_are_cleaned_one_by_one() {
    let kept = clean_ocr_lines(&vec![
        line("a", Some(1)),
        line("★", Some(2)),
        line(" b ", None),
        line("12:00", Some(3)),
    ]);
    assert_eq!(kept.len(), 2);
    assert_eq!((kept[0].text.as_str(), kept[0].confidence), ("a", Some(1)));
    assert_eq!((kept[1].text.as_str(), kept[1].confidence), ("b", None));
}

#[test]
fn text_of_a_screen_is_never_empty() {
    let text = |lines: Vec<OcrLine>| screen_text_of(&OcrResult { lines });
    assert_eq!(text(vec![line("a", None), line("", None), line("b", None)]).as_deref(), Some("a\nb"));
    assert!(text(vec![]).is_none());
    assert!(text(vec![line("  ", None)]).is_none());
}

#[test]
fn white_space_is_that_of_unicode() {
    for n in 0..=0x10FFFF {
        if let Some(c) = char::from_u32(n) {
            assert_eq!(strings::white_space(c), c.is_whitespace(), "{n:x}");
            assert_eq!(strings::digit(c), c.is_ascii_digit(), "{n:x}");
            assert_eq!(strings::to_ascii_lower(c), c.to_ascii_lowercase(), "{n:x}");
        }
    }
}

#[test]
fn text_helpers_agree_with_the_standard_library() {
    let samples = [
        "", " ", "a", " a ", "\u{3000}中 文\n", "/", "a/b", "a/b/", "//", "aXbXc", "XX", "{{X}}",
        "aaa", "abab",
    ];
    for s in samples {
        assert_eq!(strings::trim(s), s.trim());
        assert_eq!(strings::trim_end(s), s.trim_end());
        assert_eq!(strings::trim_trailing(s, '/'), s.trim_end_matches('/'));
        assert_eq!(strings::after_last_slash(s), s.rsplit('/').next().unwrap());
        assert_eq!(strings::parse_u64(s), s.parse::<u64>().ok());
        for t in samples {
            assert_eq!(strings::contains(s, t), s.contains(t), "{s:?} {t:?}");
            assert_eq!(strings::starts_with(s, t), s.starts_with(t));
            assert_eq!(strings::same_text(s, t), s == t);
            assert_eq!(strings::concat2(s, t), format!("{s}{t}"));
            assert_eq!(strings::concat3(s, t, s), format!("{s}{t}{s}"));
            if !t.is_empty() {
                assert_eq!(strings::replace(s, t, "<>"), s.replace(t, "<>"), "{s:?} {t:?}");
            }
        }
    }
    let parts = vec!["a".to_string(), String::new(), "b".to_string()];
    assert_eq!(strings::join(&parts, ", "), parts.join(", "));
    assert_eq!(strings::join(&vec![], ", "), "");
    for n in [0, 7, 10, 1234567890123456789012345, u128::MAX] {
        assert_eq!(strings::decimal_string(n), n.to_string());
    }
}
