use jsandbox::text::chars_of;
use jsandbox::text::contains_chars;
use jsandbox::text::find_after_last;
use jsandbox::text::find_char;
use jsandbox::text::find_word_start;
use jsandbox::text::is_space;
use jsandbox::text::join_lines;
use jsandbox::text::skip_prefixes;
use jsandbox::text::skip_spaces;
use jsandbox::text::skip_spaces_back;
use jsandbox::text::split_lines;
use jsandbox::text::starts_with_at;
use jsandbox::text::str_eq;
use jsandbox::text::trim_bounds;

const SAMPLES: [&str; 14] = [
    "",
    " ",
    "a",
    "  a  ",
    "\t\u{a0}caf\u{e9} \u{3000}",
    "export const x = 1;",
    "a\nb",
    "a\r\nb\r\n",
    "\n\n",
    "\r",
    "x\r\n\ry\n\r",
    "\u{1f600} smile \u{1f600}",
    "   \u{2028}",
    "exportexportexport",
];

fn text_of(chars: &[char]) -> String {
    chars.iter().collect()
}

#[test]
fn white_space_is_what_std_calls_white_space() {
    for code in 0u32..=0x10FFFF {
        if let Some(c) = char::from_u32(code) {
            assert_eq!(is_space(c), c.is_whitespace());
        }
    }
}

#[test]
fn equality_is_letter_for_letter() {
    for a in SAMPLES {
        for b in SAMPLES {
            assert_eq!(str_eq(a, b), a == b);
        }
    }
    assert!(!str_eq("caf\u{e9}", "cafe\u{301}"));
    assert!(!str_eq("a", "A"));
}

#[test]
fn chars_of_lists_the_characters_in_order() {
    for s in SAMPLES {
        assert_eq!(chars_of(s), s.chars().collect::<Vec<char>>());
    }
    assert_eq!(chars_of("h\u{e9}\u{1f600}"), vec!['h', '\u{e9}', '\u{1f600}']);
}

#[test]
fn trimming_agrees_with_std() {
    for s in SAMPLES {
        let chars = chars_of(s);
        let n = chars.len();
        let start = skip_spaces(&chars, 0, n);
        assert_eq!(text_of(&chars[start..]), s.trim_start());
        let end = skip_spaces_back(&chars, 0, n);
        assert_eq!(text_of(&chars[..end]), s.trim_end());
        let (from, to) = trim_bounds(&chars, 0, n);
        assert_eq!(text_of(&chars[from..to]), s.trim());
    }
}

#[test]
fn trimming_a_part_leaves_the_rest_alone() {
    let chars = chars_of("ab  cd  ef");
    assert_eq!(trim_bounds(&chars, 2, 8), (4, 6));
    assert_eq!(trim_bounds(&chars, 2, 4), (4, 4));
    assert_eq!(trim_bounds(&chars, 3, 3), (3, 3));
    assert_eq!(skip_spaces(&chars, 2, 4), 4);
    assert_eq!(skip_spaces_back(&chars, 2, 4), 2);
}

#[test]
fn prefixes_and_occurrences_agree_with_std() {
    let patterns = ["", "a", "export", "ex", "\n", " ", "\u{1f600}", "exportexport", "b\r"];
    for s in SAMPLES {
        let chars = chars_of(s);
        for p in patterns {
            let pattern = chars_of(p);
            assert_eq!(starts_with_at(&chars, 0, chars.len(), &pattern), s.starts_with(p));
            assert_eq!(contains_chars(&chars, &pattern), s.contains(p));
            let at = skip_prefixes(&chars, 0, chars.len(), &pattern);
            let expected = if p.is_empty() { s } else { s.trim_start_matches(p) };
            assert_eq!(text_of(&chars[at..]), expected);
        }
    }
}

#[test]
fn searching_finds_the_first_and_the_last() {
    let chars = chars_of("a=b=c d(e)");
    assert_eq!(find_char(&chars, 0, chars.len(), '='), 1);
    assert_eq!(find_char(&chars, 2, chars.len(), '='), 3);
    assert_eq!(find_char(&chars, 4, chars.len(), '='), chars.len());
    assert_eq!(find_char(&chars, 0, 1, '='), 1);
    assert_eq!(find_after_last(&chars, 0, chars.len(), '='), 4);
    assert_eq!(find_after_last(&chars, 0, 3, '='), 2);
    assert_eq!(find_after_last(&chars, 0, 1, '='), 0);
    assert_eq!(find_after_last(&chars, 4, chars.len(), '='), 4);
    assert_eq!(find_word_start(&chars, 7), 6);
    assert_eq!(find_word_start(&chars, 6), 6);
    assert_eq!(find_word_start(&chars, 5), 0);
    assert_eq!(find_word_start(&chars, 0), 0);
}

#[test]
fn lines_agree_with_std() {
    for s in SAMPLES {
        assert_eq!(split_lines(s), s.lines().collect::<Vec<&str>>());
    }
    assert_eq!(split_lines("a\r\nb\rc\n\rd"), vec!["a", "b\rc", "\rd"]);
    assert_eq!(split_lines("one\n"), vec!["one"]);
    assert_eq!(split_lines("\none"), vec!["", "one"]);
}

#[test]
fn joining_agrees_with_std() {
    let lists: [Vec<&str>; 5] =
        [vec![], vec![""], vec!["a"], vec!["a", "", "b"], vec!["", "", ""]];
    for list in lists {
        for separator in ["\n", " ", "", ", "] {
            assert_eq!(join_lines(&list, separator), list.join(separator));
        }
    }
}
