use nssm_rs::text::{join, pad_right, repeat, split_words, white_space};

fn strings(v: &[&str]) -> Vec<String> {
    v.iter().map(|s| s.to_string()).collect()
}

#[test]
fn splits_like_split_whitespace() {
    for s in [
        "",
        "   ",
        "--port 8080",
        "  --port   8080  ",
        "a\tb\nc\r\nd",
        "x\u{3000}y\u{a0}z\u{2028}w",
        "single",
        "ünïcödé wörds",
        "a\u{85}b\u{1680}c\u{200a}d\u{202f}e\u{205f}f\u{2029}g\u{b}h\u{c}i",
        "a\u{200b}b",
    ] {
        let expected: Vec<String> = s.split_whitespace().map(|w| w.to_string()).collect();
        assert_eq!(split_words(s), expected, "input {:?}", s);
    }
}

#[test]
fn white_space_matches_std() {
    for n in 0u32..0x3100 {
        if let Some(c) = char::from_u32(n) {
            assert_eq!(white_space(c), c.is_whitespace(), "char {:x}", n);
        }
    }
}

#[test]
fn joins_with_separator() {
    assert_eq!(join(&strings(&[]), " "), "");
    assert_eq!(join(&strings(&["a"]), " "), "a");
    assert_eq!(join(&strings(&["a", "b", "c"]), ", "), "a, b, c");
}

#[test]
fn split_undoes_join() {
    let words = strings(&["--port", "8080", "--config", "prod.toml"]);
    assert_eq!(split_words(&join(&words, " ")), words);
}

#[test]
fn pads_to_width() {
    assert_eq!(pad_right("ab", 5), "ab   ");
    assert_eq!(pad_right("abcde", 5), "abcde");
    assert_eq!(pad_right("abcdef", 5), "abcdef");
    assert_eq!(pad_right("é", 3), format!("{:<3}", "é"));
}

#[test]
fn repeats() {
    assert_eq!(repeat("-", 3), "---");
    assert_eq!(repeat("ab", 2), "abab");
    assert_eq!(repeat("-", 0), "");
}
