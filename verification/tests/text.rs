use dialog_invoker::outcome::outcome_from_text;

fn trim(s: &str) -> String {
    outcome_from_text(Some(0), s, String::new()).unwrap().message
}

fn in_white_space_table(c: char) -> bool {
    let u = c as u32;
    (0x09..=0x0d).contains(&u)
        || u == 0x20
        || u == 0x85
        || u == 0xa0
        || u == 0x1680
        || (0x2000..=0x200a).contains(&u)
        || u == 0x2028
        || u == 0x2029
        || u == 0x202f
        || u == 0x205f
        || u == 0x3000
}

#[test]
fn every_white_space_character_is_trimmed_and_no_other() {
    let mut n_white = 0;
    for u in 0..=0x10ffffu32 {
        if let Some(c) = char::from_u32(u) {
            let framed = format!("{}x{}", c, c);
            let kept = trim(&framed);
            if in_white_space_table(c) {
                n_white += 1;
                assert_eq!(kept, "x", "U+{:04X} is white space", u);
            } else {
                assert_eq!(kept, framed, "U+{:04X} is not white space", u);
            }
        }
    }
    assert_eq!(n_white, 25);
}

#[test]
fn text_of_white_space_alone_trims_to_nothing() {
    assert_eq!(trim("\u{2003}\u{3000}\t \u{85}\u{a0}\u{1680}\u{2028}\u{2029}\u{202f}\u{205f}"), "");
}

#[test]
fn lookalikes_of_white_space_stay() {
    for s in ["\u{200b}", "\u{180e}", "\u{feff}", "\u{1c}", "\u{1f}", "\u{0}", "\u{8}", "\u{e}", "\u{200c}", "\u{2060}"] {
        assert_eq!(trim(s), s);
    }
}

#[test]
fn trimming_twice_changes_nothing_more() {
    for s in ["", " ", "a", " a", "a ", " a b ", "\n\n x \u{3000}", "\u{200b} y \u{200b}"] {
        let once = trim(s);
        assert_eq!(trim(&once), once);
    }
}

#[test]
fn trimmed_text_has_clean_ends_and_is_a_stretch_of_the_input() {
    for s in ["", "   ", "a", "  a", "a  ", " a  b ", "\t\u{a0}xy z\r\n", "\u{2000}\u{200a}q\u{200b} "] {
        let kept = trim(s);
        assert!(s.contains(kept.as_str()));
        if let Some(first) = kept.chars().next() {
            assert!(!in_white_space_table(first));
        }
        if let Some(last) = kept.chars().last() {
            assert!(!in_white_space_table(last));
        }
        let start = s.find(kept.as_str()).unwrap_or(0);
        if !kept.is_empty() {
            assert!(s[..start].chars().all(in_white_space_table));
            assert!(s[start + kept.len()..].chars().all(in_white_space_table));
        } else {
            assert!(s.chars().all(in_white_space_table));
        }
    }
}

#[test]
fn clean_text_is_kept_whole() {
    for s in ["OK", "a b", "x\ny", "\u{fffd}", "\u{200b} \u{200b}"] {
        assert_eq!(trim(s), s);
    }
}
