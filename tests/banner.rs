use incredimo::{get_char_line, Banner, IncrediError};

fn rows(text: &str) -> Vec<String> {
    (0..4)
        .map(|i| text.chars().map(|c| get_char_line(c, i)).collect::<String>())
        .collect()
}

#[test]
fn test_banner_creation() {
    let banner = Banner::new("TEST")
        .with_colors()
        .with_subtitle("test")
        .with_line_length(80)
        .build()
        .unwrap();
    assert!(banner.render().contains("██████"));
}

#[test]
fn test_empty_input() {
    let result = Banner::new("").build();
    assert!(result.is_err());
}

#[test]
fn test_invalid_character() {
    let result = Banner::new("Test!").build();
    assert!(result.is_err());
}

#[test]
fn test_colors() {
    let banner = Banner::new("TEST").with_colors().build().unwrap();
    assert!(banner.render().contains("\x1b[38;2;"));
}

#[test]
fn plain_render_is_four_rows_of_art() {
    let banner = Banner::new("TEST").build().unwrap();
    let out = banner.render();
    let expected: String = rows("TEST").iter().map(|r| format!("{}\n", r)).collect();
    assert_eq!(out, expected);
    assert_eq!(out.lines().count(), 4);
    assert!(out.lines().next().unwrap().starts_with("████████ ██████ "));
}

#[test]
fn empty_text_reason_is_given() {
    match Banner::new("").build() {
        Err(IncrediError::InvalidConfig(m)) => assert_eq!(m, "Text cannot be empty"),
        Ok(_) => panic!("empty text was accepted"),
    }
}

#[test]
fn unsupported_character_is_named() {
    match Banner::new("Te5t!").build() {
        Err(e) => {
            let IncrediError::InvalidConfig(m) = &e;
            assert_eq!(m, "Unsupported character '5'");
            assert_eq!(e.message(), "Invalid banner configuration: Unsupported character '5'");
        }
        Ok(_) => panic!("unsupported text was accepted"),
    }
    match Banner::new("Test!").build() {
        Err(IncrediError::InvalidConfig(m)) => assert_eq!(m, "Unsupported character '!'"),
        Ok(_) => panic!("unsupported text was accepted"),
    }
}

#[test]
fn subtitle_is_last_line() {
    let banner = Banner::new("A").with_subtitle("hello").build().unwrap();
    let out = banner.render();
    let last = out.lines().filter(|l| !l.is_empty()).last().unwrap();
    assert_eq!(last, "hello");
    let lines: Vec<&str> = out.lines().collect();
    assert_eq!(lines.len(), 6);
    assert_eq!(lines[4], "█".repeat(80));
}

#[test]
fn rule_follows_line_length() {
    let banner = Banner::new("A").with_subtitle("s").with_line_length(5).build().unwrap();
    let out = banner.render();
    assert!(out.ends_with("\n█████\ns\n"));
}

#[test]
fn no_subtitle_no_rule() {
    let banner = Banner::new("A").with_line_length(5).build().unwrap();
    assert!(!banner.render().contains("█████\n"));
}

#[test]
fn render_is_deterministic() {
    let banner = Banner::new("HELLO WORLD").with_colors().with_subtitle("x").build().unwrap();
    assert_eq!(banner.render(), banner.render());
}

#[test]
fn case_does_not_matter() {
    let a = Banner::new("abc").with_colors().build().unwrap();
    let b = Banner::new("ABC").with_colors().build().unwrap();
    assert_eq!(a.render(), b.render());
    let c = Banner::new("aBc").build().unwrap();
    let d = Banner::new("ABC").build().unwrap();
    assert_eq!(c.render(), d.render());
}

#[test]
fn plain_render_has_no_escape() {
    let banner = Banner::new("The Quick Brown Fox").with_subtitle("under").build().unwrap();
    assert!(!banner.render().contains('\x1b'));
}

#[test]
fn space_only_has_no_blocks() {
    let banner = Banner::new("  ").with_colors().build().unwrap();
    assert_eq!(banner.render(), "      \n      \n      \n      \n");
}

#[test]
fn single_block_row_takes_first_rainbow_stop() {
    let banner = Banner::new("I").with_colors().build().unwrap();
    let out = banner.render();
    let first = out.lines().next().unwrap();
    assert_eq!(first, "\x1b[38;2;63;81;181m██\x1b[0m ");
}

#[test]
fn leading_blocks_are_gray() {
    let banner = Banner::new("M").with_colors().build().unwrap();
    let out = banner.render();
    let first = out.lines().next().unwrap();
    let gray = "\x1b[38;2;230;230;230m██\x1b[0m";
    let indigo = "\x1b[38;2;63;81;181m██\x1b[0m";
    assert_eq!(first, format!("{}{}{}{}   ", gray, gray, gray, indigo));
}

#[test]
fn long_row_uses_every_rainbow_stop() {
    let banner = Banner::new("MMMMMMMMMMMMM").with_colors().build().unwrap();
    let first = banner.render().lines().next().unwrap().to_string();
    for stop in [
        "63;81;181", "33;150;243", "3;169;244", "0;150;136", "76;175;80",
        "205;220;57", "255;193;7", "255;152;0", "255;87;34", "244;67;54",
    ] {
        assert!(first.contains(&format!("\x1b[38;2;{}m██", stop)), "missing {}", stop);
    }
    assert_eq!(first.matches("230;230;230").count(), 42);
}

#[test]
fn glyph_lookup_has_four_rows_and_falls_back() {
    for c in ['A', 'Z', ' ', '1', '!', '~', '>'] {
        for i in 0..4 {
            let row = get_char_line(c, i);
            assert!(!row.is_empty());
            assert!(row.chars().all(|ch| ch == '█' || ch == ' '));
        }
    }
    for i in 0..4 {
        assert_eq!(get_char_line('é', i), get_char_line('>', i));
    }
    assert_eq!(get_char_line('T', 0), "████████ ");
}
