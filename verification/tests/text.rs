use calagopus_mcp::text::{
    blank, contains, ends_with, replace, same, space, split, split_lines, split_once, starts_with,
    strip_prefixes, strip_suffixes, trim,
};

const SAMPLES: [&str; 14] = [
    "", " ", "a", "  a b\t", "\u{a0}x\u{2003}", "a\nb\r\n\r\nc", "\r", "x\r\n", "a=b=c", "&a&&b&",
    "Bearer Bearer x", "plugin.jar.jar", "K\u{212a}\u{df}", "\u{200b}zero width\u{200b}",
];

#[test]
fn white_space_is_unicodes() {
    for n in 0..=0x10ffff_u32 {
        if let Some(c) = char::from_u32(n) {
            assert_eq!(space(c), c.is_whitespace(), "{n:x}");
        }
    }
}

#[test]
fn operations_agree_with_std() {
    for s in SAMPLES {
        assert_eq!(trim(s), s.trim());
        assert_eq!(blank(s), s.trim().is_empty());
        assert_eq!(strip_prefixes(s, "Bearer "), s.trim_start_matches("Bearer "));
        assert_eq!(strip_suffixes(s, ".jar"), s.trim_end_matches(".jar"));
        assert_eq!(replace(s, '-', "_"), s.replace('-', "_"));
        assert_eq!(split(s, '&'), s.split('&').collect::<Vec<_>>());
        assert_eq!(split_once(s, '='), s.split_once('='));
        assert_eq!(split_lines(s), s.lines().collect::<Vec<_>>());
        for t in SAMPLES {
            assert_eq!(same(s, t), s == t);
            assert_eq!(starts_with(s, t), s.starts_with(t));
            assert_eq!(ends_with(s, t), s.ends_with(t));
            assert_eq!(contains(s, t), s.contains(t));
        }
    }
}

#[test]
fn a_bare_carriage_return_stays_on_the_last_line() {
    assert_eq!(split_lines("one\r\ntwo\r"), vec!["one", "two\r"]);
    assert_eq!(split_lines("\n\n"), vec!["", ""]);
    assert_eq!(split_lines(""), Vec::<&str>::new());
}

#[test]
fn every_hyphen_is_replaced() {
    assert_eq!(replace("a-b--c", '-', "_"), "a_b__c");
    assert_eq!(replace("a-b--c", '-', ""), "abc");
    assert_eq!(replace("-x-", '-', "<->"), "<->x<->");
}
