use zincati::url_text::{
    is_joinable_url, is_light_text, join_text, parse_text, MAX_URL_WEIGHT, WIDE_CHAR_WEIGHT,
};

#[test]
fn ascii_characters_count_one_each() {
    assert_eq!(MAX_URL_WEIGHT, 3855);
    assert!(is_light_text(""));
    assert!(is_light_text("http://localhost:9876"));
    assert!(is_light_text(&"a".repeat(3855)));
    assert!(!is_light_text(&"a".repeat(3856)));
    assert!(is_light_text(&"\u{0}\t\n \u{7f}".repeat(771)));
    assert!(!is_light_text(&"a".repeat(1_000_000)));
}

#[test]
fn percent_signs_and_other_characters_count_more() {
    assert_eq!(WIDE_CHAR_WEIGHT, 72);
    assert!(is_light_text(&"%".repeat(53)));
    assert!(!is_light_text(&"%".repeat(54)));
    assert!(is_light_text(&"\u{e9}".repeat(53)));
    assert!(!is_light_text(&"\u{e9}".repeat(54)));
    assert!(is_light_text(&"\u{20ac}".repeat(53)));
    assert!(!is_light_text(&"\u{20ac}".repeat(54)));
    assert!(is_light_text(&"\u{10FFFF}".repeat(53)));
    assert!(!is_light_text(&"\u{10FFFF}".repeat(54)));
    assert!(is_light_text(&format!("{}{}", "%".repeat(53), "a".repeat(39))));
    assert!(!is_light_text(&format!("{}{}", "%".repeat(53), "a".repeat(40))));
    assert!(is_light_text(&format!("{}{}", "a".repeat(3783), "\u{e9}")));
    assert!(!is_light_text(&format!("{}{}", "a".repeat(3784), "\u{e9}")));
}

#[test]
fn file_urls_that_end_in_a_drive_letter_are_not_joinable() {
    for url in [
        "file:///C:",
        "file:///c|",
        "file:///a/C:",
        "file://host/Z:",
        "file:///C:?q=/x/y",
        "file:///C:#/x/y",
        "file:///a/b|?q#f",
        "file:///\u{e9}/C:",
    ]
    .iter()
    {
        assert!(!is_joinable_url(url), "{:?}", url);
    }
    for url in [
        "",
        "file",
        "file:",
        "file:///",
        "file:///C:/",
        "file:///C:/a",
        "file:///CC:",
        "file:///C",
        "file:///1:",
        "file:///C;",
        "file:///aC:",
        "file:///@:",
        "file:///[:",
        "file:///`|",
        "file:///{|",
        "file:///a?/C:",
        "file:///a#/C:",
        "file:C:",
        "http://h/C:",
        "files:///C:",
        "FILE:///C:",
        "mailto:/C:",
    ]
    .iter()
    {
        assert!(is_joinable_url(url), "{:?}", url);
    }
}

#[test]
fn parse_tells_how_the_url_writes_itself() {
    assert_eq!(parse_text("http://localhost:9876"), Some("http://localhost:9876/".to_string()));
    assert_eq!(parse_text("HTTP://Example.COM:80/a/./b"), Some("http://example.com/a/b".to_string()));
    assert_eq!(parse_text("mailto:ops@example.com"), Some("mailto:ops@example.com".to_string()));
    assert_eq!(parse_text("http://h/%41"), Some("http://h/%41".to_string()));
    assert_eq!(parse_text("http://h/\u{e9}"), Some("http://h/%C3%A9".to_string()));
    assert_eq!(parse_text("http://h/a b"), Some("http://h/a%20b".to_string()));
    assert_eq!(
        parse_text("http://%41\u{df}.example"),
        Some("http://xn--a-qfa.example/".to_string())
    );
    assert_eq!(parse_text("file:///C|"), Some("file:///C:".to_string()));
    assert_eq!(parse_text("no url"), None);
    assert_eq!(parse_text(""), None);
}

#[test]
fn parse_refuses_heavy_texts() {
    assert_eq!(parse_text(&format!("http://h/{}", "a".repeat(3847))), None);
    assert_eq!(parse_text(&format!("http://h/{}", "%41".repeat(53))), None);
    assert_eq!(parse_text(&format!("http://{}{}", "a".repeat(4096), '\u{FFF80}')), None);
    assert_eq!(parse_text(&format!("http://{}{}", "\u{2487}".repeat(1000), '\u{1061C1}')), None);
}

#[test]
fn join_tells_how_the_url_writes_itself() {
    assert_eq!(join_text("http://h/a/b", "c"), Some("http://h/a/c".to_string()));
    assert_eq!(join_text("http://h/a/b/", "c"), Some("http://h/a/b/c".to_string()));
    assert_eq!(join_text("http://h/a/b/", "/c"), Some("http://h/c".to_string()));
    assert_eq!(join_text("http://h/a/b/", "../c d"), Some("http://h/a/c%20d".to_string()));
    assert_eq!(join_text("http://h/%41/", "\u{e9}"), Some("http://h/%41/%C3%A9".to_string()));
    assert_eq!(join_text("http://h/", "https://other/x"), Some("https://other/x".to_string()));
    assert_eq!(join_text("file:///C:/a", "b"), Some("file:///C:/b".to_string()));
    assert_eq!(join_text("mailto:ops@example.com", "c"), None);
    assert_eq!(join_text("no url", "c"), None);
}

#[test]
fn join_refuses_heavy_texts() {
    assert_eq!(join_text(&format!("http://h/{}", "a".repeat(3847)), "c"), None);
    assert_eq!(join_text("http://h/", &"a".repeat(3856)), None);
    assert_eq!(join_text("http://h/", &"%".repeat(54)), None);
    assert_eq!(
        join_text("http://h/", &format!("//{}{}", "\u{2487}".repeat(1000), '\u{1061C1}')),
        None
    );
}

#[test]
fn nothing_is_joined_to_a_file_url_that_ends_in_a_drive_letter() {
    for base in [
        "file:///C:",
        "file:///a/C:",
        "file:///C|",
        "file:///a/C|",
        "file:///a/b/../C:",
        "FILE:///C:",
        " file:///C:",
        "fi\tle:///C:\n",
        "file:\\\\\\C:",
        "file:C:",
        "file:/C:",
        "file://host/C:",
        "file://localhost/C:",
        "file:///C:?q",
        "file:///C:#f",
        "file:///x/y/z:?q#f",
    ]
    .iter()
    {
        for input in ["v1/graph", "..", "x", "file:x", "?q", "#f", "/x", "", "http://h/", "C:/x"].iter() {
            assert_eq!(join_text(base, input), None, "{:?} {:?}", base, input);
        }
    }
}

/// A small generator of numbers, the same on every run.
struct Lcg(u64);

impl Lcg {
    fn next(&mut self) -> u64 {
        self.0 = self.0.wrapping_mul(6364136223846793005).wrapping_add(1442695040888963407);
        self.0 >> 33
    }

    fn below(&mut self, n: usize) -> usize {
        (self.next() % n as u64) as usize
    }
}

fn made_of(rng: &mut Lcg, pieces: &[&str]) -> String {
    let mut text = String::new();
    let count = rng.below(24) + 1;
    for _ in 0..count {
        let piece = pieces[rng.below(pieces.len())];
        let times = if rng.below(16) == 0 { rng.below(1300) + 1 } else { 1 };
        for _ in 0..times {
            let mut longer = text.clone();
            longer.push_str(piece);
            if !is_light_text(&longer) {
                return text;
            }
            text = longer;
        }
    }
    text
}

#[test]
fn parser_returns_on_light_texts() {
    let pieces = [
        "http", "https", "file", "ftp", "ws", "a", "mailto", "data", ":", "/", "//", "///", "\\",
        "?", "#", "@", "[", "]", ".", "..", "-", "--", "xn--", "xn--a", "0", "1", "9", "255",
        "256", "0x", "0X", "f", "::", "::1", "localhost", "h", "H", "C:", "c|", "/C:", "/z|", " ",
        "\t", "\n", "\u{0}", "\u{1f}", "\u{7f}", "|", "+", "=", "&", ";", "~", "_", "!", "$", "'",
        "(", ")", "*", ",", "<", ">", "\"", "`", "{", "}", "^", "4294967295", "4294967296",
        "65535", "65536", "v1/graph", "-x027703p", "zz", "ZZ", "%", "%2", "%41", "%2e", "%2E",
        "%00", "%FF", "%C3", "%A9", "%EF%B7%BA", "%F4%8F%BF%BF", "\u{e9}", "\u{df}", "\u{fc}",
        "\u{2487}", "\u{FDFA}", "\u{3002}", "\u{ff0e}", "\u{1F82}", "\u{D4DB}", "\u{301}",
        "\u{5d0}", "\u{627}", "\u{200d}", "\u{FFFD}", "\u{FFF80}", "\u{10FFFF}", "\u{1061C1}",
    ];
    let bases = [
        "http://h/a/b",
        "file:///C:/a/",
        "file:///C:",
        "file:///a/C|",
        "file://host/C:?q",
        "file:///",
        "a://h/b/../c",
        "a:/x",
        "mailto:a@b",
        "http://[::1]:8/",
        "http://h/%41/\u{e9}",
    ];
    let mut rng = Lcg(2024);
    for round in 0..4000 {
        let text = made_of(&mut rng, &pieces);
        assert!(is_light_text(&text), "round {}: {:?}", round, text);
        let read = parse_text(&text);
        let path = made_of(&mut rng, &pieces);
        let base = bases[rng.below(bases.len())];
        let joined = join_text(base, &path);
        if !is_joinable_url(&parse_text(base).unwrap()) {
            assert_eq!(joined, None);
        }
        if let Some(url) = &read {
            let _ = join_text(url, "v1/graph");
            let _ = join_text(url, &path);
            let _ = join_text(&text, &path);
        }
    }
}

fn lightest_prefix(text: String) -> String {
    let mut cut = text.len();
    while !is_light_text(&text[..cut]) {
        cut -= 1;
        while !text.is_char_boundary(cut) {
            cut -= 1;
        }
    }
    text[..cut].to_string()
}

#[test]
fn parser_returns_on_light_hosts() {
    let schemes = ["http", "https", "ftp", "ws", "wss", "gopher", "file", "FiLe", "a", "git+ssh"];
    let labels = [
        "a", "b", "xn--", "xn--a", "xn---", "xn--bcher-kva", "xn--a-qfa", "-", "0", "1", "255",
        "0x10", "08", "localhost", "%41", "%2E", "%2e", "%00", "%20", "%C3%A9", "%EF%B7%BA",
        "%F4%8F%BF%BF", "%FF", "%C3", "\u{e9}", "\u{df}", "\u{2487}", "\u{FDFA}", "\u{33A8}",
        "\u{1F82}", "\u{D4DB}", "\u{301}", "\u{5d0}", "\u{627}", "\u{661}", "\u{200d}",
        "\u{ad}", "\u{FFF80}", "\u{10FFFF}", "\u{1061C1}", "\u{10EE34}", "\u{80}", "A", "Z",
    ];
    let dots = [".", ".", ".", "\u{3002}", "\u{ff0e}", "\u{ff61}", "%2E", ""];
    let tails = ["", "/", "/C:", "/a/C|", ":80", ":65536", "?q", "#f", "/%41/\u{e9}", "@h/"];
    let mut rng = Lcg(7);
    for round in 0..3000 {
        let mut host = String::new();
        let count = rng.below(6) + 1;
        for _ in 0..count {
            let label = labels[rng.below(labels.len())];
            let times = match rng.below(12) {
                0 => rng.below(3900) + 1,
                1 => rng.below(60) + 1,
                _ => 1,
            };
            for _ in 0..times {
                host.push_str(label);
                if host.len() > 16_000 {
                    break;
                }
            }
            host.push_str(dots[rng.below(dots.len())]);
        }
        let text = lightest_prefix(format!("{}://{}", schemes[rng.below(schemes.len())], host));
        let tail = tails[rng.below(tails.len())];
        let whole = lightest_prefix(format!("{}{}", text, tail));
        assert!(is_light_text(&whole), "round {}", round);
        let read = parse_text(&whole);
        let _ = join_text("http://h/a", &lightest_prefix(format!("//{}{}", host, tail)));
        let _ = join_text(&whole, "v1/graph");
        if let Some(url) = &read {
            let _ = join_text(url, "v1/graph");
            let _ = join_text(url, "../x");
        }
    }
}

#[test]
fn parser_returns_on_the_heaviest_hosts() {
    let highs = ['\u{10FFFF}', '\u{FFF80}', '\u{1061C1}', '\u{10EE34}', '\u{80}', '\u{FDFA}'];
    let fills = ["a", "-", "0", "A", "a.", "xn--a"];
    for high in highs.iter() {
        for fill in fills.iter() {
            for spare in [0usize, 1, 2, 71, 72, 73, 255, 256, 1000].iter() {
                let room = 3855 - 7 - 72;
                let count = (room - spare.min(&room)) / fill.len();
                for text in [
                    format!("http://{}{}", fill.repeat(count), high),
                    format!("http://{}{}", high, fill.repeat(count)),
                    format!("http://{}{}{}", fill.repeat(count / 2), high, fill.repeat(count / 2)),
                ]
                .iter()
                {
                    let text = lightest_prefix(text.clone());
                    let _ = parse_text(&text);
                    let _ = join_text("http://h/", &text[5..]);
                }
            }
        }
    }
}
