use cesrinf::matter::{codeage, MatterCodeage, SelectorError};

fn record(selector: &str, hs: usize, ss: usize, fs: Option<usize>) -> MatterCodeage<'_> {
    MatterCodeage { selector, description: "", hs, ss, fs }
}

#[test]
fn sentinel_round_trip() {
    let m = codeage("_").unwrap();
    assert_eq!(m.selector, "_");
    assert_eq!((m.hs, m.ss, m.fs), (1, 0, Some(1)));
    assert_eq!(m.ls(), Ok(0));
    assert_eq!(m.ps(), Ok(0));
    assert_eq!(m.vs(), Some(0));
}

#[test]
fn blake3_digest_geometry() {
    let m = codeage("E").unwrap();
    assert_eq!((m.hs, m.ss, m.fs), (1, 0, Some(44)));
    assert_eq!(m.description, "Blake3-256 Digest");
    assert_eq!(m.cs(), 1);
    assert_eq!(m.vs(), Some(43));
    assert_eq!(m.ls(), Ok(0));
    assert_eq!(m.ps(), Ok(1));
}

#[test]
fn two_char_fixed_geometry() {
    let m = codeage("0A").unwrap();
    assert_eq!((m.hs, m.ss, m.fs), (2, 0, Some(24)));
    assert_eq!(m.cs(), 2);
    assert_eq!(m.vs(), Some(22));
    assert_eq!(m.ls(), Ok(0));
    assert_eq!(m.ps(), Ok(2));
}

#[test]
fn count_dependent_geometry() {
    let m = codeage("4A").unwrap();
    assert_eq!((m.hs, m.ss, m.fs), (2, 2, None));
    assert_eq!(m.cs(), 4);
    assert_eq!(m.vs(), None);
    assert_eq!(m.ls(), Ok(0));
    assert_eq!(m.ps(), Ok(0));
}

#[test]
fn large_curve_key_geometry() {
    let m = codeage("K").unwrap();
    assert_eq!(m.fs, Some(76));
    assert_eq!(m.vs(), Some(75));
}

#[test]
fn unknown_selector_misses() {
    assert!(codeage("ZZ").is_none());
    assert!(codeage("").is_none());
    assert!(codeage("R").is_none());
    assert!(codeage("1AAK").is_none());
    assert!(codeage("EE").is_none());
    assert!(codeage("-0AA").is_none());
    assert!(codeage("1AAAA").is_none());
    assert!(codeage("é").is_none());
}

#[test]
fn unrecognized_universal_selector_is_an_error() {
    let m = record("$AB", 1, 0, Some(4));
    assert_eq!(m.ls(), Err(SelectorError::Unrecognized('$')));
    assert_eq!(m.ps(), Err(SelectorError::Unrecognized('$')));
    let m = record("éA", 1, 0, Some(4));
    assert_eq!(m.ls(), Err(SelectorError::Unrecognized('é')));
}

#[test]
fn empty_selector_is_an_error() {
    let m = record("", 1, 0, Some(4));
    assert_eq!(m.ls(), Err(SelectorError::Empty));
    assert_eq!(m.ps(), Err(SelectorError::Empty));
}

#[test]
fn selector_classes() {
    let cases: [(&str, usize, usize); 15] = [
        ("a", 0, 1),
        ("z", 0, 1),
        ("Z", 0, 1),
        ("0", 0, 2),
        ("1", 0, 0),
        ("2", 1, 1),
        ("3", 2, 2),
        ("4", 0, 0),
        ("5", 1, 1),
        ("6", 2, 2),
        ("7", 0, 0),
        ("8", 1, 1),
        ("9", 2, 2),
        ("-", 0, 0),
        ("_", 0, 0),
    ];
    for (sel, lead, pad) in cases {
        let m = record(sel, 1, 0, None);
        assert_eq!(m.ls(), Ok(lead), "lead of {}", sel);
        assert_eq!(m.ps(), Ok(pad), "pad of {}", sel);
    }
    for sel in ["@", "[", "`", "{", "/", ":", "+", " "] {
        let m = record(sel, 1, 0, None);
        assert!(m.ls().is_err(), "lead of {}", sel);
        assert!(m.ps().is_err(), "pad of {}", sel);
    }
}

#[test]
fn every_entry_is_well_formed() {
    let selectors = [
        "--", "-A", "-0A", "-E", "-0E", "-F", "-0F", "A", "B", "C", "D", "E", "F", "G", "H",
        "I", "J", "K", "L", "M", "N", "O", "P", "Q", "0A", "0B", "0C", "0D", "0E", "0F", "0G",
        "0H", "0I", "1AAA", "1AAB", "1AAC", "1AAD", "1AAE", "1AAF", "1AAG", "1AAH", "1AAI",
        "1AAJ", "2AAA", "3AAA", "4A", "5A", "6A", "7AAA", "8AAA", "9AAA", "4B", "5B", "6B",
        "7AAB", "8AAB", "9AAB", "_",
    ];
    for sel in selectors {
        let m = codeage(sel).unwrap();
        assert_eq!(m.selector, sel);
        assert!(m.hs >= 1);
        assert_eq!(m.cs(), m.hs + m.ss);
        match m.fs {
            Some(fs) => {
                assert!(fs >= m.hs + m.ss);
                assert_eq!(m.vs(), Some(fs - m.hs - m.ss));
            }
            None => assert_eq!(m.vs(), None),
        }
        assert!(m.ls().is_ok());
        assert!(m.ps().is_ok());
    }
}

#[test]
fn group_and_extended_entries() {
    let m = codeage("--").unwrap();
    assert_eq!((m.hs, m.ss, m.fs), (3, 5, Some(8)));
    assert_eq!(m.cs(), 8);
    assert_eq!(m.vs(), Some(0));
    let m = codeage("-0F").unwrap();
    assert_eq!((m.hs, m.ss, m.fs), (3, 5, Some(8)));
    let m = codeage("1AAH").unwrap();
    assert_eq!((m.hs, m.ss, m.fs), (4, 0, Some(100)));
    assert_eq!(m.vs(), Some(96));
    assert_eq!(m.ls(), Ok(0));
    let m = codeage("3AAA").unwrap();
    assert_eq!(m.ls(), Ok(2));
    assert_eq!(m.ps(), Ok(2));
    let m = codeage("9AAB").unwrap();
    assert_eq!((m.hs, m.ss, m.fs), (4, 4, None));
    assert_eq!(m.cs(), 8);
    let m = codeage("P").unwrap();
    assert_eq!(m.fs, Some(124));
}
