use mcinit::decimal::{parse_u32, u32_to_string};
use mcinit::text::{chars_of, split_chars, str_greater};
use mcinit::version::Version;

fn version(major: u32, minor: u32, patch: Option<u32>) -> Version {
    Version { major, minor, patch }
}

fn characters(s: &str) -> Vec<char> {
    s.chars().collect()
}

#[test]
fn parses_two_components() {
    assert_eq!(Version::from_str("1.20"), Ok(version(1, 20, None)));
}

#[test]
fn parses_three_components() {
    assert_eq!(Version::from_str("1.20.1"), Ok(version(1, 20, Some(1))));
    assert_eq!(Version::from_str("0.0.0"), Ok(version(0, 0, Some(0))));
}

#[test]
fn parses_largest_components() {
    assert_eq!(
        Version::from_str("4294967295.4294967295.4294967295"),
        Ok(version(u32::MAX, u32::MAX, Some(u32::MAX)))
    );
}

#[test]
fn parses_leading_zeros_and_plus_sign() {
    assert_eq!(Version::from_str("01.002"), Ok(version(1, 2, None)));
    assert_eq!(Version::from_str("+1.+20.+3"), Ok(version(1, 20, Some(3))));
    assert_eq!(
        Version::from_str("000000000000000000001.2"),
        Ok(version(1, 2, None))
    );
}

#[test]
fn rejects_wrong_component_count() {
    let expected = Err("Invalid version format".to_string());
    assert_eq!(Version::from_str(""), expected);
    assert_eq!(Version::from_str("1"), expected);
    assert_eq!(Version::from_str("1.2.3.4"), expected);
    assert_eq!(Version::from_str("a.b.c.d"), expected);
    assert_eq!(Version::from_str("1..2.3"), expected);
}

#[test]
fn rejects_bad_major() {
    let expected = Err("Invalid major version".to_string());
    assert_eq!(Version::from_str("a.1"), expected);
    assert_eq!(Version::from_str(".1"), expected);
    assert_eq!(Version::from_str("-1.1"), expected);
    assert_eq!(Version::from_str("+.1"), expected);
    assert_eq!(Version::from_str(" 1.1"), expected);
    assert_eq!(Version::from_str("4294967296.1"), expected);
    assert_eq!(Version::from_str("x.y.z"), expected);
}

#[test]
fn rejects_bad_minor() {
    let expected = Err("Invalid minor version".to_string());
    assert_eq!(Version::from_str("1."), expected);
    assert_eq!(Version::from_str("1.x"), expected);
    assert_eq!(Version::from_str("1.2a.3"), expected);
    assert_eq!(Version::from_str("1.99999999999"), expected);
    assert_eq!(Version::from_str("1.y.z"), expected);
}

#[test]
fn rejects_bad_patch() {
    let expected = Err("Invalid patch version".to_string());
    assert_eq!(Version::from_str("1.2."), expected);
    assert_eq!(Version::from_str("1.2.x"), expected);
    assert_eq!(Version::from_str("1.2.3 "), expected);
    assert_eq!(Version::from_str("1.2.\u{0663}"), expected);
}

#[test]
fn agrees_with_the_standard_parser_on_components() {
    let samples = [
        "", "0", "7", "+7", "-7", "+", "++7", "007", "4294967295", "4294967296",
        "99999999999999999999", "1_000", "12a", " 12", "12 ", "\u{0663}",
    ];
    for s in samples {
        assert_eq!(parse_u32(&characters(s)), s.parse::<u32>().ok(), "{:?}", s);
    }
}

#[test]
fn renders_and_reads_back() {
    let samples = [
        version(1, 20, None),
        version(1, 20, Some(1)),
        version(0, 0, Some(0)),
        version(10, 0, None),
        version(u32::MAX, 9, Some(100)),
    ];
    for v in samples {
        assert_eq!(Version::from_str(&v.to_string()), Ok(v));
    }
    assert_eq!(version(1, 20, Some(1)).to_string(), "1.20.1");
    assert_eq!(version(1, 21, None).to_string(), "1.21");
}

#[test]
fn writes_decimal_numerals() {
    assert_eq!(u32_to_string(0), "0");
    assert_eq!(u32_to_string(9), "9");
    assert_eq!(u32_to_string(10), "10");
    assert_eq!(u32_to_string(101), "101");
    assert_eq!(u32_to_string(u32::MAX), "4294967295");
}

#[test]
fn orders_by_major_minor_patch() {
    let a = Version::from_str("1.20").unwrap();
    let b = Version::from_str("1.20.1").unwrap();
    let c = Version::from_str("1.21.0").unwrap();
    assert!(a < b);
    assert!(b < c);
    assert!(a < c);
    assert!(c > a);
    assert!(a == Version::from_str("1.20").unwrap());
    assert!(!(a < a));
    assert!(a <= a);
    assert!(Version::from_str("1.9").unwrap() < Version::from_str("1.10").unwrap());
    assert!(Version::from_str("2.0").unwrap() > Version::from_str("1.99.99").unwrap());
}

#[test]
fn patch_zero_comes_after_no_patch() {
    let bare = version(1, 20, None);
    let zero = version(1, 20, Some(0));
    assert!(bare < zero);
    assert!(bare != zero);
    assert_eq!(bare.partial_cmp(&zero), Some(std::cmp::Ordering::Less));
    assert_eq!(zero.partial_cmp(&bare), Some(std::cmp::Ordering::Greater));
    assert_eq!(bare.partial_cmp(&bare), Some(std::cmp::Ordering::Equal));
}

#[test]
fn order_is_total_and_transitive_on_samples() {
    let samples = [
        version(0, 0, None),
        version(0, 0, Some(0)),
        version(0, 1, None),
        version(1, 0, None),
        version(1, 0, Some(5)),
        version(1, 0, Some(6)),
        version(1, 2, None),
        version(2, 0, None),
    ];
    for (i, a) in samples.iter().enumerate() {
        for (j, b) in samples.iter().enumerate() {
            assert_eq!(a < b, i < j);
            assert_eq!(a == b, i == j);
            assert_eq!(a > b, i > j);
            for c in samples.iter() {
                if a < b && b < c {
                    assert!(a < c);
                }
            }
        }
    }
}

#[test]
fn collects_characters() {
    assert_eq!(chars_of(""), Vec::<char>::new());
    assert_eq!(chars_of("1.2"), vec!['1', '.', '2']);
    assert_eq!(chars_of("\u{e9}t\u{e9}"), vec!['\u{e9}', 't', '\u{e9}']);
}

#[test]
fn splits_like_the_standard_library() {
    let samples = ["", ".", "1.2", "1..2", ".1.", "abc", "1.2.3.4", "..."];
    for s in samples {
        let expected: Vec<Vec<char>> = s.split('.').map(|p| p.chars().collect()).collect();
        assert_eq!(split_chars(&characters(s), '.'), expected, "{:?}", s);
    }
}

#[test]
fn compares_strings_like_the_standard_library() {
    let samples = [
        "", "1", "1.9", "1.10", "1.20", "1.21", "1.21.1", "2", "a", "A", "ab", "b",
        "\u{e9}", "\u{10348}", "z\u{e9}",
    ];
    for a in samples {
        for b in samples {
            assert_eq!(str_greater(a, b), a > b, "{:?} > {:?}", a, b);
        }
    }
    assert!(str_greater("1.9", "1.10"));
    assert!(!str_greater("1.20", "1.21"));
    assert!(!str_greater("1.21", "1.21"));
}
