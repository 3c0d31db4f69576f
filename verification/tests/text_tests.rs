use whether::text::{
    chars_of, concat3, contains_chars, get_range, i32_text, parse_u32, split_chars, str_eq,
    str_lt, u32_text,
};

#[test]
fn decimal_text() {
    assert_eq!(u32_text(0), "0");
    assert_eq!(u32_text(1234567890), "1234567890");
    assert_eq!(u32_text(u32::MAX), "4294967295");
    assert_eq!(i32_text(-45), "-45");
    assert_eq!(i32_text(i32::MIN), "-2147483648");
    assert_eq!(i32_text(7), "7");
}

#[test]
fn parse_u32_like_std() {
    for s in ["0", "07", "+5", "42", "4294967295", "4294967296", "", "+", "-1", "1a", " 1", "٣"] {
        assert_eq!(parse_u32(s), s.parse::<u32>().ok(), "{s:?}");
    }
}

#[test]
fn get_range_like_std() {
    let s = "aé€b";
    for start in 0..=8 {
        for end in 0..=8 {
            assert_eq!(get_range(s, start, end), s.get(start..end), "{start}..{end}");
        }
    }
}

#[test]
fn split_like_std() {
    for s in ["a, b, c", ", , ", "", "no separator", "x,, y, , z", "tail, "] {
        let pieces: Vec<String> = split_chars(&chars_of(s), ", ")
            .iter()
            .map(|p| p.iter().collect())
            .collect();
        let want: Vec<String> = s.split(", ").map(str::to_string).collect();
        assert_eq!(pieces, want, "{s:?}");
    }
}

#[test]
fn contains_like_std() {
    let hay = chars_of("mostly cloudy");
    for n in ["", "m", "cloud", "mostly cloudy", "cloudy!", "xyz", "y c"] {
        assert_eq!(contains_chars(&hay, n), "mostly cloudy".contains(n), "{n:?}");
    }
}

#[test]
fn order_and_equality_like_std() {
    for (a, b) in [("a", "b"), ("2026-07-04T06:10", "2026-07-04T12:00"), ("ab", "a"), ("", ""), ("é", "z")] {
        assert_eq!(str_lt(a, b), a < b, "{a} {b}");
        assert_eq!(str_eq(a, b), a == b, "{a} {b}");
    }
    assert_eq!(concat3("a", "-", "b"), "a-b");
}
