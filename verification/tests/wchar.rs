use std::cell::Cell;

use rust_windows::wchar::{
    encode_utf16, from_c_u16_multistring, from_utf16_lossy, split_c_u16_multistring, CU16String,
    ToCU16Str,
};

#[test]
fn test_as_u16_vec() {
    let u16s: &[u16] = &[0xac00, 0x20, 0xac00, 0x00];

    let cu = CU16String::new(u16s).unwrap();
    let v = cu.as_u16_vec();
    assert_eq!(v, &u16s[..u16s.len() - 1]);
}

#[test]
fn test_from_c_u16_multistring() {
    let test: &[u16] = &[
        0xac00, 0x00,
        0xac00, 0xac00, 0x00,
        0xac00, 0xac00, 0xac00, 0x00,
        0xac00, 0xac00, 0xac00, 0xac02, 0x00,
        0x00,
    ];
    let compare = ["가", "가가", "가가가", "가가가갂"];
    let i = Cell::new(0usize);
    from_c_u16_multistring(test, None, |p| {
        let b = String::from_utf16(p).expect("invalid utf-16 sequence");
        assert_eq!(b.chars().count(), i.get() + 1);
        assert_eq!(b, compare[i.get()].to_owned());
        i.set(i.get() + 1);
    });
    assert_eq!(i.get(), 4);
}

#[test]
fn multistring_returns_the_number_of_strings() {
    let buf: &[u16] = &[0x61, 0, 0x62, 0x63, 0, 0];
    assert_eq!(from_c_u16_multistring(buf, None, |_| {}), 2);
}

#[test]
fn multistring_stops_at_the_limit() {
    let buf: &[u16] = &[0x61, 0, 0x62, 0x63, 0, 0x64, 0, 0];
    let seen = Cell::new(0usize);
    let n = from_c_u16_multistring(buf, Some(2), |_| seen.set(seen.get() + 1));
    assert_eq!(n, 2);
    assert_eq!(seen.get(), 2);
    assert_eq!(from_c_u16_multistring(buf, Some(0), |_| {}), 0);
    assert_eq!(from_c_u16_multistring(buf, Some(9), |_| {}), 3);
}

#[test]
fn multistring_pieces_are_the_runs_between_terminators() {
    let buf: &[u16] = &[0x61, 0, 0x62, 0x63, 0, 0];
    let pieces = split_c_u16_multistring(buf, None);
    assert_eq!(pieces.len(), 2);
    assert_eq!(pieces[0].as_u16_vec(), &[0x61u16][..]);
    assert_eq!(pieces[1].as_u16_vec(), &[0x62u16, 0x63][..]);
}

#[test]
fn multistring_of_an_empty_buffer_is_empty() {
    let buf: &[u16] = &[];
    assert_eq!(split_c_u16_multistring(buf, None).len(), 0);
    let only_nul: &[u16] = &[0];
    assert_eq!(split_c_u16_multistring(only_nul, None).len(), 0);
}

#[test]
fn multistring_ends_at_a_run_without_terminator() {
    let buf: &[u16] = &[0x61, 0, 0x62, 0x63];
    let pieces = split_c_u16_multistring(buf, None);
    assert_eq!(pieces.len(), 1);
    assert_eq!(pieces[0].as_u16_vec(), &[0x61u16][..]);
}

#[test]
fn multistring_without_the_closing_terminator_ends_with_the_buffer() {
    let buf: &[u16] = &[0x61, 0, 0x62, 0];
    let pieces = split_c_u16_multistring(buf, None);
    assert_eq!(pieces.len(), 2);
    assert_eq!(pieces[1].as_u16_vec(), &[0x62u16][..]);
}

#[test]
fn c_u16_string_needs_a_terminator() {
    let buf: &[u16] = &[0x61, 0x62];
    assert!(CU16String::new(buf).is_none());
    let empty: &[u16] = &[];
    assert!(CU16String::new(empty).is_none());
}

#[test]
fn c_u16_string_ends_at_the_first_terminator() {
    let buf: &[u16] = &[0x61, 0, 0x62, 0];
    let s = CU16String::new(buf).unwrap();
    assert_eq!(s.as_u16_vec(), &[0x61u16][..]);
    let at_once: &[u16] = &[0, 0x61];
    assert_eq!(CU16String::new(at_once).unwrap().as_u16_vec().len(), 0);
}

#[test]
fn c_u16_string_to_string_decodes() {
    let buf: &[u16] = &[0xac00, 0x20, 0xac00, 0x00];
    assert_eq!(CU16String::new(buf).unwrap().to_string(), "가 가");
}

#[test]
fn c_u16_string_to_string_replaces_a_lone_surrogate() {
    let buf: &[u16] = &[0x61, 0xD800, 0x62, 0x00];
    assert_eq!(CU16String::new(buf).unwrap().to_string(), "a\u{FFFD}b");
}

#[test]
fn to_c_u16_terminates_ascii() {
    assert_eq!("abc".to_c_u16(), vec![0x61u16, 0x62, 0x63, 0]);
    assert_eq!("".to_c_u16(), vec![0u16]);
}

#[test]
fn to_c_u16_of_a_string_is_that_of_its_slice() {
    let s = String::from("héllo");
    assert_eq!(s.to_c_u16(), vec![0x68u16, 0xE9, 0x6C, 0x6C, 0x6F, 0]);
    assert_eq!(s.to_c_u16(), "héllo".to_c_u16());
}

#[test]
fn to_c_u16_of_an_absent_string_is_empty() {
    let none: Option<String> = None;
    assert_eq!(none.to_c_u16(), Vec::<u16>::new());
    assert_eq!(Some(String::from("a")).to_c_u16(), vec![0x61u16, 0]);
    assert_eq!(Some("a").to_c_u16(), vec![0x61u16, 0]);
}

#[test]
fn encode_utf16_writes_surrogate_pairs() {
    assert_eq!(encode_utf16("\u{10000}"), vec![0xD800u16, 0xDC00]);
    assert_eq!(encode_utf16("\u{1F600}"), vec![0xD83Du16, 0xDE00]);
    assert_eq!(encode_utf16("\u{10FFFF}"), vec![0xDBFFu16, 0xDFFF]);
    assert_eq!(encode_utf16("\u{FFFF}"), vec![0xFFFFu16]);
    assert_eq!(encode_utf16("\u{D7FF}\u{E000}"), vec![0xD7FFu16, 0xE000]);
}

#[test]
fn encode_utf16_agrees_with_the_standard_encoder() {
    let samples = ["", "plain", "가가가갂", "a\u{1F600}b\u{10FFFF}", "\u{0}x"];
    for s in samples {
        let expected: Vec<u16> = s.encode_utf16().collect();
        assert_eq!(encode_utf16(s), expected);
    }
}

#[test]
fn from_utf16_lossy_joins_surrogate_pairs() {
    assert_eq!(from_utf16_lossy(&[0xD83D, 0xDE00]), "\u{1F600}");
    assert_eq!(from_utf16_lossy(&[0xD800, 0xDC00]), "\u{10000}");
    assert_eq!(from_utf16_lossy(&[0xDBFF, 0xDFFF]), "\u{10FFFF}");
}

#[test]
fn from_utf16_lossy_replaces_what_is_unpaired() {
    assert_eq!(from_utf16_lossy(&[0xD800]), "\u{FFFD}");
    assert_eq!(from_utf16_lossy(&[0xDC00]), "\u{FFFD}");
    assert_eq!(from_utf16_lossy(&[0xDC00, 0xD800]), "\u{FFFD}\u{FFFD}");
    assert_eq!(from_utf16_lossy(&[0xD800, 0xD800, 0xDC00]), "\u{FFFD}\u{10000}");
    assert_eq!(from_utf16_lossy(&[0xD800, 0x61]), "\u{FFFD}a");
    assert_eq!(from_utf16_lossy(&[]), "");
}

#[test]
fn from_utf16_lossy_agrees_with_the_standard_decoder() {
    let samples: [&[u16]; 5] = [
        &[0x61, 0x62],
        &[0xac00, 0xD83D, 0xDE00, 0x20],
        &[0xD800, 0xD800, 0xDC00, 0xDC00],
        &[0xDFFF, 0xDBFF],
        &[0xFFFF, 0xE000, 0xD7FF],
    ];
    for units in samples {
        assert_eq!(from_utf16_lossy(units), String::from_utf16_lossy(units));
    }
}

#[test]
fn decoding_what_was_encoded_gives_the_text_back() {
    let samples = ["", "window title", "가가가갂", "a\u{1F600}b\u{10FFFF}\u{FFFD}"];
    for s in samples {
        assert_eq!(from_utf16_lossy(&encode_utf16(s)), s);
    }
}

#[test]
fn a_prepared_string_reads_back_as_itself() {
    let samples = ["", "window title", "가가가갂", "a\u{1F600}b\u{10FFFF}"];
    for s in samples {
        let units = s.to_c_u16();
        assert_eq!(units.last(), Some(&0u16));
        let read = CU16String::new(&units).unwrap();
        assert_eq!(read.as_u16_vec(), &units[..units.len() - 1]);
        assert_eq!(read.to_string(), s);
    }
}

#[test]
fn a_prepared_string_with_a_nul_reads_back_up_to_it() {
    let units = "ab\u{0}cd".to_c_u16();
    assert_eq!(units, vec![0x61u16, 0x62, 0, 0x63, 0x64, 0]);
    assert_eq!(CU16String::new(&units).unwrap().to_string(), "ab");
}

#[test]
fn multistring_strings_are_never_empty() {
    let buf: &[u16] = &[0x61, 0, 0, 0x62, 0, 0];
    let pieces = split_c_u16_multistring(buf, None);
    assert_eq!(pieces.len(), 1);
    for limit in 0..4usize {
        let limited = split_c_u16_multistring(&[1, 0, 2, 0, 3, 0, 0], Some(limit));
        assert_eq!(limited.len(), limit.min(3));
        for piece in &limited {
            assert!(!piece.as_u16_vec().is_empty());
            assert!(!piece.as_u16_vec().contains(&0));
        }
    }
}
