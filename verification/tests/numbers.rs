use recpart::number::{parse_unsigned, NumberFault};
use recpart::text::{
    chars_of, decimal_text, is_absolute_path, is_digit_char, is_space_char, join_texts,
    last_char, lower_text, same_text, signed_decimal_text, text_of_chars, wide_decimal_text,
};

#[test]
fn unsigned_numbers_are_read_like_the_standard_library_reads_them() {
    for input in [
        "", "0", "7", "+7", "007", "+", "-", "-0", "+-1", "1 ", " 1", "1_000", "12a", "a12",
        "255", "256", "65535", "65536", "4294967295", "4294967296", "18446744073709551615",
        "18446744073709551616", "99999999999999999999999999x", "x99999999999999999999999999",
        "١٢٣", "1.5", "0x10",
    ] {
        let as_u8 = input.parse::<u8>().map(u64::from).map_err(|e| e.to_string());
        let ours = parse_unsigned(input, u8::MAX as u64).map_err(|f| f.to_text());
        assert_eq!(ours, as_u8, "u8 from {input:?}");
        let as_u16 = input.parse::<u16>().map(u64::from).map_err(|e| e.to_string());
        let ours = parse_unsigned(input, u16::MAX as u64).map_err(|f| f.to_text());
        assert_eq!(ours, as_u16, "u16 from {input:?}");
        let as_u32 = input.parse::<u32>().map(u64::from).map_err(|e| e.to_string());
        let ours = parse_unsigned(input, u32::MAX as u64).map_err(|f| f.to_text());
        assert_eq!(ours, as_u32, "u32 from {input:?}");
        let as_u64 = input.parse::<u64>().map_err(|e| e.to_string());
        let ours = parse_unsigned(input, u64::MAX).map_err(|f| f.to_text());
        assert_eq!(ours, as_u64, "u64 from {input:?}");
    }
    assert_eq!(parse_unsigned("", 9), Err(NumberFault::Empty));
    assert_eq!(parse_unsigned("10", 9), Err(NumberFault::TooLarge));
    assert_eq!(parse_unsigned("9", 9), Ok(9));
    assert_eq!(parse_unsigned("1", 0), Err(NumberFault::TooLarge));
    assert_eq!(parse_unsigned("0", 0), Ok(0));
}

#[test]
fn numbers_are_written_in_decimal() {
    for n in [0u64, 1, 9, 10, 11, 99, 100, 1024, 46080, u32::MAX as u64, u64::MAX] {
        assert_eq!(decimal_text(n), n.to_string());
    }
    assert_eq!(wide_decimal_text(u128::MAX), u128::MAX.to_string());
    for n in [0i32, 1, -1, 127, -128, i32::MAX, i32::MIN] {
        assert_eq!(signed_decimal_text(n), n.to_string());
    }
}

#[test]
fn characters_are_classified_like_the_standard_library_classifies_them() {
    for code in 0u32..=0x3100 {
        if let Some(c) = char::from_u32(code) {
            assert_eq!(is_space_char(c), c.is_whitespace(), "white space {code:#x}");
            assert_eq!(is_digit_char(c), c.is_ascii_digit(), "digit {code:#x}");
            let lowered = lower_text(&c.to_string());
            assert_eq!(lowered, c.to_string().to_ascii_lowercase(), "lower {code:#x}");
        }
    }
    for code in [0xFEFFu32, 0x1F600, 0x10FFFF, 0xE000] {
        let c = char::from_u32(code).expect("char");
        assert_eq!(is_space_char(c), c.is_whitespace());
    }
}

#[test]
fn texts_are_taken_apart_and_put_together() {
    assert_eq!(chars_of("aé𝄞"), vec!['a', 'é', '𝄞']);
    assert_eq!(chars_of(""), Vec::<char>::new());
    let chars = chars_of("hello");
    assert_eq!(text_of_chars(&chars, 1, 4), "ell");
    assert_eq!(text_of_chars(&chars, 2, 2), "");
    assert_eq!(last_char("abc"), Some('c'));
    assert_eq!(last_char("é"), Some('é'));
    assert_eq!(last_char(""), None);
    assert!(same_text("DESTROY", "DESTROY"));
    assert!(!same_text("DESTROY", "destroy"));
    assert!(!same_text("a", "ab"));
    assert_eq!(join_texts(&vec![], ", "), "");
    assert_eq!(join_texts(&vec!["a".to_string()], ", "), "a");
    assert_eq!(
        join_texts(&vec!["a".to_string(), "".to_string(), "c".to_string()], ", "),
        "a, , c"
    );
    assert!(is_absolute_path("/"));
    assert!(!is_absolute_path(""));
    assert!(!is_absolute_path("mnt/x"));
}

#[test]
fn trimming_and_splitting_agree_with_the_standard_library() {
    for input in [
        "",
        " ",
        "a",
        "  a b  ",
        "\t\n\r a\u{a0}b \u{2003}",
        "\u{85}x\u{1680}",
        "line one\nline two\r\n\n  three  \n",
        "\n",
        "\n\n",
        "no newline at end",
        "100  512\t4096\n",
    ] {
        assert_eq!(recpart::text::trim_text(input), input.trim(), "trim {input:?}");
        let words = recpart::text::split_text_words(input);
        let expected = input.split_whitespace().collect::<Vec<_>>();
        assert_eq!(words, expected, "words of {input:?}");
        let lines = recpart::preflight::split_text_lines(input);
        let expected = input.split('\n').collect::<Vec<_>>();
        assert_eq!(lines, expected, "lines of {input:?}");
        let points = recpart::preflight::collect_mount_points(&lines);
        let expected = input
            .lines()
            .map(str::trim)
            .filter(|line| !line.is_empty())
            .filter(|line| *line != "-")
            .collect::<Vec<_>>();
        assert_eq!(points, expected, "mount points of {input:?}");
    }
}

#[test]
fn paths_are_joined_like_the_standard_library_joins_them() {
    for base in ["", "/", "/mnt", "/mnt/", "/mnt//", "mnt", "/a/b", "/a/b/"] {
        for child in ["sysroot", "boot", "state", "/abs", "a/b", ""] {
            let expected = std::path::Path::new(base)
                .join(child)
                .to_string_lossy()
                .to_string();
            assert_eq!(
                recpart::text::join_path(base, child),
                expected,
                "join {base:?} {child:?}"
            );
        }
        assert_eq!(
            is_absolute_path(base),
            std::path::Path::new(base).is_absolute(),
            "absolute {base:?}"
        );
    }
}
