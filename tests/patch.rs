use tesseract_static::patch::{apply_substitutions, replace_literal, Substitution};

fn sub(from: &str, to: &str) -> Substitution {
    Substitution { from: from.as_bytes().to_vec(), to: to.as_bytes().to_vec() }
}

#[test]
fn replaces_every_occurrence() {
    let r = replace_literal(&b"a-b-c".to_vec(), &b"-".to_vec(), &b"+".to_vec());
    assert_eq!(r, b"a+b+c".to_vec());
}

#[test]
fn replacement_may_change_length() {
    let r = replace_literal(&b"HAVE_X 1; HAVE_X 1".to_vec(), &b"HAVE_X 1".to_vec(), &b"#undef".to_vec());
    assert_eq!(r, b"#undef; #undef".to_vec());
}

#[test]
fn occurrences_do_not_overlap() {
    let r = replace_literal(&b"aaa".to_vec(), &b"aa".to_vec(), &b"b".to_vec());
    assert_eq!(r, b"ba".to_vec());
}

#[test]
fn absent_literal_leaves_text() {
    let text = b"#define  HAVE_LIBJPEG 1\n".to_vec();
    let r = replace_literal(&text, &b"HAVE_LIBPNG".to_vec(), &b"nothing".to_vec());
    assert_eq!(r, text);
}

#[test]
fn empty_pattern_leaves_text() {
    let text = b"abc".to_vec();
    assert_eq!(replace_literal(&text, &Vec::new(), &b"x".to_vec()), text);
}

#[test]
fn empty_text_stays_empty() {
    assert_eq!(replace_literal(&Vec::new(), &b"a".to_vec(), &b"b".to_vec()), Vec::<u8>::new());
}

#[test]
fn pattern_longer_than_text() {
    let text = b"ab".to_vec();
    assert_eq!(replace_literal(&text, &b"abc".to_vec(), &b"x".to_vec()), text);
}

#[test]
fn agrees_with_str_replace() {
    let cases = [
        ("x = 1; y = 1; z = 11", "1", "one"),
        ("abababa", "aba", "c"),
        ("no match here", "zzz", "y"),
        ("edge at end!!", "!!", "?"),
        ("#ifdef  NO_CONSOLE_IO\nfoo", "#ifdef  NO_CONSOLE_IO", "#define NO_CONSOLE_IO\n#ifdef  NO_CONSOLE_IO"),
    ];
    for (text, from, to) in cases {
        let r = replace_literal(&text.as_bytes().to_vec(), &from.as_bytes().to_vec(), &to.as_bytes().to_vec());
        assert_eq!(r, text.replace(from, to).into_bytes());
    }
}

#[test]
fn substitutions_apply_in_order() {
    let subs = vec![
        sub("#define  HAVE_LIBZ          1", "#define  HAVE_LIBZ          0"),
        sub("#define  HAVE_LIBZ          0", "#undef HAVE_LIBZ"),
    ];
    let r = apply_substitutions(&b"#define  HAVE_LIBZ          1\n".to_vec(), &subs);
    assert_eq!(r, b"#undef HAVE_LIBZ\n".to_vec());
}

#[test]
fn no_substitutions_leave_text() {
    let text = b"unchanged".to_vec();
    assert_eq!(apply_substitutions(&text, &Vec::new()), text);
}

#[test]
fn patching_twice_from_pristine_gives_same_bytes() {
    let pristine = b"HAVE_LIBGIF 1\nHAVE_LIBZ 1\n".to_vec();
    let subs = vec![sub("HAVE_LIBGIF 1", "HAVE_LIBGIF 0"), sub("HAVE_LIBZ 1", "HAVE_LIBZ 0")];
    let first = apply_substitutions(&pristine, &subs);
    let second = apply_substitutions(&pristine.clone(), &subs);
    assert_eq!(first, second);
    assert_eq!(first, b"HAVE_LIBGIF 0\nHAVE_LIBZ 0\n".to_vec());
}
