use wasmio::text::{integer_to_text, parse_bool, parse_i64, same_text};
use wasmio::xml::{into_document, push_element, push_wrapped};

#[test]
fn integers_are_written_in_base_ten() {
    assert_eq!(integer_to_text(0), "0");
    assert_eq!(integer_to_text(7), "7");
    assert_eq!(integer_to_text(10), "10");
    assert_eq!(integer_to_text(1024), "1024");
    assert_eq!(integer_to_text(-1), "-1");
    assert_eq!(integer_to_text(-305), "-305");
    assert_eq!(integer_to_text(i64::MAX), "9223372036854775807");
    assert_eq!(integer_to_text(i64::MIN), "-9223372036854775808");
}

#[test]
fn integers_are_read_as_std_reads_them() {
    for text in [
        "0",
        "7",
        "+7",
        "-7",
        "007",
        "-0",
        "9223372036854775807",
        "-9223372036854775808",
        "9223372036854775808",
        "-9223372036854775809",
        "99999999999999999999999",
        "000000000000000000000000000000012",
        "",
        "+",
        "-",
        "--1",
        "+-1",
        " 1",
        "1 ",
        "1a",
        "a",
        "1.5",
        "１",
    ] {
        assert_eq!(parse_i64(text), text.parse::<i64>().ok(), "{text:?}");
    }
    assert_eq!(parse_i64("12"), Some(12));
    assert_eq!(parse_i64("-9223372036854775808"), Some(i64::MIN));
    assert_eq!(parse_i64("9223372036854775808"), None);
}

#[test]
fn writing_and_reading_an_integer_agree() {
    for n in [0, 1, -1, 9, 10, 11, 99, 100, 12345, -12345, i64::MAX, i64::MIN, i64::MIN + 1] {
        assert_eq!(parse_i64(&integer_to_text(n)), Some(n));
        assert_eq!(integer_to_text(n), n.to_string());
    }
}

#[test]
fn flags_are_true_or_false() {
    assert_eq!(parse_bool("true"), Some(true));
    assert_eq!(parse_bool("false"), Some(false));
    for text in ["", "True", "TRUE", "1", "0", "yes", "tru", "truee", "falsy", "fals", " true"] {
        assert_eq!(parse_bool(text), None, "{text:?}");
    }
}

#[test]
fn texts_are_compared_by_character() {
    assert!(same_text("", ""));
    assert!(same_text("etag", "etag"));
    assert!(same_text("clé", "clé"));
    assert!(!same_text("etag", "etaG"));
    assert!(!same_text("etag", "eta"));
    assert!(!same_text("a", "é"));
}

#[test]
fn elements_are_escaped_and_framed() {
    let mut out = String::from(">");
    push_element(&mut out, "Key", "a<b");
    assert_eq!(out, "><Key>a&lt;b</Key>");
    push_element(&mut out, "Empty", "");
    assert_eq!(out, "><Key>a&lt;b</Key><Empty/>");
    push_element(&mut out, "All", "<>&'\"x é");
    assert_eq!(out, "><Key>a&lt;b</Key><Empty/><All>&lt;&gt;&amp;&apos;&quot;x é</All>");
}

#[test]
fn wrapped_elements_keep_their_inside() {
    let mut out = String::new();
    push_wrapped(&mut out, "Owner", "<ID>1</ID>");
    push_wrapped(&mut out, "Owner", "");
    assert_eq!(out, "<Owner><ID>1</ID></Owner><Owner/>");
}

#[test]
fn a_document_starts_with_the_declaration() {
    assert_eq!(
        into_document("<a/>"),
        "<?xml version=\"1.0\" encoding=\"UTF-8\"?>\n<a/>\n"
    );
}
