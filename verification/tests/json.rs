use semantic_search::json::quote;

#[test]
fn quote_puts_plain_text_between_quotation_marks() {
    assert_eq!(quote("soccer"), "\"soccer\"");
    assert_eq!(quote("table tennis"), "\"table tennis\"");
    assert_eq!(quote(""), "\"\"");
}

#[test]
fn quote_escapes_quotation_mark_and_backslash() {
    assert_eq!(quote("a\"b"), "\"a\\\"b\"");
    assert_eq!(quote("a\\b"), "\"a\\\\b\"");
    assert_eq!(quote("\\\""), "\"\\\\\\\"\"");
}

#[test]
fn quote_uses_the_short_forms() {
    assert_eq!(quote("\u{8}"), "\"\\b\"");
    assert_eq!(quote("\t"), "\"\\t\"");
    assert_eq!(quote("\n"), "\"\\n\"");
    assert_eq!(quote("\u{c}"), "\"\\f\"");
    assert_eq!(quote("\r"), "\"\\r\"");
}

#[test]
fn quote_writes_other_control_characters_by_number() {
    assert_eq!(quote("\u{0}"), "\"\\u0000\"");
    assert_eq!(quote("\u{1}"), "\"\\u0001\"");
    assert_eq!(quote("\u{b}"), "\"\\u000b\"");
    assert_eq!(quote("\u{e}"), "\"\\u000e\"");
    assert_eq!(quote("\u{10}"), "\"\\u0010\"");
    assert_eq!(quote("\u{1a}"), "\"\\u001a\"");
    assert_eq!(quote("\u{1f}"), "\"\\u001f\"");
}

#[test]
fn quote_leaves_all_other_characters() {
    assert_eq!(quote(" "), "\" \"");
    assert_eq!(quote("/"), "\"/\"");
    assert_eq!(quote("\u{7f}"), "\"\u{7f}\"");
    assert_eq!(quote("fútbol サッカー ⚽"), "\"fútbol サッカー ⚽\"");
    assert_eq!(quote("\u{10ffff}"), "\"\u{10ffff}\"");
}

#[test]
fn quote_agrees_with_serde_json_on_every_character() {
    for n in 0u32..0x11000 {
        if let Some(c) = char::from_u32(n) {
            let text = c.to_string();
            assert_eq!(quote(&text), serde_json::to_string(&text).unwrap(), "{:#x}", n);
        }
    }
}

#[test]
fn quoted_text_reads_back() {
    let texts = [
        "",
        "soccer",
        "a\"b\\c",
        "\"\"\"",
        "\\\\\\",
        "\\u0041",
        "\u{0}\u{1f}\u{20}",
        "line\nbreak",
        "x\"],\"model\":\"large",
        "サッカー \u{1f3c6}",
    ];
    for text in texts {
        let read: String = serde_json::from_str(&quote(text)).unwrap();
        assert_eq!(read, text);
    }
}

#[test]
fn quote_of_a_mixed_text() {
    assert_eq!(quote("say \"hi\"\n\u{1}\\"), "\"say \\\"hi\\\"\\n\\u0001\\\\\"");
}
