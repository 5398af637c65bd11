use sidecar_host::text::{decimal, join, trim};

#[test]
fn trim_removes_white_space_at_both_ends() {
    assert_eq!(trim("  Server started \r\n"), "Server started");
    assert_eq!(trim("\t\tlistening on 8000"), "listening on 8000");
    assert_eq!(trim("ready   "), "ready");
}

#[test]
fn trim_keeps_inner_white_space() {
    assert_eq!(trim(" a  b\tc "), "a  b\tc");
}

#[test]
fn trim_leaves_a_trimmed_line_alone() {
    assert_eq!(trim("Server started"), "Server started");
    assert_eq!(trim("x"), "x");
}

#[test]
fn trim_of_nothing_but_white_space_is_empty() {
    assert_eq!(trim(""), "");
    assert_eq!(trim(" "), "");
    assert_eq!(trim(" \t\r\n\u{b}\u{c} "), "");
}

#[test]
fn trim_knows_white_space_beyond_ascii() {
    assert_eq!(trim("\u{a0}\u{3000}服务已启动\u{2003}\u{85}"), "服务已启动");
    assert_eq!(trim("\u{2028}a\u{2029}"), "a");
    assert_eq!(trim("\u{200b}a\u{200b}"), "\u{200b}a\u{200b}");
}

#[test]
fn trim_agrees_with_the_standard_library() {
    let lines = [
        "",
        " ",
        "plain",
        "  leading",
        "trailing  ",
        "\n\nboth\n\n",
        " \u{a0} mixed \u{1680}\u{205f}",
        "é è",
        " 🙂 ",
        "\u{feff}bom ",
    ];
    for line in lines {
        assert_eq!(trim(line), line.trim());
    }
}

#[test]
fn decimal_of_small_numbers() {
    assert_eq!(decimal(0), "0");
    assert_eq!(decimal(7), "7");
    assert_eq!(decimal(10), "10");
    assert_eq!(decimal(8000), "8000");
    assert_eq!(decimal(1234567890), "1234567890");
}

#[test]
fn decimal_of_the_largest_number() {
    assert_eq!(decimal(u32::MAX), "4294967295");
}

#[test]
fn decimal_agrees_with_the_standard_library() {
    let numbers = [0u32, 1, 9, 10, 11, 99, 100, 101, 4096, 65535, 65536, 999999, 1000000, u32::MAX - 1];
    for n in numbers {
        assert_eq!(decimal(n), n.to_string());
    }
}

#[test]
fn join_puts_the_tail_behind_the_head() {
    assert_eq!(join("Failed: ", "no such file"), "Failed: no such file");
    assert_eq!(join("", "tail"), "tail");
    assert_eq!(join("head", ""), "head");
}
