use supertable::i18n::Locale;
use supertable::text::{
    char_is_white_space, chars_of, contains_chars, i64_to_decimal, join_first, parse_u16,
    str_eq, trim_str, u64_to_decimal,
};

#[test]
fn toggle_switches_language_and_back() {
    assert_eq!(Locale::ZhCn.toggle(), Locale::EnUs);
    assert_eq!(Locale::EnUs.toggle(), Locale::ZhCn);
    assert_eq!(Locale::ZhCn.toggle().toggle(), Locale::ZhCn);
}

#[test]
fn switch_label_names_the_other_language() {
    assert_eq!(Locale::ZhCn.switch_label(), "EN");
    assert_eq!(Locale::EnUs.switch_label(), "中");
}

#[test]
fn fixed_texts_in_both_languages() {
    assert_eq!(Locale::ZhCn.new_query(), "新建查询");
    assert_eq!(Locale::EnUs.new_query(), "New Query");
    assert_eq!(Locale::EnUs.export(), "Community");
    assert_eq!(Locale::ZhCn.explain(), "解析");
    assert_eq!(Locale::EnUs.no_data(), "No data available for the current source");
    assert_eq!(Locale::ZhCn.sqlite_file(), "本地数据库文件");
    assert_eq!(Locale::EnUs.memory_cache(), "In-memory cache");
    assert_eq!(
        Locale::EnUs.preset_hint(),
        "Switching database type fills the default port automatically"
    );
    assert_eq!(Locale::ZhCn.execute_hint(), "Ctrl+Enter 执行当前选择");
}

#[test]
fn configured_endpoints_counts() {
    assert_eq!(Locale::EnUs.configured_endpoints(5), "5 configured endpoints ready to use");
    assert_eq!(Locale::ZhCn.configured_endpoints(12), "已配置 12 个端点，随时可用");
    assert_eq!(Locale::EnUs.configured_endpoints(0), "0 configured endpoints ready to use");
}

#[test]
fn schema_items_have_chinese_names_only_in_chinese() {
    assert_eq!(Locale::ZhCn.schema_item("Tables"), "表");
    assert_eq!(Locale::ZhCn.schema_item("Triggers"), "触发器");
    assert_eq!(Locale::ZhCn.schema_item("Pins"), "置顶");
    assert_eq!(Locale::ZhCn.schema_item("Keys"), "Keys");
    assert_eq!(Locale::EnUs.schema_item("Tables"), "Tables");
    assert_eq!(Locale::EnUs.schema_item(""), "");
}

#[test]
fn formatted_connection_texts() {
    assert_eq!(
        Locale::EnUs.configure_connection("Redis"),
        "Configure a Redis connection and save it to your workspace"
    );
    assert_eq!(Locale::ZhCn.configure_connection("MySQL"), "配置 MySQL 连接并保存到你的工作区");
    assert_eq!(Locale::EnUs.endpoint_label("MongoDB"), "MongoDB endpoint");
    assert_eq!(Locale::ZhCn.endpoint_label("MySQL"), "MySQL 端点");
}

#[test]
fn decimal_rendering_matches_display() {
    for n in [0u64, 7, 10, 99, 100, 3306, 65535, 1234567890, u64::MAX] {
        assert_eq!(u64_to_decimal(n), n.to_string());
    }
    for n in [0i64, -1, 42, -3306, i64::MIN, i64::MAX] {
        assert_eq!(i64_to_decimal(n), n.to_string());
    }
}

#[test]
fn port_parsing_follows_std() {
    for s in ["3306", "+80", "0", "007", "65535", "65536", "-1", "", "+", "12a", " 80", "99999999999"] {
        assert_eq!(parse_u16(s), s.parse::<u16>().ok(), "input {:?}", s);
    }
    assert_eq!(parse_u16("+80"), Some(80));
    assert_eq!(parse_u16("65536"), None);
}

#[test]
fn parsing_a_printed_port_gives_it_back() {
    for n in [0u16, 1, 80, 3306, 5432, 6379, 27017, 65535] {
        assert_eq!(parse_u16(&u64_to_decimal(n as u64)), Some(n));
    }
}

#[test]
fn trimming_follows_std() {
    for s in ["  a b  ", "\t\nx\u{3000}", "", "   ", "\u{85}y\u{2029}", "z", "\u{200b}k"] {
        assert_eq!(trim_str(s), s.trim(), "input {:?}", s);
    }
    for c in ['\u{9}', ' ', '\u{a0}', '\u{1680}', '\u{2005}', '\u{205f}', 'a', '\u{200b}', '\u{180e}'] {
        assert_eq!(char_is_white_space(c), c.is_whitespace(), "char {:?}", c);
    }
}

#[test]
fn lowercasing_and_containment() {
    let hay = chars_of("paid refunded");
    assert!(contains_chars(&hay, &chars_of("refund")));
    assert!(contains_chars(&hay, &chars_of("")));
    assert!(!contains_chars(&hay, &chars_of("pending")));
    assert!(!contains_chars(&chars_of("ab"), &chars_of("abc")));
    assert!(str_eq("Tables", "Tables"));
    assert!(!str_eq("Tables", "tables"));
}

#[test]
fn joining_takes_the_first_items() {
    let items: Vec<String> = ["a", "b", "c", "d", "e", "f"].iter().map(|s| s.to_string()).collect();
    assert_eq!(join_first(&items, 5, ", "), "a, b, c, d, e");
    assert_eq!(join_first(&items, 10, ", "), "a, b, c, d, e, f");
    assert_eq!(join_first(&items, 0, ", "), "");
    assert_eq!(join_first(&Vec::new(), 3, ", "), "");
}
