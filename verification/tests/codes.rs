use stock_monitor::codes::{normalize_index_code, normalize_stock_code, secid};

#[test]
fn stock_codes_get_their_market() {
    assert_eq!(normalize_stock_code("600519"), "sh600519");
    assert_eq!(normalize_stock_code("000001"), "sz000001");
    assert_eq!(normalize_stock_code("300750"), "sz300750");
    assert_eq!(normalize_stock_code("830799"), "bj830799");
    assert_eq!(normalize_stock_code("430047"), "bj430047");
    assert_eq!(normalize_stock_code("920002"), "bj920002");
    assert_eq!(normalize_stock_code("100001"), "sz100001");
    assert_eq!(normalize_stock_code("abc"), "szabc");
    assert_eq!(normalize_stock_code(""), "sz");
}

#[test]
fn stock_codes_are_trimmed_and_in_lower_case() {
    assert_eq!(normalize_stock_code("  SH600519\n"), "sh600519");
    assert_eq!(normalize_stock_code("\u{3000}BJ830799 "), "bj830799");
    assert_eq!(normalize_stock_code("Sz"), "sz");
    assert_eq!(normalize_stock_code("ÄB"), "szäb");
}

#[test]
fn full_stock_codes_stay() {
    for code in ["600519", " SZ000001 ", "x", "", "8", "shanghai", "bj", "ÄB", "ΑΣ", "İ"] {
        let full = normalize_stock_code(code);
        assert_eq!(normalize_stock_code(&full), full);
        assert!(full.starts_with("sh") || full.starts_with("sz") || full.starts_with("bj"));
    }
}

#[test]
fn index_codes_get_their_market() {
    assert_eq!(normalize_index_code("sh000001"), "sh000001");
    assert_eq!(normalize_index_code("399001"), "sz399001");
    assert_eq!(normalize_index_code("000300"), "sz000300");
    assert_eq!(normalize_index_code("100001"), "sz100001");
    assert_eq!(normalize_index_code("200001"), "sz200001");
    assert_eq!(normalize_index_code("899050"), "sh899050");
    assert_eq!(normalize_index_code("bj899050"), "bj899050");
    assert_eq!(normalize_index_code(""), "sh");
}

#[test]
fn index_codes_are_looked_at_as_given() {
    assert_eq!(normalize_index_code("SH000001"), "shsh000001");
    assert_eq!(normalize_index_code("shABC"), "shabc");
    assert_eq!(normalize_index_code(" 399001"), "sh 399001");
}

#[test]
fn full_index_codes_stay() {
    for code in ["399001", "sh000001", "SH000001", "bjX", ""] {
        let full = normalize_index_code(code);
        assert_eq!(normalize_index_code(&full), full);
    }
}

#[test]
fn east_money_identifiers() {
    assert_eq!(secid("sh600519"), "1.600519");
    assert_eq!(secid("sz000001"), "0.000001");
    assert_eq!(secid("bj830799"), "0.830799");
    assert_eq!(secid("600519"), "0.600519");
    assert_eq!(secid("sh"), "1.");
    assert_eq!(secid(&normalize_stock_code("600519")), "1.600519");
}
