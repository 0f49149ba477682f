use exchange_history::ticker::sanitize_ticker;

#[test]
fn sanitize_ticker_pass_no_harm() {
    let result = sanitize_ticker("123".to_string());
    assert_eq!(result, "123".to_string());
}

#[test]
fn sanitize_ticker_pass_delimiters() {
    let result = sanitize_ticker("123-_".to_string());
    assert_eq!(result, "123-_".to_string());
}

#[test]
fn sanitize_ticker_pass_remove_non_alnum() {
    let result = sanitize_ticker("123*&(^(*&123..,./.,/".to_string());
    assert_eq!(result, "123123".to_string());
}

#[test]
fn sanitize_ticker_pass_max_len() {
    let result = sanitize_ticker("123123123123123123123".to_string());
    assert_eq!(result, "12312312312312312312".to_string());
}

#[test]
fn sanitize_ticker_pass_to_lowercase() {
    let result = sanitize_ticker("AaAa".to_string());
    assert_eq!(result, "aaaa".to_string());
}

#[test]
fn sanitize_ticker_fail_to_lowercase() {
    let result = sanitize_ticker("AaAa".to_string());
    assert_ne!(result, "AaAa".to_string());
}

#[test]
fn utils_sanitize_ticker_pass_no_harm() {
    let result = sanitize_ticker("123".to_string());
    assert_eq!(result, "123".to_string());
}

#[test]
fn utils_sanitize_ticker_pass_delimiters() {
    let result = sanitize_ticker("123-_".to_string());
    assert_eq!(result, "123-_".to_string());
}

#[test]
fn utils_sanitize_ticker_pass_remove_non_alnum() {
    let result = sanitize_ticker("123*&(^(*&123..,./.,/".to_string());
    assert_eq!(result, "123123".to_string());
}

#[test]
fn utils_sanitize_ticker_pass_max_len() {
    let result = sanitize_ticker("123123123123123123123".to_string());
    assert_eq!(result, "12312312312312312312".to_string());
}

#[test]
fn sanitize_ticker_truncates_before_filtering() {
    let result = sanitize_ticker("....................SBER".to_string());
    assert_eq!(result, "".to_string());
}

#[test]
fn sanitize_ticker_drops_non_ascii_letters() {
    let result = sanitize_ticker("Сбер-SBER_1".to_string());
    assert_eq!(result, "-sber_1".to_string());
}

#[test]
fn sanitize_ticker_empty() {
    assert_eq!(sanitize_ticker(String::new()), String::new());
}
