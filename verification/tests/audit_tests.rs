use open_aaas_server::audit::{extract_client_ip, log_agent_register, log_auth_failure, log_client_register, mask_token, AuditLevel};
use open_aaas_server::auth::HeaderField;

fn xff(value: &str) -> HeaderField {
    HeaderField::Text(value.to_string())
}

fn peer(ip: &str) -> Option<String> {
    Some(ip.to_string())
}

#[test]
fn test_extract_client_ip_no_xff_uses_connect_info() {
    assert_eq!(
        extract_client_ip(&HeaderField::Absent, false, peer("192.168.1.1")),
        Some("192.168.1.1".to_string())
    );
}

#[test]
fn test_extract_client_ip_distrust_xff_uses_connect_info() {
    assert_eq!(
        extract_client_ip(&xff("10.0.0.1"), false, peer("192.168.1.1")),
        Some("192.168.1.1".to_string())
    );
}

#[test]
fn test_extract_client_ip_trust_xff_single_ip() {
    assert_eq!(
        extract_client_ip(&xff("10.0.0.1"), true, peer("192.168.1.1")),
        Some("10.0.0.1".to_string())
    );
}

#[test]
fn test_extract_client_ip_trust_xff_multiple_ips_takes_leftmost() {
    assert_eq!(
        extract_client_ip(&xff("203.0.113.1, 10.0.0.2, 10.0.0.3"), true, peer("192.168.1.1")),
        Some("203.0.113.1".to_string())
    );
}

#[test]
fn test_extract_client_ip_trust_xff_trims_whitespace() {
    assert_eq!(
        extract_client_ip(&xff("  203.0.113.1  "), true, peer("192.168.1.1")),
        Some("203.0.113.1".to_string())
    );
}

#[test]
fn test_extract_client_ip_xff_empty_falls_back_to_connect_info() {
    assert_eq!(
        extract_client_ip(&xff(""), true, peer("192.168.1.1")),
        Some("192.168.1.1".to_string())
    );
}

#[test]
fn test_extract_client_ip_xff_only_commas_falls_back_to_connect_info() {
    assert_eq!(
        extract_client_ip(&xff(", ,"), true, peer("192.168.1.1")),
        Some("192.168.1.1".to_string())
    );
}

#[test]
fn test_extract_client_ip_no_xff_no_connect_info() {
    assert_eq!(extract_client_ip(&HeaderField::Absent, false, None), None);
}

#[test]
fn extract_client_ip_unreadable_header_falls_back() {
    assert_eq!(
        extract_client_ip(&HeaderField::Invalid, true, peer("192.168.1.1")),
        Some("192.168.1.1".to_string())
    );
}

#[test]
fn test_mask_token_ascii() {
    assert_eq!(mask_token("rt_abc123def456"), "rt_a...f456");
}

#[test]
fn test_mask_token_multibyte_utf8() {
    let token = "测试令牌abc123xyz";
    assert_eq!(mask_token(token), "测试令牌...3xyz");
}

#[test]
fn test_mask_token_empty() {
    assert_eq!(mask_token(""), "...");
}

#[test]
fn test_mask_token_short_very_short() {
    assert_eq!(mask_token("a"), "...");
    assert_eq!(mask_token("ab"), "...");
}

#[test]
fn test_mask_token_short_up_to_8() {
    assert_eq!(mask_token("abc"), "a...c");
    assert_eq!(mask_token("abcdefgh"), "a...h");
}

#[test]
fn test_mask_token_short_up_to_12() {
    assert_eq!(mask_token("abcdefghi"), "ab...hi");
    assert_eq!(mask_token("abcdefghijkl"), "ab...kl");
}

#[test]
fn test_mask_token_multibyte_does_not_panic() {
    let token = "中文字符测试令牌";
    let _ = mask_token(token);
}

#[test]
fn mask_token_multibyte_short_keeps_one_char_each_side() {
    assert_eq!(mask_token("中文字符测试令牌"), "中...牌");
}

#[test]
fn client_register_event_names_client_and_ip() {
    let e = log_client_register("alice", Some("10.0.0.1"));
    assert_eq!(e.level, AuditLevel::Info);
    assert_eq!(e.event, "client_register");
    assert!(e.fields.iter().any(|(k, v)| k == "name" && v == "alice"));
    assert!(e.fields.iter().any(|(_, v)| v == "10.0.0.1"));
}

#[test]
fn client_register_event_without_ip_says_unknown() {
    let e = log_client_register("alice", None);
    assert!(e.fields.iter().any(|(_, v)| v == "unknown"));
}

#[test]
fn agent_register_event_masks_token() {
    let e = log_agent_register("rt_abc123def456", None);
    assert!(e.fields.iter().any(|(_, v)| v == "rt_a...f456"));
    assert!(!e.fields.iter().any(|(_, v)| v == "rt_abc123def456"));
}

#[test]
fn auth_failure_event_is_a_warning_with_reason() {
    let e = log_auth_failure("client", "abcd", Some("1.2.3.4"), "无效的 API Key");
    assert_eq!(e.level, AuditLevel::Warn);
    assert_eq!(e.event, "auth_failure");
    assert_eq!(e.fields.len(), 4);
    assert_eq!(e.fields[0].1, "client");
    assert_eq!(e.fields[1].1, "abcd");
    assert_eq!(e.fields[3].1, "无效的 API Key");
}
