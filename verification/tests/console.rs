use tracert::firewall::{FirewallManager, FirewallRule};
use tracert::geoip::{GeoIPService, GeoLocation};
use tracert::gui::{hops_from_input, timeout_from_input, ConsoleEffect, Message, TraceConsole, TraceResult};
use tracert::traceroute::{HopRecord, IpVersion, TraceReport};

fn hop(n: u32, ip: &str) -> HopRecord {
    HopRecord { hop: n, ip: ip.to_string(), rtt1: Some(1), rtt2: None, rtt3: None, hostnames: vec![] }
}

fn place(country_code: &str, city: &str) -> GeoLocation {
    let mut l = GeoLocation::default();
    l.country_code = country_code.to_string();
    l.lon = "116.39".to_string();
    l.city = city.to_string();
    l
}

#[test]
fn console_starts_ready() {
    let c = TraceConsole::new();
    assert_eq!(c.target_input(), "");
    assert!(!c.is_tracing());
    assert_eq!(c.max_hops(), 30);
    assert_eq!(c.timeout_ms(), 5000);
    assert_eq!(c.ip_version(), IpVersion::IPv4);
    assert_eq!(c.status_message(), "就绪");
    assert!(c.current_hops().is_empty() && c.trace_results().is_empty());
}

#[test]
fn blank_target_is_refused() {
    let mut c = TraceConsole::new();
    c.update(Message::TargetInputChanged(" \t ".to_string()));
    assert!(matches!(c.update(Message::StartTrace), ConsoleEffect::Nothing));
    assert_eq!(c.status_message(), "请输入目标地址");
    assert!(!c.is_tracing());
}

#[test]
fn start_launches_with_settings() {
    let mut c = TraceConsole::new();
    c.update(Message::TargetInputChanged("example.com".to_string()));
    c.update(Message::MaxHopsChanged(12));
    c.update(Message::TimeoutChanged(800));
    c.update(Message::IpVersionChanged(IpVersion::IPv6));
    c.apply_result(TraceResult::HopUpdate(hop(1, "1.1.1.1")));
    match c.update(Message::StartTrace) {
        ConsoleEffect::LaunchTrace { target, max_hops, timeout_ms, ip_version } => {
            assert_eq!(target, "example.com");
            assert_eq!((max_hops, timeout_ms, ip_version), (12, 800, IpVersion::IPv6));
        }
        _ => panic!("expected a launch"),
    }
    assert!(c.is_tracing());
    assert!(c.current_hops().is_empty());
    assert_eq!(c.status_message(), "正在追踪: example.com");
}

#[test]
fn stop_and_poll_effects() {
    let mut c = TraceConsole::new();
    assert!(matches!(c.update(Message::CheckAsyncResults), ConsoleEffect::PollResults));
    assert!(matches!(c.update(Message::StopTrace), ConsoleEffect::StopTrace));
    assert!(!c.is_tracing());
    assert_eq!(c.status_message(), "已停止");
}

#[test]
fn hop_updates_replace_rows_by_number() {
    let mut c = TraceConsole::new();
    assert_eq!(c.apply_result(TraceResult::HopUpdate(hop(1, "1.1.1.1"))), Some("1.1.1.1".to_string()));
    assert_eq!(c.apply_result(TraceResult::HopUpdate(hop(2, "*"))), None);
    assert_eq!(c.apply_result(TraceResult::HopUpdate(hop(1, "3.3.3.3"))), Some("3.3.3.3".to_string()));
    let rows = c.current_hops();
    assert_eq!(rows.len(), 2);
    assert_eq!((rows[0].hop, rows[0].ip.as_str()), (1, "3.3.3.3"));
    assert_eq!((rows[1].hop, rows[1].ip.as_str()), (2, "*"));
}

#[test]
fn known_locations_are_not_looked_up_again() {
    let mut c = TraceConsole::new();
    c.apply_location("1.1.1.1".to_string(), place("CN", "深圳"));
    assert_eq!(c.apply_result(TraceResult::HopUpdate(hop(1, "1.1.1.1"))), None);
}

#[test]
fn completion_and_errors_end_tracing() {
    let mut c = TraceConsole::new();
    c.update(Message::TargetInputChanged("1.1.1.1".to_string()));
    c.update(Message::StartTrace);
    let report = TraceReport { destination: "1.1.1.1".to_string(), hops: vec![hop(1, "1.1.1.1")], total_nanos: 5 };
    assert_eq!(c.apply_result(TraceResult::Completed(report)), None);
    assert!(!c.is_tracing());
    assert_eq!(c.status_message(), "追踪完成");
    assert_eq!(c.trace_results().len(), 1);
    c.update(Message::StartTrace);
    assert_eq!(c.apply_result(TraceResult::Error("无法解析主机名: x".to_string())), None);
    assert!(!c.is_tracing());
    assert_eq!(c.status_message(), "错误: 无法解析主机名: x");
}

#[test]
fn clearing_forgets_everything() {
    let mut c = TraceConsole::new();
    c.apply_result(TraceResult::HopUpdate(hop(1, "1.1.1.1")));
    c.apply_location("1.1.1.1".to_string(), place("CN", "深圳"));
    let report = TraceReport { destination: "1.1.1.1".to_string(), hops: vec![], total_nanos: 5 };
    c.apply_result(TraceResult::Completed(report));
    assert!(matches!(c.update(Message::ClearResults), ConsoleEffect::Nothing));
    assert!(c.current_hops().is_empty() && c.trace_results().is_empty());
    assert_eq!(c.status_message(), "已清理");
    assert_eq!(c.apply_result(TraceResult::HopUpdate(hop(1, "1.1.1.1"))), Some("1.1.1.1".to_string()));
}

#[test]
fn location_columns_show_flag_and_text() {
    let mut c = TraceConsole::new();
    let service = GeoIPService::new(None);
    c.apply_location("1.1.1.1".to_string(), place("cn", "深圳"));
    let (flag, text) = c.location_columns("1.1.1.1", &service);
    assert_eq!(flag, "🇨🇳");
    assert_eq!(text, "深圳");
    let (flag, text) = c.location_columns("2.2.2.2", &service);
    assert_eq!((flag.as_str(), text.as_str()), ("", ""));
    let (flag, text) = c.location_columns("*", &service);
    assert_eq!((flag.as_str(), text.as_str()), ("", ""));
}

#[test]
fn settings_input_defaults() {
    assert_eq!(hops_from_input(Some(12)), 12);
    assert_eq!(hops_from_input(None), 30);
    assert_eq!(timeout_from_input(Some(250)), 250);
    assert_eq!(timeout_from_input(None), 1000);
}

#[test]
fn firewall_rules_in_order() {
    let rules: Vec<FirewallRule> = FirewallManager::icmp_rules();
    let shapes: Vec<(&str, bool, bool, bool)> =
        rules.iter().map(|r| (r.name.as_str(), r.outbound, r.inbound, r.is_ipv6)).collect();
    assert_eq!(shapes, vec![
        ("TracertToolsOutboundICMP", true, false, false),
        ("TracertToolsInboundICMP", false, true, false),
        ("TracertToolsOutboundICMPv6", true, false, true),
        ("TracertToolsInboundICMPv6", false, true, true),
    ]);
    assert_eq!(FirewallManager::rule_protocol(false), 1);
    assert_eq!(FirewallManager::rule_protocol(true), 58);
}
