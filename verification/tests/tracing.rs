use tracert::traceroute::{
    first_matching_address, probe_outcome, with_default_port, IpVersion, ProbeOutcome,
    ProductionTraceroute, TraceRun, TraceStep,
};

fn reply(ip: &str, rtt: u64) -> ProbeOutcome {
    ProbeOutcome::Reply { ip: ip.to_string(), rtt_nanos: rtt }
}

/// Drives a run, answering each probe with `answer(ttl, index)`; returns
/// the probes asked for, as (ttl, index, timeout).
fn drive(run: &mut TraceRun, answer: impl Fn(u32, usize) -> ProbeOutcome) -> Vec<(u32, usize, u64)> {
    let mut probes = Vec::new();
    loop {
        match run.next_step() {
            TraceStep::Probe { ttl, probe_index, timeout_ms } => {
                probes.push((ttl, probe_index, timeout_ms));
                run.record_probe(answer(ttl, probe_index));
            }
            TraceStep::CompleteHop => {
                run.complete_hop();
            }
            TraceStep::Finished => return probes,
        }
    }
}

#[test]
fn config_is_kept() {
    let t = ProductionTraceroute::with_config(12, 250, IpVersion::IPv6);
    assert_eq!(t.max_hops(), 12);
    assert_eq!(t.timeout_ms(), 250);
    assert_eq!(t.ip_version(), IpVersion::IPv6);
}

#[test]
fn probe_timeout_grows_with_distance() {
    let t = ProductionTraceroute::with_config(30, 100, IpVersion::IPv4);
    assert_eq!(t.probe_timeout_ms(1), 100);
    assert_eq!(t.probe_timeout_ms(5), 100);
    assert_eq!(t.probe_timeout_ms(6), 200);
    assert_eq!(t.probe_timeout_ms(10), 200);
    assert_eq!(t.probe_timeout_ms(11), 300);
    assert_eq!(t.probe_timeout_ms(30), 300);
}

#[test]
fn zero_hop_limit_traces_nothing() {
    let t = ProductionTraceroute::with_config(0, 100, IpVersion::IPv4);
    let run = TraceRun::new(&t, "10.0.0.9".to_string());
    assert!(matches!(run.next_step(), TraceStep::Finished));
    assert!(run.hops().is_empty());
}

#[test]
fn trace_stops_at_target() {
    let t = ProductionTraceroute::with_config(30, 100, IpVersion::IPv4);
    let mut run = TraceRun::new(&t, "10.0.0.9".to_string());
    let probes = drive(&mut run, |ttl, _| if ttl == 1 { reply("192.168.1.1", 1_000_000) } else { reply("10.0.0.9", 2_000_000) });
    assert_eq!(probes, vec![(1, 0, 100), (1, 1, 100), (1, 2, 100), (2, 0, 100), (2, 1, 100), (2, 2, 100)]);
    let hops = run.into_hops();
    assert_eq!(hops.len(), 2);
    assert_eq!(hops[0].hop, 1);
    assert_eq!(hops[0].ip, "192.168.1.1");
    assert_eq!(hops[1].hop, 2);
    assert_eq!(hops[1].ip, "10.0.0.9");
    assert_eq!(hops[1].rtt1, Some(2_000_000));
    assert!(hops[1].hostnames.is_empty());
}

#[test]
fn trace_stops_at_hop_limit() {
    let t = ProductionTraceroute::with_config(7, 10, IpVersion::IPv4);
    let mut run = TraceRun::new(&t, "10.0.0.9".to_string());
    let probes = drive(&mut run, |_, _| ProbeOutcome::TimedOut);
    assert_eq!(probes.len(), 21);
    assert_eq!(probes[20], (7, 2, 20));
    let hops = run.hops();
    assert_eq!(hops.len(), 7);
    for (i, hop) in hops.iter().enumerate() {
        assert_eq!(hop.hop as usize, i + 1);
        assert_eq!(hop.ip, "请求超时");
        assert_eq!((hop.rtt1, hop.rtt2, hop.rtt3), (None, None, None));
    }
}

#[test]
fn first_answer_names_the_hop() {
    let t = ProductionTraceroute::with_config(1, 10, IpVersion::IPv4);
    let mut run = TraceRun::new(&t, "10.0.0.9".to_string());
    run.record_probe(ProbeOutcome::TimedOut);
    run.record_probe(reply("172.16.0.1", 5));
    run.record_probe(reply("172.16.0.2", 7));
    assert!(matches!(run.next_step(), TraceStep::CompleteHop));
    let hop = run.complete_hop();
    assert_eq!(hop.ip, "172.16.0.1");
    assert_eq!((hop.rtt1, hop.rtt2, hop.rtt3), (None, Some(5), Some(7)));
    assert!(matches!(run.next_step(), TraceStep::Finished));
}

#[test]
fn cancel_ends_trace_and_keeps_hops() {
    let t = ProductionTraceroute::with_config(30, 10, IpVersion::IPv4);
    let mut run = TraceRun::new(&t, "10.0.0.9".to_string());
    for _ in 0..3 {
        run.record_probe(reply("1.1.1.1", 1));
    }
    run.complete_hop();
    run.record_probe(reply("2.2.2.2", 1));
    run.cancel();
    assert!(matches!(run.next_step(), TraceStep::Finished));
    assert_eq!(run.hops().len(), 1);
}

#[test]
fn probe_outcomes() {
    let target = || "10.0.0.9".to_string();
    assert!(matches!(probe_outcome(Some((false, Some("1.1.1.1".to_string()), 5)), target()),
        ProbeOutcome::Reply { ref ip, rtt_nanos: 5 } if ip == "1.1.1.1"));
    assert!(matches!(probe_outcome(Some((true, Some("1.1.1.1".to_string()), 5)), target()),
        ProbeOutcome::Reply { ref ip, rtt_nanos: 5 } if ip == "1.1.1.1"));
    assert!(matches!(probe_outcome(Some((true, None, 9)), target()),
        ProbeOutcome::Reply { ref ip, rtt_nanos: 9 } if ip == "10.0.0.9"));
    assert!(matches!(probe_outcome(Some((false, None, 9)), target()), ProbeOutcome::TimedOut));
    assert!(matches!(probe_outcome(None, target()), ProbeOutcome::TimedOut));
}

#[test]
fn preferred_family_is_picked_first() {
    let families = vec![IpVersion::IPv6, IpVersion::IPv4, IpVersion::IPv4];
    assert_eq!(first_matching_address(&families, IpVersion::IPv4), Some(1));
    assert_eq!(first_matching_address(&families, IpVersion::IPv6), Some(0));
    assert_eq!(first_matching_address(&vec![IpVersion::IPv6], IpVersion::IPv4), None);
    assert_eq!(first_matching_address(&vec![], IpVersion::IPv4), None);
}

#[test]
fn default_port_is_appended() {
    assert_eq!(with_default_port("example.com"), "example.com:80");
}

#[test]
fn oversized_timeout_only_matters_from_hop_six() {
    let t = ProductionTraceroute::with_config(30, u64::MAX, IpVersion::IPv4);
    let mut run = TraceRun::new(&t, "10.0.0.9".to_string());
    for ttl in 1..=5u32 {
        for _ in 0..3 {
            assert!(run.next_step_computable());
            assert!(matches!(run.next_step(), TraceStep::Probe { ttl: t2, timeout_ms: u64::MAX, .. } if t2 == ttl));
            run.record_probe(ProbeOutcome::TimedOut);
        }
        assert!(run.next_step_computable());
        run.complete_hop();
    }
    assert!(!run.next_step_computable());
    let t = ProductionTraceroute::with_config(30, u64::MAX / 3, IpVersion::IPv4);
    let mut run = TraceRun::new(&t, "10.0.0.9".to_string());
    let probes = drive(&mut run, |_, _| ProbeOutcome::TimedOut);
    assert_eq!(probes[89], (30, 2, u64::MAX / 3 * 3));
}
