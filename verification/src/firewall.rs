use vstd::prelude::*;

verus! {

/// One firewall rule that lets ICMP through: its name, the directions it
/// covers and whether it is for ICMPv6.
pub struct FirewallRule {
    pub name: String,
    pub outbound: bool,
    pub inbound: bool,
    pub is_ipv6: bool,
}

/// Names and shapes of the firewall rules that the tool keeps.
pub struct FirewallManager;

/// The IP protocol number a rule opens: 58 (ICMPv6) or 1 (ICMP).
pub open spec fn protocol_number(is_ipv6: bool) -> i32 {
    if is_ipv6 {
        58
    } else {
        1
    }
}

/// The rule named `name` covering the given directions and family.
pub open spec fn rule_is(rule: FirewallRule, name: Seq<char>, outbound: bool, inbound: bool, is_ipv6: bool) -> bool {
    &&& rule.name@ == name
    &&& rule.outbound == outbound
    &&& rule.inbound == inbound
    &&& rule.is_ipv6 == is_ipv6
}

impl FirewallManager {
    /// The four rules, in the order they are added: outbound and inbound
    /// ICMP, then outbound and inbound ICMPv6. Any of their names being
    /// present counts as the rules being installed.
    pub fn icmp_rules() -> (rules: Vec<FirewallRule>)
        ensures
            rules@.len() == 4,
            rule_is(rules@[0], "TracertToolsOutboundICMP"@, true, false, false),
            rule_is(rules@[1], "TracertToolsInboundICMP"@, false, true, false),
            rule_is(rules@[2], "TracertToolsOutboundICMPv6"@, true, false, true),
            rule_is(rules@[3], "TracertToolsInboundICMPv6"@, false, true, true),
    {
        let mut rules: Vec<FirewallRule> = Vec::new();
        rules.push(FirewallRule {
            name: String::from_str("TracertToolsOutboundICMP"),
            outbound: true,
            inbound: false,
            is_ipv6: false,
        });
        rules.push(FirewallRule {
            name: String::from_str("TracertToolsInboundICMP"),
            outbound: false,
            inbound: true,
            is_ipv6: false,
        });
        rules.push(FirewallRule {
            name: String::from_str("TracertToolsOutboundICMPv6"),
            outbound: true,
            inbound: false,
            is_ipv6: true,
        });
        rules.push(FirewallRule {
            name: String::from_str("TracertToolsInboundICMPv6"),
            outbound: false,
            inbound: true,
            is_ipv6: true,
        });
        rules
    }

    /// The protocol number that a rule for the given family opens.
    pub fn rule_protocol(is_ipv6: bool) -> (protocol: i32)
        ensures
            protocol == protocol_number(is_ipv6),
    {
        if is_ipv6 {
            58
        } else {
            1
        }
    }
}

} // verus!
