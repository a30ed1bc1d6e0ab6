use crate::geoip::{
    flag_table, format_location_for_display, get_country_flag, location_text, uppercase_of,
    GeoIPService, GeoLocation, GeoLocationView, LocationTable,
};
use crate::traceroute::{HopRecord, IpVersion, TraceReport};
use vstd::prelude::*;

verus! {

/// What the user or the timer asks of the console.
#[derive(Debug, Clone)]
pub enum Message {
    TargetInputChanged(String),
    StartTrace,
    StopTrace,
    ClearResults,
    MaxHopsChanged(u32),
    TimeoutChanged(u64),
    IpVersionChanged(IpVersion),
    CheckAsyncResults,
}

/// What the console tells a running trace.
#[derive(Debug, Clone)]
pub enum TraceCommand {
    StopTrace,
}

/// What a running trace reports to the console.
pub enum TraceResult {
    HopUpdate(HopRecord),
    Completed(TraceReport),
    Error(String),
}

/// The outside work that a message calls for.
pub enum ConsoleEffect {
    /// Nothing beyond the state change.
    Nothing,
    /// Start tracing `target` with these settings, then poll for results.
    LaunchTrace { target: String, max_hops: u32, timeout_ms: u64, ip_version: IpVersion },
    /// Tell the running trace to stop.
    StopTrace,
    /// Take in the results that arrived, then poll again.
    PollResults,
}

/// Unicode White_Space, the characters that `char::is_whitespace` accepts:
/// U+0009 to U+000D, U+0020, U+0085, U+00A0, U+1680, U+2000 to U+200A,
/// U+2028, U+2029, U+202F, U+205F and U+3000.
pub open spec fn is_white_space(c: char) -> bool {
    ||| ('\u{9}' <= c && c <= '\u{d}')
    ||| c == ' '
    ||| c == '\u{85}'
    ||| c == '\u{a0}'
    ||| c == '\u{1680}'
    ||| ('\u{2000}' <= c && c <= '\u{200a}')
    ||| c == '\u{2028}'
    ||| c == '\u{2029}'
    ||| c == '\u{202f}'
    ||| c == '\u{205f}'
    ||| c == '\u{3000}'
}

/// Every character of `s` is white space (so is the empty text).
pub open spec fn is_blank(s: Seq<char>) -> bool {
    forall|k: int| 0 <= k < s.len() ==> is_white_space(#[trigger] s[k])
}

/// `t` is `s` with its leading and trailing white space removed: a
/// stretch of `s` with only white space before and after it, neither
/// starting nor ending with white space.
pub open spec fn is_trim_of(s: Seq<char>, t: Seq<char>) -> bool {
    exists|i: int, j: int|
        #![trigger s.subrange(i, j)]
        0 <= i <= j <= s.len() && t == s.subrange(i, j) && (forall|k: int|
            0 <= k < i ==> is_white_space(#[trigger] s[k])) && (forall|k: int|
            j <= k < s.len() ==> is_white_space(#[trigger] s[k])) && (t.len() > 0
            ==> !is_white_space(t[0]) && !is_white_space(t.last()))
}

/// Calls `str::trim`, which removes the leading and trailing characters
/// that have the Unicode White_Space property.
#[verifier::external_body]
fn trim(s: &str) -> (t: &str)
    ensures
        is_trim_of(s@, t@),
{
    s.trim()
}

/// The trimmed text is empty exactly when the text is blank.
pub proof fn lemma_trim_empty_iff_blank(s: Seq<char>, t: Seq<char>)
    requires
        is_trim_of(s, t),
    ensures
        t.len() == 0 <==> is_blank(s),
{
    let (i, j) = choose|i: int, j: int|
        #![trigger s.subrange(i, j)]
        0 <= i <= j <= s.len() && t == s.subrange(i, j) && (forall|k: int|
            0 <= k < i ==> is_white_space(#[trigger] s[k])) && (forall|k: int|
            j <= k < s.len() ==> is_white_space(#[trigger] s[k])) && (t.len() > 0
            ==> !is_white_space(t[0]) && !is_white_space(t.last()));
    if t.len() == 0 {
        assert forall|k: int| 0 <= k < s.len() implies is_white_space(#[trigger] s[k]) by {
            if k >= i {
                assert(k >= j);
            }
        }
    } else {
        assert(t[0] == s[i]);
        assert(!is_white_space(s[i]));
    }
}

/// The state of the console, as values.
pub struct ConsoleView {
    pub target_input: Seq<char>,
    pub is_tracing: bool,
    pub trace_results: Seq<TraceReport>,
    pub current_hops: Seq<HopRecord>,
    pub max_hops: u32,
    pub timeout_ms: u64,
    pub ip_version: IpVersion,
    pub locations: Map<Seq<char>, GeoLocationView>,
    pub status: Seq<char>,
}

/// The hop rows after a hop update: the row with the same hop number is
/// replaced, or the hop is appended when it has none.
pub open spec fn upsert_hop(hops: Seq<HopRecord>, hop: HopRecord) -> Seq<HopRecord> {
    if exists|i: int| 0 <= i < hops.len() && hops[i].hop == hop.hop {
        hops.update(choose|i: int| 0 <= i < hops.len() && hops[i].hop == hop.hop, hop)
    } else {
        hops.push(hop)
    }
}

/// No two rows have the same hop number.
pub open spec fn hop_numbers_distinct(hops: Seq<HopRecord>) -> bool {
    forall|i: int, j: int| 0 <= i < j < hops.len() ==> hops[i].hop != hops[j].hop
}

/// The console state after `message`, and the outside work it calls for.
pub open spec fn after_message(v: ConsoleView, message: Message) -> ConsoleView {
    match message {
        Message::TargetInputChanged(input) => ConsoleView { target_input: input@, ..v },
        Message::StartTrace => if is_blank(v.target_input) {
            ConsoleView { status: "请输入目标地址"@, ..v }
        } else {
            ConsoleView {
                is_tracing: true,
                current_hops: Seq::empty(),
                status: "正在追踪: "@ + v.target_input,
                ..v
            }
        },
        Message::StopTrace => ConsoleView { is_tracing: false, status: "已停止"@, ..v },
        Message::ClearResults => ConsoleView {
            trace_results: Seq::empty(),
            current_hops: Seq::empty(),
            locations: Map::empty(),
            status: "已清理"@,
            ..v
        },
        Message::MaxHopsChanged(hops) => ConsoleView { max_hops: hops, ..v },
        Message::TimeoutChanged(timeout) => ConsoleView { timeout_ms: timeout, ..v },
        Message::IpVersionChanged(version) => ConsoleView { ip_version: version, ..v },
        Message::CheckAsyncResults => v,
    }
}

/// A settings message sets its setting to the value it carries, whatever
/// the setting was, and changes nothing else; sending it again changes
/// nothing more.
pub proof fn lemma_settings_are_set_not_toggled(v: ConsoleView, version: IpVersion, hops: u32, timeout: u64, input: String)
    ensures
        after_message(v, Message::IpVersionChanged(version)).ip_version == version,
        after_message(v, Message::MaxHopsChanged(hops)).max_hops == hops,
        after_message(v, Message::TimeoutChanged(timeout)).timeout_ms == timeout,
        after_message(v, Message::TargetInputChanged(input)).target_input == input@,
        after_message(after_message(v, Message::IpVersionChanged(version)), Message::IpVersionChanged(version))
            == after_message(v, Message::IpVersionChanged(version)),
        after_message(v, Message::IpVersionChanged(version)).max_hops == v.max_hops,
        after_message(v, Message::IpVersionChanged(version)).timeout_ms == v.timeout_ms,
        after_message(v, Message::IpVersionChanged(version)).target_input == v.target_input,
        after_message(v, Message::IpVersionChanged(version)).is_tracing == v.is_tracing,
        after_message(v, Message::IpVersionChanged(version)).current_hops == v.current_hops,
        after_message(v, Message::IpVersionChanged(version)).trace_results == v.trace_results,
        after_message(v, Message::IpVersionChanged(version)).locations == v.locations,
        after_message(v, Message::IpVersionChanged(version)).status == v.status,
        after_message(v, Message::MaxHopsChanged(hops)).ip_version == v.ip_version,
        after_message(v, Message::TimeoutChanged(timeout)).ip_version == v.ip_version,
{
}

/// Stopping leaves no trace running and keeps the hops and locations;
/// clearing forgets every hop, finished trace and location and keeps the
/// settings; neither starts anything.
pub proof fn lemma_stop_and_clear(v: ConsoleView)
    ensures
        !after_message(v, Message::StopTrace).is_tracing,
        after_message(v, Message::StopTrace).current_hops == v.current_hops,
        after_message(v, Message::StopTrace).locations == v.locations,
        after_message(v, Message::ClearResults).current_hops.len() == 0,
        after_message(v, Message::ClearResults).trace_results.len() == 0,
        after_message(v, Message::ClearResults).locations.dom().len() == 0,
        after_message(v, Message::ClearResults).max_hops == v.max_hops,
        after_message(v, Message::ClearResults).timeout_ms == v.timeout_ms,
        after_message(v, Message::ClearResults).ip_version == v.ip_version,
        after_message(v, Message::ClearResults).target_input == v.target_input,
        !after_message(v, Message::StartTrace).is_tracing ==> is_blank(v.target_input) && !v.is_tracing,
        !is_blank(v.target_input) ==> after_message(v, Message::StartTrace).is_tracing
            && after_message(v, Message::StartTrace).current_hops.len() == 0,
{
    assert(Map::<Seq<char>, GeoLocationView>::empty().dom() =~= Set::empty());
}

/// A trace started after a version change prefers that version.
pub proof fn lemma_start_uses_chosen_version(v: ConsoleView, version: IpVersion, effect: ConsoleEffect)
    requires
        !is_blank(v.target_input),
        effect_matches(after_message(v, Message::IpVersionChanged(version)), Message::StartTrace, effect),
    ensures
        effect matches ConsoleEffect::LaunchTrace { ip_version, .. } && ip_version == version,
{
}

/// The outside work that `message` calls for in state `v`.
pub open spec fn effect_matches(v: ConsoleView, message: Message, effect: ConsoleEffect) -> bool {
    match message {
        Message::StartTrace => if is_blank(v.target_input) {
            effect is Nothing
        } else {
            match effect {
                ConsoleEffect::LaunchTrace { target, max_hops, timeout_ms, ip_version } => {
                    &&& target@ == v.target_input
                    &&& max_hops == v.max_hops
                    &&& timeout_ms == v.timeout_ms
                    &&& ip_version == v.ip_version
                },
                _ => false,
            }
        },
        Message::StopTrace => effect is StopTrace,
        Message::CheckAsyncResults => effect is PollResults,
        _ => effect is Nothing,
    }
}

/// The text shown beside a hop: the flag of its country code and its
/// location, taken from the
/// console's locations or else from the service's cache; nothing for a hop
/// that did not answer.
pub open spec fn location_cells(
    locations: Map<Seq<char>, GeoLocationView>,
    cached: Map<Seq<char>, GeoLocationView>,
    ip: Seq<char>,
) -> (Seq<char>, Seq<char>) {
    if locations.contains_key(ip) {
        (flag_table(uppercase_of(locations[ip].country_code)), location_text(locations[ip]))
    } else if ip != "*"@ && cached.contains_key(ip) {
        (flag_table(uppercase_of(cached[ip].country_code)), location_text(cached[ip]))
    } else {
        (Seq::empty(), Seq::empty())
    }
}

/// A hop update keeps at most one row per hop number: afterwards exactly
/// one row has the hop's number, it is the update, the other rows are kept
/// in place, and at most one row is added.
pub proof fn lemma_upsert_hop(hops: Seq<HopRecord>, hop: HopRecord)
    requires
        hop_numbers_distinct(hops),
    ensures
        hop_numbers_distinct(upsert_hop(hops, hop)),
        hops.len() <= upsert_hop(hops, hop).len() <= hops.len() + 1,
        exists|i: int| 0 <= i < upsert_hop(hops, hop).len() && upsert_hop(hops, hop)[i] == hop,
        forall|i: int| 0 <= i < hops.len() && hops[i].hop != hop.hop ==> upsert_hop(hops, hop)[i] == hops[i],
{
    let result = upsert_hop(hops, hop);
    if exists|i: int| 0 <= i < hops.len() && hops[i].hop == hop.hop {
        let k = choose|i: int| 0 <= i < hops.len() && hops[i].hop == hop.hop;
        assert(result[k] == hop);
    } else {
        assert(result[hops.len() as int] == hop);
    }
}

/// The state of the tracing console: the target being typed, the settings,
/// the hops of the current trace, the finished traces, the locations found
/// and the status line.
pub struct TraceConsole {
    target_input: String,
    is_tracing: bool,
    trace_results: Vec<TraceReport>,
    current_hops: Vec<HopRecord>,
    max_hops: u32,
    timeout_ms: u64,
    ip_version: IpVersion,
    geo_locations: LocationTable,
    status_message: String,
}

impl View for TraceConsole {
    type V = ConsoleView;

    closed spec fn view(&self) -> ConsoleView {
        ConsoleView {
            target_input: self.target_input@,
            is_tracing: self.is_tracing,
            trace_results: self.trace_results@,
            current_hops: self.current_hops@,
            max_hops: self.max_hops,
            timeout_ms: self.timeout_ms,
            ip_version: self.ip_version,
            locations: self.geo_locations@,
            status: self.status_message@,
        }
    }
}

impl TraceConsole {
    /// The invariant: the location table is well formed and no two hop
    /// rows share a hop number.
    pub closed spec fn wf(&self) -> bool {
        &&& self.geo_locations.wf()
        &&& hop_numbers_distinct(self.current_hops@)
    }

    /// The rows of the current trace never share a hop number.
    pub proof fn lemma_rows_distinct(&self)
        requires
            self.wf(),
        ensures
            hop_numbers_distinct(self@.current_hops),
    {
    }

    /// A console with an empty target, 30 hops, a 5000 ms timeout, IPv4,
    /// nothing traced and the status "ready".
    pub fn new() -> (console: Self)
        ensures
            console.wf(),
            console@ == (ConsoleView {
                target_input: Seq::empty(),
                is_tracing: false,
                trace_results: Seq::empty(),
                current_hops: Seq::empty(),
                max_hops: 30,
                timeout_ms: 5000,
                ip_version: IpVersion::IPv4,
                locations: Map::empty(),
                status: "就绪"@,
            }),
    {
        TraceConsole {
            target_input: String::new(),
            is_tracing: false,
            trace_results: Vec::new(),
            current_hops: Vec::new(),
            max_hops: 30,
            timeout_ms: 5000,
            ip_version: IpVersion::IPv4,
            geo_locations: LocationTable::new(),
            status_message: String::from_str("就绪"),
        }
    }

    /// Handles `message`: changes the state and says what outside work
    /// it calls for.
    pub fn update(&mut self, message: Message) -> (effect: ConsoleEffect)
        requires
            old(self).wf(),
        ensures
            final(self).wf(),
            final(self)@ == after_message(old(self)@, message),
            effect_matches(old(self)@, message, effect),
    {
        match message {
            Message::TargetInputChanged(input) => {
                self.target_input = input;
                ConsoleEffect::Nothing
            },
            Message::StartTrace => self.start_trace(),
            Message::StopTrace => {
                self.is_tracing = false;
                self.status_message = String::from_str("已停止");
                ConsoleEffect::StopTrace
            },
            Message::ClearResults => {
                self.trace_results = Vec::new();
                self.current_hops = Vec::new();
                self.geo_locations.clear();
                self.status_message = String::from_str("已清理");
                ConsoleEffect::Nothing
            },
            Message::MaxHopsChanged(hops) => {
                self.max_hops = hops;
                ConsoleEffect::Nothing
            },
            Message::TimeoutChanged(timeout) => {
                self.timeout_ms = timeout;
                ConsoleEffect::Nothing
            },
            Message::IpVersionChanged(version) => {
                self.ip_version = version;
                ConsoleEffect::Nothing
            },
            Message::CheckAsyncResults => ConsoleEffect::PollResults,
        }
    }

    fn start_trace(&mut self) -> (effect: ConsoleEffect)
        requires
            old(self).wf(),
        ensures
            final(self).wf(),
            final(self)@ == after_message(old(self)@, Message::StartTrace),
            effect_matches(old(self)@, Message::StartTrace, effect),
    {
        let trimmed = trim(self.target_input.as_str());
        proof {
            lemma_trim_empty_iff_blank(self.target_input@, trimmed@);
        }
        if trimmed.is_empty() {
            self.status_message = String::from_str("请输入目标地址");
            return ConsoleEffect::Nothing;
        }
        self.is_tracing = true;
        self.current_hops = Vec::new();
        let mut status = String::from_str("正在追踪: ");
        status.append(self.target_input.as_str());
        self.status_message = status;
        ConsoleEffect::LaunchTrace {
            target: self.target_input.clone(),
            max_hops: self.max_hops,
            timeout_ms: self.timeout_ms,
            ip_version: self.ip_version,
        }
    }

    /// Takes in one report of the running trace. For a hop update, returns
    /// the hop's address when its location is still to be looked up: it is
    /// not known yet and the hop answered.
    pub fn apply_result(&mut self, result: TraceResult) -> (lookup: Option<String>)
        requires
            old(self).wf(),
        ensures
            final(self).wf(),
            match result {
                TraceResult::HopUpdate(hop) => {
                    &&& final(self)@ == (ConsoleView { current_hops: upsert_hop(old(self)@.current_hops, hop), ..old(self)@ })
                    &&& lookup == (if !old(self)@.locations.contains_key(hop.ip@) && hop.ip@ != "*"@ {
                        Some(hop.ip)
                    } else {
                        None::<String>
                    })
                },
                TraceResult::Completed(report) => {
                    &&& final(self)@ == (ConsoleView {
                        is_tracing: false,
                        trace_results: old(self)@.trace_results.push(report),
                        status: "追踪完成"@,
                        ..old(self)@
                    })
                    &&& lookup is None
                },
                TraceResult::Error(text) => {
                    &&& final(self)@ == (ConsoleView {
                        is_tracing: false,
                        status: "错误: "@ + text@,
                        ..old(self)@
                    })
                    &&& lookup is None
                },
            },
    {
        match result {
            TraceResult::HopUpdate(hop) => {
                let ip = hop.ip.clone();
                let known = self.geo_locations.contains_key(ip.as_str());
                let unanswered = ip == String::from_str("*");
                self.upsert(hop);
                if !known && !unanswered {
                    Some(ip)
                } else {
                    None
                }
            },
            TraceResult::Completed(report) => {
                self.is_tracing = false;
                self.trace_results.push(report);
                self.status_message = String::from_str("追踪完成");
                None
            },
            TraceResult::Error(text) => {
                self.is_tracing = false;
                let mut status = String::from_str("错误: ");
                status.append(text.as_str());
                self.status_message = status;
                None
            },
        }
    }

    fn upsert(&mut self, hop: HopRecord)
        requires
            old(self).wf(),
        ensures
            final(self).wf(),
            final(self)@ == (ConsoleView { current_hops: upsert_hop(old(self)@.current_hops, hop), ..old(self)@ }),
    {
        let mut i: usize = 0;
        while i < self.current_hops.len()
            invariant
                i <= self.current_hops@.len(),
                self@ == old(self)@,
                self.wf(),
                forall|j: int| 0 <= j < i ==> self.current_hops@[j].hop != hop.hop,
            decreases self.current_hops@.len() - i,
        {
            if self.current_hops[i].hop == hop.hop {
                let ghost hops = self.current_hops@;
                assert(forall|k: int| 0 <= k < hops.len() && hops[k].hop == hop.hop ==> k == i);
                let ghost chosen = choose|k: int| 0 <= k < hops.len() && hops[k].hop == hop.hop;
                assert(chosen == i);
                self.current_hops.set(i, hop);
                assert(hop_numbers_distinct(self.current_hops@));
                return;
            }
            i = i + 1;
        }
        self.current_hops.push(hop);
        assert(hop_numbers_distinct(self.current_hops@));
    }

    /// Remembers the location found for `ip`.
    pub fn apply_location(&mut self, ip: String, location: GeoLocation)
        requires
            old(self).wf(),
        ensures
            final(self).wf(),
            final(self)@ == (ConsoleView { locations: old(self)@.locations.insert(ip@, location@), ..old(self)@ }),
    {
        self.geo_locations.insert(ip, location);
    }

    /// The flag and location text shown beside the hop `ip`.
    pub fn location_columns(&self, ip: &str, service: &GeoIPService) -> (cells: (String, String))
        requires
            self.wf(),
            service.wf(),
        ensures
            (cells.0@, cells.1@) == location_cells(self@.locations, service.cached(), ip@),
    {
        match self.geo_locations.get(ip) {
            Some(location) => (get_country_flag(location.country_code.as_str()), format_location_for_display(&location)),
            None => {
                if String::from_str(ip) == String::from_str("*") {
                    (String::new(), String::new())
                } else {
                    match service.get_cached_location(ip) {
                        Some(location) => (
                            get_country_flag(location.country_code.as_str()),
                            format_location_for_display(&location),
                        ),
                        None => (String::new(), String::new()),
                    }
                }
            },
        }
    }

    pub fn target_input(&self) -> (target: &String)
        ensures
            target@ == self@.target_input,
    {
        &self.target_input
    }

    pub fn is_tracing(&self) -> (tracing: bool)
        ensures
            tracing == self@.is_tracing,
    {
        self.is_tracing
    }

    pub fn current_hops(&self) -> (hops: &Vec<HopRecord>)
        ensures
            hops@ == self@.current_hops,
    {
        &self.current_hops
    }

    pub fn trace_results(&self) -> (results: &Vec<TraceReport>)
        ensures
            results@ == self@.trace_results,
    {
        &self.trace_results
    }

    pub fn max_hops(&self) -> (max_hops: u32)
        ensures
            max_hops == self@.max_hops,
    {
        self.max_hops
    }

    pub fn timeout_ms(&self) -> (timeout_ms: u64)
        ensures
            timeout_ms == self@.timeout_ms,
    {
        self.timeout_ms
    }

    pub fn ip_version(&self) -> (ip_version: IpVersion)
        ensures
            ip_version == self@.ip_version,
    {
        self.ip_version
    }

    pub fn status_message(&self) -> (status: &String)
        ensures
            status@ == self@.status,
    {
        &self.status_message
    }
}

/// The hop limit typed in the settings: the number when it parsed, else 30.
pub fn hops_from_input(parsed: Option<u32>) -> (max_hops: u32)
    ensures
        max_hops == (match parsed {
            Some(n) => n,
            None => 30,
        }),
{
    match parsed {
        Some(n) => n,
        None => 30,
    }
}

/// The timeout typed in the settings: the number when it parsed, else 1000.
pub fn timeout_from_input(parsed: Option<u64>) -> (timeout_ms: u64)
    ensures
        timeout_ms == (match parsed {
            Some(n) => n,
            None => 1000,
        }),
{
    match parsed {
        Some(n) => n,
        None => 1000,
    }
}

} // verus!
