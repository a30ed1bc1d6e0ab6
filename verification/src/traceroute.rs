use vstd::prelude::*;

verus! {

/// The address family that a trace prefers.
#[derive(Clone, Copy, Debug, PartialEq, Eq, Structural)]
pub enum IpVersion {
    IPv4,
    IPv6,
}

/// How long a probe at hop `ttl` may wait: the configured timeout for the
/// first five hops, twice it up to hop ten, three times it beyond.
pub open spec fn probe_timeout(timeout_ms: u64, ttl: u32) -> int {
    if ttl <= 5 {
        timeout_ms as int
    } else if ttl <= 10 {
        2 * timeout_ms
    } else {
        3 * timeout_ms
    }
}

/// Hop limit, base timeout and preferred family of a trace.
pub struct ProductionTraceroute {
    max_hops: u32,
    timeout_ms: u64,
    ip_version: IpVersion,
}

impl View for ProductionTraceroute {
    /// `(max_hops, timeout_ms, ip_version)`.
    type V = (u32, u64, IpVersion);

    closed spec fn view(&self) -> (u32, u64, IpVersion) {
        (self.max_hops, self.timeout_ms, self.ip_version)
    }
}

impl ProductionTraceroute {
    /// A tracer that probes at most `max_hops` hops with the base timeout
    /// `timeout_ms`, preferring addresses of `ip_version`.
    pub fn with_config(max_hops: u32, timeout_ms: u64, ip_version: IpVersion) -> (tracer: Self)
        ensures
            tracer@ == (max_hops, timeout_ms, ip_version),
    {
        ProductionTraceroute { max_hops, timeout_ms, ip_version }
    }

    pub fn max_hops(&self) -> (max_hops: u32)
        ensures
            max_hops == self@.0,
    {
        self.max_hops
    }

    pub fn timeout_ms(&self) -> (timeout_ms: u64)
        ensures
            timeout_ms == self@.1,
    {
        self.timeout_ms
    }

    pub fn ip_version(&self) -> (ip_version: IpVersion)
        ensures
            ip_version == self@.2,
    {
        self.ip_version
    }

    /// The timeout of a probe at hop `ttl`.
    pub fn probe_timeout_ms(&self, ttl: u32) -> (timeout_ms: u64)
        requires
            probe_timeout(self@.1, ttl) <= u64::MAX,
        ensures
            timeout_ms == probe_timeout(self@.1, ttl),
    {
        compute_probe_timeout(self.timeout_ms, ttl)
    }
}

fn compute_probe_timeout(timeout_ms: u64, ttl: u32) -> (result: u64)
    requires
        probe_timeout(timeout_ms, ttl) <= u64::MAX,
    ensures
        result == probe_timeout(timeout_ms, ttl),
{
    if ttl <= 5 {
        timeout_ms
    } else if ttl <= 10 {
        timeout_ms * 2
    } else {
        timeout_ms * 3
    }
}

/// A longer hop limit never shortens the timeout of a probe.
pub proof fn lemma_probe_timeout_monotone(timeout_ms: u64, ttl1: u32, ttl2: u32)
    requires
        ttl1 <= ttl2,
    ensures
        probe_timeout(timeout_ms, ttl1) <= probe_timeout(timeout_ms, ttl2),
{
}

/// What came of one probe: a reply from `ip` after `rtt_nanos`
/// nanoseconds, or nothing in time.
pub enum ProbeOutcome {
    Reply { ip: String, rtt_nanos: u64 },
    TimedOut,
}

/// Classifies the result of a probe sent towards `target_ip`. `reply` is
/// `None` when sending or receiving failed, else whether a matching datagram
/// came back, the address it came from, and the time it took: a known source
/// is the hop; a matching datagram without a source is the target itself;
/// anything else timed out.
pub fn probe_outcome(reply: Option<(bool, Option<String>, u64)>, target_ip: String) -> (outcome: ProbeOutcome)
    ensures
        outcome == (match reply {
            Some((_, Some(ip), rtt)) => ProbeOutcome::Reply { ip, rtt_nanos: rtt },
            Some((true, None, rtt)) => ProbeOutcome::Reply { ip: target_ip, rtt_nanos: rtt },
            _ => ProbeOutcome::TimedOut,
        }),
{
    match reply {
        Some((_, Some(ip), rtt)) => ProbeOutcome::Reply { ip, rtt_nanos: rtt },
        Some((true, None, rtt)) => ProbeOutcome::Reply { ip: target_ip, rtt_nanos: rtt },
        _ => ProbeOutcome::TimedOut,
    }
}

/// One row of a trace: the hop number, the address shown for it, the round
/// trip times of its three probes in nanoseconds, and its host names.
pub struct HopRecord {
    pub hop: u32,
    pub ip: String,
    pub rtt1: Option<u64>,
    pub rtt2: Option<u64>,
    pub rtt3: Option<u64>,
    pub hostnames: Vec<String>,
}

/// The text shown for a hop none of whose probes was answered.
pub open spec fn timeout_text() -> Seq<char> {
    "请求超时"@
}

/// The text shown for a hop that no probe was sent to.
pub open spec fn no_probe_text() -> Seq<char> {
    "*"@
}

/// The address of the first answered probe, if any.
pub open spec fn first_reply_ip(outcomes: Seq<ProbeOutcome>) -> Option<Seq<char>>
    decreases outcomes.len(),
{
    if outcomes.len() == 0 {
        None
    } else {
        match outcomes[0] {
            ProbeOutcome::Reply { ip, .. } => Some(ip@),
            ProbeOutcome::TimedOut => first_reply_ip(outcomes.drop_first()),
        }
    }
}

/// The address shown for a hop: that of the first answered probe, else the
/// timeout text, else (no probe at all) a star.
pub open spec fn hop_display_ip(outcomes: Seq<ProbeOutcome>) -> Seq<char> {
    match first_reply_ip(outcomes) {
        Some(ip) => ip,
        None => if outcomes.len() > 0 {
            timeout_text()
        } else {
            no_probe_text()
        },
    }
}

proof fn lemma_first_reply_at(outcomes: Seq<ProbeOutcome>, k: int)
    requires
        0 <= k <= outcomes.len(),
        forall|j: int| 0 <= j < k ==> #[trigger] outcomes[j] is TimedOut,
    ensures
        k < outcomes.len() && outcomes[k] is Reply ==> first_reply_ip(outcomes) == Some(outcomes[k]->ip@),
        k == outcomes.len() ==> first_reply_ip(outcomes) is None,
    decreases k,
{
    if k > 0 {
        let rest = outcomes.drop_first();
        assert forall|j: int| 0 <= j < k - 1 implies #[trigger] rest[j] is TimedOut by {
            assert(rest[j] == outcomes[j + 1]);
        }
        lemma_first_reply_at(rest, k - 1);
        assert(outcomes[0] is TimedOut);
        if k < outcomes.len() {
            assert(rest[k - 1] == outcomes[k]);
        }
    }
}

/// The address shown for a hop is that of the earliest probe, in probe
/// order, that was answered; only when no probe was answered is it the
/// timeout text.
pub proof fn lemma_hop_shows_first_answer(outcomes: Seq<ProbeOutcome>, k: int)
    requires
        0 <= k < outcomes.len(),
        outcomes[k] is Reply,
        forall|j: int| 0 <= j < k ==> #[trigger] outcomes[j] is TimedOut,
    ensures
        hop_display_ip(outcomes) == outcomes[k]->ip@,
{
    lemma_first_reply_at(outcomes, k);
}

/// A hop none of whose probes was answered shows the timeout text.
pub proof fn lemma_hop_without_answer(outcomes: Seq<ProbeOutcome>)
    requires
        outcomes.len() > 0,
        forall|j: int| 0 <= j < outcomes.len() ==> #[trigger] outcomes[j] is TimedOut,
    ensures
        hop_display_ip(outcomes) == timeout_text(),
{
    lemma_first_reply_at(outcomes, outcomes.len() as int);
}

/// The round-trip time of a probe, when it was answered.
pub open spec fn rtt_of(outcome: ProbeOutcome) -> Option<u64> {
    match outcome {
        ProbeOutcome::Reply { rtt_nanos, .. } => Some(rtt_nanos),
        ProbeOutcome::TimedOut => None,
    }
}

/// The hop record built from the three probes of hop `ttl`.
pub open spec fn hop_matches(hop: HopRecord, ttl: u32, outcomes: Seq<ProbeOutcome>) -> bool {
    &&& outcomes.len() == 3
    &&& hop.hop == ttl
    &&& hop.ip@ == hop_display_ip(outcomes)
    &&& hop.rtt1 == rtt_of(outcomes[0])
    &&& hop.rtt2 == rtt_of(outcomes[1])
    &&& hop.rtt3 == rtt_of(outcomes[2])
    &&& hop.hostnames@.len() == 0
}

fn display_ip(outcomes: &Vec<ProbeOutcome>) -> (ip: String)
    ensures
        ip@ == hop_display_ip(outcomes@),
{
    let mut i: usize = 0;
    assert(outcomes@.skip(0) =~= outcomes@);
    while i < outcomes.len()
        invariant
            i <= outcomes@.len(),
            first_reply_ip(outcomes@) == first_reply_ip(outcomes@.skip(i as int)),
        decreases outcomes@.len() - i,
    {
        assert(outcomes@.skip(i as int).drop_first() =~= outcomes@.skip(i + 1));
        match &outcomes[i] {
            ProbeOutcome::Reply { ip, .. } => {
                return ip.clone();
            },
            ProbeOutcome::TimedOut => {},
        }
        i = i + 1;
    }
    assert(outcomes@.skip(i as int).len() == 0);
    if outcomes.len() > 0 {
        String::from_str("请求超时")
    } else {
        String::from_str("*")
    }
}

fn rtt_at(outcomes: &Vec<ProbeOutcome>, k: usize) -> (rtt: Option<u64>)
    requires
        k < outcomes@.len(),
    ensures
        rtt == rtt_of(outcomes@[k as int]),
{
    match &outcomes[k] {
        ProbeOutcome::Reply { rtt_nanos, .. } => Some(*rtt_nanos),
        ProbeOutcome::TimedOut => None,
    }
}

/// What the prober should do next.
pub enum TraceStep {
    /// Send probe number `probe_index` (0, 1 or 2) with hop limit `ttl`,
    /// waiting at most `timeout_ms`.
    Probe { ttl: u32, probe_index: usize, timeout_ms: u64 },
    /// All three probes of the current hop are in: build its record.
    CompleteHop,
    /// The trace is over.
    Finished,
}

/// The abstract state of a trace in progress.
pub struct TraceRunView {
    pub target: Seq<char>,
    pub max_hops: u32,
    pub timeout_ms: u64,
    pub ttl: u32,
    pub outcomes: Seq<ProbeOutcome>,
    pub hops: Seq<HopRecord>,
    pub finished: bool,
}

/// The step that a trace in state `v` asks for.
pub open spec fn step_of(v: TraceRunView) -> TraceStep {
    if v.finished {
        TraceStep::Finished
    } else if v.outcomes.len() < 3 {
        TraceStep::Probe {
            ttl: v.ttl,
            probe_index: v.outcomes.len() as usize,
            timeout_ms: probe_timeout(v.timeout_ms, v.ttl) as u64,
        }
    } else {
        TraceStep::CompleteHop
    }
}

/// The timeout of the probe that a trace in state `v` asks for, if any,
/// fits in 64 bits.
pub open spec fn next_timeout_fits(v: TraceRunView) -> bool {
    v.finished || v.outcomes.len() >= 3 || probe_timeout(v.timeout_ms, v.ttl) <= u64::MAX
}

/// An upper bound on the steps a trace still asks for: three probes and one
/// hop completion for the current hop and for each hop after it.
pub open spec fn work_left(v: TraceRunView) -> nat {
    if v.finished {
        0
    } else {
        ((v.max_hops - v.ttl) * 4 + (4 - v.outcomes.len())) as nat
    }
}

/// The hop-by-hop probing of one target: hops 1, 2, ... up to the hop
/// limit, three probes each, until the target itself answers.
pub struct TraceRun {
    target: String,
    max_hops: u32,
    timeout_ms: u64,
    ttl: u32,
    outcomes: Vec<ProbeOutcome>,
    hops: Vec<HopRecord>,
    finished: bool,
}

impl View for TraceRun {
    type V = TraceRunView;

    closed spec fn view(&self) -> TraceRunView {
        TraceRunView {
            target: self.target@,
            max_hops: self.max_hops,
            timeout_ms: self.timeout_ms,
            ttl: self.ttl,
            outcomes: self.outcomes@,
            hops: self.hops@,
            finished: self.finished,
        }
    }
}

/// The invariant of a trace: hops are numbered from 1 without gaps, never
/// beyond the hop limit; while it runs, the current hop follows the
/// recorded ones, has at most three probes, and no recorded hop is the
/// target.
pub open spec fn trace_wf(v: TraceRunView) -> bool {
    &&& v.hops.len() <= v.max_hops
    &&& forall|i: int| 0 <= i < v.hops.len() ==> #[trigger] v.hops[i].hop == i + 1
    &&& forall|i: int| 0 <= i < v.hops.len() - 1 ==> #[trigger] v.hops[i].ip@ != v.target
    &&& !v.finished ==> {
        &&& 1 <= v.ttl <= v.max_hops
        &&& v.hops.len() == v.ttl - 1
        &&& v.outcomes.len() <= 3
        &&& forall|i: int| 0 <= i < v.hops.len() ==> #[trigger] v.hops[i].ip@ != v.target
    }
}

impl TraceRun {
    /// A trace of `target` (the textual address) with the limits of
    /// `config`; it is over at once when the hop limit is zero.
    pub fn new(config: &ProductionTraceroute, target: String) -> (run: TraceRun)
        ensures
            trace_wf(run@),
            run@ == (TraceRunView {
                target: target@,
                max_hops: config@.0,
                timeout_ms: config@.1,
                ttl: 1,
                outcomes: Seq::empty(),
                hops: Seq::empty(),
                finished: config@.0 == 0,
            }),
            work_left(run@) <= 4 * config@.0,
    {
        let max_hops = config.max_hops();
        TraceRun {
            target,
            max_hops,
            timeout_ms: config.timeout_ms(),
            ttl: 1,
            outcomes: Vec::new(),
            hops: Vec::new(),
            finished: max_hops == 0,
        }
    }

    /// Whether the timeout of the step `next_step` asks for fits in 64 bits.
    pub fn next_step_computable(&self) -> (ok: bool)
        requires
            trace_wf(self@),
        ensures
            ok == next_timeout_fits(self@),
    {
        if self.finished || self.outcomes.len() >= 3 || self.ttl <= 5 {
            true
        } else if self.ttl <= 10 {
            self.timeout_ms <= u64::MAX / 2
        } else {
            self.timeout_ms <= u64::MAX / 3
        }
    }

    /// The next thing to do.
    pub fn next_step(&self) -> (step: TraceStep)
        requires
            trace_wf(self@),
            next_timeout_fits(self@),
        ensures
            step == step_of(self@),
    {
        if self.finished {
            TraceStep::Finished
        } else if self.outcomes.len() < 3 {
            TraceStep::Probe {
                ttl: self.ttl,
                probe_index: self.outcomes.len(),
                timeout_ms: compute_probe_timeout(self.timeout_ms, self.ttl),
            }
        } else {
            TraceStep::CompleteHop
        }
    }

    /// Records what came of the probe that `next_step` asked for.
    pub fn record_probe(&mut self, outcome: ProbeOutcome)
        requires
            trace_wf(old(self)@),
            step_of(old(self)@) is Probe,
        ensures
            trace_wf(final(self)@),
            final(self)@ == (TraceRunView { outcomes: old(self)@.outcomes.push(outcome), ..old(self)@ }),
            work_left(final(self)@) < work_left(old(self)@),
    {
        self.outcomes.push(outcome);
    }

    /// Builds the record of the current hop from its three probes and moves
    /// on: the trace is over when the hop is the target or the hop limit is
    /// reached.
    pub fn complete_hop(&mut self) -> (hop: HopRecord)
        requires
            trace_wf(old(self)@),
            step_of(old(self)@) is CompleteHop,
        ensures
            trace_wf(final(self)@),
            hop_matches(hop, old(self)@.ttl, old(self)@.outcomes),
            final(self)@.hops.len() == old(self)@.hops.len() + 1,
            final(self)@.hops.last().hop == hop.hop,
            final(self)@.hops.last().ip@ == hop.ip@,
            final(self)@.hops.last().rtt1 == hop.rtt1,
            final(self)@.hops.last().rtt2 == hop.rtt2,
            final(self)@.hops.last().rtt3 == hop.rtt3,
            final(self)@.hops.last().hostnames@.len() == 0,
            final(self)@.hops.drop_last() == old(self)@.hops,
            final(self)@.target == old(self)@.target,
            final(self)@.max_hops == old(self)@.max_hops,
            final(self)@.timeout_ms == old(self)@.timeout_ms,
            final(self)@.finished == (hop.ip@ == old(self)@.target || old(self)@.ttl == old(self)@.max_hops),
            !final(self)@.finished ==> final(self)@.ttl == old(self)@.ttl + 1 && final(self)@.outcomes.len() == 0,
            work_left(final(self)@) < work_left(old(self)@),
    {
        let ip = display_ip(&self.outcomes);
        let rtt1 = rtt_at(&self.outcomes, 0);
        let rtt2 = rtt_at(&self.outcomes, 1);
        let rtt3 = rtt_at(&self.outcomes, 2);
        let reached = ip == self.target;
        let kept = HopRecord { hop: self.ttl, ip: ip.clone(), rtt1, rtt2, rtt3, hostnames: Vec::new() };
        let hop = HopRecord { hop: self.ttl, ip, rtt1, rtt2, rtt3, hostnames: Vec::new() };
        self.hops.push(kept);
        if reached || self.ttl == self.max_hops {
            self.finished = true;
        } else {
            self.ttl = self.ttl + 1;
            self.outcomes = Vec::new();
        }
        proof {
            assert(self@.hops.drop_last() =~= old(self)@.hops);
        }
        hop
    }

    /// Ends the trace; the recorded hops stay.
    pub fn cancel(&mut self)
        requires
            trace_wf(old(self)@),
        ensures
            trace_wf(final(self)@),
            final(self)@ == (TraceRunView { finished: true, ..old(self)@ }),
            work_left(final(self)@) == 0,
    {
        self.finished = true;
    }

    /// The hops recorded so far.
    pub fn hops(&self) -> (hops: &Vec<HopRecord>)
        ensures
            hops@ == self@.hops,
    {
        &self.hops
    }

    /// Gives up the trace, handing over its hops.
    pub fn into_hops(self) -> (hops: Vec<HopRecord>)
        ensures
            hops@ == self@.hops,
    {
        self.hops
    }
}

/// A finished trace: the address traced, its hops, and how long it took in
/// nanoseconds.
pub struct TraceReport {
    pub destination: String,
    pub hops: Vec<HopRecord>,
    pub total_nanos: u64,
}

/// The position of the first resolved address of the preferred family.
pub fn first_matching_address(families: &Vec<IpVersion>, preferred: IpVersion) -> (index: Option<usize>)
    ensures
        match index {
            Some(i) => i < families@.len() && families@[i as int] == preferred
                && forall|j: int| 0 <= j < i ==> families@[j] != preferred,
            None => forall|j: int| 0 <= j < families@.len() ==> families@[j] != preferred,
        },
{
    let mut i: usize = 0;
    while i < families.len()
        invariant
            i <= families@.len(),
            forall|j: int| 0 <= j < i ==> families@[j] != preferred,
        decreases families@.len() - i,
    {
        if families[i] == preferred {
            return Some(i);
        }
        i = i + 1;
    }
    None
}

/// A host name with the port that its second resolution attempt adds.
pub fn with_default_port(hostname: &str) -> (addr: String)
    ensures
        addr@ == hostname@ + ":80"@,
{
    let mut addr = String::from_str(hostname);
    addr.append(":80");
    addr
}

} // verus!
