use vstd::prelude::*;
use vstd::slice::slice_subrange;
use vstd::slice::slice_to_vec;

verus! {

/// The 16-bit big-endian word `k` of `data`; an odd trailing byte is padded
/// with a zero low byte.
pub open spec fn word_at(data: Seq<u8>, k: int) -> int {
    if 2 * k + 1 < data.len() {
        data[2 * k] * 256 + data[2 * k + 1]
    } else {
        data[2 * k] * 256
    }
}

/// Number of 16-bit words that `data` is read as.
pub open spec fn word_count(data: Seq<u8>) -> nat {
    ((data.len() + 1) / 2) as nat
}

/// Sum of the first `n` words of `data`, without any carry folding.
pub open spec fn word_sum_prefix(data: Seq<u8>, n: nat) -> int
    decreases n,
{
    if n == 0 {
        0
    } else {
        word_sum_prefix(data, (n - 1) as nat) + word_at(data, n - 1)
    }
}

/// Sum of all words of `data`.
pub open spec fn word_sum(data: Seq<u8>) -> int {
    word_sum_prefix(data, word_count(data))
}

/// Repeatedly adds the carries above bit 16 back into the low 16 bits.
pub open spec fn fold_carries(x: nat) -> nat
    decreases x,
{
    if x < 0x10000 {
        x
    } else {
        proof {
            lemma_fold_step(x);
        }
        fold_carries(x % 0x10000 + x / 0x10000)
    }
}

/// The Internet checksum (RFC 1071) of `data`: the one's complement of the
/// one's complement sum of its 16-bit words.
pub open spec fn internet_checksum(data: Seq<u8>) -> u16 {
    (0xFFFF - fold_carries(word_sum(data) as nat)) as u16
}

/// The word sum of `data` fits in the 32-bit accumulator of the checksum.
pub open spec fn checksum_computable(data: Seq<u8>) -> bool {
    word_sum(data) <= u32::MAX
}

/// One folding step keeps the value modulo 0xFFFF and strictly shrinks it.
pub proof fn lemma_fold_step(x: nat)
    requires
        x >= 0x10000,
    ensures
        x % 0x10000 + x / 0x10000 < x,
        (x % 0x10000 + x / 0x10000) % 0xFFFF == x % 0xFFFF,
        x % 0x10000 + x / 0x10000 > 0,
{
    let q = x / 0x10000;
    let r = x % 0x10000;
    vstd::arithmetic::div_mod::lemma_fundamental_div_mod(x as int, 0x10000);
    assert(q >= 1) by {
        vstd::arithmetic::div_mod::lemma_div_is_ordered(0x10000, x as int, 0x10000);
    }
    assert(x == 0xFFFF * q + (q + r));
    vstd::arithmetic::div_mod::lemma_mod_multiples_vanish(q as int, (q + r) as int, 0xFFFF);
}

/// Folding keeps the value modulo 0xFFFF, lands in 16 bits, never grows,
/// and is zero only for zero.
pub proof fn lemma_fold_carries(x: nat)
    ensures
        fold_carries(x) <= 0xFFFF,
        fold_carries(x) <= x,
        fold_carries(x) % 0xFFFF == x % 0xFFFF,
        fold_carries(x) == 0 <==> x == 0,
    decreases x,
{
    if x >= 0x10000 {
        lemma_fold_step(x);
        lemma_fold_carries(x % 0x10000 + x / 0x10000);
    }
}

proof fn lemma_word_bounds(data: Seq<u8>, k: int)
    requires
        0 <= 2 * k < data.len(),
    ensures
        0 <= word_at(data, k) <= 0xFFFF,
{
}

proof fn lemma_prefix_monotone(data: Seq<u8>, m: nat, n: nat)
    requires
        m <= n <= word_count(data),
    ensures
        0 <= word_sum_prefix(data, m) <= word_sum_prefix(data, n),
    decreases n,
{
    if n > m {
        lemma_word_bounds(data, n - 1);
        lemma_prefix_monotone(data, m, (n - 1) as nat);
    } else {
        lemma_prefix_nonneg(data, m);
    }
}

proof fn lemma_prefix_nonneg(data: Seq<u8>, n: nat)
    requires
        n <= word_count(data),
    ensures
        0 <= word_sum_prefix(data, n),
    decreases n,
{
    if n > 0 {
        lemma_word_bounds(data, n - 1);
        lemma_prefix_nonneg(data, (n - 1) as nat);
    }
}

/// Computes the Internet checksum of `data`.
pub fn calculate_checksum(data: &[u8]) -> (checksum: u16)
    requires
        checksum_computable(data@),
    ensures
        checksum == internet_checksum(data@),
{
    let len = data.len();
    let mut sum: u32 = 0;
    let mut i: usize = 0;
    while i < len
        invariant
            len == data@.len(),
            i <= len,
            i % 2 == 0 || i == len,
            sum == word_sum_prefix(data@, ((i + 1) / 2) as nat),
            word_sum(data@) <= u32::MAX,
        decreases len - i,
    {
        proof {
            lemma_word_bounds(data@, (i / 2) as int);
            lemma_prefix_monotone(data@, (i / 2 + 1) as nat, word_count(data@));
        }
        if i + 1 < len {
            let hi = data[i];
            let lo = data[i + 1];
            let word: u32 = (hi as u32) << 8 | (lo as u32);
            assert(((hi as u32) << 8 | (lo as u32)) == (hi as u32) * 256 + (lo as u32))
                by (bit_vector);
            sum = sum + word;
            i = i + 2;
        } else {
            let hi = data[i];
            let word: u32 = (hi as u32) << 8;
            assert(((hi as u32) << 8) == (hi as u32) * 256) by (bit_vector);
            sum = sum + word;
            i = len;
        }
    }
    let ghost total: nat = sum as nat;
    assert(sum == word_sum(data@));
    while (sum >> 16) != 0
        invariant
            fold_carries(sum as nat) == fold_carries(total),
        decreases sum,
    {
        assert((sum >> 16) == sum / 0x10000 && (sum & 0xFFFF) == sum % 0x10000) by (bit_vector);
        proof {
            lemma_fold_step(sum as nat);
        }
        sum = (sum & 0xFFFF) + (sum >> 16);
    }
    assert((sum >> 16) == 0 ==> sum < 0x10000) by (bit_vector);
    assert(sum < 0x10000 ==> ((!sum) as u16) == 0xFFFF - sum) by (bit_vector);
    !sum as u16
}


/// ICMP type of an echo request.
pub const ICMP_ECHO_REQUEST: u8 = 8;
/// ICMP type of an echo reply.
pub const ICMP_ECHO_REPLY: u8 = 0;
/// ICMP type of a time-exceeded message.
pub const ICMP_TIME_EXCEEDED: u8 = 11;
/// ICMP type of a destination-unreachable message.
pub const ICMP_DEST_UNREACHABLE: u8 = 3;
/// ICMPv6 type of a time-exceeded message.
pub const ICMPV6_TIME_EXCEEDED: u8 = 3;
/// ICMPv6 type of an echo request.
pub const ICMPV6_ECHO_REQUEST: u8 = 128;
/// ICMPv6 type of an echo reply.
pub const ICMPV6_ECHO_REPLY: u8 = 129;

/// The most significant byte of a 16-bit value.
pub open spec fn high_byte(x: u16) -> u8 {
    (x / 256) as u8
}

/// The least significant byte of a 16-bit value.
pub open spec fn low_byte(x: u16) -> u8 {
    (x % 256) as u8
}

/// A 16-bit value read from two bytes in network (big-endian) order.
pub open spec fn be16(hi: u8, lo: u8) -> int {
    hi * 256 + lo
}

/// The 8-byte echo header: type, code, checksum, identifier, sequence number.
pub open spec fn echo_header(msg_type: u8, code: u8, checksum: u16, identifier: u16, sequence: u16) -> Seq<u8> {
    seq![
        msg_type,
        code,
        high_byte(checksum),
        low_byte(checksum),
        high_byte(identifier),
        low_byte(identifier),
        high_byte(sequence),
        low_byte(sequence),
    ]
}

/// An echo message whose checksum field is still zero.
pub open spec fn unchecked_packet(msg_type: u8, code: u8, identifier: u16, sequence: u16, data: Seq<u8>) -> Seq<u8> {
    echo_header(msg_type, code, 0, identifier, sequence) + data
}

/// An echo message with its checksum filled in: the checksum of the same
/// message with a zero checksum field.
pub open spec fn echo_packet(msg_type: u8, code: u8, identifier: u16, sequence: u16, data: Seq<u8>) -> Seq<u8> {
    echo_header(
        msg_type,
        code,
        internet_checksum(unchecked_packet(msg_type, code, identifier, sequence, data)),
        identifier,
        sequence,
    ) + data
}

/// What an echo message needs so that its checksum can be computed: it fits
/// in memory and its word sum fits the accumulator.
pub open spec fn packet_buildable(msg_type: u8, code: u8, identifier: u16, sequence: u16, data: Seq<u8>) -> bool {
    &&& data.len() + 8 <= usize::MAX
    &&& checksum_computable(unchecked_packet(msg_type, code, identifier, sequence, data))
}

proof fn lemma_bytes_of_u16(x: u16)
    ensures
        high_byte(x) * 256 + low_byte(x) == x,
        high_byte(x) == x / 256,
        low_byte(x) == x % 256,
{
    assert(x / 256 < 256) by (nonlinear_arith)
        requires
            x <= 0xFFFF,
    ;
    vstd::arithmetic::div_mod::lemma_fundamental_div_mod(x as int, 256);
}

/// Every packet of at most 131074 bytes (65537 words of at most 0xFFFF)
/// has a word sum that fits in 32 bits.
pub proof fn lemma_short_data_computable(data: Seq<u8>)
    requires
        data.len() <= 131074,
    ensures
        checksum_computable(data),
{
    lemma_prefix_bound(data, word_count(data));
}

proof fn lemma_prefix_bound(data: Seq<u8>, n: nat)
    requires
        n <= word_count(data),
    ensures
        word_sum_prefix(data, n) <= 0xFFFF * n,
    decreases n,
{
    if n > 0 {
        lemma_word_bounds(data, n - 1);
        lemma_prefix_bound(data, (n - 1) as nat);
    }
}

proof fn lemma_prefix_with_checksum(t: Seq<u8>, z: Seq<u8>, c: u16, n: nat)
    requires
        t.len() == z.len(),
        t.len() >= 4,
        n <= word_count(t),
        forall|i: int| 0 <= i < t.len() && i != 2 && i != 3 ==> t[i] == z[i],
        z[2] == 0 && z[3] == 0,
        t[2] == high_byte(c) && t[3] == low_byte(c),
    ensures
        word_sum_prefix(t, n) == word_sum_prefix(z, n) + (if n >= 2 { c as int } else { 0 }),
    decreases n,
{
    if n > 0 {
        lemma_prefix_with_checksum(t, z, c, (n - 1) as nat);
        let k = n - 1;
        if k == 1 {
            lemma_bytes_of_u16(c);
            assert(word_at(t, 1) == c as int);
            assert(word_at(z, 1) == 0);
        } else {
            assert(t[2 * k] == z[2 * k]);
            if 2 * k + 1 < t.len() {
                assert(t[2 * k + 1] == z[2 * k + 1]);
            }
            assert(word_at(t, k) == word_at(z, k));
        }
    }
}

/// `data` with its checksum stored in bytes 2 and 3, the checksum being
/// computed while those bytes are zero.
pub open spec fn with_checksum(data: Seq<u8>) -> Seq<u8> {
    data.update(2, high_byte(internet_checksum(data))).update(3, low_byte(internet_checksum(data)))
}

/// A buffer of at least 4 bytes whose bytes 2 and 3 are zero, once those
/// bytes carry its checksum, checksums to zero: this is how a receiver
/// verifies a message.
pub proof fn lemma_checksum_self_verifies(z: Seq<u8>)
    requires
        z.len() >= 4,
        z[2] == 0,
        z[3] == 0,
    ensures
        internet_checksum(with_checksum(z)) == 0,
{
    let t = with_checksum(z);
    let c = internet_checksum(z);
    assert forall|i: int| 0 <= i < t.len() && i != 2 && i != 3 implies t[i] == z[i] by {}
    lemma_prefix_with_checksum(t, z, c, word_count(t));
    assert(word_count(t) >= 2);
    lemma_prefix_nonneg(z, word_count(z));
    let s = word_sum(z);
    let f = fold_carries(s as nat);
    lemma_fold_carries(s as nat);
    assert(c == 0xFFFF - f);
    let s2 = word_sum(t);
    assert(s2 == s + 0xFFFF - f);
    lemma_fold_carries(s2 as nat);
    let f2 = fold_carries(s2 as nat);
    assert(s2 % 0xFFFF == 0) by {
        vstd::arithmetic::div_mod::lemma_fundamental_div_mod(s, 0xFFFF);
        vstd::arithmetic::div_mod::lemma_fundamental_div_mod(f as int, 0xFFFF);
        if f < 0xFFFF {
            vstd::arithmetic::div_mod::lemma_small_mod(f as nat, 0xFFFF);
        }
        if f == 0xFFFF {
            vstd::arithmetic::div_mod::lemma_mod_self_0(0xFFFF);
            vstd::arithmetic::div_mod::lemma_mod_multiples_vanish(1, s, 0xFFFF);
            assert(s2 == s);
        } else {
            vstd::arithmetic::div_mod::lemma_mod_multiples_vanish(s / 0xFFFF + 1, 0, 0xFFFF);
            assert(s2 == 0xFFFF * (s / 0xFFFF + 1) + 0) by (nonlinear_arith)
                requires
                    s2 == s + 0xFFFF - f,
                    s == 0xFFFF * (s / 0xFFFF) + s % 0xFFFF,
                    s % 0xFFFF == f,
            ;
        }
    }
    assert(s2 >= 0xFFFF);
    assert(f2 == 0xFFFF) by {
        if f2 < 0xFFFF {
            vstd::arithmetic::div_mod::lemma_small_mod(f2 as nat, 0xFFFF);
        }
    }
}


/// A message carrying its own checksum checksums to zero: this is how the
/// receiver of a packet from `create_icmpv4_packet` or `create_icmpv6_packet`
/// verifies it.
pub proof fn lemma_packet_checksum_verifies(msg_type: u8, code: u8, identifier: u16, sequence: u16, data: Seq<u8>)
    ensures
        internet_checksum(echo_packet(msg_type, code, identifier, sequence, data)) == 0,
{
    let z = unchecked_packet(msg_type, code, identifier, sequence, data);
    assert(z[2] == 0 && z[3] == 0) by {
        lemma_bytes_of_u16(0);
    }
    assert(echo_packet(msg_type, code, identifier, sequence, data) =~= with_checksum(z));
    lemma_checksum_self_verifies(z);
}

/// Builds an echo message: the 8-byte header, then `data`, with the Internet
/// checksum of the whole message stored in bytes 2 and 3.
pub fn build_echo_packet(msg_type: u8, code: u8, identifier: u16, sequence: u16, data: &[u8]) -> (packet: Vec<u8>)
    requires
        packet_buildable(msg_type, code, identifier, sequence, data@),
    ensures
        packet@ == echo_packet(msg_type, code, identifier, sequence, data@),
{
    let mut packet: Vec<u8> = Vec::with_capacity(8 + data.len());
    packet.push(msg_type);
    packet.push(code);
    packet.push(0u8);
    packet.push(0u8);
    let id_hi = (identifier >> 8) as u8;
    let id_lo = identifier as u8;
    let seq_hi = (sequence >> 8) as u8;
    let seq_lo = sequence as u8;
    assert(((identifier >> 8) as u8) == ((identifier / 256) as u8) && (identifier as u8) == ((
    identifier % 256) as u8)) by (bit_vector);
    assert(((sequence >> 8) as u8) == ((sequence / 256) as u8) && (sequence as u8) == ((sequence
        % 256) as u8)) by (bit_vector);
    packet.push(id_hi);
    packet.push(id_lo);
    packet.push(seq_hi);
    packet.push(seq_lo);
    packet.extend_from_slice(data);
    proof {
        lemma_bytes_of_u16(0);
    }
    assert(packet@ =~= unchecked_packet(msg_type, code, identifier, sequence, data@));
    let checksum = calculate_checksum(packet.as_slice());
    let ck_hi = (checksum >> 8) as u8;
    let ck_lo = checksum as u8;
    assert(((checksum >> 8) as u8) == ((checksum / 256) as u8) && (checksum as u8) == ((checksum
        % 256) as u8)) by (bit_vector);
    packet.set(2, ck_hi);
    packet.set(3, ck_lo);
    assert(packet@ =~= echo_packet(msg_type, code, identifier, sequence, data@));
    packet
}


/// Reads a 16-bit value stored in network byte order.
pub fn read_be16(hi: u8, lo: u8) -> (value: u16)
    ensures
        value == be16(hi, lo),
{
    (hi as u16) * 256 + (lo as u16)
}

/// The identifier of an echo probe: the process id reduced modulo 65535.
pub open spec fn probe_identifier(process_id: u32) -> u16 {
    (process_id % 65535) as u16
}

/// The sequence number of an echo probe: milliseconds reduced modulo 65535.
pub open spec fn probe_sequence(elapsed_millis: u128) -> u16 {
    (elapsed_millis % 65535) as u16
}

/// Computes the identifier of an echo probe sent by process `process_id`.
pub fn identifier_for_process(process_id: u32) -> (identifier: u16)
    ensures
        identifier == probe_identifier(process_id),
{
    (process_id % 65535) as u16
}

/// Computes the sequence number of an echo probe from a millisecond count.
pub fn sequence_for_millis(elapsed_millis: u128) -> (sequence: u16)
    ensures
        sequence == probe_sequence(elapsed_millis),
{
    (elapsed_millis % 65535) as u16
}

/// The payload of an IPv4 probe: the ASCII text `Hello ICMP v4!`.
pub open spec fn v4_probe_payload() -> Seq<u8> {
    seq![0x48u8, 0x65, 0x6c, 0x6c, 0x6f, 0x20, 0x49, 0x43, 0x4d, 0x50, 0x20, 0x76, 0x34, 0x21]
}

/// The payload of an IPv6 probe: the ASCII text `Hello ICMP v6!`.
pub open spec fn v6_probe_payload() -> Seq<u8> {
    seq![0x48u8, 0x65, 0x6c, 0x6c, 0x6f, 0x20, 0x49, 0x43, 0x4d, 0x50, 0x20, 0x76, 0x36, 0x21]
}

/// An echo request ready to be sent, with the identifier and sequence number
/// that its reply must carry.
pub struct EchoProbe {
    pub identifier: u16,
    pub sequence: u16,
    pub packet: Vec<u8>,
}

/// A reply to probe `(identifier, sequence)` over IPv4, as received with its
/// 20-byte IP header: an echo reply that echoes both values, or a
/// time-exceeded message (code 0) quoting our echo request with both values.
pub open spec fn v4_reply_matches(p: Seq<u8>, identifier: u16, sequence: u16) -> bool {
    &&& p.len() >= 28
    &&& {
        ||| (p[20] == ICMP_TIME_EXCEEDED && p[21] == 0 && p.len() > 55
            && be16(p[52], p[53]) == identifier && be16(p[54], p[55]) == sequence
            && p[48] == ICMP_ECHO_REQUEST)
        ||| (p[20] == ICMP_ECHO_REPLY && be16(p[24], p[25]) == identifier
            && be16(p[26], p[27]) == sequence)
    }
}

/// An IPv6 datagram long enough (48 bytes) to hold its header and an
/// ICMPv6 header: only then is its source reported.
pub open spec fn v6_reply_readable(p: Seq<u8>) -> bool {
    p.len() >= 48
}

/// A reply to probe `(identifier, sequence)` over IPv6, as received with its
/// 40-byte IPv6 header: an echo reply that echoes both values, or a
/// time-exceeded message quoting both values.
pub open spec fn v6_reply_matches(p: Seq<u8>, identifier: u16, sequence: u16) -> bool {
    &&& v6_reply_readable(p)
    &&& {
        ||| (p[40] == ICMPV6_TIME_EXCEEDED && p.len() > 95 && be16(p[92], p[93]) == identifier
            && be16(p[94], p[95]) == sequence)
        ||| (p[40] == ICMPV6_ECHO_REPLY && be16(p[44], p[45]) == identifier
            && be16(p[46], p[47]) == sequence)
    }
}

/// The first `bytes_read` bytes of a receive buffer.
pub open spec fn received(data: Seq<u8>, bytes_read: usize) -> Seq<u8> {
    data.take(bytes_read as int)
}

/// Sends echo probes and recognises their replies.
pub struct Icmp;

impl Icmp {
    /// Builds an ICMP (IPv4) echo message with its checksum.
    pub fn create_icmpv4_packet(&self, msg_type: u8, code: u8, identifier: u16, sequence: u16, data: &[u8]) -> (packet: Vec<u8>)
        requires
            packet_buildable(msg_type, code, identifier, sequence, data@),
        ensures
            packet@ == echo_packet(msg_type, code, identifier, sequence, data@),
    {
        build_echo_packet(msg_type, code, identifier, sequence, data)
    }

    /// Builds an ICMPv6 echo message with its checksum, computed over the
    /// message alone as this tool does.
    pub fn create_icmpv6_packet(&self, msg_type: u8, code: u8, identifier: u16, sequence: u16, data: &[u8]) -> (packet: Vec<u8>)
        requires
            packet_buildable(msg_type, code, identifier, sequence, data@),
        ensures
            packet@ == echo_packet(msg_type, code, identifier, sequence, data@),
    {
        build_echo_packet(msg_type, code, identifier, sequence, data)
    }

    /// The echo request that probes an IPv4 hop, from the process id and the
    /// millisecond count that number it.
    pub fn prepare_icmpv4_probe(&self, process_id: u32, elapsed_millis: u128) -> (probe: EchoProbe)
        ensures
            probe.identifier == probe_identifier(process_id),
            probe.sequence == probe_sequence(elapsed_millis),
            probe.packet@ == echo_packet(ICMP_ECHO_REQUEST, 0, probe.identifier, probe.sequence, v4_probe_payload()),
    {
        let identifier = identifier_for_process(process_id);
        let sequence = sequence_for_millis(elapsed_millis);
        let data: Vec<u8> = vec![0x48u8, 0x65, 0x6c, 0x6c, 0x6f, 0x20, 0x49, 0x43, 0x4d, 0x50, 0x20, 0x76, 0x34, 0x21];
        assert(data@ =~= v4_probe_payload());
        proof {
            lemma_short_data_computable(unchecked_packet(ICMP_ECHO_REQUEST, 0, identifier, sequence, data@));
        }
        let packet = self.create_icmpv4_packet(ICMP_ECHO_REQUEST, 0, identifier, sequence, data.as_slice());
        EchoProbe { identifier, sequence, packet }
    }

    /// The echo request that probes an IPv6 hop, from the process id and the
    /// millisecond count that number it.
    pub fn prepare_icmpv6_probe(&self, process_id: u32, elapsed_millis: u128) -> (probe: EchoProbe)
        ensures
            probe.identifier == probe_identifier(process_id),
            probe.sequence == probe_sequence(elapsed_millis),
            probe.packet@ == echo_packet(ICMPV6_ECHO_REQUEST, 0, probe.identifier, probe.sequence, v6_probe_payload()),
    {
        let identifier = identifier_for_process(process_id);
        let sequence = sequence_for_millis(elapsed_millis);
        let data: Vec<u8> = vec![0x48u8, 0x65, 0x6c, 0x6c, 0x6f, 0x20, 0x49, 0x43, 0x4d, 0x50, 0x20, 0x76, 0x36, 0x21];
        assert(data@ =~= v6_probe_payload());
        proof {
            lemma_short_data_computable(unchecked_packet(ICMPV6_ECHO_REQUEST, 0, identifier, sequence, data@));
        }
        let packet = self.create_icmpv6_packet(ICMPV6_ECHO_REQUEST, 0, identifier, sequence, data.as_slice());
        EchoProbe { identifier, sequence, packet }
    }

    /// Examines an IPv4 datagram of `bytes_read` bytes received from
    /// `source_addr`: the datagram is returned when it answers the probe
    /// `(identifier, sequence_number)`; the source and the elapsed time are
    /// always handed back.
    pub fn parse_icmpv4_response<A, D>(
        &self,
        data: &[u8],
        bytes_read: usize,
        source_addr: A,
        elapsed: D,
        identifier: u16,
        sequence_number: u16,
    ) -> (result: (Option<Vec<u8>>, Option<A>, D))
        requires
            bytes_read <= data@.len(),
        ensures
            result.1 == Some(source_addr),
            result.2 == elapsed,
            result.0 is Some <==> v4_reply_matches(received(data@, bytes_read), identifier, sequence_number),
            result.0 matches Some(p) ==> p@ == received(data@, bytes_read),
    {
        if bytes_read < 28 {
            return (None, Some(source_addr), elapsed);
        }
        let msg_type = data[20];
        let code = data[21];
        if msg_type == ICMP_TIME_EXCEEDED && code == 0 {
            if bytes_read > 55 {
                let orig_id = read_be16(data[52], data[53]);
                let orig_seq = read_be16(data[54], data[55]);
                let orig_type = data[48];
                if orig_id == identifier && orig_seq == sequence_number && orig_type == ICMP_ECHO_REQUEST {
                    let copy = slice_to_vec(slice_subrange(data, 0, bytes_read));
                    return (Some(copy), Some(source_addr), elapsed);
                }
            }
            (None, Some(source_addr), elapsed)
        } else if msg_type == ICMP_DEST_UNREACHABLE {
            (None, Some(source_addr), elapsed)
        } else if msg_type == ICMP_ECHO_REPLY {
            let resp_id = read_be16(data[24], data[25]);
            let resp_seq = read_be16(data[26], data[27]);
            if resp_id == identifier && resp_seq == sequence_number {
                let copy = slice_to_vec(slice_subrange(data, 0, bytes_read));
                (Some(copy), Some(source_addr), elapsed)
            } else {
                (None, Some(source_addr), elapsed)
            }
        } else {
            (None, Some(source_addr), elapsed)
        }
    }

    /// Examines an IPv6 datagram of `bytes_read` bytes received from
    /// `source_addr`: the datagram is returned when it answers the probe
    /// `(identifier, sequence_number)`; the source is handed back only when
    /// the datagram holds at least the IPv6 and ICMPv6 headers.
    pub fn parse_icmpv6_response<A, D>(
        &self,
        data: &[u8],
        bytes_read: usize,
        source_addr: A,
        elapsed: D,
        identifier: u16,
        sequence_number: u16,
    ) -> (result: (Option<Vec<u8>>, Option<A>, D))
        requires
            bytes_read <= data@.len(),
        ensures
            result.1 == (if v6_reply_readable(received(data@, bytes_read)) { Some(source_addr) } else { None }),
            result.2 == elapsed,
            result.0 is Some <==> v6_reply_matches(received(data@, bytes_read), identifier, sequence_number),
            result.0 matches Some(p) ==> p@ == received(data@, bytes_read),
    {
        if bytes_read < 48 {
            return (None, None, elapsed);
        }
        let msg_type = data[40];
        if msg_type == ICMPV6_TIME_EXCEEDED {
            if bytes_read > 95 {
                let orig_id = read_be16(data[92], data[93]);
                let orig_seq = read_be16(data[94], data[95]);
                if orig_id == identifier && orig_seq == sequence_number {
                    let copy = slice_to_vec(slice_subrange(data, 0, bytes_read));
                    return (Some(copy), Some(source_addr), elapsed);
                }
            }
            (None, Some(source_addr), elapsed)
        } else if msg_type == ICMPV6_ECHO_REPLY {
            let resp_id = read_be16(data[44], data[45]);
            let resp_seq = read_be16(data[46], data[47]);
            if resp_id == identifier && resp_seq == sequence_number {
                let copy = slice_to_vec(slice_subrange(data, 0, bytes_read));
                (Some(copy), Some(source_addr), elapsed)
            } else {
                (None, Some(source_addr), elapsed)
            }
        } else {
            (None, Some(source_addr), elapsed)
        }
    }

    /// Examines a datagram received from a source of the given family, with
    /// the IPv6 reading when the source is an IPv6 address.
    pub fn parse_response<A, D>(
        &self,
        data: &[u8],
        bytes_read: usize,
        source_addr: A,
        source_is_ipv6: bool,
        elapsed: D,
        identifier: u16,
        sequence_number: u16,
    ) -> (result: (Option<Vec<u8>>, Option<A>, D))
        requires
            bytes_read <= data@.len(),
        ensures
            result.2 == elapsed,
            source_is_ipv6 ==> result.1 == (if v6_reply_readable(received(data@, bytes_read)) { Some(source_addr) } else { None }),
            !source_is_ipv6 ==> result.1 == Some(source_addr),
            result.0 is Some <==> (if source_is_ipv6 {
                v6_reply_matches(received(data@, bytes_read), identifier, sequence_number)
            } else {
                v4_reply_matches(received(data@, bytes_read), identifier, sequence_number)
            }),
            result.0 matches Some(p) ==> p@ == received(data@, bytes_read),
    {
        if source_is_ipv6 {
            self.parse_icmpv6_response(data, bytes_read, source_addr, elapsed, identifier, sequence_number)
        } else {
            self.parse_icmpv4_response(data, bytes_read, source_addr, elapsed, identifier, sequence_number)
        }
    }
}

/// An echo reply that echoes the probe's identifier and sequence number,
/// received behind any 20-byte IPv4 header, is recognised as the answer to
/// that probe.
pub proof fn lemma_v4_echo_reply_recognised(ip_header: Seq<u8>, identifier: u16, sequence: u16, data: Seq<u8>)
    requires
        ip_header.len() == 20,
    ensures
        v4_reply_matches(ip_header + echo_packet(ICMP_ECHO_REPLY, 0, identifier, sequence, data), identifier, sequence),
{
    lemma_bytes_of_u16(identifier);
    lemma_bytes_of_u16(sequence);
    let p = ip_header + echo_packet(ICMP_ECHO_REPLY, 0, identifier, sequence, data);
    assert(p[20] == ICMP_ECHO_REPLY);
    assert(p[24] == high_byte(identifier) && p[25] == low_byte(identifier));
    assert(p[26] == high_byte(sequence) && p[27] == low_byte(sequence));
}

/// A time-exceeded message (code 0) that quotes, behind the probe's own 20-byte
/// IPv4 header, the echo request of a probe is recognised as the answer to
/// that probe.
pub proof fn lemma_v4_time_exceeded_recognised(
    ip_header: Seq<u8>,
    error_header: Seq<u8>,
    quoted_ip_header: Seq<u8>,
    identifier: u16,
    sequence: u16,
    data: Seq<u8>,
)
    requires
        ip_header.len() == 20,
        error_header.len() == 8,
        error_header[0] == ICMP_TIME_EXCEEDED,
        error_header[1] == 0,
        quoted_ip_header.len() == 20,
    ensures
        v4_reply_matches(
            ip_header + error_header + quoted_ip_header + echo_packet(ICMP_ECHO_REQUEST, 0, identifier, sequence, data),
            identifier,
            sequence,
        ),
{
    lemma_bytes_of_u16(identifier);
    lemma_bytes_of_u16(sequence);
    let q = echo_packet(ICMP_ECHO_REQUEST, 0, identifier, sequence, data);
    let p = ip_header + error_header + quoted_ip_header + q;
    assert(p[20] == error_header[0] && p[21] == error_header[1]);
    assert(p[48] == q[0]);
    assert(p[52] == q[4] && p[53] == q[5] && p[54] == q[6] && p[55] == q[7]);
}

/// An ICMPv6 echo reply that echoes the probe's identifier and sequence
/// number, received behind any 40-byte IPv6 header, is recognised as the
/// answer to that probe.
pub proof fn lemma_v6_echo_reply_recognised(ip_header: Seq<u8>, identifier: u16, sequence: u16, data: Seq<u8>)
    requires
        ip_header.len() == 40,
    ensures
        v6_reply_matches(ip_header + echo_packet(ICMPV6_ECHO_REPLY, 0, identifier, sequence, data), identifier, sequence),
{
    lemma_bytes_of_u16(identifier);
    lemma_bytes_of_u16(sequence);
    let p = ip_header + echo_packet(ICMPV6_ECHO_REPLY, 0, identifier, sequence, data);
    assert(p[40] == ICMPV6_ECHO_REPLY);
    assert(p[44] == high_byte(identifier) && p[45] == low_byte(identifier));
    assert(p[46] == high_byte(sequence) && p[47] == low_byte(sequence));
}

/// An ICMPv6 time-exceeded message that quotes, behind the probe's own 40-byte
/// IPv6 header, the echo request of a probe is recognised as the answer to
/// that probe.
pub proof fn lemma_v6_time_exceeded_recognised(
    ip_header: Seq<u8>,
    error_header: Seq<u8>,
    quoted_ip_header: Seq<u8>,
    identifier: u16,
    sequence: u16,
    data: Seq<u8>,
)
    requires
        ip_header.len() == 40,
        error_header.len() == 8,
        error_header[0] == ICMPV6_TIME_EXCEEDED,
        quoted_ip_header.len() == 40,
    ensures
        v6_reply_matches(
            ip_header + error_header + quoted_ip_header + echo_packet(ICMPV6_ECHO_REQUEST, 0, identifier, sequence, data),
            identifier,
            sequence,
        ),
{
    lemma_bytes_of_u16(identifier);
    lemma_bytes_of_u16(sequence);
    let q = echo_packet(ICMPV6_ECHO_REQUEST, 0, identifier, sequence, data);
    let p = ip_header + error_header + quoted_ip_header + q;
    assert(p[40] == error_header[0]);
    assert(p[92] == q[4] && p[93] == q[5] && p[94] == q[6] && p[95] == q[7]);
}

/// A recognised IPv4 reply carries the probe's identifier and sequence
/// number: an echo reply in its own header, a time-exceeded message in the
/// echo request it quotes. A datagram whose identifier or sequence number
/// differs from the probe's is never taken as its answer.
pub proof fn lemma_v4_recognised_reply_carries_probe(p: Seq<u8>, identifier: u16, sequence: u16)
    requires
        v4_reply_matches(p, identifier, sequence),
    ensures
        p.len() >= 28,
        p[20] == ICMP_ECHO_REPLY || p[20] == ICMP_TIME_EXCEEDED,
        p[20] == ICMP_ECHO_REPLY ==> be16(p[24], p[25]) == identifier && be16(p[26], p[27]) == sequence,
        p[20] == ICMP_TIME_EXCEEDED ==> p.len() > 55 && p[21] == 0 && p[48] == ICMP_ECHO_REQUEST
            && be16(p[52], p[53]) == identifier && be16(p[54], p[55]) == sequence,
{
}

/// A recognised IPv6 reply carries the probe's identifier and sequence
/// number: an echo reply in its own header, a time-exceeded message in the
/// echo request it quotes.
pub proof fn lemma_v6_recognised_reply_carries_probe(p: Seq<u8>, identifier: u16, sequence: u16)
    requires
        v6_reply_matches(p, identifier, sequence),
    ensures
        p.len() >= 48,
        p[40] == ICMPV6_ECHO_REPLY || p[40] == ICMPV6_TIME_EXCEEDED,
        p[40] == ICMPV6_ECHO_REPLY ==> be16(p[44], p[45]) == identifier && be16(p[46], p[47]) == sequence,
        p[40] == ICMPV6_TIME_EXCEEDED ==> p.len() > 95 && be16(p[92], p[93]) == identifier
            && be16(p[94], p[95]) == sequence,
{
}

/// An echo reply built for one identifier is not the answer to a probe
/// with another identifier, over IPv4 or IPv6, whatever the sequence
/// numbers.
pub proof fn lemma_echo_reply_of_other_probe_rejected(
    ip_header: Seq<u8>,
    reply_identifier: u16,
    reply_sequence: u16,
    data: Seq<u8>,
    identifier: u16,
    sequence: u16,
)
    requires
        reply_identifier != identifier,
    ensures
        ip_header.len() == 20 ==> !v4_reply_matches(
            ip_header + echo_packet(ICMP_ECHO_REPLY, 0, reply_identifier, reply_sequence, data),
            identifier,
            sequence,
        ),
        ip_header.len() == 40 ==> !v6_reply_matches(
            ip_header + echo_packet(ICMPV6_ECHO_REPLY, 0, reply_identifier, reply_sequence, data),
            identifier,
            sequence,
        ),
{
    lemma_bytes_of_u16(reply_identifier);
    if ip_header.len() == 20 {
        let p = ip_header + echo_packet(ICMP_ECHO_REPLY, 0, reply_identifier, reply_sequence, data);
        assert(p[20] == ICMP_ECHO_REPLY);
        assert(p[24] == high_byte(reply_identifier) && p[25] == low_byte(reply_identifier));
    }
    if ip_header.len() == 40 {
        let p = ip_header + echo_packet(ICMPV6_ECHO_REPLY, 0, reply_identifier, reply_sequence, data);
        assert(p[40] == ICMPV6_ECHO_REPLY);
        assert(p[44] == high_byte(reply_identifier) && p[45] == low_byte(reply_identifier));
    }
}

} // verus!
