//! Magic-packet builder: validates a MAC address, builds the 102-byte wake
//! payload and the list of broadcast targets, and composes the outcome
//! report.
//!
//! The embedding application performs the datagram sends; everything it
//! sends and reports is computed and pinned down here.  A malformed MAC
//! address yields a failure result, never a panic, and no send plan.

use vstd::prelude::*;
use vstd::string::*;
use crate::records::PowerResult;
use crate::text::{dec_digits, join_with, views_of, u64_to_string, join_strings};

verus! {

/// Characters stripped from a MAC address before validation.
pub open spec fn is_mac_separator(c: char) -> bool {
    c == ':' || c == '-' || c == ' '
}

/// Lowercase hex letters are folded to uppercase; everything else is kept.
pub open spec fn upcase_hex(c: char) -> char {
    if c == 'a' {
        'A'
    } else if c == 'b' {
        'B'
    } else if c == 'c' {
        'C'
    } else if c == 'd' {
        'D'
    } else if c == 'e' {
        'E'
    } else if c == 'f' {
        'F'
    } else {
        c
    }
}

/// The MAC with separators stripped and hex letters folded to uppercase.
pub open spec fn normalized_mac(s: Seq<char>) -> Seq<char>
    decreases s.len(),
{
    if s.len() == 0 {
        Seq::empty()
    } else {
        let rest = normalized_mac(s.drop_last());
        if is_mac_separator(s.last()) {
            rest
        } else {
            rest.push(upcase_hex(s.last()))
        }
    }
}

/// An uppercase hexadecimal digit.
pub open spec fn is_hex_digit(c: char) -> bool {
    c == '0' || c == '1' || c == '2' || c == '3' || c == '4' || c == '5' || c == '6' || c == '7'
        || c == '8' || c == '9' || c == 'A' || c == 'B' || c == 'C' || c == 'D' || c == 'E'
        || c == 'F'
}

/// The value of an uppercase hexadecimal digit.
pub open spec fn hex_val(c: char) -> nat {
    if c == '0' {
        0
    } else if c == '1' {
        1
    } else if c == '2' {
        2
    } else if c == '3' {
        3
    } else if c == '4' {
        4
    } else if c == '5' {
        5
    } else if c == '6' {
        6
    } else if c == '7' {
        7
    } else if c == '8' {
        8
    } else if c == '9' {
        9
    } else if c == 'A' {
        10
    } else if c == 'B' {
        11
    } else if c == 'C' {
        12
    } else if c == 'D' {
        13
    } else if c == 'E' {
        14
    } else {
        15
    }
}

/// Every character of the sequence is an uppercase hex digit.
pub open spec fn all_hex(s: Seq<char>) -> bool {
    forall|i: int| 0 <= i < s.len() ==> is_hex_digit(#[trigger] s[i])
}

/// A MAC string is accepted when its normalized form is exactly twelve hex
/// digits.
pub open spec fn valid_mac(s: Seq<char>) -> bool {
    normalized_mac(s).len() == 12 && all_hex(normalized_mac(s))
}

/// The six bytes encoded by twelve hex digits.
pub open spec fn mac_octets(n: Seq<char>) -> Seq<u8> {
    Seq::new(6, |i: int| (16 * hex_val(n[2 * i]) + hex_val(n[2 * i + 1])) as u8)
}

/// `n` copies of the sequence, one after the other.
pub open spec fn repeated(mac: Seq<u8>, n: nat) -> Seq<u8>
    decreases n,
{
    if n == 0 {
        Seq::empty()
    } else {
        repeated(mac, (n - 1) as nat) + mac
    }
}

/// The wake payload: six `0xFF` bytes, then sixteen copies of the six MAC
/// bytes.
pub open spec fn magic_packet(mac: Seq<u8>) -> Seq<u8> {
    Seq::new(6, |i: int| 0xFFu8) + repeated(mac, 16)
}

proof fn lemma_repeated_len(mac: Seq<u8>, n: nat)
    ensures
        repeated(mac, n).len() == n * mac.len(),
    decreases n,
{
    if n == 0 {
        assert(n * mac.len() == 0) by (nonlinear_arith)
            requires
                n == 0,
        ;
    } else {
        lemma_repeated_len(mac, (n - 1) as nat);
        assert(n * mac.len() == (n - 1) * mac.len() + mac.len()) by (nonlinear_arith);
    }
}

proof fn lemma_repeated_index(mac: Seq<u8>, n: nat, r: int, j: int)
    requires
        0 <= r < n,
        0 <= j < mac.len(),
    ensures
        repeated(mac, n).len() == n * mac.len(),
        repeated(mac, n)[mac.len() * r + j] == mac[j],
    decreases n,
{
    lemma_repeated_len(mac, n);
    assert(0 <= mac.len() * r + j < n * mac.len()) by (nonlinear_arith)
        requires
            0 <= r < n,
            0 <= j < mac.len(),
    ;
    if r < n - 1 {
        lemma_repeated_index(mac, (n - 1) as nat, r, j);
        assert(mac.len() * r + j < (n - 1) * mac.len()) by (nonlinear_arith)
            requires
                0 <= r < n - 1,
                0 <= j < mac.len(),
    ;
    } else {
        lemma_repeated_len(mac, (n - 1) as nat);
        assert(mac.len() * r + j - (n - 1) * mac.len() == j) by (nonlinear_arith)
            requires
                r == n - 1,
    ;
    }
}

/// The layout of the wake payload, stated byte by byte: for six MAC bytes
/// the payload is 102 bytes long, opens with six `0xFF` bytes, and repeats
/// the MAC sixteen times after them.
pub proof fn lemma_magic_packet_layout(mac: Seq<u8>)
    requires
        mac.len() == 6,
    ensures
        magic_packet(mac).len() == 102,
        forall|i: int| 0 <= i < 6 ==> magic_packet(mac)[i] == 0xFFu8,
        forall|r: int, j: int|
            0 <= r < 16 && 0 <= j < 6 ==> #[trigger] magic_packet(mac)[6 + 6 * r + j] == mac[j],
{
    lemma_repeated_len(mac, 16);
    assert forall|r: int, j: int|
        0 <= r < 16 && 0 <= j < 6 implies #[trigger] magic_packet(mac)[6 + 6 * r + j] == mac[j] by {
        lemma_repeated_index(mac, 16, r, j);
    }
}

/// Every accepted MAC string yields a payload of exactly 102 bytes: six
/// `0xFF` bytes, then sixteen repetitions of its six decoded bytes.
pub proof fn lemma_accepted_mac_payload(s: Seq<char>)
    requires
        valid_mac(s),
    ensures
        ({
            let payload = magic_packet(mac_octets(normalized_mac(s)));
            &&& payload.len() == 102
            &&& forall|i: int| 0 <= i < 6 ==> payload[i] == 0xFFu8
            &&& forall|r: int, j: int|
                0 <= r < 16 && 0 <= j < 6 ==> #[trigger] payload[6 + 6 * r + j] == mac_octets(
                    normalized_mac(s),
                )[j]
        }),
{
    lemma_magic_packet_layout(mac_octets(normalized_mac(s)));
}

/// One datagram destination for the wake payload.
#[derive(Debug)]
pub struct WakeTarget {
    pub address: String,
    pub port: u16,
}

/// Everything the application must send: the payload and the spray of
/// broadcast targets.
#[derive(Debug)]
pub struct WakePlan {
    pub payload: Vec<u8>,
    pub targets: Vec<WakeTarget>,
}

/// The broadcast address used for the first two targets: the caller's, or
/// the global broadcast address.
pub open spec fn chosen_broadcast(broadcast_ip: Option<String>) -> Seq<char> {
    match broadcast_ip {
        Some(b) => b@,
        None => "255.255.255.255"@,
    }
}

/// The fixed spray of targets: the chosen broadcast address on the two
/// conventional wake ports, plus two common private-network broadcast
/// addresses on the first port.
pub open spec fn wake_targets_ok(targets: Seq<WakeTarget>, broadcast_ip: Option<String>) -> bool {
    &&& targets.len() == 4
    &&& targets[0].address@ == chosen_broadcast(broadcast_ip)
    &&& targets[0].port == 9
    &&& targets[1].address@ == chosen_broadcast(broadcast_ip)
    &&& targets[1].port == 7
    &&& targets[2].address@ == "192.168.1.255"@
    &&& targets[2].port == 9
    &&& targets[3].address@ == "192.168.0.255"@
    &&& targets[3].port == 9
}

fn upcase_hex_char(c: char) -> (r: char)
    ensures
        r == upcase_hex(c),
{
    match c {
        'a' => 'A',
        'b' => 'B',
        'c' => 'C',
        'd' => 'D',
        'e' => 'E',
        'f' => 'F',
        _ => c,
    }
}

fn hex_digit_value(c: char) -> (r: Option<u8>)
    ensures
        match r {
            Some(v) => is_hex_digit(c) && v == hex_val(c),
            None => !is_hex_digit(c),
        },
{
    match c {
        '0' => Some(0),
        '1' => Some(1),
        '2' => Some(2),
        '3' => Some(3),
        '4' => Some(4),
        '5' => Some(5),
        '6' => Some(6),
        '7' => Some(7),
        '8' => Some(8),
        '9' => Some(9),
        'A' => Some(10),
        'B' => Some(11),
        'C' => Some(12),
        'D' => Some(13),
        'E' => Some(14),
        'F' => Some(15),
        _ => None,
    }
}

fn is_mac_separator_char(c: char) -> (r: bool)
    ensures
        r == is_mac_separator(c),
{
    c == ':' || c == '-' || c == ' '
}

/// Validates the MAC address and builds the payload and target spray.
///
/// A MAC whose normalized form is not twelve characters, or holds a
/// non-hex character, is rejected with a failure result that names the
/// reason; nothing is built for it, so nothing can be sent.
pub fn plan_wake(mac_address: &str, broadcast_ip: &Option<String>) -> (r: Result<
    WakePlan,
    PowerResult,
>)
    ensures
        r is Ok <==> valid_mac(mac_address@),
        r matches Ok(plan) ==> {
            &&& plan.payload@ == magic_packet(mac_octets(normalized_mac(mac_address@)))
            &&& wake_targets_ok(plan.targets@, *broadcast_ip)
        },
        r matches Err(p) ==> {
            &&& !p.success
            &&& if normalized_mac(mac_address@).len() != 12 {
                &&& p.message@ == "invalid MAC address"@
                &&& p.details matches Some(d) && d@
                    == "the MAC address must have the form XX:XX:XX:XX:XX:XX"@
            } else {
                &&& p.message@ == "invalid MAC address format"@
                &&& p.details matches Some(d) && d@
                    == "use only hexadecimal characters (0-9, A-F)"@
            }
        },
{
    let len = mac_address.unicode_len();
    let mut norm: Vec<char> = Vec::new();
    let mut i: usize = 0;
    proof {
        assert(mac_address@.subrange(0, 0) =~= Seq::<char>::empty());
    }
    while i < len
        invariant
            len == mac_address@.len(),
            i <= len,
            norm@ == normalized_mac(mac_address@.subrange(0, i as int)),
        decreases len - i,
    {
        let c = mac_address.get_char(i);
        proof {
            let next = mac_address@.subrange(0, i + 1 as int);
            assert(next.drop_last() =~= mac_address@.subrange(0, i as int));
            assert(next.last() == mac_address@[i as int]);
        }
        if !is_mac_separator_char(c) {
            norm.push(upcase_hex_char(c));
        }
        i = i + 1;
    }
    proof {
        assert(mac_address@.subrange(0, len as int) =~= mac_address@);
    }
    if norm.len() != 12 {
        return Err(PowerResult {
            success: false,
            message: String::from_str("invalid MAC address"),
            details: Some(
                String::from_str("the MAC address must have the form XX:XX:XX:XX:XX:XX"),
            ),
        });
    }
    let mut octets: Vec<u8> = Vec::new();
    let mut k: usize = 0;
    while k < 6
        invariant
            k <= 6,
            norm@.len() == 12,
            norm@ == normalized_mac(mac_address@),
            octets@.len() == k,
            forall|j: int| 0 <= j < 2 * k ==> is_hex_digit(#[trigger] norm@[j]),
            forall|j: int|
                0 <= j < k ==> octets@[j] == (16 * hex_val(norm@[2 * j]) + hex_val(
                    norm@[2 * j + 1],
                )) as u8,
        decreases 6 - k,
    {
        let hi = hex_digit_value(norm[2 * k]);
        let lo = hex_digit_value(norm[2 * k + 1]);
        match (hi, lo) {
            (Some(h), Some(l)) => {
                octets.push(16 * h + l);
            },
            _ => {
                return Err(PowerResult {
                    success: false,
                    message: String::from_str("invalid MAC address format"),
                    details: Some(String::from_str("use only hexadecimal characters (0-9, A-F)")),
                });
            },
        }
        k = k + 1;
    }
    proof {
        assert(octets@ =~= mac_octets(norm@));
    }
    let mut payload: Vec<u8> = Vec::new();
    let mut f: usize = 0;
    while f < 6
        invariant
            f <= 6,
            payload@.len() == f,
            forall|j: int| 0 <= j < f ==> payload@[j] == 0xFFu8,
        decreases 6 - f,
    {
        payload.push(0xFF);
        f = f + 1;
    }
    proof {
        assert(payload@ =~= Seq::new(6, |i: int| 0xFFu8));
    }
    let ghost header = payload@;
    let ghost mac = octets@;
    let mut rep: usize = 0;
    while rep < 16
        invariant
            rep <= 16,
            octets@ == mac,
            octets@.len() == 6,
            payload@ == header + repeated(mac, rep as nat),
        decreases 16 - rep,
    {
        let mut j: usize = 0;
        while j < 6
            invariant
                j <= 6,
                octets@ == mac,
                octets@.len() == 6,
                payload@ == header + repeated(mac, rep as nat) + mac.subrange(0, j as int),
            decreases 6 - j,
        {
            payload.push(octets[j]);
            proof {
                assert(mac.subrange(0, j + 1 as int) =~= mac.subrange(0, j as int).push(
                    mac[j as int],
                ));
            }
            j = j + 1;
        }
        proof {
            assert(mac.subrange(0, 6) =~= mac);
            assert(repeated(mac, (rep + 1) as nat) == repeated(mac, rep as nat) + mac);
            assert(header + repeated(mac, rep as nat) + mac =~= header + (repeated(mac, rep as nat)
                + mac));
        }
        rep = rep + 1;
    }
    proof {
        assert(payload@ == magic_packet(mac));
    }
    let broadcast: String = match broadcast_ip {
        Some(b) => b.clone(),
        None => String::from_str("255.255.255.255"),
    };
    let mut targets: Vec<WakeTarget> = Vec::new();
    targets.push(WakeTarget { address: broadcast.clone(), port: 9 });
    targets.push(WakeTarget { address: broadcast, port: 7 });
    targets.push(WakeTarget { address: String::from_str("192.168.1.255"), port: 9 });
    targets.push(WakeTarget { address: String::from_str("192.168.0.255"), port: 9 });
    Ok(WakePlan { payload, targets })
}

/// Which step of preparing the datagram socket failed.
#[derive(Debug)]
pub enum WakeSetupStage {
    BindSocket,
    EnableBroadcast,
}

/// The failure report for a socket that could not be prepared; the
/// operating-system error text is carried in the details.
pub fn wake_socket_failure(stage: WakeSetupStage, detail: String) -> (r: PowerResult)
    ensures
        !r.success,
        stage is BindSocket ==> r.message@ == "could not set up the network socket"@,
        stage is EnableBroadcast ==> r.message@ == "could not enable broadcast on the socket"@,
        r.details == Some(detail),
{
    match stage {
        WakeSetupStage::BindSocket => PowerResult {
            success: false,
            message: String::from_str("could not set up the network socket"),
            details: Some(detail),
        },
        WakeSetupStage::EnableBroadcast => PowerResult {
            success: false,
            message: String::from_str("could not enable broadcast on the socket"),
            details: Some(detail),
        },
    }
}

/// One line of the aggregated send-error detail: `address:port - error`.
pub fn send_error_line(target: &WakeTarget, error: &str) -> (r: String)
    ensures
        r@ == target.address@ + seq![':'] + dec_digits(target.port as nat) + " - "@ + error@,
{
    let mut s = crate::records::probe_address(target.address.as_str(), target.port);
    s.append(" - ");
    s.append(error);
    proof {
        assert(s@ =~= target.address@ + seq![':'] + dec_digits(target.port as nat) + " - "@
            + error@);
    }
    s
}

/// The overall wake report: success when at least one send went through,
/// otherwise a failure that aggregates the per-target error lines.
pub fn wake_report(mac_address: &str, success_count: u64, errors: &Vec<String>) -> (r: PowerResult)
    ensures
        r.success <==> success_count > 0,
        success_count > 0 ==> {
            &&& r.message@ == "magic packet sent ("@ + dec_digits(success_count as nat)
                + " sends went through)"@
            &&& r.details matches Some(d) && d@
                == "the host should power on within 10-60 seconds; MAC: "@ + mac_address@
        },
        success_count == 0 ==> {
            &&& r.message@ == "could not send the magic packet"@
            &&& r.details matches Some(d) && d@ == "errors: "@ + join_with(
                views_of(errors@),
                ", "@,
            )
        },
{
    if success_count > 0 {
        let mut message = String::from_str("magic packet sent (");
        message.append(u64_to_string(success_count).as_str());
        message.append(" sends went through)");
        let mut details = String::from_str("the host should power on within 10-60 seconds; MAC: ");
        details.append(mac_address);
        proof {
            assert(message@ =~= "magic packet sent ("@ + dec_digits(success_count as nat)
                + " sends went through)"@);
        }
        PowerResult { success: true, message, details: Some(details) }
    } else {
        let mut details = String::from_str("errors: ");
        details.append(join_strings(errors, ", ").as_str());
        PowerResult {
            success: false,
            message: String::from_str("could not send the magic packet"),
            details: Some(details),
        }
    }
}

} // verus!
