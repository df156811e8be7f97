use vstd::prelude::*;
use vstd::string::*;

use crate::data::{
    object_lookup, CollectedData, CollectionError, CollectionMethod, CollectionMethodType,
    CtnContract, ExecutableObject, MethodInput,
};
use crate::text::{
    chars_of, decimal_of, lower_of, push_char, split_whitespace, str_eq, string_of, to_lowercase,
    u64_to_decimal, whitespace_fields,
};
use crate::values::ResolvedValue;

verus! {

/// Value of a hexadecimal digit, either case.
pub open spec fn hex_val(c: char) -> Option<nat> {
    if 48 <= (c as int) <= 57 {
        Some((c as int - 48) as nat)
    } else if 65 <= (c as int) <= 70 {
        Some((c as int - 55) as nat)
    } else if 97 <= (c as int) <= 102 {
        Some((c as int - 87) as nat)
    } else {
        None
    }
}

pub fn hex_digit_value(c: char) -> (r: Option<u8>)
    ensures
        r matches Some(v) ==> hex_val(c) == Some(v as nat),
        r is None ==> hex_val(c) is None,
{
    let n = c as u32;
    if 48 <= n && n <= 57 {
        Some((n - 48) as u8)
    } else if 65 <= n && n <= 70 {
        Some((n - 55) as u8)
    } else if 97 <= n && n <= 102 {
        Some((n - 87) as u8)
    } else {
        None
    }
}

/// A two-character radix-16 byte as `u8::from_str_radix` reads it: two hex digits, or a
/// `+` followed by one.
pub open spec fn pair_val(a: char, b: char) -> Option<nat> {
    if a == '+' {
        hex_val(b)
    } else {
        match (hex_val(a), hex_val(b)) {
            (Some(x), Some(y)) => Some(16 * x + y),
            _ => None,
        }
    }
}

fn pair_value(a: char, b: char) -> (r: Option<u8>)
    ensures
        r matches Some(v) ==> pair_val(a, b) == Some(v as nat),
        r is None ==> pair_val(a, b) is None,
{
    if a == '+' {
        return hex_digit_value(b);
    }
    match (hex_digit_value(a), hex_digit_value(b)) {
        (Some(x), Some(y)) => Some(16 * x + y),
        _ => None,
    }
}

pub open spec fn dotted(a: nat, b: nat, c: nat, d: nat) -> Seq<char> {
    decimal_of(a) + "."@ + decimal_of(b) + "."@ + decimal_of(c) + "."@ + decimal_of(d)
}

/// The dotted-decimal address of eight hex characters holding the bytes in reversed order.
pub open spec fn ipv4_of(h: Seq<char>) -> Option<Seq<char>> {
    if h.len() != 8 {
        None
    } else {
        match (pair_val(h[0], h[1]), pair_val(h[2], h[3]), pair_val(h[4], h[5]), pair_val(h[6], h[7])) {
            (Some(b0), Some(b1), Some(b2), Some(b3)) => Some(dotted(b3, b2, b1, b0)),
            _ => None,
        }
    }
}

pub open spec fn hex_to_ipv4_spec(h: Seq<char>) -> Seq<char> {
    match ipv4_of(h) {
        Some(t) => t,
        None => "invalid"@,
    }
}

/// Converts a little-endian hex IPv4 address, as the kernel's socket table writes it, to
/// dotted decimal; `invalid` when it is not eight hex characters.
pub fn hex_to_ipv4(hex: &str) -> (r: String)
    ensures
        r@ == hex_to_ipv4_spec(hex@),
{
    let h = chars_of(hex);
    if h.len() != 8 {
        return String::from_str("invalid");
    }
    let byte0 = pair_value(h[0], h[1]);
    let byte1 = pair_value(h[2], h[3]);
    let byte2 = pair_value(h[4], h[5]);
    let byte3 = pair_value(h[6], h[7]);
    match (byte0, byte1, byte2, byte3) {
        (Some(b0), Some(b1), Some(b2), Some(b3)) => {
            let mut s = u64_to_decimal(b3 as u64);
            s.append(".");
            s.append(u64_to_decimal(b2 as u64).as_str());
            s.append(".");
            s.append(u64_to_decimal(b1 as u64).as_str());
            s.append(".");
            s.append(u64_to_decimal(b0 as u64).as_str());
            s
        },
        _ => String::from_str("invalid"),
    }
}

/// Upper-case hexadecimal digit.
pub open spec fn upper_hex_digit(n: nat) -> char {
    seq!['0', '1', '2', '3', '4', '5', '6', '7', '8', '9', 'A', 'B', 'C', 'D', 'E', 'F'][n as int]
}

/// A port as four upper-case hex digits, as the kernel's socket table writes it.
pub open spec fn port_hex_spec(port: nat) -> Seq<char> {
    seq![
        upper_hex_digit((port / 4096) % 16),
        upper_hex_digit((port / 256) % 16),
        upper_hex_digit((port / 16) % 16),
        upper_hex_digit(port % 16),
    ]
}

fn upper_hex_char(n: u16) -> (c: char)
    requires
        n < 16,
    ensures
        c == upper_hex_digit(n as nat),
{
    if n == 0 {
        '0'
    } else if n == 1 {
        '1'
    } else if n == 2 {
        '2'
    } else if n == 3 {
        '3'
    } else if n == 4 {
        '4'
    } else if n == 5 {
        '5'
    } else if n == 6 {
        '6'
    } else if n == 7 {
        '7'
    } else if n == 8 {
        '8'
    } else if n == 9 {
        '9'
    } else if n == 10 {
        'A'
    } else if n == 11 {
        'B'
    } else if n == 12 {
        'C'
    } else if n == 13 {
        'D'
    } else if n == 14 {
        'E'
    } else {
        'F'
    }
}

/// Formats a port as four upper-case hex digits.
pub fn port_to_hex(port: u16) -> (r: String)
    ensures
        r@ == port_hex_spec(port as nat),
{
    let mut s = String::new();
    push_char(&mut s, upper_hex_char((port / 4096) % 16));
    push_char(&mut s, upper_hex_char((port / 256) % 16));
    push_char(&mut s, upper_hex_char((port / 16) % 16));
    push_char(&mut s, upper_hex_char(port % 16));
    assert(s@ =~= port_hex_spec(port as nat));
    s
}

/// Value of a digit in radix 10 or 16.
pub open spec fn digit_of(c: char, radix: nat) -> Option<nat> {
    match hex_val(c) {
        Some(v) => if v < radix {
            Some(v)
        } else {
            None
        },
        None => None,
    }
}

/// Value of a run of digits, most significant first.
pub open spec fn number_of(ds: Seq<char>, radix: nat) -> nat
    decreases ds.len(),
{
    if ds.len() == 0 {
        0
    } else {
        radix * number_of(ds.drop_last(), radix) + match digit_of(ds.last(), radix) {
            Some(v) => v,
            None => 0,
        }
    }
}

pub open spec fn all_digits(ds: Seq<char>, radix: nat) -> bool {
    forall|i: int| 0 <= i < ds.len() ==> (#[trigger] digit_of(ds[i], radix)) is Some
}

pub open spec fn unsigned_digits(s: Seq<char>) -> Seq<char> {
    if s.len() > 0 && s[0] == '+' {
        s.drop_first()
    } else {
        s
    }
}

/// A 16-bit unsigned number as std's integer parsing reads it: an optional `+`, then at
/// least one digit of the radix, with a value that fits.
pub open spec fn parse_u16_spec(s: Seq<char>, radix: nat) -> Option<nat> {
    let ds = unsigned_digits(s);
    if ds.len() > 0 && all_digits(ds, radix) && number_of(ds, radix) <= 65535 {
        Some(number_of(ds, radix))
    } else {
        None
    }
}

fn digit_value(c: char, radix: u32) -> (r: Option<u32>)
    requires
        radix == 10 || radix == 16,
    ensures
        r matches Some(v) ==> digit_of(c, radix as nat) == Some(v as nat) && v < radix,
        r is None ==> digit_of(c, radix as nat) is None,
{
    match hex_digit_value(c) {
        Some(v) => if (v as u32) < radix {
            Some(v as u32)
        } else {
            None
        },
        None => None,
    }
}

/// Parses a 16-bit unsigned number in radix 10 or 16.
pub fn parse_u16(s: &Vec<char>, radix: u32) -> (r: Option<u16>)
    requires
        radix == 10 || radix == 16,
    ensures
        r matches Some(v) ==> parse_u16_spec(s@, radix as nat) == Some(v as nat),
        r is None ==> parse_u16_spec(s@, radix as nat) is None,
{
    let start: usize = if s.len() > 0 && s[0] == '+' {
        1
    } else {
        0
    };
    let ghost ds = unsigned_digits(s@);
    let ghost rd = radix as nat;
    assert(ds =~= s@.skip(start as int));
    if start >= s.len() {
        return None;
    }
    let mut value: u32 = 0;
    let mut big = false;
    let mut i: usize = start;
    assert(ds.subrange(0, 0) =~= Seq::<char>::empty());
    while i < s.len()
        invariant
            radix == 10 || radix == 16,
            rd == radix as nat,
            start <= i <= s.len(),
            ds == s@.skip(start as int),
            ds == unsigned_digits(s@),
            all_digits(ds.subrange(0, i - start), rd),
            !big ==> value as nat == number_of(ds.subrange(0, i - start), rd) && value <= 65535,
            big ==> number_of(ds.subrange(0, i - start), rd) > 65535,
        decreases s.len() - i,
    {
        let ghost prefix = ds.subrange(0, i - start);
        assert(ds.subrange(0, i + 1 - start).drop_last() =~= prefix);
        assert(ds.subrange(0, i + 1 - start).last() == s@[i as int]);
        match digit_value(s[i], radix) {
            Some(d) => {
                if !big {
                    let next = value * radix + d;
                    if next > 65535 {
                        big = true;
                    } else {
                        value = next;
                    }
                }
            },
            None => {
                assert(ds[i - start] == s@[i as int]);
                assert(digit_of(ds[i - start], rd) is None);
                assert(!all_digits(ds, rd));
                return None;
            },
        }
        assert forall|k: int| 0 <= k < i + 1 - start implies (#[trigger] digit_of(
            ds.subrange(0, i + 1 - start)[k],
            rd,
        )) is Some by {
            if k < i - start {
                assert(ds.subrange(0, i + 1 - start)[k] == prefix[k]);
            }
        }
        proof {
            if big {
                assert(number_of(ds.subrange(0, i + 1 - start), rd) >= number_of(prefix, rd))
                    by (nonlinear_arith)
                    requires
                        number_of(ds.subrange(0, i + 1 - start), rd) >= rd * number_of(prefix, rd),
                        rd >= 10,
                ;
            }
        }
        i = i + 1;
    }
    assert(ds.subrange(0, s.len() - start) =~= ds);
    if big {
        None
    } else {
        Some(value as u16)
    }
}

/// Result of looking for a listening TCP port.
#[derive(Debug, Clone)]
pub struct TcpListenerResult {
    pub listening: bool,
    pub local_address: Option<String>,
    pub error: Option<String>,
}

/// Errors of the socket-table queries.
#[derive(Debug, Clone)]
pub enum TcpListenerError {
    ApiError(String, u32),
    InvalidPort(u16),
}

pub open spec fn filter_view(f: Option<&str>) -> Option<Seq<char>> {
    match f {
        Some(x) => Some(x@),
        None => None,
    }
}

/// A found listener whose local address is `addr`.
pub open spec fn listener_found(res: TcpListenerResult, addr: Option<Seq<char>>) -> bool {
    &&& res.listening
    &&& res.error is None
    &&& match res.local_address {
        Some(a) => addr == Some(a@),
        None => false,
    }
}

/// `s` holds exactly one `:`, at position `k`.
pub open spec fn single_colon_at(s: Seq<char>, k: int) -> bool {
    &&& 0 <= k < s.len()
    &&& s[k] == ':'
    &&& forall|j: int| 0 <= j < s.len() && j != k ==> s[j] != ':'
}

pub open spec fn listen_state() -> Seq<char> {
    "0A"@
}

pub open spec fn wildcard_address() -> Seq<char> {
    "0.0.0.0"@
}

/// The local address (`ip:port`) of a socket-table entry, split into fields, when it is
/// a listener on `port_hex` that the host filter admits.
pub open spec fn tcp_fields_spec(parts: Seq<Seq<char>>, port_hex: Seq<char>, filter: Option<Seq<char>>) -> Option<Seq<char>> {
    if parts.len() < 4 {
        None
    } else if !(exists|k: int| single_colon_at(parts[1], k)) {
        None
    } else {
        let addr = parts[1];
        let k = choose|k: int| single_colon_at(addr, k);
        let ip_hex = addr.subrange(0, k);
        let port_part = addr.subrange(k + 1, addr.len() as int);
        let ip = hex_to_ipv4_spec(ip_hex);
        if port_part != port_hex {
            None
        } else if parts[3] != listen_state() {
            None
        } else if filter matches Some(f) && ip != f && ip != wildcard_address() {
            None
        } else {
            let port = match parse_u16_spec(port_part, 16) {
                Some(p) => p,
                None => 0,
            };
            Some(ip + ":"@ + decimal_of(port))
        }
    }
}

fn find_single_colon(s: &Vec<char>) -> (r: Option<usize>)
    ensures
        r matches Some(k) ==> single_colon_at(s@, k as int),
        r is None ==> !(exists|k: int| single_colon_at(s@, k)),
{
    let mut found: Option<usize> = None;
    let mut i: usize = 0;
    while i < s.len()
        invariant
            i <= s.len(),
            found matches Some(k) ==> k < i && s@[k as int] == ':' && forall|j: int|
                0 <= j < i && j != k ==> s@[j] != ':',
            found is None ==> forall|j: int| 0 <= j < i ==> s@[j] != ':',
        decreases s.len() - i,
    {
        if s[i] == ':' {
            match found {
                Some(k) => {
                    assert(!(exists|m: int| single_colon_at(s@, m))) by {
                        assert forall|m: int| !single_colon_at(s@, m) by {
                            if m != k as int {
                                assert(s@[k as int] == ':');
                            } else {
                                assert(s@[i as int] == ':');
                            }
                        }
                    }
                    return None;
                },
                None => {
                    found = Some(i);
                },
            }
        }
        i = i + 1;
    }
    proof {
        if found is None {
            assert forall|m: int| !single_colon_at(s@, m) by {
                if 0 <= m < s@.len() {
                    assert(s@[m] != ':');
                }
            }
        }
    }
    found
}

fn str_of_chars(cs: &Vec<char>, from: usize, to: usize) -> (r: String)
    requires
        from <= to <= cs.len(),
    ensures
        r@ == cs@.subrange(from as int, to as int),
{
    let mut s = String::new();
    let mut i: usize = from;
    while i < to
        invariant
            from <= i <= to <= cs.len(),
            s@ == cs@.subrange(from as int, i as int),
        decreases to - i,
    {
        push_char(&mut s, cs[i]);
        i = i + 1;
        assert(s@ =~= cs@.subrange(from as int, i as int));
    }
    s
}

/// Looks for a listener on `port_hex` in one socket-table entry, given as its fields.
/// A wildcard bind (`0.0.0.0`) satisfies any host filter.
pub fn parse_tcp_fields(parts: &Vec<String>, port_hex: &str, host_filter: Option<&str>) -> (r: Option<TcpListenerResult>)
    ensures
        r is Some <==> tcp_fields_spec(parts@.map_values(|p: String| p@), port_hex@, filter_view(host_filter)) is Some,
        r matches Some(res) ==> listener_found(
            res,
            tcp_fields_spec(parts@.map_values(|p: String| p@), port_hex@, filter_view(host_filter)),
        ),
{
    let ghost pv = parts@.map_values(|p: String| p@);
    if parts.len() < 4 {
        return None;
    }
    assert(pv[1] == parts@[1]@);
    assert(pv[3] == parts@[3]@);
    let addr = chars_of(parts[1].as_str());
    let k = match find_single_colon(&addr) {
        Some(k) => k,
        None => {
            return None;
        },
    };
    proof {
        let kk = choose|m: int| single_colon_at(pv[1], m);
        assert(single_colon_at(pv[1], kk));
        if kk != k as int {
            assert(pv[1][k as int] == ':');
        }
    }
    let ip_hex = str_of_chars(&addr, 0, k);
    let port_part_chars = {
        let mut v: Vec<char> = Vec::new();
        let mut i: usize = k + 1;
        while i < addr.len()
            invariant
                k + 1 <= i <= addr.len(),
                v@ == addr@.subrange(k + 1, i as int),
            decreases addr.len() - i,
        {
            v.push(addr[i]);
            i = i + 1;
            assert(v@ =~= addr@.subrange(k + 1, i as int));
        }
        v
    };
    let port_part = string_of(&port_part_chars);
    if !str_eq(port_part.as_str(), port_hex) {
        return None;
    }
    if !str_eq(parts[3].as_str(), "0A") {
        return None;
    }
    let ip = hex_to_ipv4(ip_hex.as_str());
    match host_filter {
        Some(f) => {
            if !str_eq(ip.as_str(), f) && !str_eq(ip.as_str(), "0.0.0.0") {
                return None;
            }
        },
        None => {},
    }
    let port: u16 = match parse_u16(&port_part_chars, 16) {
        Some(p) => p,
        None => 0,
    };
    let mut address = ip;
    address.append(":");
    address.append(u64_to_decimal(port as u64).as_str());
    Some(TcpListenerResult { listening: true, local_address: Some(address), error: None })
}

/// Looks for a listener on `port_hex` in one line of the kernel's socket table.
pub fn parse_proc_tcp_line(line: &str, port_hex: &str, host_filter: Option<&str>) -> (r: Option<TcpListenerResult>)
    ensures
        r is Some <==> tcp_fields_spec(whitespace_fields(line@), port_hex@, filter_view(host_filter)) is Some,
        r matches Some(res) ==> listener_found(
            res,
            tcp_fields_spec(whitespace_fields(line@), port_hex@, filter_view(host_filter)),
        ),
{
    let parts = split_whitespace(line);
    parse_tcp_fields(&parts, port_hex, host_filter)
}

/// A listener bound to the wildcard address matches whatever host is asked for.
pub proof fn lemma_wildcard_bind_matches_any_host(
    parts: Seq<Seq<char>>,
    port_hex: Seq<char>,
    host: Seq<char>,
    k: int,
)
    requires
        parts.len() >= 4,
        single_colon_at(parts[1], k),
        hex_to_ipv4_spec(parts[1].subrange(0, k)) == wildcard_address(),
    ensures
        tcp_fields_spec(parts, port_hex, Some(host)) == tcp_fields_spec(parts, port_hex, None),
{
    let kk = choose|m: int| single_colon_at(parts[1], m);
    assert(single_colon_at(parts[1], kk));
    if kk != k {
        assert(parts[1][k] == ':');
    }
}

/// The first entry after the header line that is a listener on `port_hex` admitted by
/// the filter, as its local address.
pub open spec fn table_match(lines: Seq<Seq<char>>, port_hex: Seq<char>, filter: Option<Seq<char>>) -> Option<Seq<char>>
    decreases lines.len(),
{
    if lines.len() <= 1 {
        None
    } else {
        match tcp_fields_spec(whitespace_fields(lines[1]), port_hex, filter) {
            Some(a) => Some(a),
            None => table_match(lines.drop_first(), port_hex, filter),
        }
    }
}

pub open spec fn lines_view(lines: Seq<String>) -> Seq<Seq<char>> {
    lines.map_values(|l: String| l@)
}

/// Looks for a listener on `port` in the lines of the kernel's socket table, the first
/// of which is a header.
pub fn find_listener(table: &Vec<String>, port: u16, host_filter: Option<&str>) -> (r: TcpListenerResult)
    ensures
        r.error is None,
        r.listening == table_match(
            lines_view(table@),
            port_hex_spec(port as nat),
            filter_view(host_filter),
        ) is Some,
        r.listening ==> listener_found(
            r,
            table_match(lines_view(table@), port_hex_spec(port as nat), filter_view(host_filter)),
        ),
        !r.listening ==> r.local_address is None,
{
    let port_hex = port_to_hex(port);
    let ghost lv = lines_view(table@);
    let ghost filter = filter_view(host_filter);
    let mut i: usize = 1;
    assert(lv.skip(0) =~= lv);
    while i < table.len()
        invariant
            1 <= i <= table.len() + 1,
            lv == lines_view(table@),
            filter == filter_view(host_filter),
            port_hex@ == port_hex_spec(port as nat),
            table_match(lv, port_hex@, filter) == table_match(lv.skip(i - 1), port_hex@, filter),
        decreases table.len() - i,
    {
        let ghost rest = lv.skip(i - 1);
        assert(rest.len() > 1);
        assert(rest[1] == table@[i as int]@);
        assert(table_match(rest, port_hex@, filter) == match tcp_fields_spec(
            whitespace_fields(rest[1]),
            port_hex@,
            filter,
        ) {
            Some(a) => Some(a),
            None => table_match(rest.drop_first(), port_hex@, filter),
        });
        assert(rest.drop_first() =~= lv.skip(i as int));
        let line = table[i].as_str();
        let found = parse_proc_tcp_line(line, port_hex.as_str(), host_filter);
        assert(line@ == rest[1]);
        match found {
            Some(res) => {
                return res;
            },
            None => {},
        }
        i = i + 1;
    }
    proof {
        assert(lv.skip(i - 1).len() <= 1);
    }
    TcpListenerResult { listening: false, local_address: None, error: None }
}

/// Looks for a listener on `port` in the lines of the kernel's socket table, the first
/// of which is a header. Port 0 is refused.
pub fn check_port_listening(table: &Vec<String>, port: u16, host_filter: Option<&str>) -> (r: TcpListenerResult)
    ensures
        port == 0 ==> !r.listening && r.error is Some,
        port != 0 ==> r.error is None && r.listening == table_match(
            lines_view(table@),
            port_hex_spec(port as nat),
            filter_view(host_filter),
        ) is Some,
        port != 0 && r.listening ==> listener_found(
            r,
            table_match(lines_view(table@), port_hex_spec(port as nat), filter_view(host_filter)),
        ),
{
    if port == 0 {
        return TcpListenerResult {
            listening: false,
            local_address: None,
            error: Some(String::from_str("Invalid port: 0")),
        };
    }
    find_listener(table, port, host_filter)
}

/// The port an object asks about: an integer in 1..=65535, or a decimal string.
pub open spec fn port_of(fields: Seq<crate::data::ObjectField>) -> Option<nat> {
    match object_lookup(fields, "port"@) {
        Some(ResolvedValue::Integer(i)) => if 1 <= i <= 65535 {
            Some(i as nat)
        } else {
            None
        },
        Some(ResolvedValue::String(s)) => parse_u16_spec(s@, 10),
        _ => None,
    }
}

/// The first string-valued `host` field of an object.
pub open spec fn host_field(fields: Seq<crate::data::ObjectField>) -> Option<Seq<char>>
    decreases fields.len(),
{
    if fields.len() == 0 {
        None
    } else if fields[0].name@ == "host"@ && fields[0].value is String {
        match fields[0].value {
            ResolvedValue::String(s) => Some(s@),
            _ => None,
        }
    } else {
        host_field(fields.drop_first())
    }
}

/// The host filter of an object: its `host` field, unless that reads `any` in any case.
pub open spec fn host_filter_of(fields: Seq<crate::data::ObjectField>) -> Option<Seq<char>> {
    match host_field(fields) {
        Some(h) => if lower_of(h) == "any"@ {
            None
        } else {
            Some(h)
        },
        None => None,
    }
}

/// The address and port of a socket-table entry, split into fields, when it is in the
/// listening state and its local address holds one `:` and a radix-16 port.
pub open spec fn listener_of(parts: Seq<Seq<char>>) -> Option<(Seq<char>, nat)> {
    if parts.len() < 4 || parts[3] != listen_state() || !(exists|k: int| single_colon_at(parts[1], k)) {
        None
    } else {
        let addr = parts[1];
        let k = choose|k: int| single_colon_at(addr, k);
        match parse_u16_spec(addr.subrange(k + 1, addr.len() as int), 16) {
            Some(port) => Some((hex_to_ipv4_spec(addr.subrange(0, k)), port)),
            None => None,
        }
    }
}

/// The listeners of the lines after the header, in order.
pub open spec fn all_listeners(lines: Seq<Seq<char>>) -> Seq<(Seq<char>, nat)>
    decreases lines.len(),
{
    if lines.len() <= 1 {
        Seq::empty()
    } else {
        all_listeners(lines.drop_last()) + match listener_of(whitespace_fields(lines.last())) {
            Some(l) => seq![l],
            None => Seq::empty(),
        }
    }
}

pub open spec fn listeners_view(v: Seq<(String, u16)>) -> Seq<(Seq<char>, nat)> {
    v.map_values(|l: (String, u16)| (l.0@, l.1 as nat))
}

fn listener_fields(parts: &Vec<String>) -> (r: Option<(String, u16)>)
    ensures
        r matches Some(l) ==> listener_of(parts@.map_values(|p: String| p@)) == Some((l.0@, l.1 as nat)),
        r is None ==> listener_of(parts@.map_values(|p: String| p@)) is None,
{
    let ghost pv = parts@.map_values(|p: String| p@);
    if parts.len() < 4 {
        return None;
    }
    assert(pv[1] == parts@[1]@);
    assert(pv[3] == parts@[3]@);
    if !str_eq(parts[3].as_str(), "0A") {
        return None;
    }
    let addr = chars_of(parts[1].as_str());
    let k = match find_single_colon(&addr) {
        Some(k) => k,
        None => {
            return None;
        },
    };
    proof {
        let kk = choose|m: int| single_colon_at(pv[1], m);
        assert(single_colon_at(pv[1], kk));
        if kk != k as int {
            assert(pv[1][k as int] == ':');
        }
    }
    let ip_hex = str_of_chars(&addr, 0, k);
    let mut port_chars: Vec<char> = Vec::new();
    let mut i: usize = k + 1;
    while i < addr.len()
        invariant
            k + 1 <= i <= addr.len(),
            port_chars@ == addr@.subrange(k + 1, i as int),
        decreases addr.len() - i,
    {
        port_chars.push(addr[i]);
        i = i + 1;
        assert(port_chars@ =~= addr@.subrange(k + 1, i as int));
    }
    match parse_u16(&port_chars, 16) {
        Some(port) => Some((hex_to_ipv4(ip_hex.as_str()), port)),
        None => None,
    }
}

/// Every listener of the kernel's socket table, given as its lines with the header
/// first: dotted-decimal address and port.
pub fn get_all_listening_ports(table: &Vec<String>) -> (r: Vec<(String, u16)>)
    ensures
        listeners_view(r@) == all_listeners(lines_view(table@)),
{
    let ghost lv = lines_view(table@);
    let mut out: Vec<(String, u16)> = Vec::new();
    if table.len() == 0 {
        assert(listeners_view(out@) =~= all_listeners(lv));
        return out;
    }
    let mut i: usize = 1;
    assert(listeners_view(out@) =~= all_listeners(lv.subrange(0, 1)));
    while i < table.len()
        invariant
            1 <= i <= table.len(),
            lv == lines_view(table@),
            listeners_view(out@) == all_listeners(lv.subrange(0, i as int)),
        decreases table.len() - i,
    {
        let ghost next = lv.subrange(0, i + 1);
        assert(next.drop_last() =~= lv.subrange(0, i as int));
        assert(next.last() == table@[i as int]@);
        let parts = split_whitespace(table[i].as_str());
        let ghost before = out@;
        match listener_fields(&parts) {
            Some(l) => {
                out.push(l);
            },
            None => {},
        }
        assert(listeners_view(out@) =~= all_listeners(next));
        i = i + 1;
    }
    assert(lv.subrange(0, table.len() as int) =~= lv);
    out
}

/// Collector for TCP listener state.
pub struct TcpListenerCollector {
    pub id: String,
}

pub open spec fn tcp_ctn_type() -> Seq<char> {
    "tcp_listener"@
}

impl TcpListenerCollector {
    pub fn new() -> (r: Self)
        ensures
            r.id@ == "tcp_listener_collector"@,
    {
        TcpListenerCollector { id: String::from_str("tcp_listener_collector") }
    }

    pub fn collector_id(&self) -> (r: &str)
        ensures
            r@ == self.id@,
    {
        self.id.as_str()
    }

    pub fn supported_ctn_types(&self) -> (r: Vec<String>)
        ensures
            r@.len() == 1,
            r@[0]@ == tcp_ctn_type(),
    {
        let mut v: Vec<String> = Vec::new();
        v.push(String::from_str("tcp_listener"));
        v
    }

    pub fn supports_batch_collection(&self) -> (r: bool)
        ensures
            !r,
    {
        false
    }

    /// Converts a little-endian hex IPv4 address to dotted decimal.
    pub fn hex_to_ipv4(&self, hex: &str) -> (r: String)
        ensures
            r@ == hex_to_ipv4_spec(hex@),
    {
        hex_to_ipv4(hex)
    }

    /// Looks for a listener on `port_hex` in one line of the kernel's socket table.
    pub fn parse_tcp_line(&self, line: &str, port_hex: &str, host_filter: Option<&str>) -> (r: Option<TcpListenerResult>)
        ensures
            r is Some <==> tcp_fields_spec(whitespace_fields(line@), port_hex@, filter_view(host_filter)) is Some,
            r matches Some(res) ==> listener_found(
                res,
                tcp_fields_spec(whitespace_fields(line@), port_hex@, filter_view(host_filter)),
            ),
    {
        parse_proc_tcp_line(line, port_hex, host_filter)
    }

    /// Refuses a contract of another criterion type.
    pub fn validate_ctn_compatibility(&self, contract: &CtnContract) -> (r: Result<(), CollectionError>)
        ensures
            r is Ok <==> contract.ctn_type@ == tcp_ctn_type(),
            r matches Err(e) ==> e is CtnContractValidation,
    {
        if !str_eq(contract.ctn_type.as_str(), "tcp_listener") {
            let mut reason = String::from_str("Incompatible CTN type: expected 'tcp_listener', got '");
            reason.append(contract.ctn_type.as_str());
            reason.append("'");
            return Err(CollectionError::CtnContractValidation { reason });
        }
        Ok(())
    }

    /// The port that an object asks about.
    pub fn extract_port(&self, object: &ExecutableObject) -> (r: Result<u16, CollectionError>)
        ensures
            r matches Ok(p) ==> port_of(object.fields@) == Some(p as nat),
            r is Err ==> port_of(object.fields@) is None,
            r matches Err(e) ==> e is InvalidObjectConfiguration,
    {
        match object.get_field("port") {
            Some(ResolvedValue::Integer(i)) => {
                if i < 1 || i > 65535 {
                    let mut reason = String::from_str("Port ");
                    reason.append(crate::text::i64_to_decimal(i).as_str());
                    reason.append(" out of range (1-65535)");
                    Err(CollectionError::InvalidObjectConfiguration { object_id: object.identifier.clone(), reason })
                } else {
                    Ok(i as u16)
                }
            },
            Some(ResolvedValue::String(s)) => {
                match parse_u16(&chars_of(s.as_str()), 10) {
                    Some(p) => Ok(p),
                    None => {
                        let mut reason = String::from_str("Invalid port number: ");
                        reason.append(s.as_str());
                        Err(CollectionError::InvalidObjectConfiguration { object_id: object.identifier.clone(), reason })
                    },
                }
            },
            Some(_) => Err(
                CollectionError::InvalidObjectConfiguration {
                    object_id: object.identifier.clone(),
                    reason: String::from_str("Port must be an integer"),
                },
            ),
            None => Err(
                CollectionError::InvalidObjectConfiguration {
                    object_id: object.identifier.clone(),
                    reason: String::from_str("Missing required field 'port'"),
                },
            ),
        }
    }

    /// The host filter of an object, if any.
    pub fn extract_host(&self, object: &ExecutableObject) -> (r: Option<String>)
        ensures
            filter_of_string(r) == host_filter_of(object.fields@),
    {
        let mut i: usize = 0;
        assert(object.fields@.skip(0) =~= object.fields@);
        while i < object.fields.len()
            invariant
                i <= object.fields.len(),
                host_field(object.fields@) == host_field(object.fields@.skip(i as int)),
            decreases object.fields.len() - i,
        {
            assert(object.fields@.skip(i as int).drop_first() =~= object.fields@.skip(i + 1));
            if str_eq(object.fields[i].name.as_str(), "host") {
                match &object.fields[i].value {
                    ResolvedValue::String(s) => {
                        let lower = to_lowercase(s.as_str());
                        if str_eq(lower.as_str(), "any") {
                            return None;
                        }
                        return Some(s.clone());
                    },
                    _ => {},
                }
            }
            i = i + 1;
        }
        None
    }

    /// Collects the listening state of the port an object asks about, from the lines of
    /// the kernel's socket table.
    pub fn collect_for_ctn_with_hints(
        &self,
        object: &ExecutableObject,
        contract: &CtnContract,
        hints: &crate::data::BehaviorHints,
        table: &Vec<String>,
    ) -> (r: Result<CollectedData, CollectionError>)
        ensures
            r is Ok <==> (crate::data::hints_valid(contract.supported_behaviors@, *hints)
                && contract.ctn_type@ == tcp_ctn_type() && port_of(object.fields@) is Some),
            !crate::data::hints_valid(contract.supported_behaviors@, *hints) ==> (r matches Err(e)
                && e is CtnContractValidation),
            contract.ctn_type@ != tcp_ctn_type() ==> (r matches Err(e) && e is CtnContractValidation),
            (crate::data::hints_valid(contract.supported_behaviors@, *hints) && contract.ctn_type@
                == tcp_ctn_type() && port_of(object.fields@) is None) ==> (r matches Err(e)
                && e is InvalidObjectConfiguration),
            r matches Ok(d) ==> tcp_data_matches(d, *object, table_match(
                lines_view(table@),
                port_hex_spec(port_of(object.fields@)->0),
                host_filter_of(object.fields@),
            )),
    {
        contract.validate_behavior_hints(hints)?;
        self.validate_ctn_compatibility(contract)?;
        let port = self.extract_port(object)?;
        let host = self.extract_host(object);
        let result = match &host {
            Some(h) => find_listener(table, port, Some(h.as_str())),
            None => find_listener(table, port, None),
        };
        proof {
            reveal_strlit("listening");
            reveal_strlit("local_address");
        }
        let mut data = CollectedData::new(object.identifier.clone(), String::from_str("tcp_listener"), self.id.clone());
        assert(data.fields@ =~= Seq::<crate::data::DataField>::empty());
        let mut inputs: Vec<MethodInput> = Vec::new();
        inputs.push(MethodInput { name: String::from_str("port"), value: u64_to_decimal(port as u64) });
        match &host {
            Some(h) => {
                inputs.push(MethodInput { name: String::from_str("host_filter"), value: h.clone() });
            },
            None => {},
        }
        let mut target = String::from_str("tcp:");
        target.append(u64_to_decimal(port as u64).as_str());
        data.set_method(CollectionMethod {
            method_type: CollectionMethodType::SocketInspection,
            description: String::from_str("Check TCP port listener state via /proc/net/tcp"),
            target,
            command: None,
            inputs,
        });
        data.add_field(String::from_str("listening"), ResolvedValue::Boolean(result.listening));
        proof {
            reveal_strlit("listening");
            reveal_strlit("local_address");
            assert("local_address"@.len() == 13);
            assert("listening"@.len() == 9);
        }
        assert("local_address"@ != "listening"@);
        assert(crate::data::lookup(Seq::<crate::data::DataField>::empty(), "local_address"@) is None);
        assert(crate::data::lookup(data.fields@, "local_address"@) is None);
        match result.local_address {
            Some(addr) => {
                data.add_field(String::from_str("local_address"), ResolvedValue::String(addr));
            },
            None => {},
        }
        Ok(data)
    }
}

pub open spec fn filter_of_string(s: Option<String>) -> Option<Seq<char>> {
    match s {
        Some(x) => Some(x@),
        None => None,
    }
}

/// Collected data of a TCP listener query: `listening`, and `local_address` when found.
pub open spec fn tcp_data_matches(d: CollectedData, object: ExecutableObject, found: Option<Seq<char>>) -> bool {
    &&& d.object_id == object.identifier
    &&& d.ctn_type@ == tcp_ctn_type()
    &&& crate::data::lookup(d.fields@, "listening"@) == Some(ResolvedValue::Boolean(found is Some))
    &&& match found {
        Some(a) => crate::data::lookup(d.fields@, "local_address"@) matches Some(
            ResolvedValue::String(s),
        ) && s@ == a,
        None => crate::data::lookup(d.fields@, "local_address"@) is None,
    }
}

} // verus!
