use vstd::prelude::*;

verus! {

/// An IP address as the renewal logic sees it: the four octets of a v4
/// address packed big-endian into a `u32`, or the eight groups of a v6
/// address packed big-endian into a `u128`.
#[derive(Clone, Copy, Debug, PartialEq, Eq, Structural)]
pub enum IpAddress {
    V4(u32),
    V6(u128),
}

impl IpAddress {
    pub open spec fn spec_is_v4(&self) -> bool {
        self is V4
    }

    pub open spec fn spec_is_v6(&self) -> bool {
        self is V6
    }

    #[verifier::when_used_as_spec(spec_is_v4)]
    pub fn is_v4(&self) -> (b: bool)
        ensures
            b == self.spec_is_v4(),
    {
        match self {
            IpAddress::V4(_) => true,
            IpAddress::V6(_) => false,
        }
    }

    #[verifier::when_used_as_spec(spec_is_v6)]
    pub fn is_v6(&self) -> (b: bool)
        ensures
            b == self.spec_is_v6(),
    {
        match self {
            IpAddress::V4(_) => false,
            IpAddress::V6(_) => true,
        }
    }

    /// Whether this address belongs to the requested family.
    pub open spec fn spec_matches_family(&self, v6_wanted: bool) -> bool {
        if v6_wanted {
            self is V6
        } else {
            self is V4
        }
    }

    #[verifier::when_used_as_spec(spec_matches_family)]
    pub fn matches_family(&self, v6_wanted: bool) -> (b: bool)
        ensures
            b == self.spec_matches_family(v6_wanted),
    {
        if v6_wanted {
            self.is_v6()
        } else {
            self.is_v4()
        }
    }
}

/// The `i`-th big-endian octet of a packed v4 address, `i` in `0..4`.
pub open spec fn ipv4_octet(v: u32, i: int) -> int {
    if i == 0 {
        v as int / 0x100_0000
    } else if i == 1 {
        (v as int / 0x1_0000) % 256
    } else if i == 2 {
        (v as int / 0x100) % 256
    } else {
        v as int % 256
    }
}

/// Packs four octets big-endian.
pub open spec fn ipv4_of_octets(o0: int, o1: int, o2: int, o3: int) -> int {
    o0 * 0x100_0000 + o1 * 0x1_0000 + o2 * 0x100 + o3
}

pub open spec fn is_dec(c: char) -> bool {
    '0' <= c && c <= '9'
}

pub open spec fn dec_val(c: char) -> int {
    c as int - '0' as int
}

pub open spec fn dec_char(d: int) -> char {
    if d == 0 {
        '0'
    } else if d == 1 {
        '1'
    } else if d == 2 {
        '2'
    } else if d == 3 {
        '3'
    } else if d == 4 {
        '4'
    } else if d == 5 {
        '5'
    } else if d == 6 {
        '6'
    } else if d == 7 {
        '7'
    } else if d == 8 {
        '8'
    } else {
        '9'
    }
}

/// The decimal text of a nonnegative number, most significant digit first.
pub open spec fn dec_digits(n: int) -> Seq<char>
    decreases n,
{
    if n < 10 {
        seq![dec_char(n)]
    } else {
        dec_digits(n / 10).push(dec_char(n % 10))
    }
}

/// The one canonical text of a packed v4 address: four decimal octets
/// without leading zeros, joined by dots.
pub open spec fn ipv4_text(v: u32) -> Seq<char> {
    dec_digits(ipv4_octet(v, 0)) + seq!['.'] + dec_digits(ipv4_octet(v, 1)) + seq!['.']
        + dec_digits(ipv4_octet(v, 2)) + seq!['.'] + dec_digits(ipv4_octet(v, 3))
}

/// Relies on String::push: appends exactly the one character.
#[verifier::external_body]
fn push_char(s: &mut String, c: char)
    ensures
        final(s)@ == old(s)@.push(c),
{
    s.push(c)
}

fn dec_char_exec(d: u8) -> (c: char)
    requires
        d < 10,
    ensures
        c == dec_char(d as int),
{
    if d == 0 {
        '0'
    } else if d == 1 {
        '1'
    } else if d == 2 {
        '2'
    } else if d == 3 {
        '3'
    } else if d == 4 {
        '4'
    } else if d == 5 {
        '5'
    } else if d == 6 {
        '6'
    } else if d == 7 {
        '7'
    } else if d == 8 {
        '8'
    } else {
        '9'
    }
}

fn push_dec(s: &mut String, n: u8)
    ensures
        final(s)@ == old(s)@ + dec_digits(n as int),
    decreases n,
{
    if n < 10 {
        push_char(s, dec_char_exec(n));
        assert(final(s)@ =~= old(s)@ + dec_digits(n as int));
    } else {
        push_dec(s, n / 10);
        push_char(s, dec_char_exec(n % 10));
        assert(final(s)@ =~= old(s)@ + dec_digits(n as int));
    }
}

/// Formats a packed v4 address as its canonical dotted-decimal text.
pub fn ipv4_string(v: u32) -> (s: String)
    ensures
        s@ == ipv4_text(v),
{
    let o0: u8 = (v / 0x100_0000) as u8;
    let o1: u8 = ((v / 0x1_0000) % 256) as u8;
    let o2: u8 = ((v / 0x100) % 256) as u8;
    let o3: u8 = (v % 256) as u8;
    let mut s = String::new();
    push_dec(&mut s, o0);
    push_char(&mut s, '.');
    push_dec(&mut s, o1);
    push_char(&mut s, '.');
    push_dec(&mut s, o2);
    push_char(&mut s, '.');
    push_dec(&mut s, o3);
    assert(s@ =~= ipv4_text(v));
    s
}

/// Length of the run of decimal digits starting at `i`.
pub open spec fn dec_run(s: Seq<char>, i: int) -> int
    decreases s.len() - i when 0 <= i <= s.len()
{
    if i >= s.len() || !is_dec(s[i]) {
        0
    } else {
        1 + dec_run(s, i + 1)
    }
}

/// One decimal octet as a v4 literal allows it: `0`, or one to three
/// digits without a leading zero, value at most 255. Yields the value and
/// the position after it.
pub open spec fn spec_parse_octet(s: Seq<char>, i: int) -> Option<(int, int)> {
    let r = dec_run(s, i);
    if r == 0 {
        None
    } else if s[i] == '0' {
        if r == 1 {
            Some((0, i + 1))
        } else {
            None
        }
    } else if r == 1 {
        Some((dec_val(s[i]), i + 1))
    } else if r == 2 {
        Some((dec_val(s[i]) * 10 + dec_val(s[i + 1]), i + 2))
    } else if r == 3 {
        let v = dec_val(s[i]) * 100 + dec_val(s[i + 1]) * 10 + dec_val(s[i + 2]);
        if v <= 255 {
            Some((v, i + 3))
        } else {
            None
        }
    } else {
        None
    }
}

/// A v4 literal starting at `i`: four octets joined by dots. Yields the
/// packed value and the position after the literal.
pub open spec fn spec_parse_ipv4_at(s: Seq<char>, i: int) -> Option<(u32, int)> {
    match spec_parse_octet(s, i) {
        None => None,
        Some((o0, i1)) => if i1 < s.len() && s[i1] == '.' {
            match spec_parse_octet(s, i1 + 1) {
                None => None,
                Some((o1, i2)) => if i2 < s.len() && s[i2] == '.' {
                    match spec_parse_octet(s, i2 + 1) {
                        None => None,
                        Some((o2, i3)) => if i3 < s.len() && s[i3] == '.' {
                            match spec_parse_octet(s, i3 + 1) {
                                None => None,
                                Some((o3, i4)) => Some(
                                    (ipv4_of_octets(o0, o1, o2, o3) as u32, i4),
                                ),
                            }
                        } else {
                            None
                        },
                    }
                } else {
                    None
                },
            }
        } else {
            None
        },
    }
}

/// The packed value of a whole v4 literal, or nothing.
pub open spec fn ipv4_from_text(s: Seq<char>) -> Option<u32> {
    match spec_parse_ipv4_at(s, 0) {
        Some((v, j)) => if j == s.len() {
            Some(v)
        } else {
            None
        },
        None => None,
    }
}

fn is_dec_exec(c: char) -> (b: bool)
    ensures
        b == is_dec(c),
{
    let u = c as u32;
    48 <= u && u <= 57
}

fn dec_val_exec(c: char) -> (d: u8)
    requires
        is_dec(c),
    ensures
        d == dec_val(c),
{
    (c as u32 - 48) as u8
}

fn dec_run_exec(s: &str, n: usize, i: usize) -> (r: usize)
    requires
        n == s@.len(),
        i <= n,
    ensures
        r == dec_run(s@, i as int),
        i + r <= n,
    decreases n - i,
{
    if i == n {
        0
    } else {
        let c = s.get_char(i);
        if is_dec_exec(c) {
            1 + dec_run_exec(s, n, i + 1)
        } else {
            0
        }
    }
}

/// Casts the result of an octet parse for comparison with its spec.
pub open spec fn octet_result(r: Option<(u8, usize)>) -> Option<(int, int)> {
    match r {
        Some((v, j)) => Some((v as int, j as int)),
        None => None,
    }
}

fn parse_octet(s: &str, n: usize, i: usize) -> (r: Option<(u8, usize)>)
    requires
        n == s@.len(),
        i <= n,
    ensures
        octet_result(r) == spec_parse_octet(s@, i as int),
        r matches Some((_, j)) ==> i < j <= n,
{
    let run = dec_run_exec(s, n, i);
    if run == 0 {
        return None;
    }
    let c0 = s.get_char(i);
    if c0 == '0' {
        if run == 1 {
            Some((0, i + 1))
        } else {
            None
        }
    } else if run == 1 {
        Some((dec_val_exec(c0), i + 1))
    } else if run == 2 {
        assert(dec_run(s@, i as int + 1) == 1);
        let c1 = s.get_char(i + 1);
        Some((dec_val_exec(c0) * 10 + dec_val_exec(c1), i + 2))
    } else if run == 3 {
        assert(dec_run(s@, i as int + 1) == 2);
        assert(dec_run(s@, i as int + 2) == 1);
        let c1 = s.get_char(i + 1);
        let c2 = s.get_char(i + 2);
        let v: u16 = dec_val_exec(c0) as u16 * 100 + dec_val_exec(c1) as u16 * 10 + dec_val_exec(
            c2,
        ) as u16;
        if v <= 255 {
            Some(((v as u8), i + 3))
        } else {
            None
        }
    } else {
        None
    }
}

/// Casts the result of a v4 parse for comparison with its spec.
pub open spec fn v4_result(r: Option<(u32, usize)>) -> Option<(u32, int)> {
    match r {
        Some((v, j)) => Some((v, j as int)),
        None => None,
    }
}

/// Parses a v4 literal starting at position `i`; on success also yields
/// the position just after it.
pub fn parse_ipv4_at(s: &str, n: usize, i: usize) -> (r: Option<(u32, usize)>)
    requires
        n == s@.len(),
        i <= n,
    ensures
        v4_result(r) == spec_parse_ipv4_at(s@, i as int),
        r matches Some((_, j)) ==> i < j <= n,
{
    let (o0, i1) = match parse_octet(s, n, i) {
        None => {
            return None;
        },
        Some(p) => p,
    };
    if !(i1 < n && s.get_char(i1) == '.') {
        return None;
    }
    let (o1, i2) = match parse_octet(s, n, i1 + 1) {
        None => {
            return None;
        },
        Some(p) => p,
    };
    if !(i2 < n && s.get_char(i2) == '.') {
        return None;
    }
    let (o2, i3) = match parse_octet(s, n, i2 + 1) {
        None => {
            return None;
        },
        Some(p) => p,
    };
    if !(i3 < n && s.get_char(i3) == '.') {
        return None;
    }
    let (o3, i4) = match parse_octet(s, n, i3 + 1) {
        None => {
            return None;
        },
        Some(p) => p,
    };
    let v: u32 = o0 as u32 * 0x100_0000 + o1 as u32 * 0x1_0000 + o2 as u32 * 0x100 + o3 as u32;
    Some((v, i4))
}

/// Parses a whole v4 literal.
pub fn parse_ipv4(s: &str) -> (r: Option<u32>)
    ensures
        r == ipv4_from_text(s@),
{
    let n = s.unicode_len();
    match parse_ipv4_at(s, n, 0) {
        Some((v, j)) => if j == n {
            Some(v)
        } else {
            None
        },
        None => None,
    }
}

} // verus!

verus! {

/// The `i`-th big-endian 16-bit group of a packed v6 address, `i` in `0..8`.
pub open spec fn ipv6_group(v: u128, i: int) -> int {
    if i == 0 {
        (v as int / 0x1_0000_0000_0000_0000_0000_0000_0000) % 0x10000
    } else if i == 1 {
        (v as int / 0x1_0000_0000_0000_0000_0000_0000) % 0x10000
    } else if i == 2 {
        (v as int / 0x1_0000_0000_0000_0000_0000) % 0x10000
    } else if i == 3 {
        (v as int / 0x1_0000_0000_0000_0000) % 0x10000
    } else if i == 4 {
        (v as int / 0x1_0000_0000_0000) % 0x10000
    } else if i == 5 {
        (v as int / 0x1_0000_0000) % 0x10000
    } else if i == 6 {
        (v as int / 0x1_0000) % 0x10000
    } else {
        v as int % 0x10000
    }
}

/// Packs eight 16-bit groups big-endian.
pub open spec fn ipv6_of_groups(g: Seq<u16>) -> int
    recommends
        g.len() == 8,
{
    g[0] as int * 0x1_0000_0000_0000_0000_0000_0000_0000 + g[1] as int
        * 0x1_0000_0000_0000_0000_0000_0000 + g[2] as int * 0x1_0000_0000_0000_0000_0000 + g[3]
        as int * 0x1_0000_0000_0000_0000 + g[4] as int * 0x1_0000_0000_0000 + g[5] as int
        * 0x1_0000_0000 + g[6] as int * 0x1_0000 + g[7] as int
}

fn group_of(v: u128, i: usize) -> (g: u16)
    requires
        i < 8,
    ensures
        g as int == ipv6_group(v, i as int),
{
    if i == 0 {
        ((v / 0x1_0000_0000_0000_0000_0000_0000_0000) % 0x10000) as u16
    } else if i == 1 {
        ((v / 0x1_0000_0000_0000_0000_0000_0000) % 0x10000) as u16
    } else if i == 2 {
        ((v / 0x1_0000_0000_0000_0000_0000) % 0x10000) as u16
    } else if i == 3 {
        ((v / 0x1_0000_0000_0000_0000) % 0x10000) as u16
    } else if i == 4 {
        ((v / 0x1_0000_0000_0000) % 0x10000) as u16
    } else if i == 5 {
        ((v / 0x1_0000_0000) % 0x10000) as u16
    } else if i == 6 {
        ((v / 0x1_0000) % 0x10000) as u16
    } else {
        (v % 0x10000) as u16
    }
}

fn groups_value(g: &Vec<u16>) -> (v: u128)
    requires
        g@.len() == 8,
    ensures
        v as int == ipv6_of_groups(g@),
{
    g[0] as u128 * 0x1_0000_0000_0000_0000_0000_0000_0000 + g[1] as u128
        * 0x1_0000_0000_0000_0000_0000_0000 + g[2] as u128 * 0x1_0000_0000_0000_0000_0000 + g[3]
        as u128 * 0x1_0000_0000_0000_0000 + g[4] as u128 * 0x1_0000_0000_0000 + g[5] as u128
        * 0x1_0000_0000 + g[6] as u128 * 0x1_0000 + g[7] as u128
}

pub open spec fn is_hex(c: char) -> bool {
    is_dec(c) || ('a' <= c && c <= 'f') || ('A' <= c && c <= 'F')
}

pub open spec fn hex_val(c: char) -> int {
    if is_dec(c) {
        dec_val(c)
    } else if 'a' <= c && c <= 'f' {
        c as int - 'a' as int + 10
    } else {
        c as int - 'A' as int + 10
    }
}

pub open spec fn hex_char(d: int) -> char {
    if d < 10 {
        dec_char(d)
    } else if d == 10 {
        'a'
    } else if d == 11 {
        'b'
    } else if d == 12 {
        'c'
    } else if d == 13 {
        'd'
    } else if d == 14 {
        'e'
    } else {
        'f'
    }
}

/// The lowercase hexadecimal text of a nonnegative number, without
/// leading zeros.
pub open spec fn hex_digits(n: int) -> Seq<char>
    decreases n,
{
    if n < 16 {
        seq![hex_char(n)]
    } else {
        hex_digits(n / 16).push(hex_char(n % 16))
    }
}

fn is_hex_exec(c: char) -> (b: bool)
    ensures
        b == is_hex(c),
{
    let u = c as u32;
    (48 <= u && u <= 57) || (97 <= u && u <= 102) || (65 <= u && u <= 70)
}

fn hex_val_exec(c: char) -> (d: u8)
    requires
        is_hex(c),
    ensures
        d == hex_val(c),
{
    let u = c as u32;
    if 48 <= u && u <= 57 {
        (u - 48) as u8
    } else if 97 <= u && u <= 102 {
        (u - 97 + 10) as u8
    } else {
        (u - 65 + 10) as u8
    }
}

fn hex_char_exec(d: u16) -> (c: char)
    requires
        d < 16,
    ensures
        c == hex_char(d as int),
{
    if d < 10 {
        dec_char_exec(d as u8)
    } else if d == 10 {
        'a'
    } else if d == 11 {
        'b'
    } else if d == 12 {
        'c'
    } else if d == 13 {
        'd'
    } else if d == 14 {
        'e'
    } else {
        'f'
    }
}

fn push_hex(s: &mut String, n: u16)
    ensures
        final(s)@ == old(s)@ + hex_digits(n as int),
    decreases n,
{
    if n < 16 {
        push_char(s, hex_char_exec(n));
        assert(final(s)@ =~= old(s)@ + hex_digits(n as int));
    } else {
        push_hex(s, n / 16);
        push_char(s, hex_char_exec(n % 16));
        assert(final(s)@ =~= old(s)@ + hex_digits(n as int));
    }
}

/// Length of the run of zero groups starting at group `i`.
pub open spec fn zero_run_at(v: u128, i: int) -> int
    decreases 8 - i when i <= 8
{
    if i >= 8 || ipv6_group(v, i) != 0 {
        0
    } else {
        1 + zero_run_at(v, i + 1)
    }
}

/// The zero run that `::` stands for: the leftmost among the longest runs
/// of at least two zero groups in `i..8`, as (start, length).
pub open spec fn best_zero_run(v: u128, i: int) -> Option<(int, int)>
    decreases 8 - i when i <= 8
{
    if i >= 8 {
        None
    } else {
        let cur = zero_run_at(v, i);
        match best_zero_run(v, i + 1) {
            None => if cur >= 2 {
                Some((i, cur))
            } else {
                None
            },
            Some((s, l)) => if cur >= 2 && cur >= l {
                Some((i, cur))
            } else {
                Some((s, l))
            },
        }
    }
}

fn zero_run_at_exec(v: u128, i: usize) -> (r: usize)
    requires
        i <= 8,
    ensures
        r as int == zero_run_at(v, i as int),
        i + r <= 8,
    decreases 8 - i,
{
    if i >= 8 || group_of(v, i) != 0 {
        0
    } else {
        1 + zero_run_at_exec(v, i + 1)
    }
}

pub open spec fn run_result(r: Option<(usize, usize)>) -> Option<(int, int)> {
    match r {
        Some((s, l)) => Some((s as int, l as int)),
        None => None,
    }
}

fn best_zero_run_exec(v: u128, i: usize) -> (r: Option<(usize, usize)>)
    requires
        i <= 8,
    ensures
        run_result(r) == best_zero_run(v, i as int),
        r matches Some((s, l)) ==> i <= s && s + l <= 8 && 2 <= l,
    decreases 8 - i,
{
    if i >= 8 {
        None
    } else {
        let cur = zero_run_at_exec(v, i);
        match best_zero_run_exec(v, i + 1) {
            None => if cur >= 2 {
                Some((i, cur))
            } else {
                None
            },
            Some((s, l)) => if cur >= 2 && cur >= l {
                Some((i, cur))
            } else {
                Some((s, l))
            },
        }
    }
}

/// The groups `lo..hi` in lowercase hex, joined by single colons.
pub open spec fn groups_text(v: u128, lo: int, hi: int) -> Seq<char>
    decreases hi - lo when lo <= hi
{
    if lo >= hi {
        Seq::empty()
    } else if lo + 1 == hi {
        hex_digits(ipv6_group(v, lo))
    } else {
        hex_digits(ipv6_group(v, lo)) + seq![':'] + groups_text(v, lo + 1, hi)
    }
}

/// The canonical text of a packed v6 address: lowercase hex groups
/// without leading zeros, the leftmost longest run of two or more zero
/// groups shortened to `::`.
pub open spec fn ipv6_text(v: u128) -> Seq<char> {
    match best_zero_run(v, 0) {
        None => groups_text(v, 0, 8),
        Some((s, l)) => groups_text(v, 0, s) + seq![':', ':'] + groups_text(v, s + l, 8),
    }
}

fn push_groups(s: &mut String, v: u128, lo: usize, hi: usize)
    requires
        lo <= hi <= 8,
    ensures
        final(s)@ == old(s)@ + groups_text(v, lo as int, hi as int),
    decreases hi - lo,
{
    if lo >= hi {
        assert(final(s)@ =~= old(s)@ + groups_text(v, lo as int, hi as int));
    } else if lo + 1 == hi {
        push_hex(s, group_of(v, lo));
        assert(final(s)@ =~= old(s)@ + groups_text(v, lo as int, hi as int));
    } else {
        push_hex(s, group_of(v, lo));
        push_char(s, ':');
        push_groups(s, v, lo + 1, hi);
        assert(final(s)@ =~= old(s)@ + groups_text(v, lo as int, hi as int));
    }
}

/// Formats a packed v6 address as its canonical text.
pub fn ipv6_string(v: u128) -> (s: String)
    ensures
        s@ == ipv6_text(v),
{
    let mut s = String::new();
    match best_zero_run_exec(v, 0) {
        None => {
            push_groups(&mut s, v, 0, 8);
        },
        Some((st, l)) => {
            push_groups(&mut s, v, 0, st);
            push_char(&mut s, ':');
            push_char(&mut s, ':');
            push_groups(&mut s, v, st + l, 8);
        },
    }
    assert(s@ =~= ipv6_text(v));
    s
}

/// Length of the run of hex digits starting at `i`.
pub open spec fn hex_run(s: Seq<char>, i: int) -> int
    decreases s.len() - i when 0 <= i <= s.len()
{
    if i >= s.len() || !is_hex(s[i]) {
        0
    } else {
        1 + hex_run(s, i + 1)
    }
}

fn hex_run_exec(s: &str, n: usize, i: usize) -> (r: usize)
    requires
        n == s@.len(),
        i <= n,
    ensures
        r == hex_run(s@, i as int),
        i + r <= n,
    decreases n - i,
{
    if i == n {
        0
    } else {
        let c = s.get_char(i);
        if is_hex_exec(c) {
            1 + hex_run_exec(s, n, i + 1)
        } else {
            0
        }
    }
}

/// One 16-bit group of a v6 literal: one to four hex digits, leading
/// zeros allowed. Yields the value and the position after it.
pub open spec fn spec_parse_hex_group(s: Seq<char>, i: int) -> Option<(u16, int)> {
    let r = hex_run(s, i);
    if r == 1 {
        Some((hex_val(s[i]) as u16, i + 1))
    } else if r == 2 {
        Some(((hex_val(s[i]) * 16 + hex_val(s[i + 1])) as u16, i + 2))
    } else if r == 3 {
        Some(((hex_val(s[i]) * 256 + hex_val(s[i + 1]) * 16 + hex_val(s[i + 2])) as u16, i + 3))
    } else if r == 4 {
        Some(
            ((hex_val(s[i]) * 4096 + hex_val(s[i + 1]) * 256 + hex_val(s[i + 2]) * 16 + hex_val(
                s[i + 3],
            )) as u16, i + 4),
        )
    } else {
        None
    }
}

pub open spec fn hex_group_result(r: Option<(u16, usize)>) -> Option<(u16, int)> {
    match r {
        Some((v, j)) => Some((v, j as int)),
        None => None,
    }
}

fn parse_hex_group(s: &str, n: usize, i: usize) -> (r: Option<(u16, usize)>)
    requires
        n == s@.len(),
        i <= n,
    ensures
        hex_group_result(r) == spec_parse_hex_group(s@, i as int),
        r matches Some((_, j)) ==> i < j <= n,
{
    let run = hex_run_exec(s, n, i);
    if run == 1 {
        let c0 = s.get_char(i);
        Some((hex_val_exec(c0) as u16, i + 1))
    } else if run == 2 {
        assert(hex_run(s@, i as int + 1) == 1);
        let c0 = s.get_char(i);
        let c1 = s.get_char(i + 1);
        Some((hex_val_exec(c0) as u16 * 16 + hex_val_exec(c1) as u16, i + 2))
    } else if run == 3 {
        assert(hex_run(s@, i as int + 1) == 2);
        assert(hex_run(s@, i as int + 2) == 1);
        let c0 = s.get_char(i);
        let c1 = s.get_char(i + 1);
        let c2 = s.get_char(i + 2);
        Some(
            (
                hex_val_exec(c0) as u16 * 256 + hex_val_exec(c1) as u16 * 16 + hex_val_exec(
                    c2,
                ) as u16,
                i + 3,
            ),
        )
    } else if run == 4 {
        assert(hex_run(s@, i as int + 1) == 3);
        assert(hex_run(s@, i as int + 2) == 2);
        assert(hex_run(s@, i as int + 3) == 1);
        let c0 = s.get_char(i);
        let c1 = s.get_char(i + 1);
        let c2 = s.get_char(i + 2);
        let c3 = s.get_char(i + 3);
        Some(
            (
                hex_val_exec(c0) as u16 * 4096 + hex_val_exec(c1) as u16 * 256 + hex_val_exec(
                    c2,
                ) as u16 * 16 + hex_val_exec(c3) as u16,
                i + 4,
            ),
        )
    } else {
        None
    }
}

} // verus!

verus! {

/// Parses a colon-separated list of up to `max` groups starting at `i`.
/// When at least two slots remain, an embedded trailing v4 literal may
/// stand in place of a group and fills two; the list ends there. Yields
/// the groups, the position after the last one parsed (a separator that
/// is not followed by a group stays unconsumed), and whether the list
/// ended with an embedded v4 literal.
pub open spec fn spec_parse_groups(s: Seq<char>, i: int, first: bool, max: int) -> (Seq<u16>, int, bool)
    decreases max, 1int,
{
    if max <= 0 {
        (Seq::empty(), i, false)
    } else {
        let sep_ok = first || (i < s.len() && s[i] == ':');
        let j = if first {
            i
        } else {
            i + 1
        };
        if !sep_ok {
            (Seq::empty(), i, false)
        } else if max >= 2 {
            match spec_parse_ipv4_at(s, j) {
                Some((v4, k)) => (
                    seq![((v4 as int / 0x10000) as u16), ((v4 as int % 0x10000) as u16)],
                    k,
                    true,
                ),
                None => spec_parse_groups_hex(s, i, j, max),
            }
        } else {
            spec_parse_groups_hex(s, i, j, max)
        }
    }
}

/// The hex-group arm of `spec_parse_groups`.
pub open spec fn spec_parse_groups_hex(s: Seq<char>, i: int, j: int, max: int) -> (Seq<u16>, int, bool)
    decreases max, 0int,
{
    if max <= 0 {
        (Seq::empty(), i, false)
    } else {
        match spec_parse_hex_group(s, j) {
            Some((g, k)) => {
                let (rest, k2, tail4) = spec_parse_groups(s, k, false, max - 1);
                (seq![g] + rest, k2, tail4)
            },
            None => (Seq::empty(), i, false),
        }
    }
}

pub open spec fn groups_result(r: (Vec<u16>, usize, bool)) -> (Seq<u16>, int, bool) {
    (r.0@, r.1 as int, r.2)
}

fn parse_groups(s: &str, n: usize, i: usize, first: bool, max: usize) -> (r: (Vec<u16>, usize, bool))
    requires
        n == s@.len(),
        i <= n,
        max <= 8,
    ensures
        groups_result(r) == spec_parse_groups(s@, i as int, first, max as int),
        i <= r.1 <= n,
        r.0@.len() <= max,
    decreases max,
{
    if max == 0 {
        let empty: Vec<u16> = Vec::new();
        assert(empty@ =~= Seq::<u16>::empty());
        return (empty, i, false);
    }
    let sep_ok = first || (i < n && s.get_char(i) == ':');
    if !sep_ok {
        return (Vec::new(), i, false);
    }
    let j = if first {
        i
    } else {
        i + 1
    };
    if max >= 2 {
        if let Some((v4, k)) = parse_ipv4_at(s, n, j) {
            let hi = (v4 / 0x10000) as u16;
            let lo = (v4 % 0x10000) as u16;
            let mut g: Vec<u16> = Vec::new();
            g.push(hi);
            g.push(lo);
            assert(g@ =~= seq![((v4 as int / 0x10000) as u16), ((v4 as int % 0x10000) as u16)]);
            return (g, k, true);
        }
    }
    match parse_hex_group(s, n, j) {
        Some((g0, k)) => {
            let (mut rest, k2, tail4) = parse_groups(s, n, k, false, max - 1);
            rest.insert(0, g0);
            assert(rest@ =~= seq![g0] + rest@.subrange(1, rest@.len() as int));
            (rest, k2, tail4)
        },
        None => (Vec::new(), i, false),
    }
}

/// `k` zero groups.
pub open spec fn zero_groups(k: int) -> Seq<u16> {
    Seq::new(k as nat, |x: int| 0u16)
}

/// The packed value of a whole v6 literal, or nothing. Without `::`
/// exactly eight groups must be present; with one `::`, head and tail
/// together hold at most seven and the gap is filled with zero groups.
pub open spec fn ipv6_from_text(s: Seq<char>) -> Option<u128> {
    let (head, i, headv4) = spec_parse_groups(s, 0, true, 8);
    if head.len() == 8 {
        if i == s.len() {
            Some(ipv6_of_groups(head) as u128)
        } else {
            None
        }
    } else if headv4 {
        None
    } else if i + 1 < s.len() && s[i] == ':' && s[i + 1] == ':' {
        let (tail, i2, _) = spec_parse_groups(s, i + 2, true, 7 - head.len());
        if i2 == s.len() {
            Some(ipv6_of_groups(head + zero_groups(8 - head.len() - tail.len()) + tail) as u128)
        } else {
            None
        }
    } else {
        None
    }
}

/// Parses a whole v6 literal.
pub fn parse_ipv6(s: &str) -> (r: Option<u128>)
    ensures
        r == ipv6_from_text(s@),
{
    let n = s.unicode_len();
    let (head, i, headv4) = parse_groups(s, n, 0, true, 8);
    if head.len() == 8 {
        if i == n {
            Some(groups_value(&head))
        } else {
            None
        }
    } else if headv4 {
        None
    } else if i < n && i + 1 < n && s.get_char(i) == ':' && s.get_char(i + 1) == ':' {
        let max2: usize = 7 - head.len();
        let (tail, i2, _) = parse_groups(s, n, i + 2, true, max2);
        if i2 == n {
            let ghost full = head@ + zero_groups(8 - head@.len() - tail@.len()) + tail@;
            let zeros: usize = 8 - head.len() - tail.len();
            let ghost head0 = head@;
            let mut all = head;
            let mut z: usize = 0;
            while z < zeros
                invariant
                    z <= zeros,
                    all@ =~= head0 + zero_groups(z as int),
                decreases zeros - z,
            {
                all.push(0u16);
                z = z + 1;
            }
            let mut t: usize = 0;
            while t < tail.len()
                invariant
                    t <= tail@.len(),
                    all@ =~= head0 + zero_groups(zeros as int) + tail@.subrange(0, t as int),
                decreases tail@.len() - t,
            {
                all.push(tail[t]);
                t = t + 1;
            }
            assert(all@ =~= full);
            Some(groups_value(&all))
        } else {
            None
        }
    } else {
        None
    }
}

} // verus!

verus! {

/// The canonical text of an address, v4 or v6.
pub open spec fn ip_text(ip: IpAddress) -> Seq<char> {
    match ip {
        IpAddress::V4(v) => ipv4_text(v),
        IpAddress::V6(v) => ipv6_text(v),
    }
}

/// Formats an address as its canonical text.
pub fn ip_to_string(ip: &IpAddress) -> (s: String)
    ensures
        s@ == ip_text(*ip),
{
    match ip {
        IpAddress::V4(v) => ipv4_string(*v),
        IpAddress::V6(v) => ipv6_string(*v),
    }
}

/// What an address literal means: a v4 literal where one parses, else a
/// v6 literal where one parses, else nothing.
pub open spec fn ip_from_text(s: Seq<char>) -> Option<IpAddress> {
    match ipv4_from_text(s) {
        Some(v) => Some(IpAddress::V4(v)),
        None => match ipv6_from_text(s) {
            Some(w) => Some(IpAddress::V6(w)),
            None => None,
        },
    }
}

/// Parses an address literal, v4 or v6.
pub fn parse_ip_literal(s: &str) -> (r: Option<IpAddress>)
    ensures
        r == ip_from_text(s@),
{
    match parse_ipv4(s) {
        Some(v) => Some(IpAddress::V4(v)),
        None => match parse_ipv6(s) {
            Some(w) => Some(IpAddress::V6(w)),
            None => None,
        },
    }
}

pub open spec fn is_ascii_ws(c: char) -> bool {
    c == ' ' || c == '\t' || c == '\n' || c == '\r'
}

/// First index at or after `i` that does not hold whitespace.
pub open spec fn ws_start(s: Seq<char>, i: int) -> int
    decreases s.len() - i when 0 <= i <= s.len()
{
    if i >= s.len() || !is_ascii_ws(s[i]) {
        i
    } else {
        ws_start(s, i + 1)
    }
}

/// First position at or before `j` with no whitespace just before it.
pub open spec fn ws_end(s: Seq<char>, j: int) -> int
    decreases j when 0 <= j <= s.len()
{
    if j <= 0 || !is_ascii_ws(s[j - 1]) {
        j
    } else {
        ws_end(s, j - 1)
    }
}

/// The input with leading and trailing ASCII whitespace removed.
pub open spec fn trimmed(s: Seq<char>) -> Seq<char> {
    let a = ws_start(s, 0);
    let b = ws_end(s, s.len() as int);
    if a >= b {
        Seq::empty()
    } else {
        s.subrange(a, b)
    }
}

fn ws_start_exec(s: &str, n: usize, i: usize) -> (r: usize)
    requires
        n == s@.len(),
        i <= n,
    ensures
        r as int == ws_start(s@, i as int),
        i <= r <= n,
    decreases n - i,
{
    if i >= n {
        i
    } else {
        let c = s.get_char(i);
        if c == ' ' || c == '\t' || c == '\n' || c == '\r' {
            ws_start_exec(s, n, i + 1)
        } else {
            i
        }
    }
}

fn ws_end_exec(s: &str, n: usize, j: usize) -> (r: usize)
    requires
        n == s@.len(),
        j <= n,
    ensures
        r as int == ws_end(s@, j as int),
        r <= j,
    decreases j,
{
    if j == 0 {
        j
    } else {
        let c = s.get_char(j - 1);
        if c == ' ' || c == '\t' || c == '\n' || c == '\r' {
            ws_end_exec(s, n, j - 1)
        } else {
            j
        }
    }
}

/// Removes leading and trailing ASCII whitespace.
pub fn trim_ascii_ws(s: &str) -> (r: &str)
    ensures
        r@ == trimmed(s@),
{
    let n = s.unicode_len();
    let a = ws_start_exec(s, n, 0);
    let b = ws_end_exec(s, n, n);
    if a >= b {
        let r = s.substring_char(0, 0);
        assert(r@ =~= trimmed(s@));
        r
    } else {
        s.substring_char(a, b)
    }
}

/// First index at or after `i` that does not hold a double quote.
pub open spec fn quote_start(s: Seq<char>, i: int) -> int
    decreases s.len() - i when 0 <= i <= s.len()
{
    if i >= s.len() || s[i] != '"' {
        i
    } else {
        quote_start(s, i + 1)
    }
}

/// First position at or before `j` with no double quote just before it.
pub open spec fn quote_end(s: Seq<char>, j: int) -> int
    decreases j when 0 <= j <= s.len()
{
    if j <= 0 || s[j - 1] != '"' {
        j
    } else {
        quote_end(s, j - 1)
    }
}

/// The input with all leading and trailing double quotes removed.
pub open spec fn quote_trimmed(s: Seq<char>) -> Seq<char> {
    let a = quote_start(s, 0);
    let b = quote_end(s, s.len() as int);
    if a >= b {
        Seq::empty()
    } else {
        s.subrange(a, b)
    }
}

fn quote_start_exec(s: &str, n: usize, i: usize) -> (r: usize)
    requires
        n == s@.len(),
        i <= n,
    ensures
        r as int == quote_start(s@, i as int),
        i <= r <= n,
    decreases n - i,
{
    if i >= n {
        i
    } else if s.get_char(i) == '"' {
        quote_start_exec(s, n, i + 1)
    } else {
        i
    }
}

fn quote_end_exec(s: &str, n: usize, j: usize) -> (r: usize)
    requires
        n == s@.len(),
        j <= n,
    ensures
        r as int == quote_end(s@, j as int),
        r <= j,
    decreases j,
{
    if j == 0 {
        j
    } else if s.get_char(j - 1) == '"' {
        quote_end_exec(s, n, j - 1)
    } else {
        j
    }
}

/// Removes all leading and trailing double quotes.
pub fn trim_quotes(s: &str) -> (r: &str)
    ensures
        r@ == quote_trimmed(s@),
{
    let n = s.unicode_len();
    let a = quote_start_exec(s, n, 0);
    let b = quote_end_exec(s, n, n);
    if a >= b {
        let r = s.substring_char(0, 0);
        assert(r@ =~= quote_trimmed(s@));
        r
    } else {
        s.substring_char(a, b)
    }
}

} // verus!

verus! {

/// Whether the list holds the given address.
pub fn address_list_contains(ips: &Vec<IpAddress>, ip: &IpAddress) -> (r: bool)
    ensures
        r == ips@.contains(*ip),
{
    let mut i: usize = 0;
    while i < ips.len()
        invariant
            i <= ips@.len(),
            forall|k: int| 0 <= k < i ==> ips@[k] != *ip,
        decreases ips@.len() - i,
    {
        if ips[i] == *ip {
            return true;
        }
        i = i + 1;
    }
    proof {
        assert(!ips@.contains(*ip));
    }
    false
}

} // verus!

verus! {

/// Appends one byte read as a character.
pub fn push_ascii_char(s: &mut String, b: u8)
    ensures
        final(s)@ == old(s)@.push(b as char),
{
    push_char(s, b as char)
}

} // verus!

verus! {

use vstd::arithmetic::div_mod::{lemma_div_denominator, lemma_fundamental_div_mod};

proof fn lemma_dec_char_props(d: int)
    requires
        0 <= d <= 9,
    ensures
        is_dec(dec_char(d)),
        dec_val(dec_char(d)) == d,
        d != 0 ==> dec_char(d) != '0',
{
}

proof fn lemma_dec_digits_shape(n: int)
    requires
        0 <= n <= 255,
    ensures
        n < 10 ==> dec_digits(n) =~= seq![dec_char(n)],
        10 <= n < 100 ==> dec_digits(n) =~= seq![dec_char(n / 10), dec_char(n % 10)],
        100 <= n ==> dec_digits(n) =~= seq![
            dec_char(n / 100),
            dec_char((n / 10) % 10),
            dec_char(n % 10),
        ],
{
    if 10 <= n && n < 100 {
        assert(dec_digits(n / 10) =~= seq![dec_char(n / 10)]);
    } else if 100 <= n {
        lemma_div_denominator(n, 10, 10);
        assert(1 <= n / 100 <= 9);
        assert(dec_digits(n / 10 / 10) =~= seq![dec_char(n / 100)]);
        assert(dec_digits(n / 10) =~= seq![dec_char(n / 100), dec_char((n / 10) % 10)]);
    }
}

proof fn lemma_parse_octet_canonical(s: Seq<char>, i: int, n: int)
    requires
        0 <= n <= 255,
        0 <= i,
        i + dec_digits(n).len() <= s.len(),
        s.subrange(i, i + dec_digits(n).len() as int) =~= dec_digits(n),
        i + dec_digits(n).len() == s.len() || !is_dec(s[i + dec_digits(n).len()]),
    ensures
        spec_parse_octet(s, i) == Some((n, i + dec_digits(n).len() as int)),
{
    lemma_dec_digits_shape(n);
    let l = dec_digits(n).len() as int;
    assert(forall|k: int| 0 <= k < l ==> s[i + k] == #[trigger] dec_digits(n)[k]) by {
        assert(forall|k: int|
            0 <= k < l ==> s.subrange(i, i + l)[k] == #[trigger] dec_digits(n)[k]);
        assert(forall|k: int| 0 <= k < l ==> #[trigger] s.subrange(i, i + l)[k] == s[i + k]);
    }
    assert(dec_run(s, i + l) == 0);
    if n < 10 {
        lemma_dec_char_props(n);
        assert(dec_digits(n)[0] == dec_char(n));
        assert(s[i + 0] == dec_digits(n)[0]);
        assert(s[i] == dec_char(n));
        assert(dec_run(s, i) == 1);
        if s[i] == '0' {
            assert(n == 0);
        }
    } else if n < 100 {
        lemma_fundamental_div_mod(n, 10);
        lemma_dec_char_props(n / 10);
        lemma_dec_char_props(n % 10);
        assert(s[i + 0] == dec_digits(n)[0] && s[i + 1] == dec_digits(n)[1]);
        assert(s[i] == dec_char(n / 10) && s[i + 1] == dec_char(n % 10));
        assert(dec_run(s, i + 1) == 1);
        assert(dec_run(s, i) == 2);
        assert(s[i] != '0');
        assert(dec_val(s[i]) * 10 + dec_val(s[i + 1]) == n);
    } else {
        lemma_fundamental_div_mod(n, 10);
        lemma_fundamental_div_mod(n / 10, 10);
        lemma_div_denominator(n, 10, 10);
        lemma_dec_char_props(n / 100);
        lemma_dec_char_props((n / 10) % 10);
        lemma_dec_char_props(n % 10);
        assert(s[i + 0] == dec_digits(n)[0] && s[i + 1] == dec_digits(n)[1] && s[i + 2]
            == dec_digits(n)[2]);
        assert(s[i] == dec_char(n / 100) && s[i + 1] == dec_char((n / 10) % 10) && s[i + 2]
            == dec_char(n % 10));
        assert(dec_run(s, i + 2) == 1);
        assert(dec_run(s, i + 1) == 2);
        assert(dec_run(s, i) == 3);
        assert(s[i] != '0');
        assert(dec_val(s[i]) * 100 + dec_val(s[i + 1]) * 10 + dec_val(s[i + 2]) == n);
    }
}

/// The canonical dotted-decimal text of a v4 address always parses back
/// to the very address it was written from.
pub proof fn lemma_ipv4_text_parses(v: u32)
    ensures
        ipv4_from_text(ipv4_text(v)) == Some(v),
{
    let o0 = ipv4_octet(v, 0);
    let o1 = ipv4_octet(v, 1);
    let o2 = ipv4_octet(v, 2);
    let o3 = ipv4_octet(v, 3);
    lemma_fundamental_div_mod(v as int, 0x100_0000);
    lemma_fundamental_div_mod(v as int, 0x1_0000);
    lemma_fundamental_div_mod(v as int, 0x100);
    assert(0 <= o0 <= 255 && 0 <= o1 <= 255 && 0 <= o2 <= 255 && 0 <= o3 <= 255);

    let ta = dec_digits(o0);
    let tb = dec_digits(o1);
    let tc = dec_digits(o2);
    let td = dec_digits(o3);
    lemma_dec_digits_shape(o0);
    lemma_dec_digits_shape(o1);
    lemma_dec_digits_shape(o2);
    lemma_dec_digits_shape(o3);
    let la = ta.len() as int;
    let lb = tb.len() as int;
    let lc = tc.len() as int;
    let ld = td.len() as int;
    let s = ipv4_text(v);
    assert(s.len() == la + 1 + lb + 1 + lc + 1 + ld);
    let ib = la + 1;
    let ic = ib + lb + 1;
    let id = ic + lc + 1;
    assert(s[la] == '.' && s[ib + lb] == '.' && s[ic + lc] == '.');
    assert(!is_dec('.'));

    assert(s.subrange(0, la) =~= ta);
    lemma_parse_octet_canonical(s, 0, o0);
    assert(s.subrange(ib, ib + lb) =~= tb);
    lemma_parse_octet_canonical(s, ib, o1);
    assert(s.subrange(ic, ic + lc) =~= tc);
    lemma_parse_octet_canonical(s, ic, o2);
    assert(s.subrange(id, id + ld) =~= td);
    lemma_parse_octet_canonical(s, id, o3);

    lemma_fundamental_div_mod(v as int / 0x100, 0x100);
    lemma_div_denominator(v as int, 0x100, 0x100);
    lemma_fundamental_div_mod(v as int / 0x1_0000, 0x100);
    lemma_div_denominator(v as int, 0x1_0000, 0x100);
    assert(ipv4_of_octets(o0, o1, o2, o3) == v as int);
    assert(spec_parse_ipv4_at(s, 0) == Some((v, s.len() as int)));
}

} // verus!

verus! {

proof fn lemma_hex_char_props(d: int)
    requires
        0 <= d < 16,
    ensures
        is_hex(hex_char(d)),
        hex_val(hex_char(d)) == d,
{
    if d < 10 {
        lemma_dec_char_props(d);
    }
}

proof fn lemma_hex_digits_shape(n: int)
    requires
        0 <= n <= 0xffff,
    ensures
        n < 16 ==> hex_digits(n) =~= seq![hex_char(n)],
        16 <= n < 256 ==> hex_digits(n) =~= seq![hex_char(n / 16), hex_char(n % 16)],
        256 <= n < 4096 ==> hex_digits(n) =~= seq![
            hex_char(n / 256),
            hex_char((n / 16) % 16),
            hex_char(n % 16),
        ],
        4096 <= n ==> hex_digits(n) =~= seq![
            hex_char(n / 4096),
            hex_char((n / 256) % 16),
            hex_char((n / 16) % 16),
            hex_char(n % 16),
        ],
    decreases n,
{
    if n >= 16 {
        lemma_hex_digits_shape(n / 16);
        lemma_div_denominator(n, 16, 16);
        lemma_div_denominator(n, 16, 256);
        assert(n / 16 / 16 == n / 256);
        assert(n / 16 / 256 == n / 4096);
    }
}

proof fn lemma_parse_hex_group_canonical(s: Seq<char>, i: int, n: int)
    requires
        0 <= n <= 0xffff,
        0 <= i,
        i + hex_digits(n).len() <= s.len(),
        s.subrange(i, i + hex_digits(n).len() as int) =~= hex_digits(n),
        i + hex_digits(n).len() == s.len() || !is_hex(s[i + hex_digits(n).len()]),
    ensures
        spec_parse_hex_group(s, i) == Some((n as u16, i + hex_digits(n).len() as int)),
{
    lemma_hex_digits_shape(n);
    let l = hex_digits(n).len() as int;
    assert(forall|k: int| 0 <= k < l ==> s[i + k] == #[trigger] hex_digits(n)[k]) by {
        assert(forall|k: int|
            0 <= k < l ==> s.subrange(i, i + l)[k] == #[trigger] hex_digits(n)[k]);
        assert(forall|k: int| 0 <= k < l ==> #[trigger] s.subrange(i, i + l)[k] == s[i + k]);
    }
    assert(hex_run(s, i + l) == 0);
    if n < 16 {
        lemma_hex_char_props(n);
        assert(s[i + 0] == hex_digits(n)[0]);
        assert(hex_run(s, i) == 1);
    } else if n < 256 {
        lemma_fundamental_div_mod(n, 16);
        lemma_hex_char_props(n / 16);
        lemma_hex_char_props(n % 16);
        assert(s[i + 0] == hex_digits(n)[0] && s[i + 1] == hex_digits(n)[1]);
        assert(hex_run(s, i + 1) == 1);
        assert(hex_run(s, i) == 2);
        assert(hex_val(s[i]) * 16 + hex_val(s[i + 1]) == n);
    } else if n < 4096 {
        lemma_fundamental_div_mod(n, 16);
        lemma_fundamental_div_mod(n / 16, 16);
        lemma_div_denominator(n, 16, 16);
        lemma_hex_char_props(n / 256);
        lemma_hex_char_props((n / 16) % 16);
        lemma_hex_char_props(n % 16);
        assert(s[i + 0] == hex_digits(n)[0] && s[i + 1] == hex_digits(n)[1] && s[i + 2]
            == hex_digits(n)[2]);
        assert(hex_run(s, i + 2) == 1);
        assert(hex_run(s, i + 1) == 2);
        assert(hex_run(s, i) == 3);
        assert(hex_val(s[i]) * 256 + hex_val(s[i + 1]) * 16 + hex_val(s[i + 2]) == n);
    } else {
        lemma_fundamental_div_mod(n, 16);
        lemma_fundamental_div_mod(n / 16, 16);
        lemma_fundamental_div_mod(n / 256, 16);
        lemma_div_denominator(n, 16, 16);
        lemma_div_denominator(n, 16, 256);
        lemma_hex_char_props(n / 4096);
        lemma_hex_char_props((n / 256) % 16);
        lemma_hex_char_props((n / 16) % 16);
        lemma_hex_char_props(n % 16);
        assert(s[i + 0] == hex_digits(n)[0] && s[i + 1] == hex_digits(n)[1] && s[i + 2]
            == hex_digits(n)[2] && s[i + 3] == hex_digits(n)[3]);
        assert(hex_run(s, i + 3) == 1);
        assert(hex_run(s, i + 2) == 2);
        assert(hex_run(s, i + 1) == 3);
        assert(hex_run(s, i) == 4);
        assert(hex_val(s[i]) * 4096 + hex_val(s[i + 1]) * 256 + hex_val(s[i + 2]) * 16 + hex_val(
            s[i + 3],
        ) == n);
    }
}

} // verus!

verus! {

/// Only hex digits and colons: the alphabet of a canonical v6 text.
pub open spec fn hex_colon_only(s: Seq<char>) -> bool {
    forall|k: int| 0 <= k < s.len() ==> is_hex(#[trigger] s[k]) || s[k] == ':'
}

proof fn lemma_hex_digits_chars(n: int)
    requires
        0 <= n,
    ensures
        forall|k: int| 0 <= k < hex_digits(n).len() ==> is_hex(#[trigger] hex_digits(n)[k]),
    decreases n,
{
    if n < 16 {
        lemma_hex_char_props(n);
    } else {
        lemma_hex_digits_chars(n / 16);
        lemma_hex_char_props(n % 16);
        assert(hex_digits(n) =~= hex_digits(n / 16).push(hex_char(n % 16)));
        assert(forall|k: int|
            0 <= k < hex_digits(n / 16).len() ==> #[trigger] hex_digits(n)[k] == hex_digits(
                n / 16,
            )[k]);
    }
}

proof fn lemma_groups_text_chars(v: u128, lo: int, hi: int)
    requires
        0 <= lo <= hi <= 8,
    ensures
        forall|k: int|
            0 <= k < groups_text(v, lo, hi).len() ==> is_hex(#[trigger] groups_text(v, lo, hi)[k])
                || groups_text(v, lo, hi)[k] == ':',
    decreases hi - lo,
{
    if lo < hi {
        lemma_hex_digits_chars(ipv6_group(v, lo));
        let hd = hex_digits(ipv6_group(v, lo));
        let t = groups_text(v, lo, hi);
        if lo + 1 == hi {
            assert(t =~= hd);
            assert(forall|k: int| 0 <= k < t.len() ==> #[trigger] t[k] == hd[k]);
        } else {
            lemma_groups_text_chars(v, lo + 1, hi);
            let rest = groups_text(v, lo + 1, hi);
            assert forall|k: int|
                0 <= k < t.len() implies is_hex(#[trigger] t[k]) || t[k] == ':' by {
                if k < hd.len() {
                    assert(t[k] == hd[k]);
                } else if k == hd.len() {
                    assert(t[k] == ':');
                } else {
                    assert(t[k] == rest[k - hd.len() - 1]);
                }
            }
        }
    }
}

proof fn lemma_ipv6_text_chars(v: u128)
    ensures
        hex_colon_only(ipv6_text(v)),
{
    lemma_groups_text_chars(v, 0, 8);
    match best_zero_run(v, 0) {
        None => {},
        Some((s0, l0)) => {
            lemma_best_run_props(v, 0);
            lemma_groups_text_chars(v, 0, s0);
            lemma_groups_text_chars(v, s0 + l0, 8);
        },
    }
}

/// In text made of hex digits and colons no v4 literal can start: the
/// dot an octet must be followed by never comes.
proof fn lemma_no_v4_in_hex_text(s: Seq<char>, j: int)
    requires
        hex_colon_only(s),
        0 <= j <= s.len(),
    ensures
        spec_parse_ipv4_at(s, j) is None,
{
    assert(!is_hex('.') && '.' != ':');
    match spec_parse_octet(s, j) {
        None => {},
        Some((_, k)) => {
            if k < s.len() {
                assert(is_hex(s[k]) || s[k] == ':');
            }
        },
    }
}

proof fn lemma_best_run_props(v: u128, i: int)
    requires
        0 <= i <= 8,
    ensures
        best_zero_run(v, i) matches Some((s0, l0)) ==> i <= s0 && s0 + l0 <= 8 && 2 <= l0 && l0
            == zero_run_at(v, s0),
    decreases 8 - i,
{
    if i < 8 {
        lemma_best_run_props(v, i + 1);
        lemma_zero_run_len(v, i);
    }
}

proof fn lemma_zero_run_len(v: u128, i: int)
    requires
        0 <= i <= 8,
    ensures
        0 <= zero_run_at(v, i) <= 8 - i,
    decreases 8 - i,
{
    if i < 8 && ipv6_group(v, i) == 0 {
        lemma_zero_run_len(v, i + 1);
    }
}

proof fn lemma_zero_run_zeros(v: u128, i: int, k: int)
    requires
        0 <= i <= k,
        k < i + zero_run_at(v, i),
        k <= 8,
    ensures
        ipv6_group(v, k) == 0,
    decreases k - i,
{
    lemma_zero_run_len(v, i);
    if k > i {
        lemma_zero_run_zeros(v, i + 1, k);
    }
}

} // verus!

verus! {

/// The 16-bit groups `lo..hi` of a packed v6 address.
pub open spec fn group_seq(v: u128, lo: int, hi: int) -> Seq<u16>
    recommends
        0 <= lo <= hi <= 8,
{
    Seq::new((hi - lo) as nat, |k: int| (ipv6_group(v, lo + k) as u16))
}

proof fn lemma_parse_groups_text(
    v: u128,
    lo: int,
    hi: int,
    s: Seq<char>,
    i: int,
    first: bool,
    max: int,
)
    requires
        0 <= lo < hi <= 8,
        hi - lo <= max,
        max <= 8,
        hex_colon_only(s),
        0 <= i,
        !first ==> i < s.len() && s[i] == ':',
        ({
            let off: int = if first {
                0
            } else {
                1
            };
            &&& i + off + groups_text(v, lo, hi).len() <= s.len()
            &&& s.subrange(i + off, i + off + groups_text(v, lo, hi).len() as int) =~= groups_text(
                v,
                lo,
                hi,
            )
            &&& ({
                let e = i + off + groups_text(v, lo, hi).len() as int;
                e == s.len() || (e + 1 < s.len() && s[e] == ':' && s[e + 1] == ':')
            })
        }),
    ensures
        ({
            let off: int = if first {
                0
            } else {
                1
            };
            spec_parse_groups(s, i, first, max) == (
                group_seq(v, lo, hi),
                i + off + groups_text(v, lo, hi).len() as int,
                false,
            )
        }),
    decreases hi - lo,
{
    let off: int = if first {
        0
    } else {
        1
    };
    let j = i + off;
    let g = ipv6_group(v, lo);
    let hd = hex_digits(g);
    let t = groups_text(v, lo, hi);
    let e = j + t.len() as int;
    assert(forall|k: int| 0 <= k < t.len() ==> s[j + k] == #[trigger] t[k]) by {
        assert(forall|k: int| 0 <= k < t.len() ==> s.subrange(j, e)[k] == #[trigger] t[k]);
        assert(forall|k: int| 0 <= k < t.len() ==> #[trigger] s.subrange(j, e)[k] == s[j + k]);
    }
    lemma_no_v4_in_hex_text(s, j);
    assert(0 <= g <= 0xffff);
    let k1 = j + hd.len() as int;
    if lo + 1 == hi {
        assert(t =~= hd);
        assert(s.subrange(j, k1) =~= hd) by {
            assert(forall|k: int| 0 <= k < hd.len() ==> #[trigger] s.subrange(j, k1)[k] == s[j
                + k]);
        }
        assert(k1 == e);
        if e < s.len() {
            assert(s[e] == ':');
            assert(!is_hex(s[e]));
        }
        lemma_parse_hex_group_canonical(s, j, g);
        if max - 1 > 0 && e < s.len() {
            lemma_no_v4_in_hex_text(s, e + 1);
            assert(s[e + 1] == ':');
            assert(hex_run(s, e + 1) == 0);
            assert(spec_parse_groups(s, k1, false, max - 1) == (Seq::<u16>::empty(), k1, false));
        }
        assert(seq![(g as u16)] + Seq::<u16>::empty() =~= group_seq(v, lo, hi));
    } else {
        let rest = groups_text(v, lo + 1, hi);
        assert(t =~= hd + seq![':'] + rest);
        assert(s.subrange(j, k1) =~= hd) by {
            assert(forall|k: int| 0 <= k < hd.len() ==> #[trigger] s.subrange(j, k1)[k] == s[j
                + k]);
            assert(forall|k: int| 0 <= k < hd.len() ==> #[trigger] t[k] == hd[k]);
        }
        assert(t[hd.len() as int] == ':');
        assert(s[k1] == ':');
        assert(!is_hex(s[k1]));
        lemma_parse_hex_group_canonical(s, j, g);
        assert forall|m: int|
            0 <= m < rest.len() implies #[trigger] s.subrange(k1 + 1, k1 + 1 + rest.len() as int)[m]
            == rest[m] by {
            assert(t[hd.len() + 1 + m] == rest[m]);
            assert(s[j + (hd.len() + 1 + m)] == t[hd.len() + 1 + m]);
            assert(k1 + 1 + m == j + (hd.len() + 1 + m));
            assert(s.subrange(k1 + 1, k1 + 1 + rest.len() as int)[m] == s[k1 + 1 + m]);
        }
        assert(s.subrange(k1 + 1, k1 + 1 + rest.len() as int) =~= rest);
        lemma_parse_groups_text(v, lo + 1, hi, s, k1, false, max - 1);
        assert(seq![(g as u16)] + group_seq(v, lo + 1, hi) =~= group_seq(v, lo, hi));
    }
}

} // verus!

verus! {

proof fn lemma_groups_rebuild(v: u128)
    ensures
        ipv6_of_groups(group_seq(v, 0, 8)) == v as int,
{
    let x = v as int;
    lemma_fundamental_div_mod(x, 0x10000);
    lemma_fundamental_div_mod(x / 0x10000, 0x10000);
    lemma_div_denominator(x, 0x10000, 0x10000);
    lemma_fundamental_div_mod(x / 0x1_0000_0000, 0x10000);
    lemma_div_denominator(x, 0x1_0000_0000, 0x10000);
    lemma_fundamental_div_mod(x / 0x1_0000_0000_0000, 0x10000);
    lemma_div_denominator(x, 0x1_0000_0000_0000, 0x10000);
    lemma_fundamental_div_mod(x / 0x1_0000_0000_0000_0000, 0x10000);
    lemma_div_denominator(x, 0x1_0000_0000_0000_0000, 0x10000);
    lemma_fundamental_div_mod(x / 0x1_0000_0000_0000_0000_0000, 0x10000);
    lemma_div_denominator(x, 0x1_0000_0000_0000_0000_0000, 0x10000);
    lemma_fundamental_div_mod(x / 0x1_0000_0000_0000_0000_0000_0000, 0x10000);
    lemma_div_denominator(x, 0x1_0000_0000_0000_0000_0000_0000, 0x10000);
    lemma_fundamental_div_mod(x, 0x1_0000_0000_0000_0000_0000_0000_0000);
    vstd::arithmetic::div_mod::lemma_small_mod(
        (x / 0x1_0000_0000_0000_0000_0000_0000_0000) as nat,
        0x10000 as nat,
    );
    assert(forall|k: int| 0 <= k < 8 ==> #[trigger] group_seq(v, 0, 8)[k] == (ipv6_group(
        v,
        k,
    ) as u16));
    assert(ipv6_of_groups(group_seq(v, 0, 8)) == x);
}

/// The canonical text of a v6 address always parses back to the very
/// address it was written from.
pub proof fn lemma_ipv6_text_parses(v: u128)
    ensures
        ipv6_from_text(ipv6_text(v)) == Some(v),
{
    let s = ipv6_text(v);
    lemma_ipv6_text_chars(v);
    lemma_groups_rebuild(v);
    match best_zero_run(v, 0) {
        None => {
            assert(s == groups_text(v, 0, 8));
            assert(s.subrange(0, s.len() as int) =~= s);
            lemma_parse_groups_text(v, 0, 8, s, 0, true, 8);
        },
        Some((st, l)) => {
            lemma_best_run_props(v, 0);
            let ta = groups_text(v, 0, st);
            let tb = groups_text(v, st + l, 8);
            assert(s == ta + seq![':', ':'] + tb);
            let la = ta.len() as int;
            assert(st <= 6);
            assert(s[la] == ':' && s[la + 1] == ':');
            if st == 0 {
                assert(ta =~= Seq::<char>::empty());
                assert(la == 0);
                lemma_no_v4_in_hex_text(s, 0);
                assert(s[0] == ':');
                assert(!is_hex(s[0]));
                assert(hex_run(s, 0) == 0);
                assert(spec_parse_groups(s, 0, true, 8) == (Seq::<u16>::empty(), 0int, false));
                assert(Seq::<u16>::empty() =~= group_seq(v, 0, 0));
            } else {
                assert forall|k: int| 0 <= k < la implies #[trigger] s.subrange(0, la)[k]
                    == ta[k] by {
                    assert(s.subrange(0, la)[k] == s[k]);
                    assert(s[k] == ta[k]);
                }
                assert(s.subrange(0, la) =~= ta);
                lemma_parse_groups_text(v, 0, st, s, 0, true, 8);
            }
            let (head, i1, h4) = spec_parse_groups(s, 0, true, 8);
            assert(head == group_seq(v, 0, st));
            assert(head.len() == st);
            assert(i1 == la && !h4);
            assert(i1 + 1 < s.len());
            let t0 = st + l;
            let maxt = 7 - st;
            let lb = tb.len() as int;
            assert(s.len() == la + 2 + lb);
            if t0 == 8 {
                assert(tb =~= Seq::<char>::empty());
                assert(la + 2 == s.len());
                assert(dec_run(s, la + 2) == 0);
                assert(spec_parse_octet(s, la + 2) is None);
                assert(spec_parse_ipv4_at(s, la + 2) is None);
                assert(hex_run(s, la + 2) == 0);
                assert(spec_parse_hex_group(s, la + 2) is None);
                assert(spec_parse_groups(s, la + 2, true, maxt) == (
                    Seq::<u16>::empty(),
                    la + 2,
                    false,
                ));
                assert(Seq::<u16>::empty() =~= group_seq(v, 8, 8));
            } else {
                assert forall|k: int| 0 <= k < lb implies #[trigger] s.subrange(
                    la + 2,
                    s.len() as int,
                )[k] == tb[k] by {
                    assert(s.subrange(la + 2, s.len() as int)[k] == s[la + 2 + k]);
                    assert(s[la + 2 + k] == tb[k]);
                }
                assert(s.subrange(la + 2, s.len() as int) =~= tb);
                lemma_parse_groups_text(v, t0, 8, s, la + 2, true, maxt);
            }
            let (tail, i2, _) = spec_parse_groups(s, la + 2, true, maxt);
            assert(tail == group_seq(v, t0, 8));
            assert(i2 == s.len());
            assert(tail.len() == 8 - t0);
            let zcount = 8 - head.len() as int - tail.len() as int;
            assert(zcount == l);
            let combined = head + zero_groups(zcount) + tail;
            assert forall|k: int| 0 <= k < 8 implies #[trigger] combined[k] == group_seq(
                v,
                0,
                8,
            )[k] by {
                if k < st {
                    assert(combined[k] == head[k]);
                } else if k < t0 {
                    assert(combined[k] == zero_groups(zcount)[k - st]);
                    assert(zero_groups(zcount)[k - st] == 0u16);
                    lemma_zero_run_zeros(v, st, k);
                } else {
                    assert(combined[k] == tail[k - t0]);
                }
            }
            assert(combined =~= group_seq(v, 0, 8));
            assert(ipv6_of_groups(combined) == v as int);
        },
    }
}

} // verus!

verus! {

proof fn lemma_dec_run_bound(s: Seq<char>, i: int)
    requires
        0 <= i <= s.len(),
    ensures
        0 <= dec_run(s, i) <= s.len() - i,
    decreases s.len() - i,
{
    if i < s.len() && is_dec(s[i]) {
        lemma_dec_run_bound(s, i + 1);
    }
}

proof fn lemma_dec_run_chars(s: Seq<char>, i: int, m: int)
    requires
        0 <= i <= s.len(),
        0 <= m < dec_run(s, i),
    ensures
        i + m < s.len(),
        is_dec(s[i + m]),
    decreases m,
{
    lemma_dec_run_bound(s, i);
    if m > 0 {
        lemma_dec_run_chars(s, i + 1, m - 1);
    }
}

proof fn lemma_octet_span(s: Seq<char>, i: int)
    requires
        0 <= i <= s.len(),
    ensures
        spec_parse_octet(s, i) matches Some((_, j)) ==> i < j <= s.len() && (forall|p: int|
            i <= p < j ==> is_dec(#[trigger] s[p])),
{
    lemma_dec_run_bound(s, i);
    if spec_parse_octet(s, i) is Some {
        let j = spec_parse_octet(s, i)->Some_0.1;
        assert forall|p: int| i <= p < j implies is_dec(#[trigger] s[p]) by {
            lemma_dec_run_chars(s, i, p - i);
        }
    }
}

proof fn lemma_v4_span(s: Seq<char>, i: int)
    requires
        0 <= i <= s.len(),
    ensures
        spec_parse_ipv4_at(s, i) matches Some((_, j)) ==> i < j <= s.len() && (forall|p: int|
            i <= p < j ==> is_dec(#[trigger] s[p]) || s[p] == '.'),
{
    lemma_octet_span(s, i);
    match spec_parse_octet(s, i) {
        None => {},
        Some((_, i1)) => {
            if i1 < s.len() && s[i1] == '.' {
                lemma_octet_span(s, i1 + 1);
                match spec_parse_octet(s, i1 + 1) {
                    None => {},
                    Some((_, i2)) => {
                        if i2 < s.len() && s[i2] == '.' {
                            lemma_octet_span(s, i2 + 1);
                            match spec_parse_octet(s, i2 + 1) {
                                None => {},
                                Some((_, i3)) => {
                                    if i3 < s.len() && s[i3] == '.' {
                                        lemma_octet_span(s, i3 + 1);
                                    }
                                },
                            }
                        }
                    },
                }
            }
        },
    }
}

proof fn lemma_v6_text_not_v4(v: u128)
    ensures
        ipv4_from_text(ipv6_text(v)) is None,
{
    let s = ipv6_text(v);
    // every v6 text holds a colon: eight groups never fit without one
    let c: int = match best_zero_run(v, 0) {
        None => hex_digits(ipv6_group(v, 0)).len() as int,
        Some((st, l)) => groups_text(v, 0, st).len() as int,
    };
    match best_zero_run(v, 0) {
        None => {
            assert(groups_text(v, 0, 8) == hex_digits(ipv6_group(v, 0)) + seq![':']
                + groups_text(v, 1, 8));
            assert(s[c] == ':');
        },
        Some((st, l)) => {
            assert(s[c] == ':');
        },
    }
    assert(0 <= c < s.len());
    assert(!is_dec(':') && ':' != '.');
    lemma_v4_span(s, 0);
    match spec_parse_ipv4_at(s, 0) {
        None => {},
        Some((_, j)) => {
            if j == s.len() {
                assert(is_dec(s[c]) || s[c] == '.');
            }
        },
    }
}

/// The canonical text of an address always parses back to the very
/// address it was written from, whichever family it belongs to.
pub proof fn lemma_ip_text_parses(ip: IpAddress)
    ensures
        ip_from_text(ip_text(ip)) == Some(ip),
{
    match ip {
        IpAddress::V4(v) => {
            lemma_ipv4_text_parses(v);
        },
        IpAddress::V6(v) => {
            lemma_v6_text_not_v4(v);
            lemma_ipv6_text_parses(v);
        },
    }
}

} // verus!
