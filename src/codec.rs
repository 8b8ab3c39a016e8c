//! Text forms used on the wire: hardware addresses as colon-separated hex,
//! connection UUIDs, and lossily decoded network names.
use vstd::prelude::*;
use vstd::string::*;
use vstd::utf8::*;

verus! {

/// Relies on `String::push`: the character is appended at the end.
pub assume_specification[ String::push ](s: &mut String, ch: char)
    ensures
        final(s)@ == old(s)@.push(ch),
;

/// What `String::from_utf8_lossy` makes of some bytes.
pub uninterp spec fn lossy_utf8(bytes: Seq<u8>) -> Seq<char>;

/// Relies on `String::from_utf8_lossy`: the text depends on the bytes alone,
/// and valid UTF-8 is decoded as it is.
#[verifier::external_body]
fn decode_lossy(bytes: &Vec<u8>) -> (r: String)
    ensures
        r@ == lossy_utf8(bytes@),
        valid_utf8(bytes@) ==> r@ == decode_utf8(bytes@),
{
    String::from_utf8_lossy(bytes).into_owned()
}

/// Decodes a network name, replacing what is not UTF-8.
pub fn decode_ssid(bytes: &Vec<u8>) -> (r: String)
    ensures
        r@ == lossy_utf8(bytes@),
        valid_utf8(bytes@) ==> r@ == decode_utf8(bytes@),
{
    decode_lossy(bytes)
}

/// A hex digit in either case.
pub open spec fn is_hex_char(c: char) -> bool {
    ('0' as u32 <= c as u32 <= '9' as u32) || ('a' as u32 <= c as u32 <= 'f' as u32) || (
    'A' as u32 <= c as u32 <= 'F' as u32)
}

/// The value of a hex digit.
pub open spec fn hex_char_value(c: char) -> nat {
    if '0' as u32 <= c as u32 <= '9' as u32 {
        (c as u32 - '0' as u32) as nat
    } else if 'a' as u32 <= c as u32 <= 'f' as u32 {
        (c as u32 - 'a' as u32 + 10) as nat
    } else {
        (c as u32 - 'A' as u32 + 10) as nat
    }
}

pub open spec fn all_hex(s: Seq<char>) -> bool {
    forall|i: int| 0 <= i < s.len() ==> is_hex_char(#[trigger] s[i])
}

/// The number that the hex digits `s` write.
pub open spec fn hex_value(s: Seq<char>) -> nat
    decreases s.len(),
{
    if s.len() == 0 {
        0
    } else {
        hex_value(s.drop_last()) * 16 + hex_char_value(s.last())
    }
}

/// `f` without its leading `+`, if it has one.
pub open spec fn digits_part(f: Seq<char>) -> Seq<char> {
    if f.len() > 0 && f[0] == '+' {
        f.drop_first()
    } else {
        f
    }
}

/// A byte written as `u8::from_str_radix(_, 16)` reads it: an optional `+`,
/// then at least one hex digit, with a value below 256.
pub open spec fn parse_hex_byte(f: Seq<char>) -> Option<u8> {
    let d = digits_part(f);
    if d.len() > 0 && all_hex(d) && hex_value(d) <= 255 {
        Some(hex_value(d) as u8)
    } else {
        None
    }
}

/// The pieces of `s` between colons; an empty text is one empty piece.
pub open spec fn split_fields(s: Seq<char>) -> Seq<Seq<char>>
    decreases s.len(),
{
    if s.len() == 0 {
        seq![Seq::empty()]
    } else {
        let f = split_fields(s.drop_last());
        if s.last() == ':' {
            f.push(Seq::empty())
        } else {
            f.drop_last().push(f.last().push(s.last()))
        }
    }
}

pub open spec fn option_seq(b: Option<u8>) -> Seq<u8> {
    match b {
        Some(v) => seq![v],
        None => Seq::empty(),
    }
}

/// The bytes of those pieces that read as hex bytes, in order.
pub open spec fn parsed_bytes(fields: Seq<Seq<char>>) -> Seq<u8>
    decreases fields.len(),
{
    if fields.len() == 0 {
        Seq::empty()
    } else {
        parsed_bytes(fields.drop_last()) + option_seq(parse_hex_byte(fields.last()))
    }
}

/// The bytes of a colon-separated hex address; pieces that are not a hex
/// byte are left out.
pub open spec fn bssid_bytes(s: Seq<char>) -> Seq<u8> {
    parsed_bytes(split_fields(s))
}

proof fn lemma_hex_value_prefix(d: Seq<char>, k: int)
    requires
        0 <= k <= d.len(),
    ensures
        hex_value(d.take(k)) <= hex_value(d),
    decreases d.len(),
{
    if k < d.len() {
        assert(d.drop_last().take(k) =~= d.take(k));
        lemma_hex_value_prefix(d.drop_last(), k);
    } else {
        assert(d.take(k) =~= d);
    }
}

fn hex_char_to_value(c: char) -> (r: Option<u8>)
    ensures
        r is Some <==> is_hex_char(c),
        r is Some ==> r->0 as nat == hex_char_value(c),
{
    if '0' <= c && c <= '9' {
        Some((c as u32 - '0' as u32) as u8)
    } else if 'a' <= c && c <= 'f' {
        Some((c as u32 - 'a' as u32 + 10) as u8)
    } else if 'A' <= c && c <= 'F' {
        Some((c as u32 - 'A' as u32 + 10) as u8)
    } else {
        None
    }
}

/// Reads one hex byte as `u8::from_str_radix(_, 16)` does.
pub fn parse_hex_field(f: &Vec<char>) -> (r: Option<u8>)
    ensures
        r == parse_hex_byte(f@),
{
    let n = f.len();
    let mut start: usize = 0;
    if n > 0 && f[0] == '+' {
        start = 1;
    }
    let ghost d = digits_part(f@);
    assert(d =~= f@.subrange(start as int, n as int));
    if start == n {
        return None;
    }
    let mut v: u32 = 0;
    let mut i: usize = start;
    while i < n
        invariant
            start <= i <= n,
            n == f.len(),
            d == f@.subrange(start as int, n as int),
            d == digits_part(f@),
            v as nat == hex_value(d.take(i - start)),
            v <= 255,
            all_hex(d.take(i - start)),
        decreases n - i,
    {
        let ghost k = i - start;
        assert(d.take(k + 1).drop_last() =~= d.take(k));
        assert(d.take(k + 1).last() == f@[i as int]);
        match hex_char_to_value(f[i]) {
            None => {
                assert(d[k] == f@[i as int]);
                assert(!all_hex(d)) by {
                    assert(!is_hex_char(d[k]));
                }
                return None;
            },
            Some(x) => {
                v = v * 16 + x as u32;
                assert(v as nat == hex_value(d.take(k + 1)));
                if v > 255 {
                    proof {
                        lemma_hex_value_prefix(d, k + 1);
                    }
                    return None;
                }
            },
        }
        assert forall|j: int| 0 <= j < k + 1 implies is_hex_char(#[trigger] d.take(k + 1)[j]) by {
            if j < k {
                assert(d.take(k + 1)[j] == d.take(k)[j]);
            }
        }
        i += 1;
    }
    assert(d.take(n - start) =~= d);
    Some(v as u8)
}

/// Turns a colon-separated hex address into its bytes; pieces that are not
/// a hex byte are skipped.
pub fn bssid_to_bytes(bssid: &str) -> (r: Vec<u8>)
    ensures
        r@ == bssid_bytes(bssid@),
{
    let n = bssid.unicode_len();
    let mut out: Vec<u8> = Vec::new();
    let mut cur: Vec<char> = Vec::new();
    let ghost mut fields: Seq<Seq<char>> = Seq::empty();
    let mut i: usize = 0;
    assert(bssid@.take(0) =~= Seq::<char>::empty());
    assert(seq![Seq::<char>::empty()] =~= fields.push(cur@));
    while i < n
        invariant
            i <= n,
            n == bssid@.len(),
            split_fields(bssid@.take(i as int)) == fields.push(cur@),
            out@ == parsed_bytes(fields),
        decreases n - i,
    {
        let c = bssid.get_char(i);
        let ghost s = bssid@.take(i + 1);
        assert(s.drop_last() =~= bssid@.take(i as int));
        assert(fields.push(cur@).drop_last() =~= fields);
        if c == ':' {
            let b = parse_hex_field(&cur);
            assert(parsed_bytes(fields.push(cur@)) == parsed_bytes(fields) + option_seq(b));
            if let Some(v) = b {
                out.push(v);
            }
            proof {
                fields = fields.push(cur@);
            }
            cur = Vec::new();
            assert(out@ =~= parsed_bytes(fields));
            assert(split_fields(s) =~= fields.push(cur@));
        } else {
            cur.push(c);
            assert(split_fields(s) =~= fields.push(cur@));
        }
        i += 1;
    }
    assert(bssid@.take(n as int) =~= bssid@);
    let b = parse_hex_field(&cur);
    assert(fields.push(cur@).drop_last() =~= fields);
    if let Some(v) = b {
        out.push(v);
    }
    assert(out@ =~= bssid_bytes(bssid@));
    out
}

/// The character of the hex digit `n`; `upper` picks the case of letters.
pub open spec fn hex_char(n: nat, upper: bool) -> char {
    if n < 10 {
        (48 + n) as char
    } else if upper {
        (55 + n) as char
    } else {
        (87 + n) as char
    }
}

/// A byte as two hex digits.
pub open spec fn hex_pair(b: u8, upper: bool) -> Seq<char> {
    seq![hex_char(b as nat / 16, upper), hex_char(b as nat % 16, upper)]
}

/// Bytes as upper-case hex pairs joined by colons.
pub open spec fn hex_join(b: Seq<u8>) -> Seq<char>
    decreases b.len(),
{
    if b.len() == 0 {
        Seq::empty()
    } else if b.len() == 1 {
        hex_pair(b[0], true)
    } else {
        hex_join(b.drop_last()) + seq![':'] + hex_pair(b.last(), true)
    }
}

fn hex_digit(n: u8, upper: bool) -> (c: char)
    requires
        n < 16,
    ensures
        c == hex_char(n as nat, upper),
{
    let code: u8 = if n < 10 {
        48 + n
    } else if upper {
        55 + n
    } else {
        87 + n
    };
    code as char
}

fn push_hex(s: &mut String, b: u8, upper: bool)
    ensures
        final(s)@ == old(s)@ + hex_pair(b, upper),
{
    s.push(hex_digit(b / 16, upper));
    s.push(hex_digit(b % 16, upper));
}

/// Writes bytes as a hardware address: upper-case hex pairs joined by colons.
pub fn bssid_from_bytes(bytes: &Vec<u8>) -> (r: String)
    ensures
        r@ == hex_join(bytes@),
{
    let mut s = String::new();
    let mut i: usize = 0;
    while i < bytes.len()
        invariant
            i <= bytes.len(),
            s@ == hex_join(bytes@.take(i as int)),
        decreases bytes.len() - i,
    {
        assert(bytes@.take(i + 1).drop_last() =~= bytes@.take(i as int));
        if i > 0 {
            s.push(':');
        }
        push_hex(&mut s, bytes[i], true);
        assert(s@ =~= hex_join(bytes@.take(i + 1)));
        i += 1;
    }
    assert(bytes@.take(i as int) =~= bytes@);
    s
}

/// The fixed first group of the UUIDs of connections made here.
pub const UUIDV4_PREFIX: &'static str = "12345678";

/// The UUID made of sixteen bytes: the fixed prefix in place of the first
/// four, the version nibble set to 4 and the variant bits to `10`.
pub open spec fn uuid_text(b: Seq<u8>) -> Seq<char> {
    UUIDV4_PREFIX@ + seq!['-'] + hex_pair(b[4], false) + hex_pair(b[5], false) + seq!['-']
        + hex_pair((b[6] & 0x0f) | 0x40, false) + hex_pair(b[7], false) + seq!['-'] + hex_pair(
        (b[8] & 0x3f) | 0x80,
        false,
    ) + hex_pair(b[9], false) + seq!['-'] + hex_pair(b[10], false) + hex_pair(b[11], false)
        + hex_pair(b[12], false) + hex_pair(b[13], false) + hex_pair(b[14], false) + hex_pair(
        b[15],
        false,
    )
}

/// Writes the UUID of sixteen bytes.
pub fn uuid_from_bytes(bytes: [u8; 16]) -> (r: String)
    ensures
        r@ == uuid_text(bytes@),
{
    let mut s = UUIDV4_PREFIX.to_owned();
    s.push('-');
    push_hex(&mut s, bytes[4], false);
    push_hex(&mut s, bytes[5], false);
    s.push('-');
    push_hex(&mut s, (bytes[6] & 0x0f) | 0x40, false);
    push_hex(&mut s, bytes[7], false);
    s.push('-');
    push_hex(&mut s, (bytes[8] & 0x3f) | 0x80, false);
    push_hex(&mut s, bytes[9], false);
    s.push('-');
    push_hex(&mut s, bytes[10], false);
    push_hex(&mut s, bytes[11], false);
    push_hex(&mut s, bytes[12], false);
    push_hex(&mut s, bytes[13], false);
    push_hex(&mut s, bytes[14], false);
    push_hex(&mut s, bytes[15], false);
    assert(s@ =~= uuid_text(bytes@));
    s
}

/// Relies on `rand::random`: sixteen bytes from the thread-local generator,
/// of which nothing is known.
#[verifier::external_body]
fn random_bytes() -> [u8; 16] {
    rand::random()
}

/// A fresh random version-4 UUID that carries the fixed prefix.
pub fn generate_uuid() -> (r: String)
    ensures
        exists|b: Seq<u8>| b.len() == 16 && r@ == #[trigger] uuid_text(b),
{
    let bytes = random_bytes();
    let r = uuid_from_bytes(bytes);
    assert(bytes@.len() == 16);
    r
}

/// Whether two texts are the same.
pub fn same_text(a: &str, b: &str) -> (r: bool)
    ensures
        r == (a@ == b@),
{
    let n = a.unicode_len();
    if n != b.unicode_len() {
        return false;
    }
    let mut i: usize = 0;
    while i < n
        invariant
            i <= n,
            n == a@.len(),
            n == b@.len(),
            a@.take(i as int) == b@.take(i as int),
        decreases n - i,
    {
        if a.get_char(i) != b.get_char(i) {
            return false;
        }
        assert(a@.take(i + 1) =~= a@.take(i as int).push(a@[i as int]));
        assert(b@.take(i + 1) =~= b@.take(i as int).push(b@[i as int]));
        i += 1;
    }
    assert(a@.take(n as int) =~= a@);
    assert(b@.take(n as int) =~= b@);
    true
}

} // verus!
