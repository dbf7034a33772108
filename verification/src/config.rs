use vstd::prelude::*;
use vstd::string::StringSliceAdditionalSpecFns;
use vstd::utf8::encode_utf8;

verus! {

/// An ASCII decimal digit.
pub open spec fn is_digit(b: u8) -> bool {
    48 <= b && b <= 57
}

/// The number written by a run of decimal digits (most significant first).
pub open spec fn decimal_value(ds: Seq<u8>) -> nat
    decreases ds.len(),
{
    if ds.len() == 0 {
        0
    } else {
        decimal_value(ds.drop_last()) * 10 + (ds.last() - 48) as nat
    }
}

pub open spec fn all_digits(ds: Seq<u8>) -> bool {
    forall|i: int| 0 <= i < ds.len() ==> is_digit(#[trigger] ds[i])
}

/// The value of a non-empty run of digits, when it is at most `max`.
pub open spec fn digits_up_to(ds: Seq<u8>, max: nat) -> Option<nat> {
    if ds.len() > 0 && all_digits(ds) && decimal_value(ds) <= max {
        Some(decimal_value(ds))
    } else {
        None
    }
}

/// Text read as an unsigned integer no greater than `max`: an optional `+`
/// followed by at least one decimal digit, and nothing else.
pub open spec fn spec_parse_unsigned(b: Seq<u8>, max: nat) -> Option<nat> {
    if b.len() > 0 && b[0] == 43u8 {
        digits_up_to(b.drop_first(), max)
    } else {
        digits_up_to(b, max)
    }
}

/// Text read as a signed 64-bit integer: an optional `+` or `-` followed by at
/// least one decimal digit, and nothing else, within the range of `i64`.
pub open spec fn spec_parse_i64(b: Seq<u8>) -> Option<int> {
    if b.len() > 0 && b[0] == 45u8 {
        match digits_up_to(b.drop_first(), 0x8000_0000_0000_0000) {
            Some(v) => Some(-v),
            None => None,
        }
    } else if b.len() > 0 && b[0] == 43u8 {
        match digits_up_to(b.drop_first(), 0x7fff_ffff_ffff_ffff) {
            Some(v) => Some(v as int),
            None => None,
        }
    } else {
        match digits_up_to(b, 0x7fff_ffff_ffff_ffff) {
            Some(v) => Some(v as int),
            None => None,
        }
    }
}

/// Reads the digits `b[start..]` as a number no greater than `max`.
fn parse_digits(b: &[u8], start: usize, max: u64) -> (r: Option<u64>)
    requires
        start <= b@.len(),
    ensures
        match digits_up_to(b@.subrange(start as int, b@.len() as int), max as nat) {
            Some(v) => r == Some(v as u64),
            None => r is None,
        },
{
    let ghost ds = b@.subrange(start as int, b@.len() as int);
    if start == b.len() {
        return None;
    }
    let mut acc: u64 = 0;
    let mut overflowed = false;
    let mut i = start;
    while i < b.len()
        invariant
            start <= i <= b@.len(),
            ds == b@.subrange(start as int, b@.len() as int),
            all_digits(b@.subrange(start as int, i as int)),
            !overflowed ==> acc as nat == decimal_value(b@.subrange(start as int, i as int))
                && acc <= max,
            overflowed ==> decimal_value(b@.subrange(start as int, i as int)) > max,
        decreases b@.len() - i,
    {
        let c = b[i];
        let ghost prefix = b@.subrange(start as int, i as int);
        let ghost next = b@.subrange(start as int, i + 1);
        assert(next.drop_last() =~= prefix);
        if c < 48 || c > 57 {
            assert(!all_digits(ds)) by {
                assert(ds[i - start] == c);
            }
            return None;
        }
        let d: u64 = (c - 48) as u64;
        assert(decimal_value(next) == decimal_value(prefix) * 10 + d);
        if !overflowed {
            if (acc as u128) * 10 + (d as u128) <= (max as u128) {
                acc = acc * 10 + d;
            } else {
                overflowed = true;
            }
        }
        i = i + 1;
    }
    assert(b@.subrange(start as int, i as int) =~= ds);
    if overflowed {
        None
    } else {
        Some(acc)
    }
}

/// Reads an unsigned integer no greater than `max`, as `str::parse` does for
/// unsigned integer types.
pub fn parse_unsigned(s: &str, max: u64) -> (r: Option<u64>)
    ensures
        match spec_parse_unsigned(s.spec_bytes(), max as nat) {
            Some(v) => r == Some(v as u64),
            None => r is None,
        },
{
    let b = s.as_bytes();
    if b.len() > 0 && b[0] == 43 {
        assert(b@.subrange(1, b@.len() as int) =~= b@.drop_first());
        parse_digits(b, 1, max)
    } else {
        assert(b@.subrange(0, b@.len() as int) =~= b@);
        parse_digits(b, 0, max)
    }
}

/// Reads a `u64` as `str::parse::<u64>` does.
pub fn parse_u64(s: &str) -> (r: Option<u64>)
    ensures
        match spec_parse_unsigned(s.spec_bytes(), u64::MAX as nat) {
            Some(v) => r == Some(v as u64),
            None => r is None,
        },
{
    parse_unsigned(s, u64::MAX)
}

/// Reads a `u32` as `str::parse::<u32>` does.
pub fn parse_u32(s: &str) -> (r: Option<u32>)
    ensures
        match spec_parse_unsigned(s.spec_bytes(), u32::MAX as nat) {
            Some(v) => r == Some(v as u32),
            None => r is None,
        },
{
    match parse_unsigned(s, 0xffff_ffff) {
        Some(v) => Some(v as u32),
        None => None,
    }
}

/// Reads an `i64` as `str::parse::<i64>` does.
pub fn parse_i64(s: &str) -> (r: Option<i64>)
    ensures
        match spec_parse_i64(s.spec_bytes()) {
            Some(v) => r == Some(v as i64),
            None => r is None,
        },
{
    let b = s.as_bytes();
    if b.len() > 0 && b[0] == 45 {
        assert(b@.subrange(1, b@.len() as int) =~= b@.drop_first());
        match parse_digits(b, 1, 0x8000_0000_0000_0000) {
            Some(v) => {
                if v == 0x8000_0000_0000_0000 {
                    Some(i64::MIN)
                } else {
                    Some(-(v as i64))
                }
            },
            None => None,
        }
    } else if b.len() > 0 && b[0] == 43 {
        assert(b@.subrange(1, b@.len() as int) =~= b@.drop_first());
        match parse_digits(b, 1, 0x7fff_ffff_ffff_ffff) {
            Some(v) => Some(v as i64),
            None => None,
        }
    } else {
        assert(b@.subrange(0, b@.len() as int) =~= b@);
        match parse_digits(b, 0, 0x7fff_ffff_ffff_ffff) {
            Some(v) => Some(v as i64),
            None => None,
        }
    }
}


/// The pieces of `s` between occurrences of `sep`, in order; a string without
/// `sep` is a single piece, and each `sep` starts a new (possibly empty) piece.
pub open spec fn split_on(s: Seq<char>, sep: char) -> Seq<Seq<char>>
    decreases s.len(),
{
    if s.len() == 0 {
        seq![Seq::empty()]
    } else {
        let p = split_on(s.drop_last(), sep);
        if s.last() == sep {
            p.push(Seq::empty())
        } else {
            p.update(p.len() - 1, p.last().push(s.last()))
        }
    }
}

pub proof fn lemma_split_on_nonempty(s: Seq<char>, sep: char)
    ensures
        split_on(s, sep).len() >= 1,
    decreases s.len(),
{
    if s.len() > 0 {
        lemma_split_on_nonempty(s.drop_last(), sep);
    }
}

/// The character sequences of a list of strings.
pub open spec fn string_views(v: Seq<String>) -> Seq<Seq<char>> {
    v.map_values(|p: String| p@)
}

/// Splits `s` at every occurrence of `sep`, as `str::split` does with a
/// one-character pattern, and collects the pieces.
pub fn split_to_strings(s: &str, sep: char) -> (pieces: Vec<String>)
    ensures
        string_views(pieces@) == split_on(s@, sep),
{
    let mut pieces: Vec<String> = Vec::new();
    let mut current = String::new();
    let ghost text = s@;
    for c in it: s.chars()
        invariant
            it.seq() == text,
            string_views(pieces@).push(current@) == split_on(text.take(it.index() as int), sep),
    {
        let ghost k = it.index() as int;
        proof {
            assert(text.take(k + 1).drop_last() =~= text.take(k));
            assert(text.take(k + 1).last() == c);
            lemma_split_on_nonempty(text.take(k), sep);
        }
        if c == sep {
            let finished = current;
            pieces.push(finished);
            current = String::new();
            assert(string_views(pieces@).push(current@) =~= split_on(text.take(k + 1), sep));
        } else {
            let ghost before = current@;
            current.push(c);
            assert(string_views(pieces@).push(current@) =~= split_on(text.take(k + 1), sep));
        }
    }
    proof {
        assert(text.take(text.len() as int) =~= text);
    }
    pieces.push(current);
    assert(string_views(pieces@) =~= split_on(text, sep));
    pieces
}


/// The pieces put back together with `sep` between each two of them.
pub open spec fn join_with(pieces: Seq<Seq<char>>, sep: char) -> Seq<char>
    decreases pieces.len(),
{
    if pieces.len() == 0 {
        Seq::empty()
    } else if pieces.len() == 1 {
        pieces[0]
    } else {
        join_with(pieces.drop_last(), sep) + seq![sep] + pieces.last()
    }
}

/// Splitting at a separator loses nothing: joining the pieces with the
/// separator gives the original text back, and no piece holds the separator.
pub proof fn lemma_split_then_join(s: Seq<char>, sep: char)
    ensures
        join_with(split_on(s, sep), sep) == s,
        forall|i: int, j: int|
            0 <= i < split_on(s, sep).len() && 0 <= j < split_on(s, sep)[i].len()
                ==> split_on(s, sep)[i][j] != sep,
    decreases s.len(),
{
    if s.len() > 0 {
        let prev = s.drop_last();
        let c = s.last();
        let p = split_on(prev, sep);
        lemma_split_then_join(prev, sep);
        lemma_split_on_nonempty(prev, sep);
        let q = split_on(s, sep);
        if c == sep {
            assert(q.drop_last() =~= p);
            assert(join_with(q, sep) =~= s);
        } else {
            let last = p.last().push(c);
            if p.len() == 1 {
                assert(q =~= seq![last]);
                assert(join_with(q, sep) =~= s);
            } else {
                assert(q.drop_last() =~= p.drop_last());
                assert(join_with(q, sep) == join_with(p.drop_last(), sep) + seq![sep] + last);
                assert(join_with(p, sep) == join_with(p.drop_last(), sep) + seq![sep] + p.last());
                assert(s =~= prev.push(c));
                assert(join_with(p, sep).push(c) =~= join_with(p.drop_last(), sep) + seq![sep] + last);
            }
            assert forall|i: int, j: int|
                0 <= i < q.len() && 0 <= j < q[i].len() implies q[i][j] != sep by {
                if i == q.len() - 1 && j == q[i].len() - 1 {
                    assert(q[i][j] == c);
                } else if i == q.len() - 1 {
                    assert(q[i][j] == p[i][j]);
                }
            }
        }
    }
}


/// A hexadecimal digit, either case.
pub open spec fn is_hex_digit(b: u8) -> bool {
    (48 <= b && b <= 57) || (97 <= b && b <= 102) || (65 <= b && b <= 70)
}

/// The value of a hexadecimal digit.
pub open spec fn hex_value(b: u8) -> nat {
    if 48 <= b && b <= 57 {
        (b - 48) as nat
    } else if 97 <= b && b <= 102 {
        (b - 87) as nat
    } else {
        (b - 55) as nat
    }
}

/// Text made of hexadecimal digits, two per byte.
pub open spec fn is_hex_text(b: Seq<u8>) -> bool {
    &&& b.len() % 2 == 0
    &&& forall|i: int| 0 <= i < b.len() ==> is_hex_digit(#[trigger] b[i])
}

/// The bytes written by pairs of hexadecimal digits, high digit first.
pub open spec fn hex_bytes(b: Seq<u8>) -> Seq<u8> {
    Seq::new(b.len() / 2, |i: int| (hex_value(b[2 * i]) * 16 + hex_value(b[2 * i + 1])) as u8)
}

/// An AES-256 key written out: 64 hexadecimal digits, the form in which key
/// generation prints it.
pub open spec fn is_aes256_key_text(b: Seq<u8>) -> bool {
    b.len() == 64 && is_hex_text(b)
}

fn hex_digit_value(b: u8) -> (r: Option<u8>)
    ensures
        match r {
            Some(v) => is_hex_digit(b) && v as nat == hex_value(b),
            None => !is_hex_digit(b),
        },
{
    if 48 <= b && b <= 57 {
        Some(b - 48)
    } else if 97 <= b && b <= 102 {
        Some(b - 87)
    } else if 65 <= b && b <= 70 {
        Some(b - 55)
    } else {
        None
    }
}

/// Reads text written as hexadecimal digits, two per byte, high digit first;
/// fails on an odd number of characters or on any other character.
pub fn decode_hex(s: &str) -> (r: Option<Vec<u8>>)
    ensures
        r is Some <==> is_hex_text(s.spec_bytes()),
        r matches Some(v) ==> v@ == hex_bytes(s.spec_bytes()),
{
    let b = s.as_bytes();
    let ghost text = b@;
    assert(text == s.spec_bytes());
    if b.len() % 2 != 0 {
        return None;
    }
    let mut out: Vec<u8> = Vec::new();
    let mut i: usize = 0;
    while i < b.len() / 2
        invariant
            b@ == text,
            text == s.spec_bytes(),
            text.len() % 2 == 0,
            i <= text.len() / 2,
            out@.len() == i,
            forall|k: int| 0 <= k < 2 * i ==> is_hex_digit(#[trigger] text[k]),
            forall|k: int| 0 <= k < i ==> #[trigger] out@[k] == hex_bytes(text)[k],
        decreases text.len() / 2 - i,
    {
        let high = hex_digit_value(b[2 * i]);
        let low = hex_digit_value(b[2 * i + 1]);
        match (high, low) {
            (Some(h), Some(l)) => {
                assert(h < 16 && l < 16);
                out.push(h * 16 + l);
                assert forall|k: int| 0 <= k < 2 * (i + 1) implies is_hex_digit(#[trigger] text[k]) by {
                    if k >= 2 * i {
                        assert(k == 2 * i || k == 2 * i + 1);
                    }
                }
                i = i + 1;
            },
            _ => {
                let ghost j: int = if high is None { 2 * i as int } else { 2 * i + 1 };
                assert(0 <= j < text.len());
                assert(!is_hex_digit(text[j]));
                assert(!is_hex_text(text));
                return None;
            },
        }
    }
    assert(out@ =~= hex_bytes(text));
    Some(out)
}

/// The raw settings of the service, one text value per setting.
pub struct ConfigVars {
    pub port: String,
    pub postgres_uri: String,
    pub firebase_api_key: String,
    pub cors_origin: String,
    pub rabbitmq_uri: String,
    pub exchange_name: String,
    pub queue_name: String,
    pub routing_key: String,
    pub retry_ttl: String,
    pub enc_key: String,
    pub account_deletion_delay_days: String,
}

impl ConfigVars {
    /// Every numeric setting reads as a number of its type, and the
    /// encryption key is written as an AES-256 key.
    pub open spec fn values_readable(&self) -> bool {
        &&& is_aes256_key_text(encode_utf8(self.enc_key@))
        &&& spec_parse_unsigned(encode_utf8(self.port@), u64::MAX as nat) is Some
        &&& spec_parse_unsigned(encode_utf8(self.retry_ttl@), u32::MAX as nat) is Some
        &&& spec_parse_i64(encode_utf8(self.account_deletion_delay_days@)) is Some
    }
}

/// The settings of the service.
pub struct Config {
    pub port: u64,
    pub postgres_uri: String,
    pub firebase_auth_key: String,
    pub cors_origin: Vec<String>,
    pub rabbitmq_uri: String,
    pub exchange_name: String,
    pub queue_name: String,
    pub routing_key: String,
    pub retry_ttl: u32,
    pub enc_key: Vec<u8>,
    pub account_deletion_delay_days: i64,
}

impl Config {
    /// Reads the settings: numbers are parsed, the allowed origins are the
    /// comma-separated pieces of `cors_origin`, the encryption key is the 32
    /// bytes its hexadecimal digits write, and every other setting is taken
    /// as is.
    pub fn new(vars: ConfigVars) -> (config: Config)
        requires
            vars.values_readable(),
        ensures
            config.port as nat == spec_parse_unsigned(encode_utf8(vars.port@), u64::MAX as nat)->0,
            config.postgres_uri@ == vars.postgres_uri@,
            config.firebase_auth_key@ == vars.firebase_api_key@,
            string_views(config.cors_origin@) == split_on(vars.cors_origin@, ','),
            config.rabbitmq_uri@ == vars.rabbitmq_uri@,
            config.exchange_name@ == vars.exchange_name@,
            config.queue_name@ == vars.queue_name@,
            config.routing_key@ == vars.routing_key@,
            config.retry_ttl as nat == spec_parse_unsigned(encode_utf8(vars.retry_ttl@), u32::MAX as nat)->0,
            config.enc_key@ == hex_bytes(encode_utf8(vars.enc_key@)),
            config.enc_key@.len() == 32,
            config.account_deletion_delay_days as int == spec_parse_i64(
                encode_utf8(vars.account_deletion_delay_days@),
            )->0,
    {
        let port = parse_u64(vars.port.as_str()).unwrap();
        let retry_ttl = parse_u32(vars.retry_ttl.as_str()).unwrap();
        let days = parse_i64(vars.account_deletion_delay_days.as_str()).unwrap();
        let cors_origin = split_to_strings(vars.cors_origin.as_str(), ',');
        let enc_key = decode_hex(vars.enc_key.as_str()).unwrap();
        Config {
            port,
            postgres_uri: vars.postgres_uri,
            firebase_auth_key: vars.firebase_api_key,
            cors_origin,
            rabbitmq_uri: vars.rabbitmq_uri,
            exchange_name: vars.exchange_name,
            queue_name: vars.queue_name,
            routing_key: vars.routing_key,
            retry_ttl,
            enc_key,
            account_deletion_delay_days: days,
        }
    }
}

} // verus!
