//! Building the lookup request: the user's query is escaped as a JSON string,
//! placed in the JSON query parameter, and the parameter is percent-encoded.
use vstd::prelude::*;
use vstd::string::StringSliceAdditionalSpecFns;

verus! {

/// The fixed search endpoint with its fixed auxiliary parameters; the
/// percent-encoded JSON query parameter follows it.
pub const REQUEST_BASE: &'static str = "https://philolog.us/wtgreekserv.php?n=101&idprefix=test1&x=0.045663999508706477&requestTime=1635983991202&page=0&mode=context&query=";

/// The JSON query parameter up to the opening quote of the searched word.
pub const QUERY_PREFIX: &'static str = "{\"regex\":\"0\",\"lexicon\":\"lsj\",\"tag_id\":\"0\",\"root_id\":\"0\",\"w\":\"";

/// The JSON query parameter after the closing quote of the searched word.
pub const QUERY_SUFFIX: &'static str = "\"}";

pub const QUOTE: u8 = 34;
pub const PERCENT: u8 = 37;
pub const HYPHEN: u8 = 45;
pub const DOT: u8 = 46;
pub const DIGIT_0: u8 = 48;
pub const DIGIT_9: u8 = 57;
pub const UPPER_A: u8 = 65;
pub const UPPER_F: u8 = 70;
pub const UPPER_Z: u8 = 90;
pub const BACKSLASH: u8 = 92;
pub const UNDERSCORE: u8 = 95;
pub const LOWER_A: u8 = 97;
pub const LOWER_F: u8 = 102;
pub const LOWER_Z: u8 = 122;
pub const LOWER_U: u8 = 117;
pub const TILDE: u8 = 126;

/// Applies `f` to every byte of `s` and concatenates the pieces in order.
pub open spec fn expand(s: Seq<u8>, f: spec_fn(u8) -> Seq<u8>) -> Seq<u8>
    decreases s.len(),
{
    if s.len() == 0 {
        Seq::empty()
    } else {
        f(s[0]) + expand(s.drop_first(), f)
    }
}

/// The upper-case hexadecimal digit of `n` (`n < 16`).
pub open spec fn hex_digit(n: u8) -> u8 {
    if n < 10 {
        (48 + n) as u8
    } else {
        (55 + n) as u8
    }
}

pub open spec fn is_hex(c: u8) -> bool {
    (DIGIT_0 <= c <= DIGIT_9) || (UPPER_A <= c <= UPPER_F) || (LOWER_A <= c <= LOWER_F)
}

/// The value of a hexadecimal digit, of either case.
pub open spec fn hex_value(c: u8) -> int {
    if DIGIT_0 <= c <= DIGIT_9 {
        c - DIGIT_0
    } else if UPPER_A <= c <= UPPER_F {
        c - UPPER_A + 10
    } else {
        c - LOWER_A + 10
    }
}

/// The bytes that stand for themselves in a URL query.
pub open spec fn is_unreserved(b: u8) -> bool {
    (UPPER_A <= b <= UPPER_Z) || (LOWER_A <= b <= LOWER_Z) || (DIGIT_0 <= b <= DIGIT_9) || b == HYPHEN || b == UNDERSCORE
        || b == DOT || b == TILDE
}

pub open spec fn percent_encode_byte(b: u8) -> Seq<u8> {
    if is_unreserved(b) {
        seq![b]
    } else {
        seq![PERCENT, hex_digit(b / 16), hex_digit(b % 16)]
    }
}

pub open spec fn percent_encode(s: Seq<u8>) -> Seq<u8> {
    expand(s, |b: u8| percent_encode_byte(b))
}

/// Percent-decoding as a server applies it to a query parameter.
pub open spec fn percent_decode(s: Seq<u8>) -> Seq<u8>
    decreases s.len(),
{
    if s.len() == 0 {
        Seq::empty()
    } else if s.len() >= 3 && s[0] == PERCENT && is_hex(s[1]) && is_hex(s[2]) {
        seq![(hex_value(s[1]) * 16 + hex_value(s[2])) as u8] + percent_decode(s.subrange(3, s.len() as int))
    } else {
        seq![s[0]] + percent_decode(s.drop_first())
    }
}

/// May stand in a URL query as it is: an unreserved byte or a byte of a
/// percent escape.
pub open spec fn is_url_safe(b: u8) -> bool {
    is_unreserved(b) || b == PERCENT || is_hex(b)
}

pub open spec fn json_escape_byte(b: u8) -> Seq<u8> {
    if b == QUOTE || b == BACKSLASH {
        seq![BACKSLASH, b]
    } else if b < 32 {
        seq![BACKSLASH, LOWER_U, DIGIT_0, DIGIT_0, hex_digit(b / 16), hex_digit(b % 16)]
    } else {
        seq![b]
    }
}

/// The body of a JSON string literal that holds the bytes `s`: quotes,
/// backslashes and control bytes are escaped, every other byte (UTF-8 of
/// non-ASCII characters included) stands as it is.
pub open spec fn json_escape(s: Seq<u8>) -> Seq<u8> {
    expand(s, |b: u8| json_escape_byte(b))
}

/// Unescaping of a JSON string body, for the escapes `\"`, `\\` and
/// `\u00XX`; any other byte stands for itself.
pub open spec fn json_unescape(s: Seq<u8>) -> Seq<u8>
    decreases s.len(),
{
    if s.len() == 0 {
        Seq::empty()
    } else if s.len() >= 2 && s[0] == BACKSLASH && (s[1] == QUOTE || s[1] == BACKSLASH) {
        seq![s[1]] + json_unescape(s.subrange(2, s.len() as int))
    } else if s.len() >= 6 && s[0] == BACKSLASH && s[1] == LOWER_U && s[2] == DIGIT_0 && s[3]
        == DIGIT_0 && is_hex(s[4]) && is_hex(s[5]) {
        seq![(hex_value(s[4]) * 16 + hex_value(s[5])) as u8] + json_unescape(
            s.subrange(6, s.len() as int),
        )
    } else {
        seq![s[0]] + json_unescape(s.drop_first())
    }
}

/// The JSON query parameter that asks for the word `q` (its UTF-8 bytes).
pub open spec fn query_parameter(q: Seq<u8>) -> Seq<u8> {
    QUERY_PREFIX.spec_bytes() + json_escape(q) + QUERY_SUFFIX.spec_bytes()
}

/// The request URL of a lookup of the word `q` (its UTF-8 bytes).
pub open spec fn request_url(q: Seq<u8>) -> Seq<u8> {
    REQUEST_BASE.spec_bytes() + percent_encode(query_parameter(q))
}

proof fn lemma_expand_concat(a: Seq<u8>, b: Seq<u8>, f: spec_fn(u8) -> Seq<u8>)
    ensures
        expand(a + b, f) == expand(a, f) + expand(b, f),
    decreases a.len(),
{
    if a.len() == 0 {
        assert(a + b =~= b);
        assert(expand(a, f) + expand(b, f) =~= expand(b, f));
    } else {
        assert((a + b).drop_first() =~= a.drop_first() + b);
        lemma_expand_concat(a.drop_first(), b, f);
        assert(expand(a + b, f) =~= expand(a, f) + expand(b, f));
    }
}

proof fn lemma_expand_push(a: Seq<u8>, b: u8, f: spec_fn(u8) -> Seq<u8>)
    ensures
        expand(a.push(b), f) == expand(a, f) + f(b),
{
    lemma_expand_concat(a, seq![b], f);
    assert(a + seq![b] =~= a.push(b));
    assert(seq![b].drop_first() =~= Seq::<u8>::empty());
    assert(expand(Seq::<u8>::empty(), f) == Seq::<u8>::empty());
    assert(expand(seq![b], f) =~= f(b));
}

proof fn lemma_percent_decode_byte(b: u8, rest: Seq<u8>)
    ensures
        percent_decode(percent_encode_byte(b) + rest) == seq![b] + percent_decode(rest),
{
    let s = percent_encode_byte(b) + rest;
    if is_unreserved(b) {
        assert(s.drop_first() =~= rest);
    } else {
        assert(s.subrange(3, s.len() as int) =~= rest);
        assert((hex_value(hex_digit(b / 16)) * 16 + hex_value(hex_digit(b % 16))) as u8 == b);
    }
}

/// Percent-decoding undoes percent-encoding.
pub proof fn lemma_percent_round_trip(s: Seq<u8>)
    ensures
        percent_decode(percent_encode(s)) == s,
    decreases s.len(),
{
    if s.len() == 0 {
        assert(percent_encode(s) =~= Seq::<u8>::empty());
    } else {
        lemma_percent_round_trip(s.drop_first());
        lemma_percent_decode_byte(s[0], percent_encode(s.drop_first()));
        assert(seq![s[0]] + s.drop_first() =~= s);
    }
}

proof fn lemma_json_unescape_byte(b: u8, rest: Seq<u8>)
    ensures
        json_unescape(json_escape_byte(b) + rest) == seq![b] + json_unescape(rest),
{
    let s = json_escape_byte(b) + rest;
    if b == QUOTE || b == BACKSLASH {
        assert(s.subrange(2, s.len() as int) =~= rest);
    } else if b < 32 {
        assert(s.subrange(6, s.len() as int) =~= rest);
        assert((hex_value(hex_digit(b / 16)) * 16 + hex_value(hex_digit(b % 16))) as u8 == b);
    } else {
        assert(s.drop_first() =~= rest);
    }
}

/// JSON unescaping undoes JSON escaping.
pub proof fn lemma_json_round_trip(s: Seq<u8>)
    ensures
        json_unescape(json_escape(s)) == s,
    decreases s.len(),
{
    if s.len() == 0 {
        assert(json_escape(s) =~= Seq::<u8>::empty());
    } else {
        lemma_json_round_trip(s.drop_first());
        lemma_json_unescape_byte(s[0], json_escape(s.drop_first()));
        assert(seq![s[0]] + s.drop_first() =~= s);
    }
}

/// Every byte of a percent-encoding may stand in a URL query.
pub proof fn lemma_percent_encode_url_safe(s: Seq<u8>)
    ensures
        forall|i: int| 0 <= i < percent_encode(s).len() ==> is_url_safe(#[trigger] percent_encode(s)[i]),
    decreases s.len(),
{
    if s.len() > 0 {
        lemma_percent_encode_url_safe(s.drop_first());
        let head = percent_encode_byte(s[0]);
        let tail = percent_encode(s.drop_first());
        assert(percent_encode(s) == head + tail);
        assert forall|i: int| 0 <= i < percent_encode(s).len() implies is_url_safe(
            #[trigger] percent_encode(s)[i],
        ) by {
            if i >= head.len() {
                assert(percent_encode(s)[i] == tail[i - head.len()]);
            }
        }
    }
}

fn hex_digit_of(n: u8) -> (r: u8)
    requires
        n < 16,
    ensures
        r == hex_digit(n),
{
    if n < 10 {
        DIGIT_0 + n
    } else {
        55 + n
    }
}

fn is_unreserved_byte(b: u8) -> (r: bool)
    ensures
        r == is_unreserved(b),
{
    (UPPER_A <= b && b <= UPPER_Z) || (LOWER_A <= b && b <= LOWER_Z) || (DIGIT_0 <= b && b
        <= DIGIT_9) || b == HYPHEN || b == UNDERSCORE || b == DOT || b == TILDE
}

fn push_bytes(out: &mut Vec<u8>, bytes: &[u8])
    ensures
        final(out)@ == old(out)@ + bytes@,
{
    let mut i: usize = 0;
    while i < bytes.len()
        invariant
            i <= bytes@.len(),
            out@ == old(out)@ + bytes@.subrange(0, i as int),
        decreases bytes@.len() - i,
    {
        out.push(bytes[i]);
        i = i + 1;
        assert(bytes@.subrange(0, i as int) =~= bytes@.subrange(0, i - 1).push(bytes@[i - 1]));
    }
    assert(bytes@.subrange(0, i as int) =~= bytes@);
}

fn push_json_escaped(out: &mut Vec<u8>, bytes: &[u8])
    ensures
        final(out)@ == old(out)@ + json_escape(bytes@),
{
    let mut i: usize = 0;
    while i < bytes.len()
        invariant
            i <= bytes@.len(),
            out@ == old(out)@ + json_escape(bytes@.subrange(0, i as int)),
        decreases bytes@.len() - i,
    {
        let b = bytes[i];
        proof {
            assert(bytes@.subrange(0, i + 1) =~= bytes@.subrange(0, i as int).push(b));
            lemma_expand_push(bytes@.subrange(0, i as int), b, |b: u8| json_escape_byte(b));
        }
        if b == QUOTE || b == BACKSLASH {
            out.push(BACKSLASH);
            out.push(b);
        } else if b < 32 {
            out.push(BACKSLASH);
            out.push(LOWER_U);
            out.push(DIGIT_0);
            out.push(DIGIT_0);
            out.push(hex_digit_of(b / 16));
            out.push(hex_digit_of(b % 16));
        } else {
            out.push(b);
        }
        i = i + 1;
        assert(out@ =~= old(out)@ + json_escape(bytes@.subrange(0, i as int)));
    }
    assert(bytes@.subrange(0, i as int) =~= bytes@);
}

fn push_percent_encoded(out: &mut Vec<u8>, bytes: &[u8])
    ensures
        final(out)@ == old(out)@ + percent_encode(bytes@),
{
    let mut i: usize = 0;
    while i < bytes.len()
        invariant
            i <= bytes@.len(),
            out@ == old(out)@ + percent_encode(bytes@.subrange(0, i as int)),
        decreases bytes@.len() - i,
    {
        let b = bytes[i];
        proof {
            assert(bytes@.subrange(0, i + 1) =~= bytes@.subrange(0, i as int).push(b));
            lemma_expand_push(bytes@.subrange(0, i as int), b, |b: u8| percent_encode_byte(b));
        }
        if is_unreserved_byte(b) {
            out.push(b);
        } else {
            out.push(PERCENT);
            out.push(hex_digit_of(b / 16));
            out.push(hex_digit_of(b % 16));
        }
        i = i + 1;
        assert(out@ =~= old(out)@ + percent_encode(bytes@.subrange(0, i as int)));
    }
    assert(bytes@.subrange(0, i as int) =~= bytes@);
}

/// The JSON query parameter that asks for `query`.
pub fn build_query_parameter(query: &str) -> (r: Vec<u8>)
    ensures
        r@ == query_parameter(query.spec_bytes()),
{
    let mut param: Vec<u8> = Vec::new();
    push_bytes(&mut param, QUERY_PREFIX.as_bytes());
    push_json_escaped(&mut param, query.as_bytes());
    push_bytes(&mut param, QUERY_SUFFIX.as_bytes());
    proof {
        assert(param@ =~= query_parameter(query.spec_bytes()));
    }
    param
}

/// The URL (ASCII bytes) of the GET request that looks up `query`.
pub fn build_request_url(query: &str) -> (r: Vec<u8>)
    ensures
        r@ == request_url(query.spec_bytes()),
{
    let param = build_query_parameter(query);
    let mut url: Vec<u8> = Vec::new();
    push_bytes(&mut url, REQUEST_BASE.as_bytes());
    push_percent_encoded(&mut url, param.as_slice());
    proof {
        assert(url@ =~= request_url(query.spec_bytes()));
    }
    url
}

} // verus!
