//! Composition of the request URI from its parts.
use vstd::prelude::*;
use vstd::utf8::{decode_utf8, encode_utf8, encode_utf8_decode_utf8};

verus! {

/// Relies on `String::push`: it appends one character at the end.
pub assume_specification[ String::push ](s: &mut String, ch: char)
    ensures
        final(s)@ == old(s)@.push(ch),
;

/// A byte that percent-encoding leaves as it is: an ASCII letter or digit.
pub open spec fn is_alnum(b: u8) -> bool {
    (48 <= b <= 57) || (65 <= b <= 90) || (97 <= b <= 122)
}

/// The upper-case hexadecimal digit for a value below sixteen.
pub open spec fn hex_digit(v: nat) -> char {
    if v < 10 {
        ((v + 48) as u8) as char
    } else {
        ((v + 55) as u8) as char
    }
}

/// What one byte becomes: itself if alphanumeric, else `%` and two
/// upper-case hexadecimal digits.
pub open spec fn encoded_byte(b: u8) -> Seq<char> {
    if is_alnum(b) {
        seq![b as char]
    } else {
        seq!['%', hex_digit(b as nat / 16), hex_digit(b as nat % 16)]
    }
}

/// The percent-encoding of a byte string in which every byte outside
/// `[A-Za-z0-9]` is escaped.
pub open spec fn pct_encoded(bytes: Seq<u8>) -> Seq<char>
    decreases bytes.len(),
{
    if bytes.len() == 0 {
        seq![]
    } else {
        encoded_byte(bytes[0]) + pct_encoded(bytes.skip(1))
    }
}

/// The value of a hexadecimal digit of either case.
pub open spec fn hex_value(c: char) -> Option<u8> {
    if '0' <= c <= '9' {
        Some((c as u32 - 48) as u8)
    } else if 'A' <= c <= 'F' {
        Some((c as u32 - 55) as u8)
    } else if 'a' <= c <= 'f' {
        Some((c as u32 - 87) as u8)
    } else {
        None
    }
}

/// Percent-decoding: each `%` followed by two hexadecimal digits stands
/// for the byte they denote; every other (ASCII) character stands for its
/// own code.
pub open spec fn pct_decoded(s: Seq<char>) -> Seq<u8>
    decreases s.len(),
{
    if s.len() == 0 {
        seq![]
    } else if s.len() >= 3 && s[0] == '%' && hex_value(s[1]) is Some && hex_value(s[2]) is Some {
        seq![(hex_value(s[1])->0 * 16 + hex_value(s[2])->0) as u8] + pct_decoded(s.skip(3))
    } else {
        seq![(s[0] as u32) as u8] + pct_decoded(s.skip(1))
    }
}

/// Relies on `percent_encoding::percent_encode` with the `NON_ALPHANUMERIC`
/// set, written out through its `Display`: alphanumeric bytes are kept and
/// every other byte becomes `%XX` in upper-case hexadecimal.
#[verifier::external_body]
fn percent_encode_bytes(bytes: &[u8]) -> (r: String)
    ensures
        r@ == pct_encoded(bytes@),
{
    percent_encoding::percent_encode(bytes, percent_encoding::NON_ALPHANUMERIC).to_string()
}

/// A query entry as it stands in the URI: for `key=value` (split at the
/// first `=`) the key verbatim, `=`, and the percent-encoded UTF-8 bytes of
/// the value; an entry without `=` verbatim.
pub open spec fn encoded_pair(pair: Seq<char>) -> Seq<char> {
    match pair.index_of_first('=') {
        Some(i) => pair.take(i) + seq!['='] + pct_encoded(encode_utf8(pair.skip(i + 1))),
        None => pair,
    }
}

/// http's parsed URI, carried through opaquely.
#[verifier::external_type_specification]
#[verifier::external_body]
pub struct ExUri(http::Uri);

/// http's URI parse error, carried through opaquely.
#[verifier::external_type_specification]
#[verifier::external_body]
pub struct ExInvalidUri(http::uri::InvalidUri);

/// Whether http's URI grammar accepts a text.
pub uninterp spec fn uri_accepts(text: Seq<char>) -> bool;

/// Relies on `http::Uri::try_from(&str)`: it succeeds exactly on the texts
/// that the URI grammar of the http crate accepts.
#[verifier::external_body]
fn parse_uri(text: &str) -> (r: Result<http::Uri, http::uri::InvalidUri>)
    ensures
        r is Ok <==> uri_accepts(text@),
{
    http::Uri::try_from(text)
}

/// The scheme of the request: plain HTTP or HTTP over TLS.
#[derive(Debug, Clone, Copy, PartialEq, Eq, Structural)]
pub enum Scheme {
    Http,
    Https,
}

/// The characters of a scheme's name.
pub open spec fn scheme_text(s: Scheme) -> Seq<char> {
    match s {
        Scheme::Http => seq!['h', 't', 't', 'p'],
        Scheme::Https => seq!['h', 't', 't', 'p', 's'],
    }
}

/// The port used when none is given: 443 for HTTPS, 80 for HTTP.
pub open spec fn default_port(s: Scheme) -> u16 {
    match s {
        Scheme::Http => 80,
        Scheme::Https => 443,
    }
}

/// An explicit port wins over the scheme's default.
pub open spec fn resolved_port(s: Scheme, port: Option<u16>) -> u16 {
    match port {
        Some(p) => p,
        None => default_port(s),
    }
}

/// The ASCII digit for a value below ten.
pub open spec fn digit_char(d: nat) -> char {
    ((d + 48) as u8) as char
}

/// The decimal notation of `n`, without leading zeros.
pub open spec fn decimal(n: nat) -> Seq<char>
    decreases n,
{
    if n < 10 {
        seq![digit_char(n)]
    } else {
        decimal(n / 10).push(digit_char(n % 10))
    }
}

impl Scheme {
    /// The scheme selected by a TLS flag.
    pub fn from_tls(use_tls: bool) -> (r: Scheme)
        ensures
            r == (if use_tls { Scheme::Https } else { Scheme::Http }),
    {
        if use_tls {
            Scheme::Https
        } else {
            Scheme::Http
        }
    }

    /// The scheme's name as it stands in a URI.
    pub fn as_str(&self) -> (r: &'static str)
        ensures
            r@ == scheme_text(*self),
    {
        proof {
            reveal_strlit("http");
            reveal_strlit("https");
        }
        match self {
            Scheme::Http => "http",
            Scheme::Https => "https",
        }
    }
}

/// The port of the request: the explicit one if given, else the default of
/// the scheme.
pub fn resolve_port(scheme: Scheme, port: Option<u16>) -> (r: u16)
    ensures
        r == resolved_port(scheme, port),
        port is None && scheme == Scheme::Http ==> r == 80,
        port is None && scheme == Scheme::Https ==> r == 443,
        port matches Some(p) ==> r == p,
{
    match port {
        Some(p) => p,
        None => match scheme {
            Scheme::Http => 80,
            Scheme::Https => 443,
        },
    }
}

/// The parts of a request.
pub struct RequestParams {
    pub scheme: Scheme,
    /// Host name; must not be empty, is not otherwise checked.
    pub host: String,
    /// Explicit port; when absent the scheme's default is used.
    pub port: Option<u16>,
    /// Path, placed before the query as it is.
    pub path: String,
    /// Query entries in order, each `key=value` or a bare token.
    pub query: Vec<String>,
    /// Read and write timeout of the request, in seconds.
    pub timeout_secs: u64,
}

/// What a [`RequestParams`] says about the target.
pub struct ParamsView {
    pub scheme: Scheme,
    pub host: Seq<char>,
    pub port: Option<u16>,
    pub path: Seq<char>,
    pub query: Seq<Seq<char>>,
}

impl View for RequestParams {
    type V = ParamsView;

    open spec fn view(&self) -> ParamsView {
        ParamsView {
            scheme: self.scheme,
            host: self.host@,
            port: self.port,
            path: self.path@,
            query: self.query@.map_values(|q: String| q@),
        }
    }
}

/// Items joined by `&`.
pub open spec fn joined(items: Seq<Seq<char>>) -> Seq<char>
    decreases items.len(),
{
    if items.len() == 0 {
        seq![]
    } else if items.len() == 1 {
        items[0]
    } else {
        joined(items.drop_last()) + seq!['&'] + items.last()
    }
}

/// The query part of the URI: empty without entries, else `?` and the
/// encoded entries joined by `&`.
pub open spec fn query_text(query: Seq<Seq<char>>) -> Seq<char> {
    if query.len() == 0 {
        seq![]
    } else {
        seq!['?'] + joined(query.map_values(|q: Seq<char>| encoded_pair(q)))
    }
}

/// The full target: `scheme://host:port`, the path, and the query.
pub open spec fn target_text(p: ParamsView) -> Seq<char> {
    scheme_text(p.scheme) + seq![':', '/', '/'] + p.host + seq![':'] + decimal(
        resolved_port(p.scheme, p.port) as nat,
    ) + p.path + query_text(p.query)
}

/// Why a target could not be built.
#[derive(Debug, Clone, Copy, PartialEq, Eq, Structural)]
pub enum BuildError {
    /// The host name is empty.
    EmptyHost,
    /// The composed text is not a valid URI.
    InvalidUri,
}

/// Maps the http crate's parse error to the library's own.
fn build_error_of(_e: http::uri::InvalidUri) -> (r: BuildError)
    ensures
        r == BuildError::InvalidUri,
{
    BuildError::InvalidUri
}

/// Appends the query part for `query` to `out`.
fn push_query(out: &mut String, query: &Vec<String>)
    ensures
        final(out)@ == old(out)@ + query_text(query@.map_values(|q: String| q@)),
{
    let ghost views = query@.map_values(|q: String| q@);
    let ghost enc = views.map_values(|q: Seq<char>| encoded_pair(q));
    if query.len() == 0 {
        return;
    }
    out.push('?');
    let ghost start = out@;
    let mut i: usize = 0;
    while i < query.len()
        invariant
            i <= query.len(),
            views == query@.map_values(|q: String| q@),
            enc == views.map_values(|q: Seq<char>| encoded_pair(q)),
            out@ == start + joined(enc.take(i as int)),
        decreases query.len() - i,
    {
        if i > 0 {
            out.push('&');
        }
        let item = encode_query_pair(query[i].clone());
        out.append(item.as_str());
        proof {
            let next = enc.take(i + 1);
            assert(next.drop_last() =~= enc.take(i as int));
            if i == 0 {
                assert(joined(enc.take(0)) =~= seq![]);
            }
        }
        i = i + 1;
    }
    assert(enc.take(query.len() as int) =~= enc);
}

/// Builds the request target `scheme://host:port{path}{query}` and checks
/// it against the URI grammar.
pub fn build_uri(params: &RequestParams) -> (r: Result<String, BuildError>)
    ensures
        params@.host.len() == 0 ==> r == Err::<String, BuildError>(BuildError::EmptyHost),
        params@.host.len() > 0 ==> (r is Ok <==> uri_accepts(target_text(params@))),
        params@.host.len() > 0 && !uri_accepts(target_text(params@)) ==> r == Err::<
            String,
            BuildError,
        >(BuildError::InvalidUri),
        r matches Ok(text) ==> text@ == target_text(params@),
{
    if params.host.as_str().is_empty() {
        return Err(BuildError::EmptyHost);
    }
    let mut text = params.scheme.as_str().to_string();
    proof {
        reveal_strlit("://");
    }
    text.append("://");
    text.append(params.host.as_str());
    text.push(':');
    push_decimal(&mut text, resolve_port(params.scheme, params.port));
    text.append(params.path.as_str());
    push_query(&mut text, &params.query);
    assert(text@ =~= target_text(params@));
    match parse_uri(text.as_str()) {
        Ok(_) => Ok(text),
        Err(e) => Err(build_error_of(e)),
    }
}

/// Appends the decimal notation of `n` to `out`.
fn push_decimal(out: &mut String, n: u16)
    ensures
        final(out)@ == old(out)@ + decimal(n as nat),
    decreases n,
{
    if n >= 10 {
        push_decimal(out, n / 10);
    }
    let d: u8 = (n % 10) as u8;
    out.push((d + 48) as char);
    assert(out@ =~= old(out)@ + decimal(n as nat));
}

/// Encodes one query entry: the value after the first `=` is
/// percent-encoded, the key and an entry without `=` are kept as they are.
pub fn encode_query_pair(pair: String) -> (r: String)
    ensures
        r@ == encoded_pair(pair@),
{
    let n = pair.as_str().unicode_len();
    let mut i: usize = 0;
    while i < n
        invariant
            i <= n,
            n == pair@.len(),
            forall|j: int| 0 <= j < i ==> pair@[j] != '=',
        ensures
            i < n ==> pair@[i as int] == '=',
        decreases n - i,
    {
        if pair.as_str().get_char(i) == '=' {
            break;
        }
        i = i + 1;
    }
    proof {
        pair@.index_of_first_ensures('=');
    }
    if i == n {
        assert(!pair@.contains('='));
        return pair;
    }
    let key = pair.as_str().substring_char(0, i);
    let value = pair.as_str().substring_char(i + 1, n);
    let encoded = percent_encode_bytes(value.as_bytes());
    let mut out = key.to_string();
    out.push('=');
    out.append(encoded.as_str());
    assert(pair@.index_of_first('=') == Some(i as int));
    assert(out@ =~= encoded_pair(pair@));
    out
}

/// Percent-decoding undoes percent-encoding: every byte string comes back.
pub proof fn lemma_pct_round_trip(bytes: Seq<u8>)
    ensures
        pct_decoded(pct_encoded(bytes)) == bytes,
    decreases bytes.len(),
{
    if bytes.len() > 0 {
        let b = bytes[0];
        let s = pct_encoded(bytes);
        lemma_pct_round_trip(bytes.skip(1));
        if is_alnum(b) {
            assert(s.skip(1) =~= pct_encoded(bytes.skip(1)));
        } else {
            let hi = b as nat / 16;
            let lo = b as nat % 16;
            lemma_hex_value_of_digit(hi);
            lemma_hex_value_of_digit(lo);
            assert(s.skip(3) =~= pct_encoded(bytes.skip(1)));
        }
        assert(bytes =~= seq![b] + bytes.skip(1));
    }
}

/// Reading back a hexadecimal digit gives its value.
proof fn lemma_hex_value_of_digit(v: nat)
    requires
        v < 16,
    ensures
        hex_value(hex_digit(v)) == Some(v as u8),
{
}

/// A percent-encoding holds only ASCII letters, digits and `%`, so it never
/// holds the `&` and `=` that delimit query entries.
pub proof fn lemma_pct_encoded_chars(bytes: Seq<u8>)
    ensures
        forall|i: int|
            0 <= i < pct_encoded(bytes).len() ==> {
                let c = #[trigger] pct_encoded(bytes)[i];
                ('0' <= c <= '9') || ('A' <= c <= 'Z') || ('a' <= c <= 'z') || c == '%'
            },
        !pct_encoded(bytes).contains('&'),
        !pct_encoded(bytes).contains('='),
    decreases bytes.len(),
{
    if bytes.len() > 0 {
        lemma_pct_encoded_chars(bytes.skip(1));
        let head = encoded_byte(bytes[0]);
        let tail = pct_encoded(bytes.skip(1));
        assert forall|i: int| 0 <= i < pct_encoded(bytes).len() implies {
            let c = #[trigger] pct_encoded(bytes)[i];
            ('0' <= c <= '9') || ('A' <= c <= 'Z') || ('a' <= c <= 'z') || c == '%'
        } by {
            if i >= head.len() {
                assert(pct_encoded(bytes)[i] == tail[i - head.len()]);
            }
        }
    }
}

/// For an entry `key=value` whose key holds no `=`, the key stands in the
/// query verbatim and the value's encoding percent-decodes to the UTF-8
/// bytes of the value, which decode to the value itself.
pub proof fn lemma_query_value_round_trip(key: Seq<char>, value: Seq<char>)
    requires
        !key.contains('='),
    ensures
        encoded_pair(key + seq!['='] + value) == key + seq!['='] + pct_encoded(encode_utf8(value)),
        pct_decoded(pct_encoded(encode_utf8(value))) == encode_utf8(value),
        decode_utf8(pct_decoded(pct_encoded(encode_utf8(value)))) == value,
{
    let pair = key + seq!['='] + value;
    pair.index_of_first_ensures('=');
    assert(pair[key.len() as int] == '=');
    match pair.index_of_first('=') {
        Some(i) => {
            if i < key.len() {
                assert(key[i] == pair[i]);
            }
            assert(i == key.len());
        },
        None => {
            assert(pair.contains('='));
        },
    }
    assert(pair.take(key.len() as int) =~= key);
    assert(pair.skip(key.len() as int + 1) =~= value);
    lemma_pct_round_trip(encode_utf8(value));
    encode_utf8_decode_utf8(value);
}

/// An entry without `=` stands in the query unchanged.
pub proof fn lemma_bare_token_kept(token: Seq<char>)
    requires
        !token.contains('='),
    ensures
        encoded_pair(token) == token,
{
    token.index_of_first_ensures('=');
}

/// Without query entries the target is `scheme://host:port` followed by the
/// path, and nothing after it.
pub proof fn lemma_target_without_query(p: ParamsView)
    requires
        p.query.len() == 0,
    ensures
        target_text(p) == scheme_text(p.scheme) + seq![':', '/', '/'] + p.host + seq![':']
            + decimal(resolved_port(p.scheme, p.port) as nat) + p.path,
{
    assert(query_text(p.query) =~= seq![]);
}

} // verus!
