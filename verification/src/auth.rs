//! Sign-in: the stored credentials and when they expire, the PKCE values and
//! the authorization URL of the loopback OAuth flow, and the parsing of the
//! browser's callback.

use vstd::prelude::*;
use crate::text;
use sha2::Digest;
use base64::Engine;

verus! {

/// Stored OAuth credentials.
#[derive(Debug, Clone)]
pub struct Creds {
    pub access_token: String,
    pub refresh_token: Option<String>,
    /// Unix time (seconds) at which the access token expires.
    pub expires_at: u64,
    pub client_id: Option<String>,
}

/// Expired, with a 60-second margin, at Unix time `now`.
pub open spec fn expired_at(expires_at: u64, now: u64) -> bool {
    now + 60 >= expires_at
}

/// The current Unix time in seconds (0 if the clock is before the epoch),
/// from `SystemTime::now` and `duration_since(UNIX_EPOCH)`. Nothing is stated
/// of the value: it is the machine's clock.
#[verifier::external_body]
fn now() -> (r: u64) {
    std::time::SystemTime::now().duration_since(std::time::UNIX_EPOCH).map(|d| d.as_secs()).unwrap_or(0)
}

impl Creds {
    /// Whether the access token has expired at Unix time `now` (60 s margin).
    pub fn expired(&self, now: u64) -> (r: bool)
        ensures
            r == expired_at(self.expires_at, now),
    {
        now >= self.expires_at.saturating_sub(60)
    }

    /// Whether the access token has expired now (60 s margin).
    pub fn is_expired(&self) -> (r: bool)
        ensures
            self.expires_at <= 60 ==> r,
    {
        self.expired(now())
    }
}

/// What the token endpoint answered, as far as the credentials need it.
#[derive(Debug, Clone)]
pub struct TokenReply {
    pub access_token: Option<String>,
    pub refresh_token: Option<String>,
    pub expires_in: Option<u64>,
}

/// Lifetime assumed when the server does not say (one hour).
pub open spec fn lifetime(reply: TokenReply) -> u64 {
    match reply.expires_in {
        Some(s) => s,
        None => 3600,
    }
}

/// Credentials from a token reply received at Unix time `now`: an error when
/// the reply has no access token.
pub fn creds_from_token(reply: TokenReply, client_id: Option<String>, now: u64) -> (r: Result<Creds, String>)
    requires
        now + lifetime(reply) <= u64::MAX,
    ensures
        match r {
            Ok(c) => {
                &&& reply.access_token == Some(c.access_token)
                &&& c.refresh_token == reply.refresh_token
                &&& c.expires_at == now + lifetime(reply)
                &&& c.client_id == client_id
            },
            Err(e) => reply.access_token is None && e@ == "respuesta sin access_token"@,
        },
{
    let expires_in = match reply.expires_in {
        Some(s) => s,
        None => 3600,
    };
    match reply.access_token {
        Some(access) => Ok(
            Creds {
                access_token: access,
                refresh_token: reply.refresh_token,
                expires_at: now + expires_in,
                client_id,
            },
        ),
        None => {
            let mut e = String::new();
            text::push_str(&mut e, "respuesta sin access_token");
            Err(e)
        },
    }
}

/// After a refresh: the new pair, keeping the old refresh token when the
/// server did not rotate it.
pub fn keep_refresh_token(old: &Creds, new: Creds) -> (r: Creds)
    ensures
        r == (Creds {
            refresh_token: if new.refresh_token is Some {
                new.refresh_token
            } else {
                old.refresh_token
            },
            ..new
        }),
{
    let mut n = new;
    if n.refresh_token.is_none() {
        n.refresh_token = old.refresh_token.clone();
    }
    n
}

/// Whether a byte is sent as is in a URL component (`A-Z a-z 0-9 - . _ ~`).
pub open spec fn url_safe_byte(b: u8) -> bool {
    (48 <= b <= 57) || (65 <= b <= 90) || (97 <= b <= 122) || b == 45 || b == 46 || b == 95 || b
        == 126
}

pub open spec fn upper_hex(d: int) -> char {
    if d < 10 {
        (48 + d) as char
    } else {
        (55 + d) as char
    }
}

/// Percent-encoding of a byte string: safe bytes as themselves, every other
/// byte as `%XX` (uppercase hex).
pub open spec fn percent_encoded(bytes: Seq<u8>) -> Seq<char>
    decreases bytes.len(),
{
    if bytes.len() == 0 {
        Seq::empty()
    } else {
        let b = bytes.last();
        percent_encoded(bytes.drop_last()) + if url_safe_byte(b) {
            seq![b as char]
        } else {
            seq!['%', upper_hex(b as int / 16), upper_hex(b as int % 16)]
        }
    }
}

/// `urlencoding::encode`: percent-encodes every byte of the UTF-8 encoding
/// except alphanumerics and `-`, `_`, `.`, `~` (as its source does).
#[verifier::external_body]
fn url_encode(s: &str) -> (r: String)
    ensures
        r@ == percent_encoded(vstd::utf8::encode_utf8(s@)),
{
    urlencoding::encode(s).into_owned()
}

/// What `urlencoding::decode` gives for a text: `None` when the decoded bytes
/// are not UTF-8.
pub uninterp spec fn percent_decoded(s: Seq<char>) -> Option<Seq<char>>;

/// `urlencoding::decode`. The contract names the result; its source returns
/// the input unchanged when it holds no `%`.
#[verifier::external_body]
fn url_decode(s: &str) -> (r: Option<String>)
    ensures
        naming_opt(r) == percent_decoded(s@),
        !s@.contains('%') ==> naming_opt(r) == Some(s@),
{
    match urlencoding::decode(s) {
        Ok(c) => Some(c.into_owned()),
        Err(_) => None,
    }
}

pub open spec fn naming_opt(o: Option<String>) -> Option<Seq<char>> {
    match o {
        Some(x) => Some(x@),
        None => None,
    }
}

/// The parameters of a query string, `k=v` pairs split on `&` (pairs
/// without `=` are skipped).
pub open spec fn split_on(s: Seq<char>, c: char) -> Seq<Seq<char>>
    decreases s.len(),
{
    let i = text::find_char(s, c);
    if i < s.len() {
        proof {
            text::lemma_find_char(s, c);
        }
        seq![s.take(i)] + split_on(s.skip(i + 1), c)
    } else {
        seq![s]
    }
}

/// The value of the first pair of `pairs` whose key is `key`, decoded (kept
/// as is when it does not decode).
pub open spec fn lookup_param(pairs: Seq<Seq<char>>, key: Seq<char>) -> Option<Seq<char>>
    decreases pairs.len(),
{
    if pairs.len() == 0 {
        None
    } else {
        let p = pairs[0];
        let i = text::find_char(p, '=');
        if i < p.len() && p.take(i) == key {
            let v = p.skip(i + 1);
            Some(
                match percent_decoded(v) {
                    Some(d) => d,
                    None => v,
                },
            )
        } else {
            lookup_param(pairs.drop_first(), key)
        }
    }
}

/// The value of `key` in the query string of `path` (after the first `?`).
pub open spec fn query_value(path: Seq<char>, key: Seq<char>) -> Option<Seq<char>> {
    let q = text::find_char(path, '?');
    if q < path.len() {
        lookup_param(split_on(path.skip(q + 1), '&'), key)
    } else {
        None
    }
}

proof fn lemma_split_on_step(s: Seq<char>, c: char)
    ensures
        text::find_char(s, c) < s.len() ==> split_on(s, c) == seq![s.take(text::find_char(s, c))]
            + split_on(s.skip(text::find_char(s, c) + 1), c),
        text::find_char(s, c) >= s.len() ==> split_on(s, c) == seq![s],
{
}

/// The decoded value of `key` in the query string of a request path.
pub fn query_get(path: &str, key: &str) -> (r: Option<String>)
    ensures
        naming_opt(r) == query_value(path@, key@),
{
    let v = text::chars_of(path);
    let q = text::find_from(&v, 0, '?');
    proof {
        assert(v@.subrange(0, v@.len() as int) =~= v@);
    }
    if q >= v.len() {
        return None;
    }
    let mut start: usize = q + 1;
    loop
        invariant
            q < v@.len(),
            q + 1 <= start <= v@.len(),
            v@ == path@,
            query_value(path@, key@) == lookup_param(split_on(v@.skip(start as int), '&'), key@),
        decreases v@.len() - start,
    {
        let end = text::find_from(&v, start, '&');
        let piece = text::slice_vec(&v, start, end);
        let ghost rest = v@.skip(start as int);
        let ghost pairs = split_on(rest, '&');
        proof {
            assert(v@.subrange(start as int, v@.len() as int) =~= rest);
            lemma_split_on_step(rest, '&');
            assert(piece@ =~= rest.take(end - start));
            if end < v@.len() {
                assert(rest.skip(end - start + 1) =~= v@.skip(end + 1));
                assert(pairs[0] == piece@);
                assert(pairs.drop_first() =~= split_on(v@.skip(end + 1), '&'));
            } else {
                assert(rest.take(end - start) =~= rest);
                assert(pairs[0] == piece@);
                assert(pairs.drop_first() =~= Seq::<Seq<char>>::empty());
            }
        }
        let eq = text::find_from(&piece, 0, '=');
        proof {
            assert(piece@.subrange(0, piece@.len() as int) =~= piece@);
        }
        if eq < piece.len() {
            let k = text::slice_vec(&piece, 0, eq);
            if text::vec_eq_str(&k, key) {
                let val = text::slice_vec(&piece, eq + 1, piece.len());
                let raw = text::string_of(&val);
                proof {
                    assert(k@ =~= piece@.take(eq as int));
                    assert(raw@ =~= piece@.skip(eq + 1));
                }
                return match url_decode(raw.as_str()) {
                    Some(d) => Some(d),
                    None => Some(raw),
                };
            }
            proof {
                assert(k@ =~= piece@.take(eq as int));
            }
        }
        proof {
            assert(pairs.len() > 0);
            assert(lookup_param(pairs, key@) == lookup_param(pairs.drop_first(), key@));
        }
        if end >= v.len() {
            proof {
                assert(lookup_param(Seq::<Seq<char>>::empty(), key@) is None);
            }
            return None;
        }
        start = end + 1;
    }
}

/// The length of the leading word of `s` (up to the first white space).
pub open spec fn word_len(s: Seq<char>) -> int
    decreases s.len(),
{
    if s.len() == 0 || text::is_ws(s[0]) {
        0
    } else {
        1 + word_len(s.drop_first())
    }
}

/// The second white-space separated word of `line` (empty when missing).
pub open spec fn second_word(line: Seq<char>) -> Seq<char> {
    let a = text::trim_start(line);
    let b = text::trim_start(a.skip(word_len(a)));
    b.take(word_len(b))
}

/// The path requested by the browser: the second word of the request's
/// first line (empty when missing).
pub open spec fn request_path(req: Seq<char>) -> Seq<char> {
    second_word(req.take(text::find_char(req, '\n')))
}

proof fn lemma_word_len(s: Seq<char>, j: int)
    requires
        0 <= j <= s.len(),
        forall|k: int| 0 <= k < j ==> !text::is_ws(#[trigger] s[k]),
        j == s.len() || text::is_ws(s[j]),
    ensures
        word_len(s) == j,
    decreases j,
{
    if j > 0 {
        let t = s.drop_first();
        assert forall|k: int| 0 <= k < j - 1 implies !text::is_ws(#[trigger] t[k]) by {
            assert(t[k] == s[k + 1]);
        }
        if j < s.len() {
            assert(t[j - 1] == s[j]);
        }
        lemma_word_len(t, j - 1);
    }
}

/// First index `j >= from` where `v[j]` is (`ws`) or is not white space.
fn skip_while(v: &Vec<char>, from: usize, ws: bool) -> (r: usize)
    requires
        from <= v@.len(),
    ensures
        from <= r <= v@.len(),
        forall|k: int| from <= k < r ==> text::is_ws(#[trigger] v@[k]) == ws,
        r < v@.len() ==> text::is_ws(v@[r as int]) != ws,
{
    let mut j = from;
    while j < v.len() && text::is_whitespace(v[j]) == ws
        invariant
            from <= j <= v@.len(),
            forall|k: int| from <= k < j ==> text::is_ws(#[trigger] v@[k]) == ws,
        decreases v@.len() - j,
    {
        j = j + 1;
    }
    j
}

/// The path of the browser's callback request (`GET <path> HTTP/1.1`).
pub fn callback_path(req: &str) -> (r: String)
    ensures
        r@ == request_path(req@),
{
    let all = text::chars_of(req);
    let nl = text::find_from(&all, 0, '\n');
    let v = text::slice_vec(&all, 0, nl);
    proof {
        assert(all@.subrange(0, all@.len() as int) =~= all@);
        assert(v@ == req@.take(text::find_char(req@, '\n')));
    }
    let i = skip_while(&v, 0, true);
    let j = skip_while(&v, i, false);
    let k = skip_while(&v, j, true);
    let m = skip_while(&v, k, false);
    proof {
        let line = v@;
        text::lemma_trim_start_skip(line, i as int);
        let a0 = line.subrange(i as int, line.len() as int);
        assert(text::trim_start(a0) == a0);
        let a = text::trim_start(line);
        assert forall|x: int| 0 <= x < j - i implies !text::is_ws(#[trigger] a[x]) by {
            assert(a[x] == line[x + i]);
        }
        if j < line.len() {
            assert(a[j - i] == line[j as int]);
        }
        lemma_word_len(a, j - i);
        let rest = a.skip(j - i);
        assert(rest =~= line.subrange(j as int, line.len() as int));
        assert forall|x: int| 0 <= x < k - j implies text::is_ws(#[trigger] rest[x]) by {
            assert(rest[x] == line[x + j]);
        }
        text::lemma_trim_start_skip(rest, k - j);
        let b0 = rest.subrange(k - j, rest.len() as int);
        assert(b0 =~= line.subrange(k as int, line.len() as int));
        assert(text::trim_start(b0) == b0);
        let b = text::trim_start(rest);
        assert forall|x: int| 0 <= x < m - k implies !text::is_ws(#[trigger] b[x]) by {
            assert(b[x] == line[x + k]);
        }
        if m < line.len() {
            assert(b[m - k] == line[m as int]);
        }
        lemma_word_len(b, m - k);
        assert(b.take(m - k) =~= line.subrange(k as int, m as int));
    }
    let w = text::slice_vec(&v, k, m);
    text::string_of(&w)
}

/// The code and state the authorization server sent back, or the error
/// when the callback carries no code (the user cancelled).
pub fn callback_params(path: &str) -> (r: Result<(String, String), String>)
    ensures
        match r {
            Ok((code, state)) => {
                &&& query_value(path@, "code"@) == Some(code@)
                &&& state@ == match query_value(path@, "state"@) {
                    Some(s) => s,
                    None => Seq::<char>::empty(),
                }
            },
            Err(e) => query_value(path@, "code"@) is None && e@
                == "el callback no trajo 'code' (¿autorización cancelada?)"@,
        },
{
    let code = query_get(path, "code");
    let state = match query_get(path, "state") {
        Some(s) => s,
        None => String::new(),
    };
    match code {
        Some(c) => Ok((c, state)),
        None => {
            let mut e = String::new();
            text::push_str(&mut e, "el callback no trajo 'code' (¿autorización cancelada?)");
            Err(e)
        },
    }
}

/// The state echoed by the callback must be the one sent (otherwise the
/// callback may be forged).
pub fn check_state(sent: &str, got: &str) -> (r: Result<(), String>)
    ensures
        r is Ok <==> sent@ == got@,
        r matches Err(e) ==> e@ == "state inválido (posible CSRF)"@,
{
    let a = text::chars_of(got);
    if text::vec_eq_str(&a, sent) {
        Ok(())
    } else {
        let mut e = String::new();
        text::push_str(&mut e, "state inválido (posible CSRF)");
        Err(e)
    }
}

/// The authorization URL the browser opens (PKCE S256, scope `mcp`).
pub open spec fn authorize_url_of(
    base: Seq<char>,
    client_id: Seq<char>,
    redirect_uri: Seq<char>,
    challenge: Seq<char>,
    state: Seq<char>,
) -> Seq<char> {
    base + "/oauth/authorize?response_type=code&client_id="@ + percent_encoded(
        vstd::utf8::encode_utf8(client_id),
    ) + "&redirect_uri="@ + percent_encoded(vstd::utf8::encode_utf8(redirect_uri))
        + "&code_challenge="@ + challenge + "&code_challenge_method=S256&scope=mcp&state="@
        + percent_encoded(vstd::utf8::encode_utf8(state))
}

pub fn authorize_url(base: &str, client_id: &str, redirect_uri: &str, challenge: &str, state: &str) -> (r: String)
    ensures
        r@ == authorize_url_of(base@, client_id@, redirect_uri@, challenge@, state@),
{
    let mut u = String::new();
    text::push_str(&mut u, base);
    text::push_str(&mut u, "/oauth/authorize?response_type=code&client_id=");
    let c = url_encode(client_id);
    text::push_str(&mut u, c.as_str());
    text::push_str(&mut u, "&redirect_uri=");
    let r = url_encode(redirect_uri);
    text::push_str(&mut u, r.as_str());
    text::push_str(&mut u, "&code_challenge=");
    text::push_str(&mut u, challenge);
    text::push_str(&mut u, "&code_challenge_method=S256&scope=mcp&state=");
    let s = url_encode(state);
    text::push_str(&mut u, s.as_str());
    u
}

/// The loopback redirect URI for a port.
pub open spec fn redirect_uri_of(port: u16) -> Seq<char> {
    "http://127.0.0.1:"@ + text::dec(port as nat) + "/cb"@
}

pub fn redirect_uri(port: u16) -> (r: String)
    ensures
        r@ == redirect_uri_of(port),
{
    let mut u = String::new();
    text::push_str(&mut u, "http://127.0.0.1:");
    text::push_dec(&mut u, port as u64);
    text::push_str(&mut u, "/cb");
    u
}

/// The SHA-256 digest of a byte string.
pub uninterp spec fn sha256_of(bytes: Seq<u8>) -> Seq<u8>;

/// `sha2::Sha256::digest`: the contract names the digest and states its
/// length (32 bytes).
#[verifier::external_body]
fn sha256(bytes: &[u8]) -> (r: Vec<u8>)
    ensures
        r@ == sha256_of(bytes@),
        r@.len() == 32,
{
    sha2::Sha256::digest(bytes).to_vec()
}

/// The URL-safe base64 text of a byte string, without padding.
pub uninterp spec fn base64url_of(bytes: Seq<u8>) -> Seq<char>;

/// `base64::engine::general_purpose::URL_SAFE_NO_PAD.encode`: the contract
/// names the text.
#[verifier::external_body]
fn base64url(bytes: &[u8]) -> (r: String)
    ensures
        r@ == base64url_of(bytes@),
{
    base64::engine::general_purpose::URL_SAFE_NO_PAD.encode(bytes)
}

/// The PKCE S256 challenge of a verifier: base64url(SHA-256(verifier)).
pub open spec fn pkce_challenge_of(verifier: Seq<char>) -> Seq<char> {
    base64url_of(sha256_of(vstd::utf8::encode_utf8(verifier)))
}

pub fn pkce_challenge(verifier: &str) -> (r: String)
    ensures
        r@ == pkce_challenge_of(verifier@),
{
    let b = verifier.as_bytes();
    let d = sha256(b);
    base64url(d.as_slice())
}

/// `getrandom::getrandom` on a buffer of `n` bytes: the bytes are random;
/// only their number is stated. The error is the crate's message.
#[verifier::external_body]
fn random_bytes(n: usize) -> (r: Result<Vec<u8>, String>)
    ensures
        r matches Ok(v) ==> v@.len() == n,
{
    let mut buf = vec![0u8; n];
    getrandom::getrandom(&mut buf).map_err(|e| e.to_string())?;
    Ok(buf)
}

/// `n` random bytes as URL-safe base64 (a PKCE verifier or a state): the
/// text is the encoding of some `n` bytes; an error carries the generator's
/// message after `rng: `.
pub fn rand_b64(n: usize) -> (r: Result<String, String>)
    ensures
        r matches Ok(s) ==> exists|b: Seq<u8>| b.len() == n && s@ == #[trigger] base64url_of(b),
        r matches Err(e) ==> text::starts_with(e@, "rng: "@),
{
    match random_bytes(n) {
        Ok(b) => {
            let s = base64url(b.as_slice());
            assert(b@.len() == n && s@ == base64url_of(b@));
            Ok(s)
        },
        Err(e) => {
            let mut m = String::new();
            text::push_str(&mut m, "rng: ");
            text::push_str(&mut m, e.as_str());
            proof {
                reveal_strlit("rng: ");
                assert(m@.take(5) =~= "rng: "@);
            }
            Err(m)
        },
    }
}

} // verus!
