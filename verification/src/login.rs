//! Browser login: key material, the signed messages of the desktop-auth
//! handshake, the browser URL and the localhost callback.

use vstd::prelude::*;
use vstd::string::StringSliceAdditionalSpecFns;
use crate::diagnosis::split_once_eq;
use crate::link::strip_trailing;
use crate::text::{
    char_count, chars_of, find_char, i64_text, index_of, int_text, dec, owned, split_by, split_fields,
    split_words, str_eq, string_from_range, u64_text, views, words,
};

verus! {

// ---------------------------------------------------------------------------
// Hashing, encoding and signing
// ---------------------------------------------------------------------------

/// The SHA-256 digest of the bytes.
pub uninterp spec fn sha256_digest(data: Seq<u8>) -> Seq<u8>;

/// `Sha256::digest(data)`. Trusted: the result is named `sha256_digest` of
/// the input and is 32 bytes long (the output size of SHA-256).
#[verifier::external_body]
fn sha256(data: &[u8]) -> (r: Vec<u8>)
    ensures
        r@ == sha256_digest(data@),
        r@.len() == 32,
{
    <sha2::Sha256 as sha2::Digest>::digest(data).to_vec()
}

/// The URL-safe base64 text of the bytes, without padding.
pub uninterp spec fn base64url_text(data: Seq<u8>) -> Seq<char>;

/// `URL_SAFE_NO_PAD.encode(data)`. Trusted: the result is named
/// `base64url_text` of the input.
#[verifier::external_body]
fn base64url_encode(data: &[u8]) -> (r: String)
    ensures
        r@ == base64url_text(data@),
{
    base64::Engine::encode(&base64::engine::general_purpose::URL_SAFE_NO_PAD, data)
}

/// The standard (padded) base64 text of the bytes.
pub uninterp spec fn base64_text(data: Seq<u8>) -> Seq<char>;

/// `STANDARD.encode(data)`. Trusted: the result is named `base64_text` of
/// the input.
#[verifier::external_body]
fn base64_encode(data: &[u8]) -> (r: String)
    ensures
        r@ == base64_text(data@),
{
    base64::Engine::encode(&base64::engine::general_purpose::STANDARD, data)
}

/// The Ed25519 public key (RFC 8032) that belongs to a 32-byte secret key.
pub uninterp spec fn ed25519_public(secret: Seq<u8>) -> Seq<u8>;

/// The Ed25519 signature (RFC 8032, deterministic) of `message` under the
/// 32-byte secret key.
pub uninterp spec fn ed25519_signature(secret: Seq<u8>, message: Seq<u8>) -> Seq<u8>;

/// `SigningKey::generate(&mut OsRng).to_bytes()`. Trusted: 32 random bytes,
/// the secret key's seed.
#[verifier::external_body]
fn new_secret_key() -> (r: Vec<u8>)
    ensures
        r@.len() == 32,
{
    ed25519_dalek::SigningKey::generate(&mut rand::rngs::OsRng).to_bytes().to_vec()
}

/// `SigningKey::from_bytes(secret).verifying_key().as_bytes()`. Trusted: the
/// 32 bytes named `ed25519_public` of the secret.
#[verifier::external_body]
fn public_key_of(secret: &[u8]) -> (r: Vec<u8>)
    requires
        secret@.len() == 32,
    ensures
        r@ == ed25519_public(secret@),
        r@.len() == 32,
{
    let seed: [u8; 32] = secret.try_into().unwrap();
    ed25519_dalek::SigningKey::from_bytes(&seed).verifying_key().as_bytes().to_vec()
}

/// `SigningKey::from_bytes(secret).sign(message).to_bytes()`. Trusted: the
/// 64 bytes named `ed25519_signature` of the secret and the message.
#[verifier::external_body]
fn ed25519_sign(secret: &[u8], message: &[u8]) -> (r: Vec<u8>)
    requires
        secret@.len() == 32,
    ensures
        r@ == ed25519_signature(secret@, message@),
        r@.len() == 64,
{
    let seed: [u8; 32] = secret.try_into().unwrap();
    ed25519_dalek::Signer::sign(&ed25519_dalek::SigningKey::from_bytes(&seed), message)
        .to_bytes()
        .to_vec()
}

/// An Ed25519 secret key: its 32 bytes.
#[derive(Debug)]
pub struct SigningSecret {
    bytes: Vec<u8>,
}

impl View for SigningSecret {
    type V = Seq<u8>;

    closed spec fn view(&self) -> Seq<u8> {
        self.bytes@
    }
}

impl SigningSecret {
    #[verifier::type_invariant]
    spec fn well_formed(self) -> bool {
        self.bytes@.len() == 32
    }

    /// The key with these secret bytes, when there are 32 of them.
    pub fn from_bytes(bytes: &[u8]) -> (r: Option<SigningSecret>)
        ensures
            r is Some <==> bytes@.len() == 32,
            r matches Some(k) ==> k@ == bytes@,
    {
        if bytes.len() != 32 {
            return None;
        }
        let mut v: Vec<u8> = Vec::new();
        let mut i: usize = 0;
        while i < bytes.len()
            invariant
                i <= bytes@.len(),
                v@ == bytes@.take(i as int),
            decreases bytes@.len() - i,
        {
            v.push(bytes[i]);
            assert(bytes@.take(i + 1) =~= bytes@.take(i as int).push(bytes@[i as int]));
            i = i + 1;
        }
        assert(bytes@.take(bytes@.len() as int) =~= bytes@);
        Some(SigningSecret { bytes: v })
    }
}

/// `rand::random::<[u8; 32]>()`. Trusted: 32 bytes, chosen at random.
#[verifier::external_body]
fn random_bytes_32() -> (r: Vec<u8>)
    ensures
        r@.len() == 32,
{
    rand::random::<[u8; 32]>().to_vec()
}

/// Whether `s` is a UUID in hyphenated lower-case form: 36 characters,
/// hyphens at 8, 13, 18 and 23, hexadecimal digits elsewhere.
pub open spec fn is_uuid_text(s: Seq<char>) -> bool {
    &&& s.len() == 36
    &&& forall|i: int|
        0 <= i < 36 ==> if i == 8 || i == 13 || i == 18 || i == 23 {
            s[i] == '-'
        } else {
            ('0' <= #[trigger] s[i] <= '9') || ('a' <= s[i] <= 'f')
        }
}

/// `Uuid::new_v4().to_string()`. Trusted: the text is random, in the
/// hyphenated lower-case form that `Uuid`'s `Display` writes.
#[verifier::external_body]
fn new_uuid_text() -> (r: String)
    ensures
        is_uuid_text(r@),
{
    uuid::Uuid::new_v4().to_string()
}

/// `SystemTime::now().duration_since(UNIX_EPOCH)` in whole seconds, `None`
/// where the clock is set before the epoch. Trusted, with nothing claimed
/// of the value: it is the clock.
#[verifier::external_body]
fn unix_seconds() -> (r: Option<u64>) {
    std::time::SystemTime::now().duration_since(std::time::UNIX_EPOCH).ok().map(|d| d.as_secs())
}

/// The DER prefix that wraps an Ed25519 public key as a PKIX structure.
pub open spec fn pkix_prefix() -> Seq<u8> {
    seq![0x30u8, 0x2a, 0x30, 0x05, 0x06, 0x03, 0x2b, 0x65, 0x70, 0x03, 0x21, 0x00]
}

/// The PEM text of an Ed25519 public key.
pub open spec fn public_key_pem_text(public_key: Seq<u8>) -> Seq<char> {
    "-----BEGIN PUBLIC KEY-----\n"@ + base64_text(pkix_prefix() + public_key)
        + "\n-----END PUBLIC KEY-----"@
}

pub fn public_key_pem(public_key: &[u8]) -> (r: String)
    ensures
        r@ == public_key_pem_text(public_key@),
{
    let mut pkix: Vec<u8> = vec![0x30u8, 0x2a, 0x30, 0x05, 0x06, 0x03, 0x2b, 0x65, 0x70, 0x03, 0x21, 0x00];
    assert(pkix@ =~= pkix_prefix());
    let mut i: usize = 0;
    while i < public_key.len()
        invariant
            i <= public_key@.len(),
            pkix@ == pkix_prefix() + public_key@.take(i as int),
        decreases public_key@.len() - i,
    {
        pkix.push(public_key[i]);
        assert(public_key@.take(i + 1) =~= public_key@.take(i as int).push(public_key@[i as int]));
        i = i + 1;
    }
    assert(public_key@.take(public_key@.len() as int) =~= public_key@);
    let b64 = base64_encode(pkix.as_slice());
    let mut pem = owned("-----BEGIN PUBLIC KEY-----\n");
    pem.append(b64.as_str());
    pem.append("\n-----END PUBLIC KEY-----");
    pem
}

/// A new signing key and the PEM text of its public key.
pub fn generate_keypair() -> (r: (SigningSecret, String))
    ensures
        r.0@.len() == 32,
        r.1@ == public_key_pem_text(ed25519_public(r.0@)),
{
    let bytes = new_secret_key();
    let pk = public_key_of(bytes.as_slice());
    let pem = public_key_pem(pk.as_slice());
    (SigningSecret { bytes }, pem)
}

/// The URL-safe base64 text of the Ed25519 signature of the message.
pub fn sign_message(key: &SigningSecret, message: &str) -> (r: String)
    ensures
        r@ == base64url_text(ed25519_signature(key@, message.spec_bytes())),
{
    proof {
        use_type_invariant(key);
    }
    let sig = ed25519_sign(key.bytes.as_slice(), message.as_bytes());
    base64url_encode(sig.as_slice())
}

/// The PKCE challenge of a verifier: the URL-safe base64 text of the SHA-256
/// digest of its bytes.
pub fn sha256_base64url(value: &str) -> (r: String)
    ensures
        r@ == base64url_text(sha256_digest(value.spec_bytes())),
{
    let digest = sha256(value.as_bytes());
    base64url_encode(digest.as_slice())
}

/// A fresh PKCE code verifier: 32 random bytes in URL-safe base64.
pub fn new_code_verifier() -> (r: String)
    ensures
        exists|b: Seq<u8>| b.len() == 32 && r@ == base64url_text(b),
{
    let bytes = random_bytes_32();
    base64url_encode(bytes.as_slice())
}

/// The error when the clock gives no time since 1970 that fits an `i64`.
pub open spec fn clock_error() -> Seq<char> {
    "The system clock is set before 1970-01-01"@
}

/// The timestamp sent with a signed message, from the clock's seconds since
/// the Unix epoch (`None` for a clock set before it).
pub fn timestamp_from(seconds: Option<u64>) -> (r: Result<i64, String>)
    ensures
        match seconds {
            Some(s) => if s <= i64::MAX {
                r matches Ok(t) && t == s
            } else {
                r matches Err(e) && e@ == clock_error()
            },
            None => r matches Err(e) && e@ == clock_error(),
        },
{
    match seconds {
        Some(s) => if s <= i64::MAX as u64 {
            Ok(s as i64)
        } else {
            Err(owned("The system clock is set before 1970-01-01"))
        },
        None => Err(owned("The system clock is set before 1970-01-01")),
    }
}

/// The seconds since the Unix epoch; an error where the clock is set before
/// it.
pub fn timestamp() -> (r: Result<i64, String>)
    ensures
        r matches Ok(t) ==> t >= 0,
        r matches Err(e) ==> e@ == clock_error(),
{
    timestamp_from(unix_seconds())
}

// ---------------------------------------------------------------------------
// Identifiers and signed messages
// ---------------------------------------------------------------------------

/// The characters of `s` other than `-` (`s.replace("-", "")`).
pub open spec fn without_hyphens(s: Seq<char>) -> Seq<char>
    decreases s.len(),
{
    if s.len() == 0 {
        s
    } else if s.last() == '-' {
        without_hyphens(s.drop_last())
    } else {
        without_hyphens(s.drop_last()).push(s.last())
    }
}

proof fn lemma_uuid_hex_len(s: Seq<char>, n: int)
    requires
        is_uuid_text(s),
        0 <= n <= 36,
    ensures
        without_hyphens(s.take(n)).len() == n - (if n > 23 {
            4int
        } else if n > 18 {
            3int
        } else if n > 13 {
            2int
        } else if n > 8 {
            1int
        } else {
            0int
        }),
    decreases n,
{
    if n > 0 {
        lemma_uuid_hex_len(s, n - 1);
        assert(s.take(n).drop_last() =~= s.take(n - 1));
        assert(s.take(n).last() == s[n - 1]);
    }
}

/// A UUID's 32 hexadecimal digits (`uuid.replace("-", "")[..32]`).
pub fn compact_uuid(uuid: &str) -> (r: String)
    requires
        is_uuid_text(uuid@),
    ensures
        r@ == without_hyphens(uuid@),
        r@.len() == 32,
{
    let v = chars_of(uuid);
    let mut out = String::new();
    let mut i: usize = 0;
    assert(v@.take(0) =~= Seq::<char>::empty());
    while i < v.len()
        invariant
            i <= v@.len(),
            v@ == uuid@,
            out@ == without_hyphens(v@.take(i as int)),
        decreases v@.len() - i,
    {
        assert(v@.take(i + 1).drop_last() =~= v@.take(i as int));
        assert(v@.take(i + 1).last() == v@[i as int]);
        if v[i] != '-' {
            crate::text::push_char(&mut out, v[i]);
        }
        i = i + 1;
    }
    proof {
        assert(v@.take(36) =~= v@);
        lemma_uuid_hex_len(uuid@, 36);
    }
    out
}

/// A new random 32-digit identifier (a UUID without its hyphens), as the
/// installation id and the OAuth state use.
pub fn new_compact_id() -> (r: String)
    ensures
        r@.len() == 32,
        exists|u: Seq<char>| is_uuid_text(u) && r@ == without_hyphens(u),
{
    let u = new_uuid_text();
    let r = compact_uuid(u.as_str());
    assert(is_uuid_text(u@) && r@ == without_hyphens(u@));
    r
}

/// The message signed to open a start session.
pub open spec fn start_message_text(
    installation_id: Seq<char>,
    state: Seq<char>,
    port: u16,
    code_challenge: Seq<char>,
    timestamp: i64,
) -> Seq<char> {
    "visiontodo-desktop-auth-start\ninstallation_id="@ + installation_id + "\nstate="@ + state
        + "\nport="@ + dec(port as nat) + "\nnext_path=/organization/set\ncode_challenge="@
        + code_challenge + "\nauth_path=/sign-in\nreferral_code=\ntimestamp="@ + int_text(
        timestamp as int,
    )
}

pub fn start_message(
    installation_id: &str,
    state: &str,
    port: u16,
    code_challenge: &str,
    timestamp: i64,
) -> (r: String)
    ensures
        r@ == start_message_text(installation_id@, state@, port, code_challenge@, timestamp),
{
    let mut m = owned("visiontodo-desktop-auth-start\ninstallation_id=");
    m.append(installation_id);
    m.append("\nstate=");
    m.append(state);
    m.append("\nport=");
    let p = u64_text(port as u64);
    m.append(p.as_str());
    m.append("\nnext_path=/organization/set\ncode_challenge=");
    m.append(code_challenge);
    m.append("\nauth_path=/sign-in\nreferral_code=\ntimestamp=");
    let t = i64_text(timestamp);
    m.append(t.as_str());
    m
}

/// The message signed to exchange a handoff for an API key.
pub open spec fn exchange_message_text(
    installation_id: Seq<char>,
    handoff_id: Seq<char>,
    code_verifier: Seq<char>,
    timestamp: i64,
) -> Seq<char> {
    "visiontodo-desktop-auth-exchange\ninstallation_id="@ + installation_id + "\nhandoff_id="@
        + handoff_id + "\ncode_verifier="@ + code_verifier + "\ntimestamp="@ + int_text(
        timestamp as int,
    )
}

pub fn exchange_message(
    installation_id: &str,
    handoff_id: &str,
    code_verifier: &str,
    timestamp: i64,
) -> (r: String)
    ensures
        r@ == exchange_message_text(installation_id@, handoff_id@, code_verifier@, timestamp),
{
    let mut m = owned("visiontodo-desktop-auth-exchange\ninstallation_id=");
    m.append(installation_id);
    m.append("\nhandoff_id=");
    m.append(handoff_id);
    m.append("\ncode_verifier=");
    m.append(code_verifier);
    m.append("\ntimestamp=");
    let t = i64_text(timestamp);
    m.append(t.as_str());
    m
}

// ---------------------------------------------------------------------------
// Browser URL
// ---------------------------------------------------------------------------

/// `s` with every non-overlapping occurrence of `pat`, left to right,
/// replaced by `rep` (`str::replace`, for a non-empty pattern).
pub open spec fn replace_all(s: Seq<char>, pat: Seq<char>, rep: Seq<char>) -> Seq<char>
    decreases s.len(),
{
    if pat.len() == 0 || s.len() < pat.len() {
        s
    } else if s.take(pat.len() as int) == pat {
        rep + replace_all(s.skip(pat.len() as int), pat, rep)
    } else {
        seq![s[0]] + replace_all(s.drop_first(), pat, rep)
    }
}

/// `s.replace(pat, rep)` for a non-empty pattern.
pub fn replace_text(s: &str, pat: &str, rep: &str) -> (r: String)
    requires
        pat@.len() > 0,
    ensures
        r@ == replace_all(s@, pat@, rep@),
{
    let v = chars_of(s);
    let p = chars_of(pat);
    let n = v.len();
    let m = p.len();
    let mut out = String::new();
    let mut i: usize = 0;
    assert(v@.skip(0) =~= v@);
    while i < n
        invariant
            i <= n == v@.len(),
            m == p@.len() > 0,
            v@ == s@,
            p@ == pat@,
            out@ + replace_all(v@.skip(i as int), p@, rep@) == replace_all(v@, p@, rep@),
        decreases n - i,
    {
        let ghost rest = v@.skip(i as int);
        let mut k: usize = 0;
        if m <= n - i {
            while k < m && v[i + k] == p[k]
                invariant
                    i + m <= n == v@.len(),
                    m == p@.len(),
                    k <= m,
                    forall|j: int| 0 <= j < k ==> v@[i + j] == p@[j],
                decreases m - k,
            {
                k = k + 1;
            }
        }
        if m <= n - i && k == m {
            assert(rest.take(m as int) =~= p@);
            assert(rest.skip(m as int) =~= v@.skip(i + m));
            out.append(rep);
            i = i + m;
        } else {
            if m <= n - i {
                assert(rest.take(m as int)[k as int] != p@[k as int]);
            }
            assert(rest.drop_first() =~= v@.skip(i + 1));
            assert(rest[0] == v@[i as int]);
            crate::text::push_char(&mut out, v[i]);
            assert(out@ + replace_all(v@.skip(i + 1), p@, rep@) =~= replace_all(v@, p@, rep@));
            i = i + 1;
        }
    }
    assert(v@.skip(n as int) =~= Seq::<char>::empty());
    assert(out@ + Seq::<char>::empty() =~= out@);
    out
}

/// The frontend the browser signs in on: the one given, else the API URL
/// with the development port `:8080` mapped to `:3000` and `api.` removed.
pub open spec fn frontend_base_text(api_url: Seq<char>, frontend_url: Option<Seq<char>>) -> Seq<char> {
    match frontend_url {
        Some(f) => f,
        None => replace_all(replace_all(api_url, ":8080"@, ":3000"@), "api."@, Seq::empty()),
    }
}

pub fn frontend_base(api_url: &str, frontend_url: Option<&str>) -> (r: String)
    ensures
        r@ == frontend_base_text(
            api_url@,
            match frontend_url {
                Some(f) => Some(f@),
                None => None,
            },
        ),
{
    match frontend_url {
        Some(f) => owned(f),
        None => {
            proof {
                reveal_strlit(":8080");
                reveal_strlit("api.");
                reveal_strlit(":3000");
                reveal_strlit("");
                assert(""@ =~= Seq::<char>::empty());
            }
            let a = replace_text(api_url, ":8080", ":3000");
            replace_text(a.as_str(), "api.", "")
        },
    }
}

/// The page that signs the browser in for a start session.
pub open spec fn browser_url_text(frontend: Seq<char>, start_token: Seq<char>) -> Seq<char> {
    strip_trailing(frontend, '/') + "/desktop/browser-auth?start_token="@ + start_token
}

pub fn browser_url(frontend: &str, start_token: &str) -> (r: String)
    ensures
        r@ == browser_url_text(frontend@, start_token@),
{
    let v = chars_of(frontend);
    let mut end = v.len();
    assert(v@.take(end as int) =~= v@);
    while end > 0 && v[end - 1] == '/'
        invariant
            end <= v.len(),
            strip_trailing(v@, '/') == strip_trailing(v@.take(end as int), '/'),
        decreases end,
    {
        assert(v@.take(end as int).drop_last() =~= v@.take(end - 1));
        end = end - 1;
    }
    proof {
        if end > 0 {
            assert(v@.take(end as int).last() != '/');
        }
    }
    let mut url = string_from_range(&v, 0, end);
    assert(v@.subrange(0, end as int) =~= v@.take(end as int));
    url.append("/desktop/browser-auth?start_token=");
    url.append(start_token);
    url
}

// ---------------------------------------------------------------------------
// The localhost callback
// ---------------------------------------------------------------------------

/// The request target of an HTTP request line (its second word), or
/// nothing.
pub open spec fn request_target(line: Seq<char>) -> Seq<char> {
    if words(line).len() >= 2 {
        words(line)[1]
    } else {
        Seq::empty()
    }
}

/// The query of a request target (after its first `?`), or nothing.
pub open spec fn target_query(target: Seq<char>) -> Seq<char> {
    if split_fields(target, '?').len() >= 2 {
        split_fields(target, '?')[1]
    } else {
        Seq::empty()
    }
}

/// The value of the last `key=value` parameter named `key`, or nothing.
pub open spec fn param_value(params: Seq<Seq<char>>, key: Seq<char>) -> Seq<char>
    decreases params.len(),
{
    if params.len() == 0 {
        Seq::empty()
    } else {
        match split_once_eq(params.last()) {
            Some((k, v)) => if k == key {
                v
            } else {
                param_value(params.drop_last(), key)
            },
            None => param_value(params.drop_last(), key),
        }
    }
}

/// What the browser's redirect to `/callback?handoff_id=…&state=…` carries:
/// the handoff id, which must not be empty, and the state.
pub open spec fn callback_spec(line: Seq<char>) -> Result<(Seq<char>, Seq<char>), Seq<char>> {
    let params = split_fields(target_query(request_target(line)), '&');
    let handoff = param_value(params, "handoff_id"@);
    if handoff.len() == 0 {
        Err("No handoff_id in callback"@)
    } else {
        Ok((handoff, param_value(params, "state"@)))
    }
}

pub fn parse_callback(request_line: &str) -> (r: Result<(String, String), String>)
    ensures
        match callback_spec(request_line@) {
            Ok((h, s)) => r matches Ok((x, y)) && x@ == h && y@ == s,
            Err(e) => r matches Err(x) && x@ == e,
        },
{
    let ws = split_words(request_line);
    let target = if ws.len() >= 2 {
        ws[1].clone()
    } else {
        String::new()
    };
    assert(target@ == request_target(request_line@));
    let tv = chars_of(target.as_str());
    let pieces = split_by(&tv, '?');
    let query = if pieces.len() >= 2 {
        pieces[1].clone()
    } else {
        String::new()
    };
    assert(query@ == target_query(request_target(request_line@)));
    let qv = chars_of(query.as_str());
    let params = split_by(&qv, '&');
    let mut handoff = String::new();
    let mut state = String::new();
    let mut i: usize = 0;
    assert(views(params@).take(0) =~= Seq::<Seq<char>>::empty());
    while i < params.len()
        invariant
            i <= params@.len(),
            views(params@) == split_fields(query@, '&'),
            handoff@ == param_value(views(params@).take(i as int), "handoff_id"@),
            state@ == param_value(views(params@).take(i as int), "state"@),
        decreases params@.len() - i,
    {
        let ghost prefix = views(params@).take(i as int);
        assert(views(params@).take(i + 1).drop_last() =~= prefix);
        assert(views(params@).take(i + 1).last() == params@[i as int]@);
        proof {
            reveal_strlit("handoff_id");
            reveal_strlit("state");
            assert("handoff_id"@.len() == 10);
            assert("state"@.len() == 5);
        }
        let pv = chars_of(params[i].as_str());
        match find_char(&pv, '=') {
            Some(k) => {
                proof {
                    crate::text::lemma_index_of_bounds(pv@, '=');
                    assert(index_of(pv@, '=') == Some(k as int));
                    assert(k < pv@.len());
                }
                let key = string_from_range(&pv, 0, k);
                let value = string_from_range(&pv, k + 1, pv.len());
                assert(pv@.subrange(0, k as int) =~= pv@.take(k as int));
                assert(pv@.subrange(k + 1, pv@.len() as int) =~= pv@.skip(k + 1));
                if str_eq(key.as_str(), "handoff_id") {
                    handoff = value;
                } else if str_eq(key.as_str(), "state") {
                    state = value;
                }
            },
            None => {},
        }
        i = i + 1;
    }
    assert(views(params@).take(params@.len() as int) =~= views(params@));
    if char_count(handoff.as_str()) == 0 {
        return Err(owned("No handoff_id in callback"));
    }
    Ok((handoff, state))
}

/// The answer the CLI gives the browser's callback request.
pub open spec fn callback_response_text() -> Seq<char> {
    "HTTP/1.1 200 OK\r\nContent-Type: text/html\r\nContent-Length: 82\r\nConnection: close\r\n\r\n<html><body><h1>Login successful!</h1><p>You can close this tab.</p></body></html>"@
}

pub fn callback_response() -> (r: String)
    ensures
        r@ == callback_response_text(),
{
    owned(
        "HTTP/1.1 200 OK\r\nContent-Type: text/html\r\nContent-Length: 82\r\nConnection: close\r\n\r\n<html><body><h1>Login successful!</h1><p>You can close this tab.</p></body></html>",
    )
}

/// The callback must return the state the login started with.
pub fn check_state(expected: &str, got: &str) -> (r: Result<(), String>)
    ensures
        r is Ok <==> expected@ == got@,
        r matches Err(e) ==> e@ == "State mismatch: expected "@ + expected@ + ", got "@ + got@,
{
    if str_eq(expected, got) {
        return Ok(());
    }
    let mut e = owned("State mismatch: expected ");
    e.append(expected);
    e.append(", got ");
    e.append(got);
    Err(e)
}

// ---------------------------------------------------------------------------
// Replies of the login handshake
// ---------------------------------------------------------------------------

/// The three backend calls of the browser login.
#[derive(Clone, Copy, Debug, PartialEq, Eq)]
pub enum LoginCall {
    Register,
    StartSession,
    TokenExchange,
}

/// What a failed call of the login reports, before the reply's body.
pub open spec fn login_failure_prefix(call: LoginCall) -> Seq<char> {
    match call {
        LoginCall::Register => "Failed to register installation: "@,
        LoginCall::StartSession => "Failed to create start session: "@,
        LoginCall::TokenExchange => "Token exchange failed: "@,
    }
}

/// A call of the login goes on when its reply is a success; otherwise the
/// login fails with the call's message and the reply's body.
pub fn login_reply_check(call: LoginCall, success: bool, body: &str) -> (r: Result<(), String>)
    ensures
        success ==> r is Ok,
        !success ==> (r matches Err(e) && e@ == login_failure_prefix(call) + body@),
{
    if success {
        return Ok(());
    }
    let mut e = match call {
        LoginCall::Register => owned("Failed to register installation: "),
        LoginCall::StartSession => owned("Failed to create start session: "),
        LoginCall::TokenExchange => owned("Token exchange failed: "),
    };
    e.append(body);
    Err(e)
}

/// The API key the token exchange returned; without one the login fails.
pub fn exchanged_api_key(api_key: Option<String>) -> (r: Result<String, String>)
    ensures
        match api_key {
            Some(k) => r == Ok::<String, String>(k),
            None => r matches Err(e) && e@
                == "Server did not return an API key. Is the API Key feature enabled?"@,
        },
{
    match api_key {
        Some(k) => Ok(k),
        None => Err(owned("Server did not return an API key. Is the API Key feature enabled?")),
    }
}

} // verus!
