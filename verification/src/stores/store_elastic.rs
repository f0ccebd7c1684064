//! Configuration and request framing for the search/index backend.
//!
//! The adapter composes an HTTP(S) endpoint, the shared TLS material
//! and HTTP Basic credentials. Everything decided before any network
//! activity is verified here: the pairing checks, the Basic
//! authorization header, and the exact byte framing of the
//! index-mapping request body. The transport shell loads the named
//! PEM files and performs the requests.

use vstd::prelude::*;
use vstd::string::StringExecFns;
use vstd::string::StringSliceAdditionalSpecFns;

use crate::ConfigError;
use crate::TlsOptions;
use crate::UserOptions;

verus! {

/// Connection options for the search/index backend.
#[derive(Debug, Clone, PartialEq)]
pub struct ElasticOptions {
    /// HTTP(S) base URL of the backend.
    pub es_url: String,
    /// TLS material for secured connections.
    pub tls_opts: TlsOptions,
    /// HTTP Basic credentials.
    pub user_opts: UserOptions,
}

impl From<&str> for ElasticOptions {
    /// A bare endpoint string stands for "defaults for everything
    /// else": no TLS material, no credentials.
    fn from(url: &str) -> (r: Self)
        ensures
            r.es_url@ == url@,
            r.tls_opts.tls_ca_file is None,
            r.tls_opts.tls_cert_file is None,
            r.tls_opts.tls_key_file is None,
            r.user_opts.username is None,
            r.user_opts.password is None,
    {
        ElasticOptions {
            es_url: url.to_owned(),
            tls_opts: Default::default(),
            user_opts: Default::default(),
        }
    }
}

impl vstd::std_specs::convert::FromSpecImpl<&str> for ElasticOptions {
    open spec fn obeys_from_spec() -> bool {
        false
    }

    open spec fn from_spec(v: &str) -> Self {
        vstd::pervasive::arbitrary()
    }
}

impl From<(&str, UserOptions)> for ElasticOptions {
    /// An endpoint with credentials; no TLS material.
    fn from(o: (&str, UserOptions)) -> (r: Self)
        ensures
            r.es_url@ == o.0@,
            r.tls_opts.tls_ca_file is None,
            r.tls_opts.tls_cert_file is None,
            r.tls_opts.tls_key_file is None,
            r.user_opts == o.1,
    {
        ElasticOptions { es_url: o.0.to_owned(), tls_opts: Default::default(), user_opts: o.1 }
    }
}

impl vstd::std_specs::convert::FromSpecImpl<(&str, UserOptions)> for ElasticOptions {
    open spec fn obeys_from_spec() -> bool {
        false
    }

    open spec fn from_spec(v: (&str, UserOptions)) -> Self {
        vstd::pervasive::arbitrary()
    }
}

impl From<(&str, TlsOptions)> for ElasticOptions {
    /// An endpoint with TLS material; no credentials.
    fn from(o: (&str, TlsOptions)) -> (r: Self)
        ensures
            r.es_url@ == o.0@,
            r.tls_opts == o.1,
            r.user_opts.username is None,
            r.user_opts.password is None,
    {
        ElasticOptions { es_url: o.0.to_owned(), tls_opts: o.1, user_opts: Default::default() }
    }
}

impl vstd::std_specs::convert::FromSpecImpl<(&str, TlsOptions)> for ElasticOptions {
    open spec fn obeys_from_spec() -> bool {
        false
    }

    open spec fn from_spec(v: (&str, TlsOptions)) -> Self {
        vstd::pervasive::arbitrary()
    }
}

impl From<(&str, UserOptions, TlsOptions)> for ElasticOptions {
    /// An endpoint with both credentials and TLS material.
    fn from(o: (&str, UserOptions, TlsOptions)) -> (r: Self)
        ensures
            r.es_url@ == o.0@,
            r.tls_opts == o.2,
            r.user_opts == o.1,
    {
        ElasticOptions { es_url: o.0.to_owned(), tls_opts: o.2, user_opts: o.1 }
    }
}

impl vstd::std_specs::convert::FromSpecImpl<(&str, UserOptions, TlsOptions)> for ElasticOptions {
    open spec fn obeys_from_spec() -> bool {
        false
    }

    open spec fn from_spec(v: (&str, UserOptions, TlsOptions)) -> Self {
        vstd::pervasive::arbitrary()
    }
}

/// The client certificate and key files of a TLS identity. The
/// identity PEM handed to the HTTP client is the key file's bytes
/// followed by the certificate file's bytes.
#[derive(Debug, Clone, PartialEq)]
pub struct ClientIdentityFiles {
    /// PEM file holding the client certificate.
    pub cert_file: String,
    /// PEM file holding the client private key.
    pub key_file: String,
}

/// Everything the transport shell needs to build the backend's HTTP
/// client: which PEM files to load and which authorization header to
/// attach to every outgoing request.
#[derive(Debug, Clone, PartialEq)]
pub struct ElasticPlan {
    /// The backend endpoint, handed through unchanged.
    pub endpoint: String,
    /// PEM file with the trusted certificate authority, if any.
    pub ca_file: Option<String>,
    /// Client identity files, present exactly when the options carry
    /// a certificate/key pair.
    pub identity: Option<ClientIdentityFiles>,
    /// The HTTP Basic `Authorization` header value, present exactly
    /// when credentials are configured.
    pub auth_header: Option<String>,
}

/// What base64 encoding of a byte sequence yields. The standard
/// alphabet with padding; a function of the input bytes alone.
pub uninterp spec fn base64_of(bytes: Seq<u8>) -> Seq<char>;

/// Relies on base64::encode: standard alphabet with padding, four
/// output characters for every three input bytes, and a result that
/// depends on the input bytes alone.
#[verifier::external_body]
fn base64_encode(bytes: &Vec<u8>) -> (r: String)
    ensures
        r@ == base64_of(bytes@),
        r@.len() == 4 * ((bytes@.len() + 2) / 3),
{
    base64::encode(bytes)
}

/// The byte form of `user:pass` handed to the base64 encoder.
pub open spec fn credential_bytes(user: Seq<char>, pass: Seq<char>) -> Seq<u8> {
    vstd::utf8::encode_utf8(user) + seq![58u8] + vstd::utf8::encode_utf8(pass)
}

/// The HTTP Basic `Authorization` header value for the credentials.
pub open spec fn basic_auth_view(user: Seq<char>, pass: Seq<char>) -> Seq<char> {
    "Basic "@ + base64_of(credential_bytes(user, pass))
}

/// Build the HTTP Basic `Authorization` header value: the word
/// `Basic`, a space, and the base64 encoding of `user:pass`.
pub fn basic_auth_header(user: &str, pass: &str) -> (r: String)
    ensures
        r@ == basic_auth_view(user@, pass@),
{
    let mut bytes = vstd::slice::slice_to_vec(user.as_bytes());
    bytes.push(58);  // the colon between the two halves
    let mut pass_bytes = vstd::slice::slice_to_vec(pass.as_bytes());
    bytes.append(&mut pass_bytes);
    proof {
        assert(bytes@ =~= credential_bytes(user@, pass@));
    }
    let encoded = base64_encode(&bytes);
    let mut r = "Basic ".to_owned();
    r.append(encoded.as_str());
    r
}

impl ElasticOptions {
    /// Decide the whole HTTP client configuration, before any network
    /// activity. Fails exactly when the certificate/key pair or the
    /// username/password pair is broken; a lone half names its
    /// missing counterpart, and the certificate pairing is checked
    /// first. On success the plan names the CA file to trust, the
    /// identity files to load, and carries the ready authorization
    /// header.
    pub fn connect_plan(&self) -> (r: Result<ElasticPlan, ConfigError>)
        ensures
            r is Ok <==> (self.tls_opts.cert_key_paired() && self.user_opts.user_paired()),
            self.tls_opts.tls_cert_file is Some && self.tls_opts.tls_key_file is None ==> r
                == Err::<ElasticPlan, ConfigError>(ConfigError::CertWithoutKey),
            self.tls_opts.tls_key_file is Some && self.tls_opts.tls_cert_file is None ==> r
                == Err::<ElasticPlan, ConfigError>(ConfigError::KeyWithoutCert),
            (self.tls_opts.cert_key_paired() && self.user_opts.username is Some
                && self.user_opts.password is None) ==> r == Err::<ElasticPlan, ConfigError>(
                ConfigError::UsernameWithoutPassword,
            ),
            (self.tls_opts.cert_key_paired() && self.user_opts.password is Some
                && self.user_opts.username is None) ==> r == Err::<ElasticPlan, ConfigError>(
                ConfigError::PasswordWithoutUsername,
            ),
            r is Ok ==> {
                let p = r->Ok_0;
                &&& p.endpoint@ == self.es_url@
                &&& p.ca_file.deep_view() == self.tls_opts.tls_ca_file.deep_view()
                &&& (self.tls_opts.tls_cert_file is None ==> p.identity is None)
                &&& (self.tls_opts.tls_cert_file matches Some(c) ==> (p.identity matches Some(idf)
                    && idf.cert_file@ == c@ && idf.key_file@ == self.tls_opts.tls_key_file->0@))
                &&& (self.user_opts.username is None ==> p.auth_header is None)
                &&& (self.user_opts.username matches Some(u) ==> (p.auth_header matches Some(h)
                    && h@ == basic_auth_view(u@, self.user_opts.password->0@)))
            },
    {
        let identity: Option<ClientIdentityFiles> = match (
            &self.tls_opts.tls_cert_file,
            &self.tls_opts.tls_key_file,
        ) {
            (Some(c), Some(k)) => Some(
                ClientIdentityFiles {
                    cert_file: c.as_str().to_owned(),
                    key_file: k.as_str().to_owned(),
                },
            ),
            (Some(_), None) => {
                return Err(ConfigError::CertWithoutKey);
            },
            (None, Some(_)) => {
                return Err(ConfigError::KeyWithoutCert);
            },
            (None, None) => None,
        };
        let auth_header: Option<String> = match (
            &self.user_opts.username,
            &self.user_opts.password,
        ) {
            (Some(u), Some(p)) => Some(basic_auth_header(u.as_str(), p.as_str())),
            (Some(_), None) => {
                return Err(ConfigError::UsernameWithoutPassword);
            },
            (None, Some(_)) => {
                return Err(ConfigError::PasswordWithoutUsername);
            },
            (None, None) => None,
        };
        Ok(
            ElasticPlan {
                endpoint: self.es_url.as_str().to_owned(),
                ca_file: crate::clone_opt_string(&self.tls_opts.tls_ca_file),
                identity,
                auth_header,
            },
        )
    }
}

/// The hex digit (lower case) for a value below sixteen.
pub open spec fn hex_digit(n: u8) -> u8 {
    if n < 10 {
        (48 + n) as u8
    } else {
        (87 + n) as u8
    }
}

/// How one byte appears inside a JSON string: quote and backslash are
/// escaped with a backslash, control bytes become a `\u00XX` escape,
/// and every other byte stands for itself.
pub open spec fn escape_byte(b: u8) -> Seq<u8> {
    if b == 34 {
        seq![92u8, 34u8]
    } else if b == 92 {
        seq![92u8, 92u8]
    } else if b < 32 {
        seq![92u8, 117u8, 48u8, 48u8, hex_digit(b / 16), hex_digit(b % 16)]
    } else {
        seq![b]
    }
}

/// A byte sequence escaped for the inside of a JSON string.
pub open spec fn json_escaped(s: Seq<u8>) -> Seq<u8>
    decreases s.len(),
{
    if s.len() == 0 {
        Seq::empty()
    } else {
        escape_byte(s[0]) + json_escaped(s.drop_first())
    }
}

/// Escaping a sequence extended at the end escapes the prefix and the
/// last byte separately.
pub proof fn lemma_json_escaped_push(s: Seq<u8>, b: u8)
    ensures
        json_escaped(s.push(b)) == json_escaped(s) + escape_byte(b),
    decreases s.len(),
{
    let sb = s.push(b);
    if s.len() == 0 {
        assert(sb[0] == b);
        assert(sb.drop_first() =~= Seq::<u8>::empty());
        assert(escape_byte(b) + json_escaped(Seq::empty()) =~= json_escaped(s) + escape_byte(b));
    } else {
        assert(sb[0] == s[0]);
        assert(sb.drop_first() =~= s.drop_first().push(b));
        lemma_json_escaped_push(s.drop_first(), b);
        assert(escape_byte(s[0]) + (json_escaped(s.drop_first()) + escape_byte(b)) =~= (escape_byte(
            s[0],
        ) + json_escaped(s.drop_first())) + escape_byte(b));
    }
}

/// The hex digit function tells its argument apart on values below
/// sixteen.
proof fn lemma_hex_digit_injective(x: u8, y: u8)
    requires
        x < 16,
        y < 16,
        hex_digit(x) == hex_digit(y),
    ensures
        x == y,
{
}

/// Escaping loses nothing: two different byte sequences never share
/// one escaped form, so the text stored inside a JSON string
/// determines the original bytes exactly.
pub proof fn lemma_json_escaped_injective(a: Seq<u8>, b: Seq<u8>)
    requires
        json_escaped(a) == json_escaped(b),
    ensures
        a == b,
    decreases a.len(),
{
    let w = json_escaped(a);
    if a.len() == 0 && b.len() == 0 {
        assert(a =~= b);
    } else if a.len() == 0 {
        assert(json_escaped(b).len() >= escape_byte(b[0]).len());
    } else if b.len() == 0 {
        assert(json_escaped(a).len() >= escape_byte(a[0]).len());
    } else {
        let a0 = a[0];
        let b0 = b[0];
        let ea = escape_byte(a0);
        let eb = escape_byte(b0);
        assert(w == ea + json_escaped(a.drop_first()));
        assert(w == eb + json_escaped(b.drop_first()));
        assert(w[0] == ea[0] && w[0] == eb[0]);
        let esc_a = a0 == 34 || a0 == 92 || a0 < 32;
        let esc_b = b0 == 34 || b0 == 92 || b0 < 32;
        // An unescaped byte stands for itself and is neither a
        // backslash nor below 0x20, so the first output byte says
        // which class the input byte is in.
        assert(esc_a ==> ea[0] == 92);
        assert(!esc_a ==> ea[0] == a0 && a0 != 92);
        assert(esc_a == esc_b);
        if !esc_a {
            assert(a0 == b0);
            assert(ea.len() == 1 && eb.len() == 1);
        } else {
            assert(w[1] == ea[1] && w[1] == eb[1]);
            if a0 == 34 || a0 == 92 {
                assert(ea[1] == a0);
                assert(b0 == 34 || b0 == 92 ==> eb[1] == b0);
                assert(b0 < 32 && b0 != 34 && b0 != 92 ==> eb[1] == 117);
                assert(a0 == b0);
            } else {
                assert(ea[1] == 117);
                assert(b0 == 34 || b0 == 92 ==> eb[1] == b0 && b0 != 117);
                assert(b0 < 32);
                assert(w[4] == ea[4] && w[4] == eb[4]);
                assert(w[5] == ea[5] && w[5] == eb[5]);
                lemma_hex_digit_injective(a0 / 16, b0 / 16);
                lemma_hex_digit_injective(a0 % 16, b0 % 16);
                assert(a0 == b0);
            }
            assert(ea.len() == eb.len());
        }
        let n = ea.len() as int;
        assert(json_escaped(a.drop_first()) =~= w.skip(n));
        assert(json_escaped(b.drop_first()) =~= w.skip(n));
        lemma_json_escaped_injective(a.drop_first(), b.drop_first());
        assert(a =~= seq![a0] + a.drop_first());
        assert(b =~= seq![b0] + b.drop_first());
    }
}

/// A byte sequence as a JSON string: escaped, between double quotes.
pub open spec fn json_quoted(s: Seq<u8>) -> Seq<u8> {
    seq![34u8] + json_escaped(s) + seq![34u8]
}

/// Two different byte sequences never share one JSON-string form:
/// what stands between the quotes determines the original bytes.
pub proof fn lemma_json_quoted_injective(a: Seq<u8>, b: Seq<u8>)
    requires
        json_quoted(a) == json_quoted(b),
    ensures
        a == b,
{
    let wa = json_quoted(a);
    let wb = json_quoted(b);
    assert(json_escaped(a) =~= wa.subrange(1, wa.len() - 1));
    assert(json_escaped(b) =~= wb.subrange(1, wb.len() - 1));
    lemma_json_escaped_injective(a, b);
}

/// The exact body of an index-mapping request: one `mappings` object
/// whose single member is the index name with the mapping text as its
/// value, both as JSON strings.
pub open spec fn map_body_view(index: Seq<u8>, mapping: Seq<u8>) -> Seq<u8> {
    vstd::utf8::encode_utf8("{\"mappings\":{"@) + json_quoted(index) + vstd::utf8::encode_utf8(
        ":"@,
    ) + json_quoted(mapping) + vstd::utf8::encode_utf8("}}"@)
}

/// Append `s` as a JSON string, quotes and escapes included.
fn append_json_quoted(out: &mut Vec<u8>, s: &str)
    ensures
        final(out)@ == old(out)@ + json_quoted(s.spec_bytes()),
{
    let ghost base = old(out)@;
    out.push(34);
    let bytes = vstd::slice::slice_to_vec(s.as_bytes());
    let n = bytes.len();
    let mut i: usize = 0;
    while i < n
        invariant
            0 <= i <= n,
            n == bytes@.len(),
            bytes@ == s.spec_bytes(),
            out@ == base + seq![34u8] + json_escaped(bytes@.take(i as int)),
        decreases n - i,
    {
        proof {
            lemma_json_escaped_push(bytes@.take(i as int), bytes@[i as int]);
            assert(bytes@.take(i + 1) =~= bytes@.take(i as int).push(bytes@[i as int]));
        }
        let ghost before = out@;
        let b = bytes[i];
        if b == 34 {
            out.push(92);
            out.push(34);
        } else if b == 92 {
            out.push(92);
            out.push(92);
        } else if b < 32 {
            out.push(92);
            out.push(117);
            out.push(48);
            out.push(48);
            let hi = b / 16;
            let lo = b % 16;
            out.push(if hi < 10 { 48 + hi } else { 87 + hi });
            out.push(if lo < 10 { 48 + lo } else { 87 + lo });
        } else {
            out.push(b);
        }
        proof {
            assert(out@ =~= before + escape_byte(bytes@[i as int]));
            assert(out@ =~= base + seq![34u8] + json_escaped(bytes@.take(i + 1)));
        }
        i = i + 1;
    }
    proof {
        assert(bytes@.take(n as int) =~= bytes@);
    }
    out.push(34);
    proof {
        assert(final(out)@ =~= base + json_quoted(s.spec_bytes()));
    }
}

/// Build the exact byte body of the index-mapping request for the
/// given index name and mapping text.
pub fn map_request_body(index: &str, mapping: &str) -> (r: Vec<u8>)
    ensures
        r@ == map_body_view(index.spec_bytes(), mapping.spec_bytes()),
{
    let mut out: Vec<u8> = Vec::new();
    let mut opening = vstd::slice::slice_to_vec("{\"mappings\":{".as_bytes());
    out.append(&mut opening);
    append_json_quoted(&mut out, index);
    let mut colon = vstd::slice::slice_to_vec(":".as_bytes());
    out.append(&mut colon);
    append_json_quoted(&mut out, mapping);
    let mut closing = vstd::slice::slice_to_vec("}}".as_bytes());
    out.append(&mut closing);
    proof {
        assert(out@ =~= map_body_view(index.spec_bytes(), mapping.spec_bytes()));
    }
    out
}

} // verus!
