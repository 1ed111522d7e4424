//! Tokens and credentials: how they are made, written, read and stored.
//!
//! A credential names a tenant and bears a token. Of a token only a salted digest
//! is stored.

use crate::text;
use crate::text::{concat2, concat3, has_text, same_text, split, without_prefix};
use rand::RngCore;
use sha2::Digest;
use vstd::prelude::*;
use vstd::utf8::encode_utf8;

verus! {

// ---------------------------------------------------------------------------
// Digests, hexadecimal digits, random bytes
// ---------------------------------------------------------------------------

/// Names the SHA-256 digest of a sequence of bytes.
pub uninterp spec fn sha256_digest(data: Seq<u8>) -> Seq<u8>;

/// `sha2::Sha256`, fed with all the bytes at once: the digest, of 32 bytes.
#[verifier::external_body]
pub(crate) fn sha256(data: &[u8]) -> (r: Vec<u8>)
    ensures
        r@ == sha256_digest(data@),
        r@.len() == 32,
{
    let mut hasher = sha2::Sha256::new();
    hasher.update(data);
    hasher.finalize().to_vec()
}

pub open spec fn hex_digit(n: u8) -> char {
    if n < 10 {
        (n + 48) as char
    } else {
        (n + 87) as char
    }
}

/// Two hexadecimal digits in lower case for each byte.
pub open spec fn hex_text(bytes: Seq<u8>) -> Seq<char> {
    Seq::new(
        2 * bytes.len(),
        |i: int|
            if i % 2 == 0 {
                hex_digit(bytes[i / 2] / 16)
            } else {
                hex_digit(bytes[i / 2] % 16)
            },
    )
}

/// `hex::encode`: two hexadecimal digits in lower case for each byte, the higher
/// one first.
#[verifier::external_body]
pub(crate) fn hex_encode(bytes: &Vec<u8>) -> (r: String)
    ensures
        r@ == hex_text(bytes@),
{
    hex::encode(bytes)
}

/// `rand::RngCore::fill_bytes` of the generator that `rand::thread_rng` gives:
/// as many bytes as asked for. Nothing is said of their values. The generator is
/// seeded by the operating system; where that gives no random numbers, the call does
/// not return.
#[verifier::external_body]
pub(crate) fn random_bytes(count: usize) -> (r: Vec<u8>)
    requires
        count <= 0x7fff_ffff,
    ensures
        r@.len() == count,
{
    let mut bytes = vec![0u8; count];
    rand::thread_rng().fill_bytes(&mut bytes);
    bytes
}

/// Hexadecimal digits are letters and digits of ASCII.
pub proof fn lemma_hex_chars(bytes: Seq<u8>, i: int)
    requires
        0 <= i < hex_text(bytes).len(),
    ensures
        text::ascii_alphanumeric(hex_text(bytes)[i]),
{
    let b = bytes[i / 2];
    assert(b / 16 < 16 && b % 16 < 16);
}

/// A token is a text of hexadecimal digits, two for each of its bytes.
pub fn token_text(bytes: &Vec<u8>) -> (r: String)
    ensures
        r@ == hex_text(bytes@),
{
    hex_encode(bytes)
}

/// A new token of 16 random bytes.
pub fn new_token() -> (r: String)
    ensures
        exists|bytes: Seq<u8>| bytes.len() == 16 && r@ == #[trigger] hex_text(bytes),
{
    let bytes = random_bytes(16);
    token_text(&bytes)
}

/// A new identifier of 8 random bytes.
pub fn new_identifier() -> (r: String)
    ensures
        exists|bytes: Seq<u8>| bytes.len() == 8 && r@ == #[trigger] hex_text(bytes),
{
    let bytes = random_bytes(8);
    token_text(&bytes)
}

// ---------------------------------------------------------------------------
// Credentials
// ---------------------------------------------------------------------------

pub const CREDENTIAL_PREFIX: &'static str = "ozy_partner_ctx_";

pub const CREDENTIAL_SEPARATOR: &'static str = "_usr_";

/// The credential of a tenant with a token.
pub open spec fn credential(tenant: Seq<char>, token: Seq<char>) -> Seq<char> {
    CREDENTIAL_PREFIX@ + tenant + CREDENTIAL_SEPARATOR@ + token
}

/// The parts of what follows the prefix of a credential.
pub open spec fn credential_parts(text: Seq<char>) -> Seq<Seq<char>> {
    text::split_text(text.skip(CREDENTIAL_PREFIX@.len() as int), CREDENTIAL_SEPARATOR@)
}

/// The tenant and the token of a credential. A text is a credential if it begins
/// with the prefix and the separator stands once in the rest.
pub open spec fn parsed_credential(text: Seq<char>) -> Option<(Seq<char>, Seq<char>)> {
    if text::starts_with(text, CREDENTIAL_PREFIX@) && credential_parts(text).len() == 2 {
        Some((credential_parts(text)[0], credential_parts(text)[1]))
    } else {
        None
    }
}

/// The credential of a tenant with a token.
pub fn format_credential(tenant: &str, token: &str) -> (r: String)
    ensures
        r@ == credential(tenant@, token@),
{
    let mut out = concat3(CREDENTIAL_PREFIX, tenant, CREDENTIAL_SEPARATOR);
    out.append(token);
    out
}

proof fn lemma_separator()
    ensures
        CREDENTIAL_SEPARATOR@ == seq!['_', 'u', 's', 'r', '_'],
{
    reveal_strlit("_usr_");
    assert(CREDENTIAL_SEPARATOR@ =~= seq!['_', 'u', 's', 'r', '_']);
}

/// The tenant and the token of a credential.
pub fn parse_unified_credential(cred: &str) -> (r: Option<(String, String)>)
    ensures
        match r {
            Some((tenant, token)) => parsed_credential(cred@) == Some((tenant@, token@)),
            None => parsed_credential(cred@) is None,
        },
{
    proof {
        lemma_separator();
    }
    let rest = match without_prefix(cred, CREDENTIAL_PREFIX) {
        Some(rest) => rest,
        None => {
            return None;
        },
    };
    let mut parts = split(rest.as_str(), CREDENTIAL_SEPARATOR);
    assert(parts.deep_view().len() == parts@.len());
    if parts.len() != 2 {
        return None;
    }
    assert(parts@[0]@ == parts.deep_view()[0] && parts@[1]@ == parts.deep_view()[1]);
    let token = parts.remove(1);
    let tenant = parts.remove(0);
    Some((tenant, token))
}

/// The tenant that a token belongs to: the one that the credential names, or
/// another one if it is no credential.
pub open spec fn tenant_of(token: Seq<char>, otherwise: Seq<char>) -> Seq<char> {
    if text::starts_with(token, CREDENTIAL_PREFIX@) && text::contains_text(
        token,
        CREDENTIAL_SEPARATOR@,
    ) {
        credential_parts(token)[0]
    } else {
        otherwise
    }
}

/// The tenant that a token belongs to, if it names one.
pub fn tenant_from_token(token: &str, otherwise: &str) -> (r: String)
    ensures
        r@ == tenant_of(token@, otherwise@),
{
    proof {
        lemma_separator();
    }
    if !has_text(token, CREDENTIAL_SEPARATOR) {
        return otherwise.to_string();
    }
    match without_prefix(token, CREDENTIAL_PREFIX) {
        Some(rest) => {
            let mut parts = split(rest.as_str(), CREDENTIAL_SEPARATOR);
            assert(parts@[0]@ == parts.deep_view()[0]);
            parts.remove(0)
        },
        None => otherwise.to_string(),
    }
}

/// Why a request is not let in.
#[derive(Debug, Clone, Copy, PartialEq, Eq, Structural)]
pub enum Refusal {
    Unauthorized,
    Forbidden,
    NotFound,
    Internal,
}

impl Refusal {
    pub open spec fn code(self) -> u16 {
        match self {
            Refusal::Unauthorized => 401,
            Refusal::Forbidden => 403,
            Refusal::NotFound => 404,
            Refusal::Internal => 500,
        }
    }

    /// The status code of HTTP.
    pub fn status(self) -> (r: u16)
        ensures
            r == self.code(),
    {
        match self {
            Refusal::Unauthorized => 401,
            Refusal::Forbidden => 403,
            Refusal::NotFound => 404,
            Refusal::Internal => 500,
        }
    }
}

/// The credential that the header `Authorization` bears.
pub open spec fn bearer(header: Option<Seq<char>>) -> Option<(Seq<char>, Seq<char>)> {
    match header {
        Some(h) => if text::starts_with(h, "Bearer "@) {
            parsed_credential(h.skip("Bearer "@.len() as int))
        } else {
            None
        },
        None => None,
    }
}

/// The tenant and the token that a request bears.
pub fn read_bearer(header: Option<&str>) -> (r: Result<(String, String), Refusal>)
    ensures
        match r {
            Ok((tenant, token)) => bearer(
                match header {
                    Some(h) => Some(h@),
                    None => None,
                },
            ) == Some((tenant@, token@)),
            Err(refusal) => refusal == Refusal::Unauthorized && bearer(
                match header {
                    Some(h) => Some(h@),
                    None => None,
                },
            ) is None,
        },
{
    let header = match header {
        Some(h) => h,
        None => {
            return Err(Refusal::Unauthorized);
        },
    };
    let full = match without_prefix(header, "Bearer ") {
        Some(full) => full,
        None => {
            return Err(Refusal::Unauthorized);
        },
    };
    match parse_unified_credential(full.as_str()) {
        Some((tenant, token)) => Ok((tenant, token)),
        None => Err(Refusal::Unauthorized),
    }
}

/// The header that bears a credential.
pub fn bearer_header(token: &str) -> (r: String)
    ensures
        r@ == "Bearer "@ + token@,
{
    concat2("Bearer ", token)
}

// ---------------------------------------------------------------------------
// Stored tokens
// ---------------------------------------------------------------------------

/// The digest of a token with its salt.
pub open spec fn salted_digest(salt: Seq<char>, token: Seq<char>) -> Seq<char> {
    hex_text(sha256_digest(encode_utf8(salt + token)))
}

/// What is stored of a token: the salt and the salted digest.
pub open spec fn stored_token(salt: Seq<char>, token: Seq<char>) -> Seq<char> {
    salt + ":"@ + salted_digest(salt, token)
}

/// The token is the one that is stored. What bears no salt is no stored token.
pub open spec fn token_matches(stored: Seq<char>, token: Seq<char>) -> bool {
    let parts = text::split_text(stored, ":"@);
    parts.len() == 2 && parts[1] == salted_digest(parts[0], token)
}

fn digest_with_salt(salt: &str, token: &str) -> (r: String)
    ensures
        r@ == salted_digest(salt@, token@),
{
    let salted = concat2(salt, token);
    hex_encode(&sha256(salted.as_str().as_bytes()))
}

/// What is stored of a token with the given salt.
pub fn store_token(salt: &str, token: &str) -> (r: String)
    ensures
        r@ == stored_token(salt@, token@),
{
    concat3(salt, ":", digest_with_salt(salt, token).as_str())
}

/// What is stored of a token, with a new salt of 16 random bytes.
pub fn store_new_token(token: &str) -> (r: String)
    ensures
        exists|salt: Seq<u8>|
            salt.len() == 16 && r@ == stored_token(#[trigger] hex_text(salt), token@),
{
    let salt = random_bytes(16);
    store_token(hex_encode(&salt).as_str(), token)
}

/// Whether a token is the one that is stored.
pub fn verify_stored_token(stored: &str, token: &str) -> (r: bool)
    ensures
        r == token_matches(stored@, token@),
{
    proof {
        reveal_strlit(":");
    }
    let parts = split(stored, ":");
    assert(parts.deep_view().len() == parts@.len());
    if parts.len() != 2 {
        return false;
    }
    assert(parts@[0]@ == parts.deep_view()[0] && parts@[1]@ == parts.deep_view()[1]);
    same_text(parts[1].as_str(), digest_with_salt(parts[0].as_str(), token).as_str())
}

// ---------------------------------------------------------------------------
// Laws
// ---------------------------------------------------------------------------

/// Splitting at a separator that stands at one place only gives the two sides.
proof fn lemma_split_at_one_place(a: Seq<char>, sep: Seq<char>, b: Seq<char>)
    requires
        sep.len() > 0,
        forall|i: int| 0 <= i < a.len() ==> !#[trigger] text::occurs_at(a + sep + b, sep, i),
        !text::contains_text(b, sep),
    ensures
        text::split_text(a + sep + b, sep) == seq![a, b],
{
    let s = a + sep + b;
    assert(s.subrange(a.len() as int, (a.len() + sep.len()) as int) =~= sep);
    assert(text::occurs_at(s, sep, a.len() as int));
    text::lemma_find_from(s, sep, 0);
    assert(text::find_from(s, sep, 0) == Some(a.len() as int));
    let rest = s.skip((a.len() + sep.len()) as int);
    assert(rest =~= b);
    assert(s.take(a.len() as int) =~= a);
    text::lemma_find_from(b, sep, 0);
    if let Some(i) = text::find_from(b, sep, 0) {
        assert(text::occurs_at(b, sep, i));
    }
    assert(text::split_text(b, sep) =~= seq![b]);
    assert(text::split_text(s, sep) =~= seq![a] + seq![b]);
    assert(seq![a] + seq![b] =~= seq![a, b]);
}

/// The separator does not begin within a tenant that neither holds it nor ends
/// with all of it but the last character.
proof fn lemma_no_early_separator(tenant: Seq<char>, token: Seq<char>, i: int)
    requires
        !text::contains_text(tenant, CREDENTIAL_SEPARATOR@),
        !text::ends_with(tenant, "_usr"@),
        0 <= i < tenant.len(),
    ensures
        !text::occurs_at(tenant + CREDENTIAL_SEPARATOR@ + token, CREDENTIAL_SEPARATOR@, i),
{
    lemma_separator();
    let sep = CREDENTIAL_SEPARATOR@;
    let s = tenant + sep + token;
    if text::occurs_at(s, sep, i) {
        let w = s.subrange(i, i + 5);
        assert(w == sep);
        assert(w[0] == s[i] && w[1] == s[i + 1] && w[2] == s[i + 2] && w[3] == s[i + 3] && w[4]
            == s[i + 4]);
        if i + 5 <= tenant.len() {
            assert(tenant.subrange(i, i + 5) =~= sep);
            assert(text::occurs_at(tenant, sep, i));
        } else if i + 4 == tenant.len() {
            reveal_strlit("_usr");
            assert(tenant.subrange(i, i + 4) =~= "_usr"@);
            assert(text::occurs_at(tenant, "_usr"@, tenant.len() - 4));
        } else if i + 3 == tenant.len() {
            assert(s[i + 3] == sep[0]);
        } else if i + 2 == tenant.len() {
            assert(s[i + 2] == sep[0]);
        } else {
            assert(s[i + 1] == sep[0]);
        }
    }
}

/// Reading a credential gives back the tenant and the token that it was made of,
/// if the separator stands in neither of them, nor across the end of the tenant.
pub proof fn law_credentials_are_read_back(tenant: Seq<char>, token: Seq<char>)
    requires
        !text::contains_text(tenant, CREDENTIAL_SEPARATOR@),
        !text::ends_with(tenant, "_usr"@),
        !text::contains_text(token, CREDENTIAL_SEPARATOR@),
    ensures
        parsed_credential(credential(tenant, token)) == Some((tenant, token)),
{
    let sep = CREDENTIAL_SEPARATOR@;
    let prefix = CREDENTIAL_PREFIX@;
    let whole = credential(tenant, token);
    let s = tenant + sep + token;
    assert(whole.subrange(0, prefix.len() as int) =~= prefix);
    assert(whole.skip(prefix.len() as int) =~= s);
    assert forall|i: int| 0 <= i < tenant.len() implies !#[trigger] text::occurs_at(s, sep, i) by {
        lemma_no_early_separator(tenant, token, i);
    }
    assert(sep.len() == 5) by {
        lemma_separator();
    }
    lemma_split_at_one_place(tenant, sep, token);
}

/// A token of hexadecimal digits never holds the separator, so that every new
/// credential of a tenant without the separator is read back.
pub proof fn law_new_credentials_are_read_back(tenant: Seq<char>, bytes: Seq<u8>)
    requires
        !text::contains_text(tenant, CREDENTIAL_SEPARATOR@),
        !text::ends_with(tenant, "_usr"@),
    ensures
        parsed_credential(credential(tenant, hex_text(bytes))) == Some((tenant, hex_text(bytes))),
{
    lemma_separator();
    let token = hex_text(bytes);
    assert(!text::contains_text(token, CREDENTIAL_SEPARATOR@)) by {
        if text::contains_text(token, CREDENTIAL_SEPARATOR@) {
            let i = choose|i: int| text::occurs_at(token, CREDENTIAL_SEPARATOR@, i);
            assert(token.subrange(i, i + 5)[0] == token[i]);
            lemma_hex_chars(bytes, i);
        }
    }
    law_credentials_are_read_back(tenant, token);
}

/// A request that bears a credential is known by the tenant and the token of the
/// credential.
pub proof fn law_bearer_is_read_back(tenant: Seq<char>, token: Seq<char>)
    requires
        parsed_credential(credential(tenant, token)) == Some((tenant, token)),
    ensures
        bearer(Some("Bearer "@ + credential(tenant, token))) == Some((tenant, token)),
{
    let header = "Bearer "@ + credential(tenant, token);
    assert(header.subrange(0, "Bearer "@.len() as int) =~= "Bearer "@);
    assert(header.skip("Bearer "@.len() as int) =~= credential(tenant, token));
}

proof fn lemma_no_colon_in_hex(bytes: Seq<u8>)
    ensures
        !text::contains_text(hex_text(bytes), ":"@),
        forall|i: int| 0 <= i < hex_text(bytes).len() ==> (#[trigger] hex_text(bytes)[i]) != ':',
{
    reveal_strlit(":");
    let t = hex_text(bytes);
    assert forall|i: int| 0 <= i < t.len() implies (#[trigger] t[i]) != ':' by {
        lemma_hex_chars(bytes, i);
    }
    if text::contains_text(t, ":"@) {
        let i = choose|i: int| text::occurs_at(t, ":"@, i);
        assert(t.subrange(i, i + 1)[0] == t[i]);
    }
}

/// A token is accepted by what was stored of it, whatever the salt.
pub proof fn law_stored_tokens_are_accepted(salt: Seq<u8>, token: Seq<char>)
    ensures
        token_matches(stored_token(hex_text(salt), token), token),
{
    lemma_stored_parts(salt, token);
}

proof fn lemma_stored_parts(salt: Seq<u8>, token: Seq<char>)
    ensures
        text::split_text(stored_token(hex_text(salt), token), ":"@) == seq![
            hex_text(salt),
            salted_digest(hex_text(salt), token),
        ],
{
    reveal_strlit(":");
    let a = hex_text(salt);
    let b = salted_digest(a, token);
    lemma_no_colon_in_hex(salt);
    lemma_no_colon_in_hex(sha256_digest(encode_utf8(a + token)));
    let s = a + ":"@ + b;
    assert forall|i: int| 0 <= i < a.len() implies !#[trigger] text::occurs_at(s, ":"@, i) by {
        if text::occurs_at(s, ":"@, i) {
            assert(s.subrange(i, i + 1)[0] == s[i]);
            assert(s[i] == a[i]);
        }
    }
    lemma_split_at_one_place(a, ":"@, b);
}

/// A digest without a salt is accepted for no token.
pub proof fn law_unsalted_digests_are_refused(data: Seq<u8>, token: Seq<char>)
    ensures
        !token_matches(hex_text(sha256_digest(data)), token),
{
    reveal_strlit(":");
    let t = hex_text(sha256_digest(data));
    lemma_no_colon_in_hex(sha256_digest(data));
    text::lemma_find_from(t, ":"@, 0);
    if let Some(i) = text::find_from(t, ":"@, 0) {
        assert(text::occurs_at(t, ":"@, i));
    }
}

/// A credential names its tenant and bears its token, and the tenant of a credential is
/// the one that it names.
pub proof fn law_credentials_name_their_tenant(
    tenant: Seq<char>,
    token: Seq<char>,
    otherwise: Seq<char>,
)
    requires
        !text::contains_text(tenant, CREDENTIAL_SEPARATOR@),
        !text::ends_with(tenant, "_usr"@),
        !text::contains_text(token, CREDENTIAL_SEPARATOR@),
    ensures
        credential(tenant, token) == "ozy_partner_ctx_"@ + tenant + "_usr_"@ + token,
        tenant_of(credential(tenant, token), otherwise) == tenant,
{
    law_credentials_are_read_back(tenant, token);
    let whole = credential(tenant, token);
    text::lemma_part_is_there(CREDENTIAL_PREFIX@ + tenant, CREDENTIAL_SEPARATOR@, token);
    assert(CREDENTIAL_PREFIX@ + tenant + CREDENTIAL_SEPARATOR@ + token =~= whole);
}

/// A text without the prefix of credentials is none, and belongs to no tenant of its
/// own.
pub proof fn law_other_texts_are_no_credentials(text: Seq<char>, otherwise: Seq<char>)
    requires
        !"ozy_partner_ctx_"@.is_prefix_of(text),
    ensures
        parsed_credential(text) is None,
        tenant_of(text, otherwise) == otherwise,
        bearer(None) is None,
        !"Bearer "@.is_prefix_of(text) ==> bearer(Some(text)) is None,
{
}

/// A stored token accepts exactly the tokens with its digest under its salt, and the
/// digest is of the salt and the token together.
pub proof fn law_digests_are_salted(salt: Seq<u8>, token: Seq<char>, other: Seq<char>)
    ensures
        salted_digest(hex_text(salt), token) == hex_text(
            sha256_digest(encode_utf8(hex_text(salt) + token)),
        ),
        token_matches(stored_token(hex_text(salt), token), other) <==> salted_digest(
            hex_text(salt),
            other,
        ) == salted_digest(hex_text(salt), token),
{
    lemma_stored_parts(salt, token);
}

/// The refusals have the status codes of HTTP.
pub proof fn law_refusals_have_their_codes()
    ensures
        Refusal::Unauthorized.code() == 401,
        Refusal::Forbidden.code() == 403,
        Refusal::NotFound.code() == 404,
        Refusal::Internal.code() == 500,
{
}

/// Every byte is written with two digits, the higher one first, of `0` to `9` and `a` to
/// `f`.
pub proof fn law_bytes_are_written_with_two_digits(bytes: Seq<u8>, k: int)
    requires
        0 <= k < bytes.len(),
    ensures
        hex_text(bytes).len() == 2 * bytes.len(),
        ({
            let high = bytes[k] as int / 16;
            let low = bytes[k] as int % 16;
            let digits = seq![
                '0', '1', '2', '3', '4', '5', '6', '7', '8', '9', 'a', 'b', 'c', 'd', 'e', 'f',
            ];
            &&& hex_text(bytes)[2 * k] == digits[high]
            &&& hex_text(bytes)[2 * k + 1] == digits[low]
        }),
{
    assert((2 * k) % 2 == 0 && (2 * k) / 2 == k);
    assert((2 * k + 1) % 2 == 1 && (2 * k + 1) / 2 == k);
}

} // verus!
