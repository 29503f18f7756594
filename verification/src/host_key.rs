//! The server's persistent Ed25519 host key: read from its OpenSSH text when
//! the key file exists, generated (and to be written back) when it does not.

use vstd::prelude::*;

use russh::keys::ssh_key::{Error as KeyError, LineEnding};
use russh::keys::{Algorithm, PrivateKey};

verus! {

#[verifier::external_type_specification]
#[verifier::external_body]
pub struct ExPrivateKey(PrivateKey);

#[verifier::external_type_specification]
#[verifier::external_body]
pub struct ExKeyError(KeyError);

/// The key the SSH key library reads from this OpenSSH text, if it reads one.
pub uninterp spec fn openssh_decode(pem: Seq<char>) -> Option<PrivateKey>;

/// Calls `PrivateKey::from_openssh`.  Claimed: the outcome depends on the
/// text alone (parsing is deterministic): the key it returns, or that it fails.
#[verifier::external_body]
fn decode_openssh(pem: &str) -> (r: Result<PrivateKey, KeyError>)
    ensures
        r is Ok == openssh_decode(pem@) is Some,
        r matches Ok(k) ==> openssh_decode(pem@) == Some(k),
{
    PrivateKey::from_openssh(pem)
}

/// Whether a key is an Ed25519 key.
pub uninterp spec fn key_is_ed25519(key: PrivateKey) -> bool;

/// Calls `PrivateKey::algorithm` and tells whether it is `Algorithm::Ed25519`.
/// Claimed: the answer depends on the key alone.
#[verifier::external_body]
fn algorithm_is_ed25519(key: &PrivateKey) -> (r: bool)
    ensures
        r == key_is_ed25519(*key),
{
    match key.algorithm() {
        Algorithm::Ed25519 => true,
        _ => false,
    }
}

/// Calls `PrivateKey::random` for Ed25519 with the operating system's random
/// source.  Claimed: it succeeds, with an unencrypted Ed25519 key (for Ed25519
/// the library's source has no failing path and builds Ed25519 key data with
/// no cipher; the random source panics if the operating system cannot supply
/// randomness).  Of such a key the library's source also shows that it
/// encodes as OpenSSH text (unencrypted encoding has no failing path at these
/// sizes), and that decoding that text, with or without the line end that
/// closes it, gives the same key back: the decoder reads back the check
/// number, key data and comment the encoder writes, and takes the final line
/// end as optional.  Which key it is, is random and not described.
#[verifier::external_body]
fn generate_ed25519() -> (r: Result<PrivateKey, KeyError>)
    ensures
        r is Ok,
        r matches Ok(k) ==> key_is_ed25519(k),
        r matches Ok(k) ==> openssh_encode(k) is Some,
        r matches Ok(k) ==> openssh_decode(trimmed(openssh_encode(k)->0)) == Some(k),
{
    let mut rng = rand::rand_core::UnwrapErr(rand::rngs::SysRng);
    PrivateKey::random(&mut rng, Algorithm::Ed25519)
}

/// The OpenSSH text (LF line endings) the SSH key library writes for a key,
/// if it can write one.
pub uninterp spec fn openssh_encode(key: PrivateKey) -> Option<Seq<char>>;

/// Calls `PrivateKey::to_openssh` with LF line endings and copies the text
/// out of its self-erasing buffer.  Claimed: the outcome depends on the key
/// alone (encoding is deterministic): the text it writes, or that it fails.
#[verifier::external_body]
fn encode_openssh(key: &PrivateKey) -> (r: Result<String, KeyError>)
    ensures
        r is Ok == openssh_encode(*key) is Some,
        r matches Ok(text) ==> openssh_encode(*key) == Some(text@),
{
    key.to_openssh(LineEnding::LF).map(|pem| pem.as_str().to_owned())
}

/// Why a host key could not be had.
#[derive(Debug, Clone, Copy, PartialEq, Eq, Structural)]
pub enum HostKeyError {
    /// The key file's text is not an OpenSSH private key.
    Decode,
    /// No key could be generated.
    Generate,
    /// The generated key could not be written out as text.
    Encode,
}

/// A host key, and the text to store in the key file when the key is new.
pub struct HostKey {
    pub key: PrivateKey,
    pub write_back: Option<String>,
}

/// Characters Unicode calls white space.
pub open spec fn is_white(c: char) -> bool {
    ||| ('\u{9}' <= c <= '\u{d}')
    ||| c == ' '
    ||| c == '\u{85}'
    ||| c == '\u{a0}'
    ||| c == '\u{1680}'
    ||| ('\u{2000}' <= c <= '\u{200a}')
    ||| c == '\u{2028}'
    ||| c == '\u{2029}'
    ||| c == '\u{202f}'
    ||| c == '\u{205f}'
    ||| c == '\u{3000}'
}

/// Whether `c` is white space.
pub fn white(c: char) -> (r: bool)
    ensures
        r == is_white(c),
{
    ('\u{9}' <= c && c <= '\u{d}') || c == ' ' || c == '\u{85}' || c == '\u{a0}' || c == '\u{1680}'
        || ('\u{2000}' <= c && c <= '\u{200a}') || c == '\u{2028}' || c == '\u{2029}' || c
        == '\u{202f}' || c == '\u{205f}' || c == '\u{3000}'
}

/// `s` without the white space at its start and at its end.
pub open spec fn trimmed(s: Seq<char>) -> Seq<char> {
    let lo = first_non_white(s, 0);
    s.subrange(lo, last_non_white_end(s, lo, s.len() as int))
}

/// The index of the first non-white character at or after `i` (or the end).
pub open spec fn first_non_white(s: Seq<char>, i: int) -> int
    decreases s.len() - i,
{
    if i >= s.len() || i < 0 {
        s.len() as int
    } else if is_white(s[i]) {
        first_non_white(s, i + 1)
    } else {
        i
    }
}

/// One past the last non-white character before `j`, not below `lo`.
pub open spec fn last_non_white_end(s: Seq<char>, lo: int, j: int) -> int
    decreases j - lo,
{
    if j <= lo {
        lo
    } else if is_white(s[j - 1]) {
        last_non_white_end(s, lo, j - 1)
    } else {
        j
    }
}

/// `s` without white space at either end.
pub fn trim(s: &str) -> (t: &str)
    ensures
        t@ == trimmed(s@),
{
    let n = s.unicode_len();
    let mut lo: usize = 0;
    while lo < n && white(s.get_char(lo))
        invariant
            n == s@.len(),
            lo <= n,
            first_non_white(s@, lo as int) == first_non_white(s@, 0),
        decreases n - lo,
    {
        lo = lo + 1;
    }
    let mut hi: usize = n;
    while hi > lo && white(s.get_char(hi - 1))
        invariant
            n == s@.len(),
            lo <= hi <= n,
            lo == first_non_white(s@, 0),
            last_non_white_end(s@, lo as int, hi as int) == last_non_white_end(
                s@,
                lo as int,
                n as int,
            ),
        decreases hi - lo,
    {
        hi = hi - 1;
    }
    s.substring_char(lo, hi)
}

/// The host key read from the key file: the decoded key, not to be written
/// back; a text that did not decode is a `Decode` error.
pub fn key_from_file(decoded: Result<PrivateKey, KeyError>) -> (r: Result<HostKey, HostKeyError>)
    ensures
        decoded is Ok <==> r is Ok,
        decoded matches Ok(k) ==> (r matches Ok(h) && h.key == k && h.write_back is None),
        r matches Err(e) ==> e == HostKeyError::Decode,
{
    match decoded {
        Ok(key) => Ok(HostKey { key, write_back: None }),
        Err(_) => Err(HostKeyError::Decode),
    }
}

/// A newly generated key with its encoded text: the key, with the text to
/// write to the key file; a key that could not be encoded is an `Encode` error.
pub fn key_for_new_file(key: PrivateKey, encoded: Result<String, KeyError>) -> (r: Result<
    HostKey,
    HostKeyError,
>)
    ensures
        encoded is Ok <==> r is Ok,
        encoded matches Ok(text) ==> (r matches Ok(h) && h.key == key && h.write_back == Some(text)),
        r matches Err(e) ==> e == HostKeyError::Encode,
{
    match encoded {
        Ok(text) => Ok(HostKey { key, write_back: Some(text) }),
        Err(_) => Err(HostKeyError::Encode),
    }
}

/// What loading the key file's text `pem` gives: the key its trimmed text
/// holds, not to be written back, or a `Decode` error when it holds none.
pub open spec fn loaded_from(pem: Seq<char>, r: Result<HostKey, HostKeyError>) -> bool {
    &&& r is Ok <==> openssh_decode(trimmed(pem)) is Some
    &&& r matches Ok(h) ==> openssh_decode(trimmed(pem)) == Some(h.key) && h.write_back is None
    &&& r matches Err(e) ==> e == HostKeyError::Decode
}

/// What generating a key gives: an Ed25519 key with its OpenSSH text to
/// store, which reads back as the same key.
pub open spec fn generated(r: Result<HostKey, HostKeyError>) -> bool {
    &&& r is Ok
    &&& r matches Ok(h) ==> key_is_ed25519(h.key) && h.write_back is Some && openssh_encode(h.key)
        == Some(h.write_back->0@)
    &&& r matches Ok(h) ==> openssh_decode(trimmed(h.write_back->0@)) == Some(h.key)
}

/// The host key from the key file's text `existing`, or a new key when there
/// is no key file.  A key read from the file is the key its trimmed text
/// holds and is not written back; a new key is an Ed25519 key and comes with
/// its OpenSSH text to store.
pub fn load_or_generate(existing: Option<&str>) -> (r: Result<HostKey, HostKeyError>)
    ensures
        existing matches Some(pem) ==> loaded_from(pem@, r),
        existing is None ==> generated(r),
{
    match existing {
        Some(pem) => key_from_file(decode_openssh(trim(pem))),
        None => match generate_ed25519() {
            Ok(key) => {
                let encoded = encode_openssh(&key);
                key_for_new_file(key, encoded)
            },
            Err(_) => Err(HostKeyError::Generate),
        },
    }
}

impl HostKey {
    /// Whether the key is an Ed25519 key.
    pub fn is_ed25519(&self) -> (r: bool)
        ensures
            r == key_is_ed25519(self.key),
    {
        algorithm_is_ed25519(&self.key)
    }
}

/// The host key persists: the key generated on a first run (no key file) is
/// the key loaded on the next run from the text written then.
pub proof fn lemma_host_key_persists(
    first: Result<HostKey, HostKeyError>,
    second: Result<HostKey, HostKeyError>,
)
    requires
        generated(first),
        first matches Ok(h) && loaded_from(h.write_back->0@, second),
    ensures
        first matches Ok(h1) && (second matches Ok(h2) && h2.key == h1.key && h2.write_back is None),
{
}

} // verus!
