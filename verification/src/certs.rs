//! Certificate policy of the local CA: which names a host certificate
//! covers, which certificates count as strong, and when one is due for
//! renewal.
use crate::cli_utils::is_literal;
use crate::text::{
    chars_of, contains_seq, first_index_of, occurs_at, lemma_first_index, push_char, push_str, string_of,
};
use vstd::prelude::*;

verus! {

/// Common name of the local certificate authority.
pub const CA_COMMON_NAME: &'static str = "DEPORT LOCAL CA";

/// Days a generated CA certificate is valid.
pub const CA_VALIDITY_DAYS: u32 = 3650;

/// Days a generated host certificate is valid.
pub const SERVER_VALIDITY_DAYS: u32 = 365;

/// Head start, in milliseconds, with which a certificate is renewed before
/// it expires: 7 days.
pub const EXPIRY_BUFFER_MS: u64 = 604800000;

// ---------------------------------------------------------------------
// Names covered by a host certificate
// ---------------------------------------------------------------------

/// The names a certificate for `hostname` covers: the host itself, and,
/// when what follows its first label still has a dot, the wildcard of that
/// parent domain (`a.b.c` also gets `*.b.c`; `a.b` gets nothing more).
pub open spec fn cert_hosts_spec(hostname: Seq<char>) -> Seq<Seq<char>> {
    let i = first_index_of(hostname, '.');
    if i < hostname.len() {
        let rest = hostname.skip(i + 1);
        if contains_seq(rest, seq!['.']) {
            seq![hostname, "*."@ + rest]
        } else {
            seq![hostname]
        }
    } else {
        seq![hostname]
    }
}

/// The names to put into the certificate for `hostname`, subject first.
pub fn cert_hosts(hostname: &str) -> (v: Vec<String>)
    ensures
        v@.map_values(|s: String| s@) == cert_hosts_spec(hostname@),
{
    let h = chars_of(hostname);
    let n = h.len();
    let mut i: usize = 0;
    while i < n && h[i] != '.'
        invariant
            i <= n,
            n == h@.len(),
            forall|k: int| 0 <= k < i ==> h@[k] != '.',
        decreases n - i,
    {
        i = i + 1;
    }
    proof {
        lemma_first_index(h@, '.', i as int);
    }
    let mut v: Vec<String> = Vec::new();
    v.push(string_of(h.as_slice()));
    if i < n {
        let mut rest: Vec<char> = Vec::new();
        let mut j = i + 1;
        while j < n
            invariant
                i < j <= n,
                n == h@.len(),
                rest@ == h@.subrange(i + 1, j as int),
            decreases n - j,
        {
            rest.push(h[j]);
            j = j + 1;
        }
        assert(rest@ =~= h@.skip(i + 1));
        let dot: Vec<char> = vec!['.'];
        assert(dot@ =~= seq!['.']);
        if crate::text::contains(rest.as_slice(), dot.as_slice()) {
            let mut w = String::new();
            push_str(&mut w, "*.");
            let r = string_of(rest.as_slice());
            push_str(&mut w, r.as_str());
            v.push(w);
        }
    }
    assert(v@.map_values(|s: String| s@) =~= cert_hosts_spec(hostname@));
    v
}

/// A host whose first label is followed by a name that still holds a dot
/// (`label.rest` with `rest` holding a `.`) is covered by itself and by the
/// wildcard `*.rest` of its parent domain.
pub proof fn law_cert_hosts_wildcard(label: Seq<char>, rest: Seq<char>)
    requires
        forall|k: int| 0 <= k < label.len() ==> label[k] != '.',
        exists|k: int| 0 <= k < rest.len() && rest[k] == '.',
    ensures
        cert_hosts_spec(label + seq!['.'] + rest) == seq![label + seq!['.'] + rest, "*."@ + rest],
{
    let h = label + seq!['.'] + rest;
    assert forall|k: int| 0 <= k < label.len() implies h[k] != '.' by {
        assert(h[k] == label[k]);
    }
    lemma_first_index(h, '.', label.len() as int);
    assert(h.skip(label.len() as int + 1) =~= rest);
    let k = choose|k: int| 0 <= k < rest.len() && rest[k] == '.';
    assert(rest.subrange(k, k + 1) =~= seq!['.']);
    assert(occurs_at(rest, seq!['.'], k));
}

/// A host with at most one dot is covered by itself alone.
pub proof fn law_cert_hosts_single(hostname: Seq<char>)
    requires
        forall|i: int, j: int|
            0 <= i < hostname.len() && 0 <= j < hostname.len() && hostname[i] == '.' && hostname[j]
                == '.' ==> i == j,
    ensures
        cert_hosts_spec(hostname) == seq![hostname],
{
    let i = first_index_of(hostname, '.');
    lemma_first_index_range(hostname, '.');
    if i < hostname.len() {
        let rest = hostname.skip(i + 1);
        if contains_seq(rest, seq!['.']) {
            let k = choose|k: int| occurs_at(rest, seq!['.'], k);
            assert(rest.subrange(k, k + 1)[0] == '.');
            assert(rest[k] == '.');
            assert(hostname[i + 1 + k] == '.');
        }
    }
}

proof fn lemma_first_index_range(s: Seq<char>, c: char)
    ensures
        0 <= first_index_of(s, c) <= s.len(),
        first_index_of(s, c) < s.len() ==> s[first_index_of(s, c)] == c,
    decreases s.len(),
{
    if s.len() > 0 && s[0] != c {
        lemma_first_index_range(s.drop_first(), c);
    }
}

// ---------------------------------------------------------------------
// Strength
// ---------------------------------------------------------------------

/// Signature algorithm of a certificate.
#[derive(Debug, Clone, Copy, PartialEq, Eq, Structural)]
pub enum SignatureAlgorithm {
    Sha256WithRsa,
    Sha384WithRsa,
    Sha512WithRsa,
    EcdsaWithSha256,
    EcdsaWithSha384,
    EcdsaWithSha512,
    Other,
}

/// Named elliptic curve of an EC key.
#[derive(Debug, Clone, Copy, PartialEq, Eq, Structural)]
pub enum Curve {
    Prime256v1,
    Secp384r1,
    Secp521r1,
    Other,
}

/// What could be read of a certificate's public key.
#[derive(Debug, Clone, Copy, PartialEq, Eq, Structural)]
pub enum KeyInfo {
    /// The public key could not be extracted.
    Unreadable,
    /// An RSA key whose modulus is `size_bytes` long.
    Rsa { size_bytes: u32 },
    /// A key marked RSA whose RSA parameters could not be read.
    RsaUnreadable,
    /// An EC key on the given curve (`None`: the group has no curve name).
    Ec { curve: Option<Curve> },
    /// A key marked EC whose EC parameters could not be read.
    EcUnreadable,
    /// Any other key type.
    Other,
}

/// A certificate is strong when it is signed with SHA-2 (RSA or ECDSA) and
/// its key is RSA of at least 2048 bits or EC on P-256, P-384 or P-521.
pub open spec fn is_strong_spec(sig: SignatureAlgorithm, key: KeyInfo) -> bool {
    sig != SignatureAlgorithm::Other && match key {
        KeyInfo::Rsa { size_bytes } => size_bytes * 8 >= 2048,
        KeyInfo::Ec { curve } => match curve {
            Some(c) => c != Curve::Other,
            None => false,
        },
        _ => false,
    }
}

/// Whether a certificate with this signature algorithm and key is strong.
pub fn is_cert_strong(sig: SignatureAlgorithm, key: KeyInfo) -> (b: bool)
    requires
        sig != SignatureAlgorithm::Other ==> (key matches KeyInfo::Rsa { size_bytes } ==> size_bytes
            * 8 <= u32::MAX),
    ensures
        b == is_strong_spec(sig, key),
{
    let strong_hash = match sig {
        SignatureAlgorithm::Sha256WithRsa | SignatureAlgorithm::Sha384WithRsa
        | SignatureAlgorithm::Sha512WithRsa | SignatureAlgorithm::EcdsaWithSha256
        | SignatureAlgorithm::EcdsaWithSha384 | SignatureAlgorithm::EcdsaWithSha512 => true,
        SignatureAlgorithm::Other => false,
    };
    if !strong_hash {
        return false;
    }
    match key {
        KeyInfo::Unreadable => false,
        KeyInfo::Rsa { size_bytes } => size_bytes * 8 >= 2048,
        KeyInfo::RsaUnreadable => false,
        KeyInfo::Ec { curve } => match curve {
            Some(c) => match c {
                Curve::Prime256v1 | Curve::Secp521r1 | Curve::Secp384r1 => true,
                Curve::Other => false,
            },
            None => false,
        },
        KeyInfo::EcUnreadable => false,
        KeyInfo::Other => false,
    }
}

/// Strength rules: nothing signed with an unlisted algorithm is strong; with
/// a SHA-2 signature, an RSA key is strong exactly from 2048 bits up, and an
/// EC key exactly on P-256, P-384 or P-521; unreadable or other keys are
/// never strong.
pub proof fn law_strength(sig: SignatureAlgorithm, key: KeyInfo)
    ensures
        sig == SignatureAlgorithm::Other ==> !is_strong_spec(sig, key),
        sig != SignatureAlgorithm::Other && key is Rsa ==> (is_strong_spec(sig, key) <==> key->size_bytes
            * 8 >= 2048),
        sig != SignatureAlgorithm::Other && key is Ec ==> (is_strong_spec(sig, key) <==> (
        key->curve == Some(Curve::Prime256v1) || key->curve == Some(Curve::Secp384r1) || key->curve
            == Some(Curve::Secp521r1))),
        key is Unreadable || key is RsaUnreadable || key is EcUnreadable || key is Other ==> !is_strong_spec(
            sig,
            key,
        ),
{
}

// ---------------------------------------------------------------------
// Expiry
// ---------------------------------------------------------------------

/// Nanoseconds since the Unix epoch of an instant given in seconds and
/// nanoseconds.
pub open spec fn nanos_of(secs: u64, nanos: u32) -> int {
    secs * 1_000_000_000 + nanos
}

/// A certificate whose end of validity (`not_after`, seconds since the
/// epoch; `None` when it could not be read) is in the past, unknown, or
/// less than the 7-day buffer ahead of now counts as expired.
pub open spec fn is_expired_spec(not_after: Option<u64>, now_secs: u64, now_nanos: u32) -> bool {
    match not_after {
        None => true,
        Some(t) => {
            let left = nanos_of(t, 0) - nanos_of(now_secs, now_nanos);
            left < 0 || left / 1_000_000 < EXPIRY_BUFFER_MS
        },
    }
}

/// Whether a certificate is due for renewal at the given time.
pub fn is_cert_expired(not_after: Option<u64>, now_secs: u64, now_nanos: u32) -> (b: bool)
    requires
        now_nanos < 1_000_000_000,
    ensures
        b == is_expired_spec(not_after, now_secs, now_nanos),
{
    match not_after {
        None => true,
        Some(t) => {
            let end: u128 = (t as u128) * 1_000_000_000;
            let now: u128 = (now_secs as u128) * 1_000_000_000 + (now_nanos as u128);
            if end < now {
                true
            } else {
                (end - now) / 1_000_000 < EXPIRY_BUFFER_MS as u128
            }
        },
    }
}

/// Expiry as a single comparison: a certificate is expired exactly when
/// less than 7 days (to the millisecond) of validity are left.
pub proof fn law_expired_iff_within_buffer(t: u64, now_secs: u64, now_nanos: u32)
    requires
        now_nanos < 1_000_000_000,
    ensures
        is_expired_spec(Some(t), now_secs, now_nanos) <==> nanos_of(t, 0) < nanos_of(
            now_secs,
            now_nanos,
        ) + EXPIRY_BUFFER_MS * 1_000_000,
{
    let left = nanos_of(t, 0) - nanos_of(now_secs, now_nanos);
    if left >= 0 {
        assert(left / 1_000_000 < EXPIRY_BUFFER_MS <==> left < EXPIRY_BUFFER_MS * 1_000_000)
            by (nonlinear_arith)
            requires
                left >= 0,
        ;
    }
}

/// Seconds since the Unix epoch of a certificate time that lies `days` days
/// and `secs` seconds after the epoch, with the machine's `as u64` casts.
pub open spec fn unix_secs_spec(days: i32, secs: i32) -> int {
    (days as u64) * 86400 + (secs as u64)
}

/// Converts a day/second difference from the epoch into seconds.
pub fn unix_secs_from_diff(days: i32, secs: i32) -> (s: u64)
    requires
        unix_secs_spec(days, secs) <= u64::MAX,
    ensures
        s == unix_secs_spec(days, secs),
{
    let d = days as u64;
    let x = secs as u64;
    assert(d * 86400 <= u64::MAX);
    d * 86400 + x
}

} // verus!
