//! Object naming: the three sibling objects of a secret, prefix handling,
//! and the enumeration rule.
//!
//! A logical secret `NAME` is stored as the three objects `NAME.key`,
//! `NAME.aesgcm.encrypted` and `NAME.meta`, all under the vault's normalised
//! prefix. Enumeration lists the bucket and keeps exactly the keys with the
//! ciphertext suffix, stripped.

use vstd::prelude::*;
use vstd::string::{StrSliceExecFns, StringExecFns};

verus! {

/// The suffix of the ciphertext object.
pub open spec fn cipher_suffix() -> Seq<char> {
    (".aesgcm.encrypted")@
}

/// The suffix of the wrapped-data-key object.
pub open spec fn key_suffix() -> Seq<char> {
    (".key")@
}

/// The suffix of the sidecar meta object.
pub open spec fn meta_suffix() -> Seq<char> {
    (".meta")@
}

/// The ciphertext suffix of the legacy, pre-AES-GCM format. Secrets stored
/// under it are reported as needing re-encryption, never read.
pub open spec fn legacy_cipher_suffix() -> Seq<char> {
    (".encrypted")@
}

/// The object keys of one secret, derived from the combined
/// (prefix-qualified) name.
#[derive(Debug, Clone)]
pub struct S3DataKeys {
    pub key: String,
    pub cipher: String,
    pub meta: String,
}

impl S3DataKeys {
    /// Derive the three object keys from a combined name.
    pub fn new(name: &str) -> (r: Self)
        ensures
            r.key@ == name@ + key_suffix(),
            r.cipher@ == name@ + cipher_suffix(),
            r.meta@ == name@ + meta_suffix(),
    {
        S3DataKeys {
            key: name.to_owned().concat(".key"),
            cipher: name.to_owned().concat(".aesgcm.encrypted"),
            meta: name.to_owned().concat(".meta"),
        }
    }

    /// The three keys in a fixed order: wrapped key, ciphertext, meta.
    pub fn as_array(&self) -> (r: [&str; 3])
        ensures
            r@.len() == 3,
            r@[0]@ == self.key@,
            r@[1]@ == self.cipher@,
            r@[2]@ == self.meta@,
    {
        [self.key.as_str(), self.cipher.as_str(), self.meta.as_str()]
    }
}

/// A prefix is kept either empty or ending with `/`.
pub open spec fn normalized_prefix(p: Seq<char>) -> Seq<char> {
    if p.len() == 0 {
        p
    } else if p.last() == '/' {
        p
    } else {
        p.push('/')
    }
}

/// Normalise a prefix: empty stays empty, anything else gets a single
/// trailing `/` if it has none.
pub fn normalize_prefix(prefix: &str) -> (r: String)
    ensures
        r@ == normalized_prefix(prefix@),
{
    let n = prefix.unicode_len();
    if n == 0 {
        prefix.to_owned()
    } else if prefix.get_char(n - 1) == '/' {
        prefix.to_owned()
    } else {
        let mut s = prefix.to_owned();
        s.append("/");
        proof {
            reveal_strlit("/");
            assert(s@ =~= prefix@.push('/'));
        }
        s
    }
}

/// Normalisation settles after one step: a prefix already carrying its `/`
/// is left alone, so `team` and `team/` name the same objects.
pub proof fn lemma_prefix_normalisation(p: Seq<char>)
    ensures
        normalized_prefix(normalized_prefix(p)) == normalized_prefix(p),
        p.len() > 0 && p.last() != '/' ==> normalized_prefix(p.push('/')) == normalized_prefix(p),
{
}

/// The combined name of a secret: the normalised prefix followed by the
/// logical name.
pub fn full_key_name(prefix: &str, name: &str) -> (r: String)
    ensures
        r@ == prefix@ + name@,
{
    prefix.to_owned().concat(name)
}

/// `s` ends with `suffix`.
pub open spec fn has_suffix(s: Seq<char>, suffix: Seq<char>) -> bool {
    s.len() >= suffix.len() && s.subrange(s.len() - suffix.len(), s.len() as int) == suffix
}

/// `s` without its last `suffix.len()` characters.
pub open spec fn strip_suffix_spec(s: Seq<char>, suffix: Seq<char>) -> Seq<char>
    recommends
        has_suffix(s, suffix),
{
    s.subrange(0, s.len() - suffix.len())
}

/// The logical names among a bucket listing: exactly the keys carrying the
/// ciphertext suffix, in listing order, with the suffix stripped.
pub open spec fn secret_names(keys: Seq<Seq<char>>) -> Seq<Seq<char>>
    decreases keys.len(),
{
    if keys.len() == 0 {
        Seq::empty()
    } else {
        let rest = secret_names(keys.drop_last());
        if has_suffix(keys.last(), cipher_suffix()) {
            rest.push(strip_suffix_spec(keys.last(), cipher_suffix()))
        } else {
            rest
        }
    }
}

fn str_has_suffix(s: &str, suffix: &str) -> (r: bool)
    ensures
        r == has_suffix(s@, suffix@),
{
    let n = s.unicode_len();
    let m = suffix.unicode_len();
    if m > n {
        return false;
    }
    let mut i: usize = 0;
    while i < m
        invariant
            0 <= i <= m,
            m <= n,
            n == s@.len(),
            m == suffix@.len(),
            forall|j: int| 0 <= j < i ==> s@[n - m + j] == suffix@[j],
        decreases m - i,
    {
        if s.get_char(n - m + i) != suffix.get_char(i) {
            proof {
                assert(s@.subrange(n - m, n as int)[i as int] != suffix@[i as int]);
            }
            return false;
        }
        i = i + 1;
    }
    proof {
        assert(s@.subrange(n - m, n as int) =~= suffix@);
    }
    true
}

/// Enumerate the logical names among a bucket listing: the keys with the
/// ciphertext suffix, stripped, in listing order. The vault prefix, if any,
/// is not stripped.
pub fn secret_names_from_keys(keys: &Vec<String>) -> (r: Vec<String>)
    ensures
        r@.map_values(|s: String| s@) == secret_names(keys@.map_values(|s: String| s@)),
{
    let ghost kv = keys@.map_values(|s: String| s@);
    let mut out: Vec<String> = Vec::new();
    let mut i: usize = 0;
    while i < keys.len()
        invariant
            0 <= i <= keys.len(),
            kv == keys@.map_values(|s: String| s@),
            kv.len() == keys@.len(),
            out@.map_values(|s: String| s@) == secret_names(kv.take(i as int)),
        decreases keys.len() - i,
    {
        let k = &keys[i];
        proof {
            assert(kv.take(i + 1).drop_last() =~= kv.take(i as int));
            assert(kv.take(i + 1).last() == k@);
        }
        if str_has_suffix(k.as_str(), ".aesgcm.encrypted") {
            proof {
                reveal_strlit(".aesgcm.encrypted");
                assert(cipher_suffix().len() == 17);
            }
            let n = k.as_str().unicode_len();
            let stripped = k.as_str().substring_char(0, n - 17);
            out.push(stripped.to_owned());
            proof {
                assert(out@.map_values(|s: String| s@) =~= secret_names(kv.take(i + 1)));
            }
        } else {
            proof {
                assert(out@.map_values(|s: String| s@) =~= secret_names(kv.take(i + 1)));
            }
        }
        i = i + 1;
    }
    proof {
        assert(kv.take(keys@.len() as int) =~= kv);
    }
    out
}

} // verus!
