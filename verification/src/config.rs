//! Resolution of a vault's parameters and of command-line value sources.
//!
//! Environment lookups and file reads happen outside the library; the
//! functions here are handed the explicit arguments and the environment's
//! values as plain options and decide what the vault works with, in the
//! fixed order: explicit argument, environment, default.

use vstd::prelude::*;
use vstd::string::StrSliceExecFns;

use crate::encoding::string_push_char;
use crate::keys::{normalize_prefix, normalized_prefix};

verus! {

/// Optional parameters for constructing a vault, as callers hand them in.
#[derive(Debug, Clone)]
pub struct VaultConfig {
    pub vault_stack: Option<String>,
    pub region: Option<String>,
    pub bucket: Option<String>,
    pub key: Option<String>,
    pub prefix: Option<String>,
    pub profile: Option<String>,
    pub iam_id: Option<String>,
    pub iam_secret: Option<String>,
}

impl Default for VaultConfig {
    /// No parameter given: everything falls back to the environment or the
    /// defaults.
    fn default() -> (c: Self)
        ensures
            c.vault_stack is None,
            c.region is None,
            c.bucket is None,
            c.key is None,
            c.prefix is None,
            c.profile is None,
            c.iam_id is None,
            c.iam_secret is None,
    {
        VaultConfig {
            vault_stack: None,
            region: None,
            bucket: None,
            key: None,
            prefix: None,
            profile: None,
            iam_id: None,
            iam_secret: None,
        }
    }
}

/// One resolved setting: the explicit argument if given, else the
/// environment's value.
pub fn resolve_setting(explicit: Option<String>, env: Option<String>) -> (r: Option<String>)
    ensures
        explicit is Some ==> r == explicit,
        explicit is None ==> r == env,
{
    match explicit {
        Some(v) => Some(v),
        None => env,
    }
}

/// The resolved stack name: explicit argument, else environment, else
/// `vault`.
pub fn resolve_stack_name(explicit: Option<String>, env: Option<String>) -> (r: String)
    ensures
        explicit matches Some(s) ==> r == s,
        explicit is None ==> (env matches Some(s) ==> r == s),
        explicit is None && env is None ==> r@ == ("vault")@,
{
    match resolve_setting(explicit, env) {
        Some(s) => s,
        None => ("vault").to_owned(),
    }
}

/// The resolved prefix: explicit argument, else environment, else empty;
/// normalised either way.
pub fn resolve_prefix(explicit: Option<String>, env: Option<String>) -> (r: String)
    ensures
        explicit matches Some(p) ==> r@ == normalized_prefix(p@),
        explicit is None ==> (env matches Some(p) ==> r@ == normalized_prefix(p@)),
        explicit is None && env is None ==> r@.len() == 0,
{
    match resolve_setting(explicit, env) {
        Some(p) => normalize_prefix(p.as_str()),
        None => String::new(),
    }
}

/// What a vault instance works with after resolution.
#[derive(Debug, Clone)]
pub struct ResolvedVault {
    pub stack_name: String,
    pub bucket: Option<String>,
    pub key: Option<String>,
    pub prefix: String,
}

impl ResolvedVault {
    /// The stack describe is skipped exactly when both the bucket and the
    /// key ARN are already known.
    pub open spec fn skips_describe(self) -> bool {
        self.bucket is Some && self.key is Some
    }
}

/// Resolve all settings of a vault at once from the explicit arguments and
/// the environment's values (`VAULT_STACK`, `VAULT_BUCKET`, `VAULT_KEY`,
/// `VAULT_PREFIX`), each falling back in the fixed order.
pub fn resolve_vault_settings(
    vault_stack: Option<String>,
    bucket: Option<String>,
    key: Option<String>,
    prefix: Option<String>,
    env_stack: Option<String>,
    env_bucket: Option<String>,
    env_key: Option<String>,
    env_prefix: Option<String>,
) -> (r: ResolvedVault)
    ensures
        vault_stack matches Some(s) ==> r.stack_name == s,
        vault_stack is None ==> (env_stack matches Some(s) ==> r.stack_name == s),
        vault_stack is None && env_stack is None ==> r.stack_name@ == ("vault")@,
        bucket is Some ==> r.bucket == bucket,
        bucket is None ==> r.bucket == env_bucket,
        key is Some ==> r.key == key,
        key is None ==> r.key == env_key,
        prefix matches Some(p) ==> r.prefix@ == normalized_prefix(p@),
        prefix is None ==> (env_prefix matches Some(p) ==> r.prefix@ == normalized_prefix(p@)),
        prefix is None && env_prefix is None ==> r.prefix@.len() == 0,
{
    ResolvedVault {
        stack_name: resolve_stack_name(vault_stack, env_stack),
        bucket: resolve_setting(bucket, env_bucket),
        key: resolve_setting(key, env_key),
        prefix: resolve_prefix(prefix, env_prefix),
    }
}

/// Where a value to store or to encrypt comes from.
#[derive(Debug, Clone, PartialEq, Eq)]
pub enum ValueSource {
    /// The value was given on the command line.
    Literal(String),
    /// Read all of standard input.
    Stdin,
    /// Read the named file.
    File(String),
}

/// Decide the value source from the command-line pieces: a positional value
/// wins over `--value`, either reads standard input when it is `-`; a file
/// argument is used otherwise, `-` again meaning standard input; nothing
/// given is nothing to read.
pub fn read_value(
    value_positional: Option<String>,
    value_argument: Option<String>,
    file: Option<String>,
) -> (r: Option<ValueSource>)
    ensures
        ({
            let chosen = if value_positional is Some {
                value_positional
            } else {
                value_argument
            };
            &&& chosen matches Some(v) ==> {
                &&& v@ == ("-")@ ==> r == Some(ValueSource::Stdin)
                &&& v@ != ("-")@ ==> r == Some(ValueSource::Literal(v))
            }
            &&& chosen is None ==> {
                &&& file matches Some(f) ==> {
                    &&& f@ == ("-")@ ==> r == Some(ValueSource::Stdin)
                    &&& f@ != ("-")@ ==> r == Some(ValueSource::File(f))
                }
                &&& file is None ==> r is None
            }
        }),
{
    let dash = ("-").to_owned();
    let chosen = resolve_setting(value_positional, value_argument);
    match chosen {
        Some(v) => {
            if v.eq(&dash) {
                Some(ValueSource::Stdin)
            } else {
                Some(ValueSource::Literal(v))
            }
        },
        None => match file {
            Some(f) => {
                if f.eq(&dash) {
                    Some(ValueSource::Stdin)
                } else {
                    Some(ValueSource::File(f))
                }
            },
            None => None,
        },
    }
}

/// The path's part after its last `/`; the whole path if it has none.
pub open spec fn after_last_slash(p: Seq<char>) -> Seq<char>
    decreases p.len(),
{
    if p.len() == 0 {
        p
    } else if p.last() == '/' {
        Seq::empty()
    } else {
        after_last_slash(p.drop_last()).push(p.last())
    }
}

/// `s` with every replacement character removed.
pub open spec fn without_replacement_chars(s: Seq<char>) -> Seq<char>
    decreases s.len(),
{
    if s.len() == 0 {
        s
    } else {
        let rest = without_replacement_chars(s.drop_last());
        if s.last() == '\u{fffd}' {
            rest
        } else {
            rest.push(s.last())
        }
    }
}

/// The file name a path denotes: the part after the last `/`, with
/// replacement characters removed.
pub open spec fn filename_chars(p: Seq<char>) -> Seq<char> {
    without_replacement_chars(after_last_slash(p))
}

proof fn lemma_after_last_slash_subrange(p: Seq<char>, k: int)
    requires
        0 <= k <= p.len(),
        forall|j: int| k <= j < p.len() ==> p[j] != '/',
        k == 0 || p[k - 1] == '/',
    ensures
        after_last_slash(p) == p.subrange(k, p.len() as int),
    decreases p.len() - k,
{
    if k == p.len() {
        if k == 0 {
            assert(p.subrange(0, 0) =~= p);
        } else {
            assert(p.last() == p[k - 1]);
            assert(after_last_slash(p) =~= p.subrange(k, p.len() as int));
        }
    } else {
        assert(p.last() == p[p.len() - 1] && p[p.len() - 1] != '/');
        lemma_after_last_slash_subrange(p.drop_last(), k);
        assert(forall|j: int| k <= j < p.len() - 1 ==> #[trigger] p.drop_last()[j] == p[j]);
        assert(k > 0 ==> p.drop_last()[k - 1] == p[k - 1]);
        assert(after_last_slash(p) =~= p.subrange(k, p.len() as int));
    }
}

/// The file name denoted by a path string: the part after the last `/`, with
/// replacement characters removed; nothing when that part is empty.
pub fn get_filename_from_path(path: &str) -> (r: Option<String>)
    ensures
        filename_chars(path@).len() > 0 ==> (r matches Some(f) && f@ == filename_chars(path@)),
        filename_chars(path@).len() == 0 ==> r is None,
{
    let n = path.unicode_len();
    let mut k: usize = 0;
    let mut i: usize = 0;
    while i < n
        invariant
            0 <= k <= i <= n,
            n == path@.len(),
            forall|j: int| k <= j < i ==> path@[j] != '/',
            k == 0 || path@[k - 1] == '/',
        decreases n - i,
    {
        if path.get_char(i) == '/' {
            k = i + 1;
        }
        i = i + 1;
    }
    proof {
        lemma_after_last_slash_subrange(path@, k as int);
    }
    let mut out = String::new();
    let mut j: usize = k;
    while j < n
        invariant
            k <= j <= n,
            n == path@.len(),
            out@ == without_replacement_chars(path@.subrange(k as int, j as int)),
        decreases n - j,
    {
        let c = path.get_char(j);
        proof {
            assert(path@.subrange(k as int, j + 1).drop_last() =~= path@.subrange(
                k as int,
                j as int,
            ));
            assert(path@.subrange(k as int, j + 1).last() == path@[j as int]);
        }
        if c != '\u{fffd}' {
            string_push_char(&mut out, c);
        }
        j = j + 1;
    }
    proof {
        assert(path@.subrange(k as int, n as int) == after_last_slash(path@));
    }
    if out.as_str().unicode_len() == 0 {
        None
    } else {
        Some(out)
    }
}

} // verus!
