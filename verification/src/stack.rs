//! The stack-lifecycle controller's data and decisions.
//!
//! The provisioning service itself is reached from outside the library; the
//! functions here decide what to do with each snapshot it returns: whether a
//! described stack counts as provisioned, failed or still moving, what an
//! update should submit, and how a poll step ends.

use vstd::prelude::*;
use vstd::string::{StrSliceExecFns, StringExecFns};

use crate::errors::VaultError;

verus! {

/// Lifecycle status of the provisioning stack. Statuses the controller does
/// not decide on are carried through as `Other`.
#[derive(Debug, Clone, PartialEq, Eq)]
pub enum StackStatus {
    CreateComplete,
    CreateFailed,
    RollbackComplete,
    RollbackFailed,
    UpdateComplete,
    UpdateFailed,
    Other(String),
}

/// A status on which a stack counts as provisioned and usable.
pub open spec fn is_terminal_good(s: StackStatus) -> bool {
    s is CreateComplete || s is UpdateComplete
}

/// A status on which a stack counts as failed for good.
pub open spec fn is_terminal_bad(s: StackStatus) -> bool {
    s is CreateFailed || s is UpdateFailed || s is RollbackFailed || s is RollbackComplete
}

/// A snapshot of the stack as the provisioning service reports it.
#[derive(Debug, Clone)]
pub struct CloudFormationStackData {
    pub bucket_name: Option<String>,
    pub key_arn: Option<String>,
    pub version: Option<u32>,
    pub status: Option<StackStatus>,
    pub status_reason: Option<String>,
}

impl Default for CloudFormationStackData {
    /// An empty snapshot: no field known.
    fn default() -> (d: Self)
        ensures
            d.bucket_name is None,
            d.key_arn is None,
            d.version is None,
            d.status is None,
            d.status_reason is None,
    {
        CloudFormationStackData {
            bucket_name: None,
            key_arn: None,
            version: None,
            status: None,
            status_reason: None,
        }
    }
}

/// The parameters a vault works with, resolved once per instance.
#[derive(Debug, Clone)]
pub struct CloudFormationParams {
    pub bucket_name: String,
    pub key_arn: Option<String>,
    pub stack_name: String,
}

impl CloudFormationParams {
    /// Bundle explicitly known parameters.
    pub fn new(bucket_name: String, key_arn: Option<String>, stack_name: String) -> (r: Self)
        ensures
            r.bucket_name == bucket_name,
            r.key_arn == key_arn,
            r.stack_name == stack_name,
    {
        CloudFormationParams { bucket_name, key_arn, stack_name }
    }
}

/// Project a described stack's snapshot onto vault parameters: the bucket
/// name is required, the key ARN taken as reported.
pub fn params_from_stack_data(data: &CloudFormationStackData, stack_name: String) -> (r: Result<
    CloudFormationParams,
    VaultError,
>)
    ensures
        data.bucket_name matches Some(b) ==> (r matches Ok(p) && p.bucket_name == b && p.key_arn
            == data.key_arn && p.stack_name == stack_name),
        data.bucket_name is None ==> (r matches Err(e) && e is BucketNameMissingError),
{
    match &data.bucket_name {
        Some(b) => Ok(
            CloudFormationParams {
                bucket_name: b.clone(),
                key_arn: match &data.key_arn {
                    Some(k) => Some(k.clone()),
                    None => None,
                },
                stack_name,
            },
        ),
        None => Err(VaultError::BucketNameMissingError),
    }
}

/// A decimal digit.
pub open spec fn is_digit_char(c: char) -> bool {
    '0' <= c <= '9'
}

/// Every character of `s` is a decimal digit.
pub open spec fn all_digits(s: Seq<char>) -> bool {
    forall|i: int| 0 <= i < s.len() ==> is_digit_char(#[trigger] s[i])
}

/// The value of a digit string read in base ten.
pub open spec fn dec_value(s: Seq<char>) -> int
    decreases s.len(),
{
    if s.len() == 0 {
        0
    } else {
        dec_value(s.drop_last()) * 10 + (s.last() as int - '0' as int)
    }
}

/// The number a version string denotes: defined exactly for non-empty digit
/// strings whose value fits a `u32`.
pub open spec fn parse_u32_spec(s: Seq<char>) -> Option<u32> {
    if s.len() > 0 && all_digits(s) && dec_value(s) <= u32::MAX {
        Some(dec_value(s) as u32)
    } else {
        None
    }
}

proof fn lemma_dec_value_nonneg(s: Seq<char>)
    requires
        all_digits(s),
    ensures
        dec_value(s) >= 0,
    decreases s.len(),
{
    if s.len() > 0 {
        assert(all_digits(s.drop_last())) by {
            assert(forall|i: int|
                0 <= i < s.len() - 1 ==> #[trigger] s.drop_last()[i] == s[i]);
        }
        lemma_dec_value_nonneg(s.drop_last());
        assert(is_digit_char(s.last()));
    }
}

/// Reading more digits never shrinks the value.
proof fn lemma_dec_value_prefix(s: Seq<char>, i: int)
    requires
        all_digits(s),
        0 <= i <= s.len(),
    ensures
        dec_value(s) >= dec_value(s.take(i)),
    decreases s.len() - i,
{
    if i < s.len() {
        lemma_dec_value_prefix(s, i + 1);
        assert(s.take(i + 1).drop_last() =~= s.take(i));
        assert(s.take(i + 1).last() == s[i]);
        assert(all_digits(s.take(i))) by {
            assert(forall|j: int| 0 <= j < i ==> #[trigger] s.take(i)[j] == s[j]);
        }
        lemma_dec_value_nonneg(s.take(i));
        assert(is_digit_char(s[i]));
        assert(dec_value(s.take(i + 1)) >= dec_value(s.take(i)));
    } else {
        assert(s.take(i) =~= s);
    }
}

/// Parse a version string as a base-ten `u32`: succeeds exactly on non-empty
/// digit strings whose value fits.
pub fn parse_u32(s: &str) -> (r: Option<u32>)
    ensures
        r == parse_u32_spec(s@),
{
    let n = s.unicode_len();
    if n == 0 {
        return None;
    }
    let mut acc: u64 = 0;
    let mut i: usize = 0;
    while i < n
        invariant
            0 <= i <= n,
            n == s@.len(),
            all_digits(s@.take(i as int)),
            acc == dec_value(s@.take(i as int)),
            acc <= u32::MAX,
        decreases n - i,
    {
        let c = s.get_char(i);
        if !('0' <= c && c <= '9') {
            proof {
                assert(!is_digit_char(s@[i as int]));
                assert(!all_digits(s@));
            }
            return None;
        }
        let d: u64 = (c as u32 - 48) as u64;
        let next: u64 = acc * 10 + d;
        proof {
            assert(s@.take(i + 1).drop_last() =~= s@.take(i as int));
            assert(s@.take(i + 1).last() == s@[i as int]);
            assert(all_digits(s@.take(i + 1)));
            assert(next == dec_value(s@.take(i + 1)));
        }
        if next > 0xffff_ffff {
            proof {
                if all_digits(s@) {
                    lemma_dec_value_prefix(s@, i + 1);
                }
            }
            return None;
        }
        acc = next;
        i = i + 1;
    }
    proof {
        assert(s@.take(n as int) =~= s@);
    }
    Some(acc as u32)
}

/// The value of the last output under `key`, if any.
pub open spec fn last_output(outs: Seq<(Seq<char>, Seq<char>)>, key: Seq<char>) -> Option<
    Seq<char>,
>
    decreases outs.len(),
{
    if outs.len() == 0 {
        Option::None
    } else if outs.last().0 == key {
        Option::Some(outs.last().1)
    } else {
        last_output(outs.drop_last(), key)
    }
}

/// The last version output that parses, if any: values that do not parse do
/// not count.
pub open spec fn last_version_output(outs: Seq<(Seq<char>, Seq<char>)>) -> Option<u32>
    decreases outs.len(),
{
    if outs.len() == 0 {
        Option::None
    } else if outs.last().0 == ("vaultStackVersion")@ && parse_u32_spec(outs.last().1) is Some {
        parse_u32_spec(outs.last().1)
    } else {
        last_version_output(outs.drop_last())
    }
}

/// The view of an optional string.
pub open spec fn opt_chars(o: Option<String>) -> Option<Seq<char>> {
    match o {
        Option::Some(s) => Option::Some(s@),
        Option::None => Option::None,
    }
}

/// The view of an output list.
pub open spec fn outputs_view(outs: Seq<(String, String)>) -> Seq<(Seq<char>, Seq<char>)> {
    outs.map_values(|p: (String, String)| (p.0@, p.1@))
}

/// Assemble a stack snapshot from a describe call's pieces: the status and
/// reason as reported, and the bucket name, key ARN and deployed version
/// read from the outputs, later entries winning.
pub fn stack_data_from_outputs(
    status: Option<StackStatus>,
    status_reason: Option<String>,
    outputs: &Vec<(String, String)>,
) -> (r: CloudFormationStackData)
    ensures
        r.status == status,
        r.status_reason == status_reason,
        opt_chars(r.bucket_name) == last_output(outputs_view(outputs@), ("vaultBucketName")@),
        opt_chars(r.key_arn) == last_output(outputs_view(outputs@), ("kmsKeyArn")@),
        r.version == last_version_output(outputs_view(outputs@)),
{
    let ghost ov = outputs_view(outputs@);
    let bucket_key = String::from_str("vaultBucketName");
    let arn_key = String::from_str("kmsKeyArn");
    let version_key = String::from_str("vaultStackVersion");
    let mut bucket: Option<String> = None;
    let mut arn: Option<String> = None;
    let mut version: Option<u32> = None;
    let mut i: usize = 0;
    while i < outputs.len()
        invariant
            0 <= i <= outputs.len(),
            ov == outputs_view(outputs@),
            ov.len() == outputs@.len(),
            bucket_key@ == ("vaultBucketName")@,
            arn_key@ == ("kmsKeyArn")@,
            version_key@ == ("vaultStackVersion")@,
            opt_chars(bucket) == last_output(ov.take(i as int), ("vaultBucketName")@),
            opt_chars(arn) == last_output(ov.take(i as int), ("kmsKeyArn")@),
            version == last_version_output(ov.take(i as int)),
        decreases outputs.len() - i,
    {
        let pair = &outputs[i];
        proof {
            assert(ov[i as int] == (pair.0@, pair.1@));
            assert(ov.take(i + 1).drop_last() =~= ov.take(i as int));
            assert(ov.take(i + 1).last() == ov[i as int]);
            reveal_strlit("vaultBucketName");
            reveal_strlit("kmsKeyArn");
            reveal_strlit("vaultStackVersion");
            assert(("vaultBucketName")@.len() != ("kmsKeyArn")@.len());
            assert(("vaultBucketName")@.len() != ("vaultStackVersion")@.len());
            assert(("kmsKeyArn")@.len() != ("vaultStackVersion")@.len());
        }
        if pair.0.eq(&bucket_key) {
            bucket = Some(pair.1.clone());
        } else if pair.0.eq(&arn_key) {
            arn = Some(pair.1.clone());
        } else if pair.0.eq(&version_key) {
            match parse_u32(pair.1.as_str()) {
                Some(v) => {
                    version = Some(v);
                },
                None => {},
            }
        }
        i = i + 1;
    }
    proof {
        assert(ov.take(outputs@.len() as int) =~= ov);
    }
    CloudFormationStackData { bucket_name: bucket, key_arn: arn, version, status, status_reason }
}

/// One step of the provisioning poll loop.
#[derive(Debug, Clone, PartialEq, Eq)]
pub enum PollAction {
    /// A terminal good status: the loop ends in success.
    Done,
    /// A terminal bad status: the loop ends in failure.
    Failed,
    /// Any other status: sleep and describe again.
    Wait,
}

/// Decide one poll step from a reported status: done on a terminal good
/// status, failed on a terminal bad one, wait on anything else; a missing
/// status is an error.
pub fn poll_action(status: &Option<StackStatus>) -> (r: Result<PollAction, VaultError>)
    ensures
        status is None ==> (r matches Err(e) && e is MissingStackStatusError),
        status matches Some(s) ==> r matches Ok(a) && ((a is Done <==> is_terminal_good(*s)) && (
        a is Failed <==> is_terminal_bad(*s)) && (a is Wait <==> !is_terminal_good(*s)
            && !is_terminal_bad(*s))),
{
    match status {
        None => Err(VaultError::MissingStackStatusError),
        Some(s) => Ok(
            match s {
                StackStatus::CreateComplete | StackStatus::UpdateComplete => PollAction::Done,
                StackStatus::CreateFailed | StackStatus::UpdateFailed | StackStatus::RollbackFailed
                    | StackStatus::RollbackComplete => PollAction::Failed,
                StackStatus::Other(_) => PollAction::Wait,
            },
        ),
    }
}

/// What `init` found, as handed back to callers.
#[derive(Debug, Clone)]
pub enum CreateStackResult {
    /// The stack is already provisioned and usable.
    Exists { data: CloudFormationStackData },
    /// The stack exists but sits in a failed state.
    ExistsWithFailedState { data: CloudFormationStackData },
    /// A new stack was submitted for creation.
    Created { stack_name: String, stack_id: String, region: String },
}

/// What `init` does right after the initial describe.
#[derive(Debug, Clone, PartialEq, Eq)]
pub enum InitAction {
    /// The stack exists in a terminal good state: report it, create nothing.
    Exists,
    /// The stack exists in a terminal bad state: report the failure.
    ExistsWithFailedState,
    /// The stack exists but is still moving: poll until terminal.
    Poll,
    /// No stack: submit a create.
    Create,
}

/// Decide `init` from the initial describe: a missing stack is created; an
/// existing one is reported by its status, polled while transient.
pub fn init_action(described: &Option<CloudFormationStackData>) -> (r: InitAction)
    ensures
        described is None ==> r is Create,
        described matches Some(d) ==> {
            &&& (d.status matches Some(s) && is_terminal_good(s)) <==> r is Exists
            &&& (d.status matches Some(s) && is_terminal_bad(s)) <==> r is ExistsWithFailedState
            &&& !(d.status matches Some(s) && (is_terminal_good(s) || is_terminal_bad(s)))
                <==> r is Poll
        },
{
    match described {
        None => InitAction::Create,
        Some(d) => match &d.status {
            Some(StackStatus::CreateComplete) | Some(StackStatus::UpdateComplete) => {
                InitAction::Exists
            },
            Some(StackStatus::CreateFailed) | Some(StackStatus::UpdateFailed)
                | Some(StackStatus::RollbackFailed) | Some(StackStatus::RollbackComplete) => {
                InitAction::ExistsWithFailedState
            },
            _ => InitAction::Poll,
        },
    }
}

/// What `update` decided.
#[derive(Debug, Clone, PartialEq, Eq)]
pub enum UpdatePlan {
    /// The deployed version is current: submit nothing.
    UpToDate,
    /// The deployed version is older: submit an update.
    Submit { previous: u32, new: u32 },
}

/// Decide an update from a stack snapshot: require the deployed version
/// output, submit exactly when it is older than the template's version.
pub fn update_plan(data: &CloudFormationStackData, template_version: u32) -> (r: Result<
    UpdatePlan,
    VaultError,
>)
    ensures
        data.version is None ==> (r matches Err(e) && e is StackVersionNotFoundError),
        data.version matches Some(v) ==> {
            &&& v < template_version ==> (r matches Ok(p) && p matches UpdatePlan::Submit {
                previous,
                new,
            } && previous == v && new == template_version)
            &&& v >= template_version ==> (r matches Ok(p) && p is UpToDate)
        },
{
    match data.version {
        None => Err(VaultError::StackVersionNotFoundError),
        Some(v) => {
            if v < template_version {
                Ok(UpdatePlan::Submit { previous: v, new: template_version })
            } else {
                Ok(UpdatePlan::UpToDate)
            }
        },
    }
}

/// What `update` did, as handed back to callers.
#[derive(Debug, Clone)]
pub enum UpdateStackResult {
    /// The deployed version is current; the snapshot is attached.
    UpToDate { data: CloudFormationStackData },
    /// An update was submitted.
    Updated { stack_id: String, previous_version: u32, new_version: u32 },
}

/// The bucket name derived when none is configured:
/// `{stack_name}-{region}-{account_id}`.
pub fn default_bucket_name(stack_name: &str, region: &str, account_id: &str) -> (r: String)
    ensures
        r@ == stack_name@ + ("-")@ + region@ + ("-")@ + account_id@,
{
    stack_name.to_owned().concat("-").concat(region).concat("-").concat(account_id)
}

} // verus!
