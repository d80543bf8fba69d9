use nitor_vault::errors::VaultError;
use nitor_vault::stack::{
    default_bucket_name, init_action, params_from_stack_data, parse_u32, poll_action,
    stack_data_from_outputs, update_plan, CloudFormationStackData, InitAction, PollAction,
    StackStatus, UpdatePlan,
};

fn snapshot(status: Option<StackStatus>, version: Option<u32>) -> CloudFormationStackData {
    CloudFormationStackData {
        bucket_name: Some("bucket".to_string()),
        key_arn: Some("arn".to_string()),
        version,
        status,
        status_reason: None,
    }
}

#[test]
fn parse_u32_cases() {
    assert_eq!(parse_u32("0"), Some(0));
    assert_eq!(parse_u32("42"), Some(42));
    assert_eq!(parse_u32("4294967295"), Some(u32::MAX));
    assert_eq!(parse_u32("4294967296"), None);
    assert_eq!(parse_u32(""), None);
    assert_eq!(parse_u32("4x2"), None);
    assert_eq!(parse_u32("-1"), None);
}

#[test]
fn stack_data_reads_outputs_last_wins() {
    let outputs = vec![
        ("vaultBucketName".to_string(), "old-bucket".to_string()),
        ("somethingElse".to_string(), "ignored".to_string()),
        ("vaultBucketName".to_string(), "new-bucket".to_string()),
        ("kmsKeyArn".to_string(), "arn:aws:kms:eu".to_string()),
        ("vaultStackVersion".to_string(), "25".to_string()),
        ("vaultStackVersion".to_string(), "not a number".to_string()),
    ];
    let data = stack_data_from_outputs(
        Some(StackStatus::CreateComplete),
        Some("ok".to_string()),
        &outputs,
    );
    assert_eq!(data.bucket_name.as_deref(), Some("new-bucket"));
    assert_eq!(data.key_arn.as_deref(), Some("arn:aws:kms:eu"));
    assert_eq!(data.version, Some(25));
    assert!(matches!(data.status, Some(StackStatus::CreateComplete)));
    assert_eq!(data.status_reason.as_deref(), Some("ok"));
}

#[test]
fn stack_data_without_outputs_is_empty() {
    let data = stack_data_from_outputs(None, None, &Vec::new());
    assert_eq!(data.bucket_name, None);
    assert_eq!(data.key_arn, None);
    assert_eq!(data.version, None);
}

#[test]
fn poll_action_per_status() {
    assert!(matches!(
        poll_action(&Some(StackStatus::CreateComplete)).unwrap(),
        PollAction::Done
    ));
    assert!(matches!(
        poll_action(&Some(StackStatus::UpdateComplete)).unwrap(),
        PollAction::Done
    ));
    for s in [
        StackStatus::CreateFailed,
        StackStatus::UpdateFailed,
        StackStatus::RollbackFailed,
        StackStatus::RollbackComplete,
    ] {
        assert!(matches!(poll_action(&Some(s)).unwrap(), PollAction::Failed));
    }
    assert!(matches!(
        poll_action(&Some(StackStatus::Other("CREATE_IN_PROGRESS".to_string()))).unwrap(),
        PollAction::Wait
    ));
    let e = poll_action(&None).unwrap_err();
    assert!(matches!(e, VaultError::MissingStackStatusError));
}

#[test]
fn init_decision_is_idempotent_after_creation() {
    // First run: nothing described, so a create is submitted.
    assert!(matches!(init_action(&None), InitAction::Create));
    // Second run: the stack stands in CREATE_COMPLETE, so init reports it
    // as existing and submits nothing.
    let described = Some(snapshot(Some(StackStatus::CreateComplete), Some(1)));
    assert!(matches!(init_action(&described), InitAction::Exists));
}

#[test]
fn init_decision_on_failed_or_moving_stacks() {
    let failed = Some(snapshot(Some(StackStatus::RollbackComplete), None));
    assert!(matches!(init_action(&failed), InitAction::ExistsWithFailedState));
    let moving = Some(snapshot(
        Some(StackStatus::Other("CREATE_IN_PROGRESS".to_string())),
        None,
    ));
    assert!(matches!(init_action(&moving), InitAction::Poll));
    let statusless = Some(snapshot(None, None));
    assert!(matches!(init_action(&statusless), InitAction::Poll));
}

#[test]
fn update_plan_compares_versions() {
    let e = update_plan(&snapshot(None, None), 5).unwrap_err();
    assert!(matches!(e, VaultError::StackVersionNotFoundError));
    let p = update_plan(&snapshot(None, Some(3)), 5).unwrap();
    assert!(matches!(p, UpdatePlan::Submit { previous: 3, new: 5 }));
    let p = update_plan(&snapshot(None, Some(5)), 5).unwrap();
    assert!(matches!(p, UpdatePlan::UpToDate));
    let p = update_plan(&snapshot(None, Some(7)), 5).unwrap();
    assert!(matches!(p, UpdatePlan::UpToDate));
}

#[test]
fn params_require_a_bucket() {
    let data = snapshot(None, None);
    let p = params_from_stack_data(&data, "vault".to_string()).unwrap();
    assert_eq!(p.bucket_name, "bucket");
    assert_eq!(p.key_arn.as_deref(), Some("arn"));
    assert_eq!(p.stack_name, "vault");

    let mut missing = snapshot(None, None);
    missing.bucket_name = None;
    let e = params_from_stack_data(&missing, "vault".to_string()).unwrap_err();
    assert!(matches!(e, VaultError::BucketNameMissingError));
}

#[test]
fn default_bucket_name_format() {
    assert_eq!(
        default_bucket_name("vault", "eu-west-1", "123456789012"),
        "vault-eu-west-1-123456789012"
    );
}
