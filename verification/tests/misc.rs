use journey::dto::{ContentDTO, ImageDTO, MediaItemDTO, OriginalDTO};
use journey::enums::{ContentType, ImageType, MediaItemType, ProviderAuthSchema, ProviderVariant};
use journey::error::{IndexerRunnerError, KeyringError, ProgressTrackerError};
use journey::helpers::check_exists;
use journey::keyring::{StoreBackend, TargetOs, use_named_store, use_named_store_with_modifiers, use_native_store};
use journey::progress::{ProgressTracker, ProgressTrackerMsg, broadcast_outcome};
use journey::runner::{RunnerAction, after_decrement, after_failure_report, after_join, after_join_failure_report, new_task_outcome, task_failure_report};

#[test]
fn names_round_trip() {
    for v in [ContentType::Unknown, ContentType::Album, ContentType::Artists, ContentType::Container, ContentType::ReleaseDate] {
        assert_eq!(ContentType::from_name(v.name()), Some(v));
    }
    for v in [ImageType::Primary, ImageType::Profile, ImageType::BoxRear, ImageType::Box] {
        assert_eq!(ImageType::from_name(v.name()), Some(v));
    }
    assert_eq!(ProviderVariant::JellyfinProvider.name(), "JellyfinProvider");
    assert_eq!(ProviderAuthSchema::from_name("OTP"), Some(ProviderAuthSchema::OTP));
    assert_eq!(MediaItemType::from_name("audio"), None);
    assert_eq!(ContentType::default(), ContentType::Unknown);
}

#[test]
fn check_exists_compares_values() {
    assert!(check_exists(&3, &[1, 2, 3]));
    assert!(!check_exists(&4, &[1, 2, 3]));
    assert!(!check_exists::<u8>(&4, &[]));
    assert!(check_exists(&5, &[5]));
    let joined = [[1, 2].as_slice(), [3, 4].as_slice()].concat();
    assert_eq!(check_exists(&4, &joined), check_exists(&4, &[1, 2]) || check_exists(&4, &[3, 4]));
}

#[test]
fn default_transfer_objects() {
    let c = ContentDTO::default();
    assert!(c.parent.is_none() && c.description.is_none());
    assert_eq!(c.ty, ContentType::Unknown);
    let m = MediaItemDTO::default();
    assert_eq!(m.uuid, 0);
    assert!(m.kind.is_empty() && m.children.is_none());
    assert_eq!(OriginalDTO::default().server_id, 0);
    let i = ImageDTO::new();
    assert_eq!(i.url, "https://example.net/");
    assert_eq!(i.ty, ImageType::Primary);
}

#[test]
fn native_store_choice() {
    let plan = use_native_store(true, TargetOs::Linux, false).unwrap();
    assert_eq!(plan.backend, StoreBackend::Sample);
    assert_eq!(plan.config, vec![("persist".to_string(), "true".to_string())]);
    assert_eq!(use_native_store(false, TargetOs::Linux, false).unwrap().backend, StoreBackend::LinuxKeyutils);
    assert_eq!(use_native_store(false, TargetOs::Macos, false).unwrap().backend, StoreBackend::AppleKeychain);
    assert_eq!(use_native_store(false, TargetOs::Macos, true).unwrap().backend, StoreBackend::AppleProtected);
    let other = use_native_store(false, TargetOs::Other, false).unwrap();
    assert_eq!(other.backend, StoreBackend::Sample);
    assert_eq!(other.config, vec![("persist".to_string(), "true".to_string())]);
}

#[test]
fn named_stores() {
    assert_eq!(use_named_store("Sample", TargetOs::Windows, false).unwrap().backend, StoreBackend::Sample);
    assert_eq!(use_named_store("WINDOWS", TargetOs::Windows, false).unwrap().backend, StoreBackend::WindowsNative);
    match use_named_store("keyutils", TargetOs::Windows, false) {
        Err(KeyringError::NotSupportedByStore(m)) => assert_eq!(m, "The keyutils store is only available on Linux"),
        other => panic!("unexpected {:?}", other),
    }
    match use_named_store_with_modifiers("vault", vec![], TargetOs::Linux, false) {
        Err(KeyringError::Invalid(name, why)) => {
            assert_eq!(name, "vault");
            assert_eq!(why, "must be one of: android, keyutils, protected, windows, sample");
        },
        other => panic!("unexpected {:?}", other),
    }
    let plan = use_named_store_with_modifiers("sample", vec![("persist".to_string(), "false".to_string())], TargetOs::Linux, false).unwrap();
    assert_eq!(plan.config, vec![("persist".to_string(), "false".to_string())]);
}

#[test]
fn progress_counts_tasks() {
    let mut t = ProgressTracker::new();
    assert_eq!(t.inc(2), ProgressTrackerMsg::Progress { amount: 2 });
    assert_eq!(t.dec(1), ProgressTrackerMsg::Progress { amount: 1 });
    assert_eq!(t.dec(1), ProgressTrackerMsg::Progress { amount: 0 });
    assert_eq!(t.in_progress(), 0);
    assert!(broadcast_outcome(Ok(())).is_ok());
    assert!(matches!(broadcast_outcome(Err("lagged".to_string())), Err(ProgressTrackerError::FailedCommSendError(ref m)) if m == "lagged"));
}

#[test]
fn runner_decisions() {
    assert!(matches!(after_join(Ok(Ok(()))), RunnerAction::DecrementProgress));
    assert!(matches!(after_join(Err("panicked".to_string())), RunnerAction::ReportJoinFailure(IndexerRunnerError::FailedTaskError(ref m)) if m == "panicked"));
    assert!(matches!(after_join(Ok(Err(IndexerRunnerError::KilledRunnerError("x".to_string())))), RunnerAction::ReportFailure(IndexerRunnerError::KilledRunnerError(_))));
    assert!(matches!(after_join_failure_report(Ok(())), RunnerAction::DecrementProgress));
    assert!(matches!(after_join_failure_report(Err("c".to_string())), RunnerAction::ReportFailure(IndexerRunnerError::ProgressTrackerError(_))));
    assert!(matches!(after_failure_report(Ok(())), RunnerAction::Continue));
    assert!(matches!(after_failure_report(Err("c".to_string())), RunnerAction::Continue));
    assert!(matches!(after_decrement(Ok(())), RunnerAction::Continue));
    assert!(matches!(after_decrement(Err("c".to_string())), RunnerAction::Continue));
    assert!(new_task_outcome(Ok(()), Ok(())).is_ok());
    assert!(matches!(new_task_outcome(Err("q".to_string()), Ok(())), Err(IndexerRunnerError::FailedRegisterTaskError(_))));
    let report = task_failure_report();
    assert!(report.item.is_none() && !report.success && !report.already_exists);
}
