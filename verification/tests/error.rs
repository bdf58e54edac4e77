use os_detect::error::{DetectorError, FailureCause, ProbeError};

#[test]
fn every_failure_has_its_message() {
    let cause = || FailureCause::UnsupportedPlatform;
    assert_eq!(
        DetectorError::OsDetectionError(cause()).message(),
        "Failed to detect the OS distribution"
    );
    assert_eq!(
        DetectorError::OsNameDetectionError(cause()).message(),
        "Failed to detect the OS distribution name"
    );
    assert_eq!(
        DetectorError::OsVersionDetectionError(cause()).message(),
        "Failed to detect the OS version"
    );
    assert_eq!(
        DetectorError::ArchDetectionError(cause()).message(),
        "Failed to detect the architecture"
    );
    assert_eq!(
        DetectorError::HostnameDetectionError(cause()).message(),
        "Failed to detect the hostname"
    );
    assert_eq!(
        DetectorError::DataIntegrityError.message(),
        "Detected data failed the integrity check"
    );
}

#[test]
fn the_message_does_not_depend_on_the_cause() {
    let probe = FailureCause::Probe(ProbeError::NonZeroExit {
        command: "uname".to_string(),
        code: Some(1),
    });
    assert_eq!(
        DetectorError::ArchDetectionError(probe).message(),
        DetectorError::ArchDetectionError(FailureCause::UnsupportedPlatform).message()
    );
}
