use os_detect::error::{DetectorError, FailureCause, ProbeError};
use os_detect::platform::{Field, Platform};
use os_detect::probe::ProbeCommand;

fn command(program: &str, args: &[&str]) -> ProbeCommand {
    ProbeCommand {
        program: program.to_string(),
        args: args.iter().map(|arg| arg.to_string()).collect(),
    }
}

#[test]
fn every_field_has_its_fixed_command() {
    assert_eq!(Field::Name.command(), command("lsb_release", &["-si"]));
    assert_eq!(Field::Version.command(), command("lsb_release", &["-sr"]));
    assert_eq!(Field::Arch.command(), command("uname", &["-m"]));
    assert_eq!(Field::Distro.command(), command("lsb_release", &["-is"]));
    assert_eq!(Field::Hostname.command(), command("hostname", &[]));
}

#[test]
fn only_the_architecture_is_available_everywhere() {
    let fields = [Field::Name, Field::Version, Field::Arch, Field::Distro, Field::Hostname];
    for field in fields {
        assert!(field.is_available_on(Platform::Linux));
        assert_eq!(field.is_available_on(Platform::Other), field == Field::Arch);
    }
}

#[test]
fn every_field_has_its_own_failure() {
    let cause = || FailureCause::Probe(ProbeError::EmptyOutput { command: "c".to_string() });
    assert_eq!(Field::Name.failure(cause()), DetectorError::OsNameDetectionError(cause()));
    assert_eq!(Field::Version.failure(cause()), DetectorError::OsVersionDetectionError(cause()));
    assert_eq!(Field::Arch.failure(cause()), DetectorError::ArchDetectionError(cause()));
    assert_eq!(Field::Distro.failure(cause()), DetectorError::OsDetectionError(cause()));
    assert_eq!(Field::Hostname.failure(cause()), DetectorError::HostnameDetectionError(cause()));
    assert_eq!(
        Field::Name.failure(FailureCause::UnsupportedPlatform),
        DetectorError::OsNameDetectionError(FailureCause::UnsupportedPlatform)
    );
}
