//! The declared platform and the five identity fields, each with its fixed
//! probe command, its platform gate and its failure.

use crate::error::{DetectorError, DetectorErrorView, FailureCause, FailureCauseView};
use crate::probe::{ProbeCommand, ProbeCommandView};
use vstd::prelude::*;

verus! {

/// The operating-system family of the host that is being examined.
#[derive(Clone, Copy, Debug, PartialEq, Eq, Structural)]
pub enum Platform {
    /// A Linux host: every probe is available.
    Linux,
    /// Any other host: only the architecture probe is available.
    Other,
}

/// One field of a host's identity. The variants are listed in the order in
/// which the fields are detected.
#[derive(Clone, Copy, Debug, PartialEq, Eq, Structural)]
pub enum Field {
    Name,
    Version,
    Arch,
    Distro,
    Hostname,
}

impl Field {
    /// How many fields there are.
    pub open spec fn count() -> int {
        5
    }

    /// The field's place in the detection order, from 0.
    pub open spec fn position(self) -> int {
        match self {
            Field::Name => 0,
            Field::Version => 1,
            Field::Arch => 2,
            Field::Distro => 3,
            Field::Hostname => 4,
        }
    }

    /// The field at place `position` of the detection order.
    pub open spec fn at(position: int) -> Field
        recommends
            0 <= position < Field::count(),
    {
        if position <= 0 {
            Field::Name
        } else if position == 1 {
            Field::Version
        } else if position == 2 {
            Field::Arch
        } else if position == 3 {
            Field::Distro
        } else {
            Field::Hostname
        }
    }

    /// The platform gate: whether the field's probe exists on `platform`.
    /// The architecture probe exists everywhere, the others only on Linux.
    pub open spec fn available_on(self, platform: Platform) -> bool {
        self == Field::Arch || platform == Platform::Linux
    }

    /// The field's fixed probe command.
    pub open spec fn command_spec(self) -> ProbeCommandView {
        match self {
            Field::Name => ProbeCommandView { program: "lsb_release"@, args: seq!["-si"@] },
            Field::Version => ProbeCommandView { program: "lsb_release"@, args: seq!["-sr"@] },
            Field::Arch => ProbeCommandView { program: "uname"@, args: seq!["-m"@] },
            Field::Distro => ProbeCommandView { program: "lsb_release"@, args: seq!["-is"@] },
            Field::Hostname => ProbeCommandView { program: "hostname"@, args: seq![] },
        }
    }

    /// The failure that reports that this field could not be detected.
    pub open spec fn failure_spec(self, cause: FailureCauseView) -> DetectorErrorView {
        match self {
            Field::Name => DetectorErrorView::OsNameDetectionError(cause),
            Field::Version => DetectorErrorView::OsVersionDetectionError(cause),
            Field::Arch => DetectorErrorView::ArchDetectionError(cause),
            Field::Distro => DetectorErrorView::OsDetectionError(cause),
            Field::Hostname => DetectorErrorView::HostnameDetectionError(cause),
        }
    }

    /// Evaluates the platform gate.
    pub fn is_available_on(self, platform: Platform) -> (r: bool)
        ensures
            r == self.available_on(platform),
    {
        match self {
            Field::Arch => true,
            _ => match platform {
                Platform::Linux => true,
                Platform::Other => false,
            },
        }
    }

    /// Builds the field's fixed probe command.
    pub fn command(self) -> (r: ProbeCommand)
        ensures
            r@ == self.command_spec(),
    {
        let (program, args) = match self {
            Field::Name => ("lsb_release", vec!["-si".to_owned()]),
            Field::Version => ("lsb_release", vec!["-sr".to_owned()]),
            Field::Arch => ("uname", vec!["-m".to_owned()]),
            Field::Distro => ("lsb_release", vec!["-is".to_owned()]),
            Field::Hostname => ("hostname", Vec::new()),
        };
        let r = ProbeCommand { program: program.to_owned(), args };
        assert(r@.args =~= self.command_spec().args);
        r
    }

    /// Wraps `cause` in the failure that belongs to this field.
    pub fn failure(self, cause: FailureCause) -> (r: DetectorError)
        ensures
            r@ == self.failure_spec(cause@),
    {
        match self {
            Field::Name => DetectorError::OsNameDetectionError(cause),
            Field::Version => DetectorError::OsVersionDetectionError(cause),
            Field::Arch => DetectorError::ArchDetectionError(cause),
            Field::Distro => DetectorError::OsDetectionError(cause),
            Field::Hostname => DetectorError::HostnameDetectionError(cause),
        }
    }
}

} // verus!
