//! The closed set of failures that detection can report.

use vstd::prelude::*;

verus! {

/// Why one probe command yielded no value. Every variant names the command
/// that was run.
#[derive(Debug, PartialEq, Eq)]
pub enum ProbeError {
    /// The command could not be launched; `reason` is the operating system's
    /// explanation, passed on unchanged.
    SpawnFailure { command: String, reason: String },
    /// The process ended with a status other than success. `code` is its exit
    /// code, or `None` when it ended without one.
    NonZeroExit { command: String, code: Option<i32> },
    /// Standard output was not valid UTF-8.
    InvalidEncoding { command: String },
    /// Standard output held nothing but whitespace.
    EmptyOutput { command: String },
}

/// Mathematical form of a [`ProbeError`].
pub enum ProbeErrorView {
    SpawnFailure { command: Seq<char>, reason: Seq<char> },
    NonZeroExit { command: Seq<char>, code: Option<i32> },
    InvalidEncoding { command: Seq<char> },
    EmptyOutput { command: Seq<char> },
}

impl View for ProbeError {
    type V = ProbeErrorView;

    open spec fn view(&self) -> ProbeErrorView {
        match *self {
            ProbeError::SpawnFailure { command, reason } => ProbeErrorView::SpawnFailure {
                command: command@,
                reason: reason@,
            },
            ProbeError::NonZeroExit { command, code } => ProbeErrorView::NonZeroExit {
                command: command@,
                code,
            },
            ProbeError::InvalidEncoding { command } => ProbeErrorView::InvalidEncoding {
                command: command@,
            },
            ProbeError::EmptyOutput { command } => ProbeErrorView::EmptyOutput {
                command: command@,
            },
        }
    }
}

impl ProbeErrorView {
    /// The command whose execution failed.
    pub open spec fn command(self) -> Seq<char> {
        match self {
            ProbeErrorView::SpawnFailure { command, .. } => command,
            ProbeErrorView::NonZeroExit { command, .. } => command,
            ProbeErrorView::InvalidEncoding { command } => command,
            ProbeErrorView::EmptyOutput { command } => command,
        }
    }
}

/// Why a field could not be detected.
#[derive(Debug, PartialEq, Eq)]
pub enum FailureCause {
    /// The field's probe does not exist on this platform; nothing was run.
    UnsupportedPlatform,
    /// The probe was run and failed.
    Probe(ProbeError),
}

/// Mathematical form of a [`FailureCause`].
pub enum FailureCauseView {
    UnsupportedPlatform,
    Probe(ProbeErrorView),
}

impl View for FailureCause {
    type V = FailureCauseView;

    open spec fn view(&self) -> FailureCauseView {
        match *self {
            FailureCause::UnsupportedPlatform => FailureCauseView::UnsupportedPlatform,
            FailureCause::Probe(error) => FailureCauseView::Probe(error@),
        }
    }
}

/// A failed detection: which field could not be detected and why, or that the
/// assembled record was rejected.
#[derive(Debug, PartialEq, Eq)]
pub enum DetectorError {
    /// The distribution could not be detected.
    OsDetectionError(FailureCause),
    /// The operating system's name could not be detected.
    OsNameDetectionError(FailureCause),
    /// The operating system's version could not be detected.
    OsVersionDetectionError(FailureCause),
    /// The CPU architecture could not be detected.
    ArchDetectionError(FailureCause),
    /// The hostname could not be detected.
    HostnameDetectionError(FailureCause),
    /// Every probe succeeded, but the architecture or the distribution is not
    /// among the accepted values.
    DataIntegrityError,
}

/// Mathematical form of a [`DetectorError`].
pub enum DetectorErrorView {
    OsDetectionError(FailureCauseView),
    OsNameDetectionError(FailureCauseView),
    OsVersionDetectionError(FailureCauseView),
    ArchDetectionError(FailureCauseView),
    HostnameDetectionError(FailureCauseView),
    DataIntegrityError,
}

impl View for DetectorError {
    type V = DetectorErrorView;

    open spec fn view(&self) -> DetectorErrorView {
        match *self {
            DetectorError::OsDetectionError(cause) => DetectorErrorView::OsDetectionError(cause@),
            DetectorError::OsNameDetectionError(cause) => DetectorErrorView::OsNameDetectionError(
                cause@,
            ),
            DetectorError::OsVersionDetectionError(cause) => {
                DetectorErrorView::OsVersionDetectionError(cause@)
            },
            DetectorError::ArchDetectionError(cause) => DetectorErrorView::ArchDetectionError(
                cause@,
            ),
            DetectorError::HostnameDetectionError(cause) => {
                DetectorErrorView::HostnameDetectionError(cause@)
            },
            DetectorError::DataIntegrityError => DetectorErrorView::DataIntegrityError,
        }
    }
}

impl DetectorErrorView {
    /// The cause carried by a field-level failure; `None` for a rejected record.
    pub open spec fn cause(self) -> Option<FailureCauseView> {
        match self {
            DetectorErrorView::OsDetectionError(cause) => Some(cause),
            DetectorErrorView::OsNameDetectionError(cause) => Some(cause),
            DetectorErrorView::OsVersionDetectionError(cause) => Some(cause),
            DetectorErrorView::ArchDetectionError(cause) => Some(cause),
            DetectorErrorView::HostnameDetectionError(cause) => Some(cause),
            DetectorErrorView::DataIntegrityError => None,
        }
    }

    /// The one-line description of the failure.
    pub open spec fn message(self) -> Seq<char> {
        match self {
            DetectorErrorView::OsDetectionError(_) => "Failed to detect the OS distribution"@,
            DetectorErrorView::OsNameDetectionError(_) => {
                "Failed to detect the OS distribution name"@
            },
            DetectorErrorView::OsVersionDetectionError(_) => "Failed to detect the OS version"@,
            DetectorErrorView::ArchDetectionError(_) => "Failed to detect the architecture"@,
            DetectorErrorView::HostnameDetectionError(_) => "Failed to detect the hostname"@,
            DetectorErrorView::DataIntegrityError => {
                "Detected data failed the integrity check"@
            },
        }
    }
}

impl DetectorError {
    /// The one-line description of the failure.
    pub fn message(&self) -> (r: String)
        ensures
            r@ == self@.message(),
    {
        match self {
            DetectorError::OsDetectionError(_) => "Failed to detect the OS distribution".to_owned(),
            DetectorError::OsNameDetectionError(_) => {
                "Failed to detect the OS distribution name".to_owned()
            },
            DetectorError::OsVersionDetectionError(_) => {
                "Failed to detect the OS version".to_owned()
            },
            DetectorError::ArchDetectionError(_) => "Failed to detect the architecture".to_owned(),
            DetectorError::HostnameDetectionError(_) => "Failed to detect the hostname".to_owned(),
            DetectorError::DataIntegrityError => {
                "Detected data failed the integrity check".to_owned()
            },
        }
    }
}

/// The mathematical form of a result whose two sides both have one.
pub open spec fn result_view<T: View, E: View>(r: Result<T, E>) -> Result<T::V, E::V> {
    match r {
        Ok(value) => Ok(value@),
        Err(error) => Err(error@),
    }
}

} // verus!
