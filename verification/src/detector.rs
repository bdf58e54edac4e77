//! Host-identity detection: five probes composed into one record that is
//! either complete and validated or not returned at all.
//!
//! Nothing here executes a command. The caller executes what [`OsInfo::detect`]
//! asks for and hands back what the operating system reported; `detect` decides
//! from the reports seen so far what happens next.

use crate::error::{
    result_view, DetectorError, DetectorErrorView, FailureCause, FailureCauseView, ProbeError,
};
use crate::platform::{Field, Platform};
use crate::probe::{run_spec, Execution, ExecutionView, ProbeCommand, ProbeCommandView};
use crate::tables::{ReferenceTables, ReferenceTablesView};
use vstd::prelude::*;
use vstd::utf8::encode_utf8_decode_utf8;

verus! {

/// A snapshot of a host's identity.
#[derive(Debug, PartialEq, Eq)]
pub struct OsInfo {
    pub name: String,
    pub version: String,
    pub arch: String,
    pub distro: String,
    pub hostname: String,
    /// Set once the record has passed the integrity check.
    pub is_validated: bool,
}

/// Mathematical form of an [`OsInfo`].
pub struct OsInfoView {
    pub name: Seq<char>,
    pub version: Seq<char>,
    pub arch: Seq<char>,
    pub distro: Seq<char>,
    pub hostname: Seq<char>,
    pub is_validated: bool,
}

impl View for OsInfo {
    type V = OsInfoView;

    open spec fn view(&self) -> OsInfoView {
        OsInfoView {
            name: self.name@,
            version: self.version@,
            arch: self.arch@,
            distro: self.distro@,
            hostname: self.hostname@,
            is_validated: self.is_validated,
        }
    }
}

impl OsInfoView {
    /// Every text field holds at least one character.
    pub open spec fn is_complete(self) -> bool {
        &&& self.name.len() > 0
        &&& self.version.len() > 0
        &&& self.arch.len() > 0
        &&& self.distro.len() > 0
        &&& self.hostname.len() > 0
    }

    /// The integrity condition: the architecture and the distribution are both
    /// among the accepted values.
    pub open spec fn accepted_by(self, tables: ReferenceTablesView) -> bool {
        tables.architectures.contains(self.arch) && tables.distributions.contains(self.distro)
    }

    /// The same record, marked as validated.
    pub open spec fn validated(self) -> OsInfoView {
        OsInfoView { is_validated: true, ..self }
    }
}

/// The integrity check: an accepted candidate comes back validated, any other
/// is rejected as a whole.
pub open spec fn check_spec(candidate: OsInfoView, tables: ReferenceTablesView) -> Result<
    OsInfoView,
    DetectorErrorView,
> {
    if candidate.accepted_by(tables) {
        Ok(candidate.validated())
    } else {
        Err(DetectorErrorView::DataIntegrityError)
    }
}

/// Where the detection of one field stands.
#[derive(Debug, PartialEq, Eq)]
pub enum Reading {
    /// The probe ran and gave this value.
    Known(String),
    /// The probe has not run yet: this command is to be executed.
    Pending(ProbeCommand),
    /// The field cannot be detected.
    Failed(DetectorError),
}

/// Mathematical form of a [`Reading`].
pub enum ReadingView {
    Known(Seq<char>),
    Pending(ProbeCommandView),
    Failed(DetectorErrorView),
}

impl View for Reading {
    type V = ReadingView;

    open spec fn view(&self) -> ReadingView {
        match *self {
            Reading::Known(value) => ReadingView::Known(value@),
            Reading::Pending(command) => ReadingView::Pending(command@),
            Reading::Failed(error) => ReadingView::Failed(error@),
        }
    }
}

/// Where a detection stands after the executions observed so far.
#[derive(Debug, PartialEq, Eq)]
pub enum Detection {
    /// This command is to be executed next, and its execution appended to the
    /// observations.
    Pending(ProbeCommand),
    /// Detection is over, with a validated record or with the first failure.
    Finished(Result<OsInfo, DetectorError>),
}

/// Mathematical form of a [`Detection`].
pub enum DetectionView {
    Pending(ProbeCommandView),
    Finished(Result<OsInfoView, DetectorErrorView>),
}

impl View for Detection {
    type V = DetectionView;

    open spec fn view(&self) -> DetectionView {
        match *self {
            Detection::Pending(command) => DetectionView::Pending(command@),
            Detection::Finished(result) => DetectionView::Finished(result_view(result)),
        }
    }
}

/// The execution observed for the field at place `position`, if there is one.
/// Executions are observed in detection order, one per field.
pub open spec fn observation(observed: Seq<ExecutionView>, position: int) -> Option<
    ExecutionView,
> {
    if 0 <= position < observed.len() {
        Some(observed[position])
    } else {
        None
    }
}

/// Where the detection of `field` stands on `platform`, given the execution of
/// its probe if one was observed.
///
/// The platform gate comes first: where it fails the field has failed, whatever
/// was observed. Where it passes, an unobserved probe is pending, and an
/// observed one gives its value or the field's failure around the probe's.
pub open spec fn read_spec(field: Field, platform: Platform, observed: Option<ExecutionView>)
    -> ReadingView {
    if !field.available_on(platform) {
        ReadingView::Failed(field.failure_spec(FailureCauseView::UnsupportedPlatform))
    } else {
        match observed {
            None => ReadingView::Pending(field.command_spec()),
            Some(execution) => match run_spec(field.command_spec().program, execution) {
                Ok(value) => ReadingView::Known(value),
                Err(error) => ReadingView::Failed(
                    field.failure_spec(FailureCauseView::Probe(error)),
                ),
            },
        }
    }
}

/// Where the detection of the field at place `position` stands.
pub open spec fn reading_at(platform: Platform, observed: Seq<ExecutionView>, position: int)
    -> ReadingView {
    read_spec(Field::at(position), platform, observation(observed, position))
}

/// Where a whole detection stands.
///
/// The fields are taken in detection order. The first one that is not known
/// decides: a pending probe is asked for, a failure ends the detection. Once
/// all five are known, they form a candidate, and the integrity check decides.
pub open spec fn detect_spec(
    platform: Platform,
    tables: ReferenceTablesView,
    observed: Seq<ExecutionView>,
) -> DetectionView {
    match reading_at(platform, observed, 0) {
        ReadingView::Pending(command) => DetectionView::Pending(command),
        ReadingView::Failed(error) => DetectionView::Finished(Err(error)),
        ReadingView::Known(name) => match reading_at(platform, observed, 1) {
            ReadingView::Pending(command) => DetectionView::Pending(command),
            ReadingView::Failed(error) => DetectionView::Finished(Err(error)),
            ReadingView::Known(version) => match reading_at(platform, observed, 2) {
                ReadingView::Pending(command) => DetectionView::Pending(command),
                ReadingView::Failed(error) => DetectionView::Finished(Err(error)),
                ReadingView::Known(arch) => match reading_at(platform, observed, 3) {
                    ReadingView::Pending(command) => DetectionView::Pending(command),
                    ReadingView::Failed(error) => DetectionView::Finished(Err(error)),
                    ReadingView::Known(distro) => match reading_at(platform, observed, 4) {
                        ReadingView::Pending(command) => DetectionView::Pending(command),
                        ReadingView::Failed(error) => DetectionView::Finished(Err(error)),
                        ReadingView::Known(hostname) => DetectionView::Finished(
                            check_spec(
                                OsInfoView {
                                    name,
                                    version,
                                    arch,
                                    distro,
                                    hostname,
                                    is_validated: false,
                                },
                                tables,
                            ),
                        ),
                    },
                },
            },
        },
    }
}

/// Whether an exit code reports success.
fn exited_successfully(code: Option<i32>) -> (r: bool)
    ensures
        r == crate::probe::is_success(code),
{
    match code {
        Some(value) => value == 0,
        None => false,
    }
}

impl OsInfo {
    /// Assembles a record from its parts.
    pub fn new(
        name: String,
        version: String,
        arch: String,
        distro: String,
        hostname: String,
        is_validated: bool,
    ) -> (r: OsInfo)
        ensures
            r@ == (OsInfoView {
                name: name@,
                version: version@,
                arch: arch@,
                distro: distro@,
                hostname: hostname@,
                is_validated,
            }),
    {
        OsInfo { name, version, arch, distro, hostname, is_validated }
    }

    /// Turns what executing `cmd` reported into the probe's value: the decoded
    /// standard output without surrounding whitespace, never empty. Every
    /// other report becomes the failure that describes it.
    pub fn run(cmd: &str, execution: &Execution) -> (r: Result<String, ProbeError>)
        ensures
            result_view(r) == run_spec(cmd@, execution@),
            r matches Ok(value) ==> value@.len() > 0,
    {
        match execution {
            Execution::SpawnFailed { reason } => Err(
                ProbeError::SpawnFailure { command: cmd.to_owned(), reason: reason.clone() },
            ),
            Execution::Completed { code, stdout } => {
                if !exited_successfully(*code) {
                    return Err(ProbeError::NonZeroExit { command: cmd.to_owned(), code: *code });
                }
                let text = match core::str::from_utf8(stdout.as_slice()) {
                    Ok(text) => text,
                    Err(_) => {
                        return Err(ProbeError::InvalidEncoding { command: cmd.to_owned() });
                    },
                };
                proof {
                    encode_utf8_decode_utf8(text@);
                }
                let value = text.trim();
                if value.is_empty() {
                    return Err(ProbeError::EmptyOutput { command: cmd.to_owned() });
                }
                Ok(value.to_owned())
            },
        }
    }

    /// Detects one field: evaluates its platform gate and, where that passes,
    /// asks for its probe or turns the probe's observed execution into the
    /// field's value or failure.
    pub fn read(field: Field, platform: Platform, observed: Option<&Execution>) -> (r: Reading)
        ensures
            r@ == read_spec(field, platform, observed.deep_view()),
    {
        if !field.is_available_on(platform) {
            return Reading::Failed(field.failure(FailureCause::UnsupportedPlatform));
        }
        let command = field.command();
        match observed {
            None => Reading::Pending(command),
            Some(execution) => match Self::run(command.program.as_str(), execution) {
                Ok(value) => Reading::Known(value),
                Err(error) => Reading::Failed(field.failure(FailureCause::Probe(error))),
            },
        }
    }

    /// Detects the operating system's name. Available on Linux only.
    pub fn get_os_name(platform: Platform, observed: Option<&Execution>) -> (r: Reading)
        ensures
            r@ == read_spec(Field::Name, platform, observed.deep_view()),
    {
        Self::read(Field::Name, platform, observed)
    }

    /// Detects the operating system's version. Available on Linux only.
    pub fn get_os_version(platform: Platform, observed: Option<&Execution>) -> (r: Reading)
        ensures
            r@ == read_spec(Field::Version, platform, observed.deep_view()),
    {
        Self::read(Field::Version, platform, observed)
    }

    /// Detects the CPU architecture. Available on every platform.
    pub fn get_os_arch(platform: Platform, observed: Option<&Execution>) -> (r: Reading)
        ensures
            r@ == read_spec(Field::Arch, platform, observed.deep_view()),
    {
        Self::read(Field::Arch, platform, observed)
    }

    /// Detects the distribution. Available on Linux only.
    pub fn get_os_distro(platform: Platform, observed: Option<&Execution>) -> (r: Reading)
        ensures
            r@ == read_spec(Field::Distro, platform, observed.deep_view()),
    {
        Self::read(Field::Distro, platform, observed)
    }

    /// Detects the hostname. Available on Linux only.
    pub fn get_os_hostname(platform: Platform, observed: Option<&Execution>) -> (r: Reading)
        ensures
            r@ == read_spec(Field::Hostname, platform, observed.deep_view()),
    {
        Self::read(Field::Hostname, platform, observed)
    }

    /// The integrity check. The record is returned, validated, when its
    /// architecture and its distribution are both accepted by `tables`;
    /// otherwise it is rejected as a whole.
    pub fn check(self, tables: &ReferenceTables) -> (r: Result<OsInfo, DetectorError>)
        ensures
            result_view(r) == check_spec(self@, tables@),
    {
        if tables.accepts_architecture(&self.arch) && tables.accepts_distribution(&self.distro) {
            Ok(
                OsInfo {
                    name: self.name,
                    version: self.version,
                    arch: self.arch,
                    distro: self.distro,
                    hostname: self.hostname,
                    is_validated: true,
                },
            )
        } else {
            Err(DetectorError::DataIntegrityError)
        }
    }
    /// Advances a detection as far as the observed executions allow.
    ///
    /// `observed` holds, in detection order, what executing the probes asked
    /// for so far reported. The answer is either the next probe to execute, or
    /// the detection's end: a complete, validated record, or the first failure.
    /// After a failure no probe is asked for.
    pub fn detect(platform: Platform, tables: &ReferenceTables, observed: &Vec<Execution>) -> (r:
        Detection)
        ensures
            r@ == detect_spec(platform, tables@, observed.deep_view()),
            r matches Detection::Finished(Ok(info)) ==> {
                &&& info.is_validated
                &&& info@.is_complete()
                &&& info@.accepted_by(tables@)
            },
    {
        let name = match Self::get_os_name(platform, nth(observed, 0)) {
            Reading::Known(value) => value,
            Reading::Pending(command) => return Detection::Pending(command),
            Reading::Failed(error) => return Detection::Finished(Err(error)),
        };
        let version = match Self::get_os_version(platform, nth(observed, 1)) {
            Reading::Known(value) => value,
            Reading::Pending(command) => return Detection::Pending(command),
            Reading::Failed(error) => return Detection::Finished(Err(error)),
        };
        let arch = match Self::get_os_arch(platform, nth(observed, 2)) {
            Reading::Known(value) => value,
            Reading::Pending(command) => return Detection::Pending(command),
            Reading::Failed(error) => return Detection::Finished(Err(error)),
        };
        let distro = match Self::get_os_distro(platform, nth(observed, 3)) {
            Reading::Known(value) => value,
            Reading::Pending(command) => return Detection::Pending(command),
            Reading::Failed(error) => return Detection::Finished(Err(error)),
        };
        let hostname = match Self::get_os_hostname(platform, nth(observed, 4)) {
            Reading::Known(value) => value,
            Reading::Pending(command) => return Detection::Pending(command),
            Reading::Failed(error) => return Detection::Finished(Err(error)),
        };
        let candidate = Self::new(name, version, arch, distro, hostname, false);
        Detection::Finished(candidate.check(tables))
    }
}

/// The execution at place `position` of `observed`, if there is one.
fn nth(observed: &Vec<Execution>, position: usize) -> (r: Option<&Execution>)
    ensures
        r.deep_view() == observation(observed.deep_view(), position as int),
{
    if position < observed.len() {
        Some(&observed[position])
    } else {
        None
    }
}

} // verus!
