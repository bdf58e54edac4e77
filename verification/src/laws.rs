//! What holds of every detection, proved from the definitions in
//! [`crate::detector`].

use crate::detector::{detect_spec, read_spec, reading_at, Detection, DetectionView, ReadingView};
use crate::error::{DetectorErrorView, FailureCauseView, ProbeErrorView};
use crate::platform::{Field, Platform};
use crate::probe::{is_success, Execution, ExecutionView};
use crate::tables::{ReferenceTables, ReferenceTablesView};
use vstd::prelude::*;

verus! {

/// Every field before place `position` has been detected.
pub open spec fn known_before(platform: Platform, observed: Seq<ExecutionView>, position: int)
    -> bool {
    forall|earlier: int|
        0 <= earlier < position ==> #[trigger] reading_at(platform, observed, earlier) is Known
}

/// A record is only ever returned complete and validated: all five fields
/// are non-empty, the validation mark is set, and the architecture and the
/// distribution are accepted by the tables. It takes five observed
/// executions, on a platform where every probe is available.
pub proof fn returned_record_is_complete_and_validated(
    platform: Platform,
    tables: ReferenceTablesView,
    observed: Seq<ExecutionView>,
)
    ensures
        detect_spec(platform, tables, observed) matches DetectionView::Finished(Ok(info)) ==> {
            &&& info.is_validated
            &&& info.is_complete()
            &&& info.accepted_by(tables)
            &&& observed.len() >= Field::count()
            &&& platform == Platform::Linux
        },
{
}

/// Fail-fast: the first field that fails ends the detection with its own
/// failure, whatever has been observed for the fields after it.
pub proof fn first_failure_ends_detection(
    platform: Platform,
    tables: ReferenceTablesView,
    observed: Seq<ExecutionView>,
    position: int,
)
    requires
        0 <= position < Field::count(),
        known_before(platform, observed, position),
        reading_at(platform, observed, position) is Failed,
    ensures
        detect_spec(platform, tables, observed) == DetectionView::Finished(
            Err(reading_at(platform, observed, position)->Failed_0),
        ),
{
}

/// A probe is asked for only while nothing has failed: every execution
/// observed so far gave a value, and the probe is that of the next field in
/// the detection order.
pub proof fn pending_probe_is_next_in_order(
    platform: Platform,
    tables: ReferenceTablesView,
    observed: Seq<ExecutionView>,
)
    ensures
        detect_spec(platform, tables, observed) matches DetectionView::Pending(command) ==> {
            &&& observed.len() < Field::count()
            &&& known_before(platform, observed, observed.len() as int)
            &&& Field::at(observed.len() as int).available_on(platform)
            &&& command == Field::at(observed.len() as int).command_spec()
        },
{
}

/// Once a detection has finished, its outcome is final: executions observed
/// beyond that point change nothing.
pub proof fn finished_detection_is_final(
    platform: Platform,
    tables: ReferenceTablesView,
    observed: Seq<ExecutionView>,
    later: Seq<ExecutionView>,
)
    requires
        detect_spec(platform, tables, observed) is Finished,
    ensures
        detect_spec(platform, tables, observed + later) == detect_spec(platform, tables, observed),
{
}

/// A field whose platform gate fails has failed, with the failure that
/// belongs to it, whether or not an execution was observed for it. Its probe
/// is never asked for.
pub proof fn failed_gate_fails_the_field(
    platform: Platform,
    field: Field,
    observed: Option<ExecutionView>,
)
    requires
        !field.available_on(platform),
    ensures
        read_spec(field, platform, observed) == ReadingView::Failed(
            field.failure_spec(FailureCauseView::UnsupportedPlatform),
        ),
{
}

/// A field whose platform gate fails ends the detection with that field's
/// failure, provided the fields before it were detected. No probe is asked
/// for afterwards, whatever else was observed.
pub proof fn failed_gate_ends_detection(
    platform: Platform,
    tables: ReferenceTablesView,
    observed: Seq<ExecutionView>,
    field: Field,
)
    requires
        !field.available_on(platform),
        known_before(platform, observed, field.position()),
    ensures
        detect_spec(platform, tables, observed) == DetectionView::Finished(
            Err(field.failure_spec(FailureCauseView::UnsupportedPlatform)),
        ),
        !(detect_spec(platform, tables, observed) is Pending),
{
    first_failure_ends_detection(platform, tables, observed, field.position());
}

/// A probe that ends with a status other than success ends the detection
/// with a failure that names the field, the command and the status, provided
/// the fields before it were detected. No probe is asked for afterwards.
pub proof fn unsuccessful_exit_ends_detection(
    platform: Platform,
    tables: ReferenceTablesView,
    observed: Seq<ExecutionView>,
    field: Field,
)
    requires
        field.available_on(platform),
        known_before(platform, observed, field.position()),
        field.position() < observed.len(),
        observed[field.position()] matches ExecutionView::Completed { code, .. } && !is_success(
            code,
        ),
    ensures
        detect_spec(platform, tables, observed) == DetectionView::Finished(
            Err(
                field.failure_spec(
                    FailureCauseView::Probe(
                        ProbeErrorView::NonZeroExit {
                            command: field.command_spec().program,
                            code: observed[field.position()]->Completed_code,
                        },
                    ),
                ),
            ),
        ),
        !(detect_spec(platform, tables, observed) is Pending),
{
    first_failure_ends_detection(platform, tables, observed, field.position());
}

/// An architecture that the tables do not accept never reaches the caller,
/// whether or not the distribution is accepted: no record is returned, and
/// where all five fields were detected the detection ends as a data
/// integrity failure.
pub proof fn unaccepted_architecture_is_rejected(
    platform: Platform,
    tables: ReferenceTablesView,
    observed: Seq<ExecutionView>,
)
    requires
        reading_at(platform, observed, Field::Arch.position()) matches ReadingView::Known(arch)
            && !tables.architectures.contains(arch),
    ensures
        !(detect_spec(platform, tables, observed) matches DetectionView::Finished(Ok(_))),
        known_before(platform, observed, Field::count()) ==> detect_spec(
            platform,
            tables,
            observed,
        ) == DetectionView::Finished(Err(DetectorErrorView::DataIntegrityError)),
{
}

/// A distribution that the tables do not accept never reaches the caller,
/// whether or not the architecture is accepted: no record is returned, and
/// where all five fields were detected the detection ends as a data
/// integrity failure.
pub proof fn unaccepted_distribution_is_rejected(
    platform: Platform,
    tables: ReferenceTablesView,
    observed: Seq<ExecutionView>,
)
    requires
        reading_at(platform, observed, Field::Distro.position()) matches ReadingView::Known(
            distro,
        ) && !tables.distributions.contains(distro),
    ensures
        !(detect_spec(platform, tables, observed) matches DetectionView::Finished(Ok(_))),
        known_before(platform, observed, Field::count()) ==> detect_spec(
            platform,
            tables,
            observed,
        ) == DetectionView::Finished(Err(DetectorErrorView::DataIntegrityError)),
{
}

/// Detecting twice on an unchanged host gives the same answer twice: where
/// the platform is the same, the tables accept the same values and the
/// probes report the same, two results of [`crate::detector::OsInfo::detect`]
/// are equal, and two returned records agree in every field, both validated.
pub proof fn repeated_detection_agrees(
    platform: Platform,
    first_tables: ReferenceTables,
    second_tables: ReferenceTables,
    first_observed: Vec<Execution>,
    second_observed: Vec<Execution>,
    first: Detection,
    second: Detection,
)
    requires
        first_tables@ == second_tables@,
        first_observed.deep_view() == second_observed.deep_view(),
        first@ == detect_spec(platform, first_tables@, first_observed.deep_view()),
        second@ == detect_spec(platform, second_tables@, second_observed.deep_view()),
    ensures
        first@ == second@,
        first matches Detection::Finished(Ok(one)) ==> second matches Detection::Finished(
            Ok(other),
        ) && one@ == other@ && one.is_validated && other.is_validated,
{
}

} // verus!
