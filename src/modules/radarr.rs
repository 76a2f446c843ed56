use vstd::prelude::*;

use crate::jobs::{JobRegistry, SchedulerError, JobEntry, job_named};
use crate::notifications::{
    submitted, submitted_seq, well_formed, fingerprint_taken, fingerprint_spec, BareNotification,
    NotificationManager, NotificationType,
};

verus! {

/// The severities of the service's health report, as the service spells them
/// (lower case on the wire).
#[derive(Clone, Copy, Debug, PartialEq, Eq, Structural)]
pub enum RadarrServiceStatusType {
    WARNING,
    INFO,
    ERROR,
}

impl RadarrServiceStatusType {
    pub open spec fn severity(self) -> NotificationType {
        match self {
            RadarrServiceStatusType::WARNING => NotificationType::Warning,
            RadarrServiceStatusType::INFO => NotificationType::Info,
            RadarrServiceStatusType::ERROR => NotificationType::Error,
        }
    }

    /// The notification severity for a reported status.
    pub fn into_notification_type(self) -> (r: NotificationType)
        ensures
            r == self.severity(),
    {
        match self {
            RadarrServiceStatusType::WARNING => NotificationType::Warning,
            RadarrServiceStatusType::INFO => NotificationType::Info,
            RadarrServiceStatusType::ERROR => NotificationType::Error,
        }
    }
}

/// One item of the health report: `{source, type, message}`.
pub struct SingleStatus {
    pub source: String,
    pub status_type: RadarrServiceStatusType,
    pub message: String,
}

/// A validation failure reported by a download-client test.
pub struct DownloadClientTestValidationFailures {
    pub property_name: String,
    pub error_message: String,
    pub severity: String,
}

/// The result of one download-client test.
pub struct SingleDownloadClientTest {
    pub id: u32,
    pub is_valid: bool,
    pub validation_failures: DownloadClientTestValidationFailures,
}

/// The health report, items in the order the service returned them.
pub struct RadarrStatus {
    pub service_status: Vec<SingleStatus>,
}

/// Why a health check produced no report.
#[derive(Debug)]
pub enum PollError {
    /// The request could not be built or sent, or its body not read.
    Request(String),
    /// The body was not a health report.
    MalformedBody(String),
}

/// The name of the recurring health-check job.
pub const POLL_JOB_NAME: &'static str = "radarr_health";

/// Every ten seconds.
pub const POLL_SCHEDULE: &'static str = "*/10 * * * * *";

/// The severity and text that each report item is submitted with, in report order.
pub open spec fn status_notes(st: Seq<SingleStatus>) -> Seq<(NotificationType, Seq<char>)> {
    st.map_values(|x: SingleStatus| (x.status_type.severity(), x.message@))
}

/// The notification raised for one report item.
pub fn to_bare_notification(status: &SingleStatus) -> (r: BareNotification)
    ensures
        r.notification_type == status.status_type.severity(),
        r.message@ == status.message@,
{
    BareNotification {
        notification_type: status.status_type.into_notification_type(),
        message: status.message.clone(),
    }
}

/// One health-check tick, given what the check returned. A failed check
/// changes nothing and its error is handed back to be logged; a report has
/// each of its items submitted, in report order.
pub fn poll_status(manager: &mut NotificationManager, fetched: Result<RadarrStatus, PollError>) -> (r: Result<(), PollError>)
    requires
        well_formed(old(manager)@),
    ensures
        well_formed(final(manager)@),
        final(manager).webhook_url() == old(manager).webhook_url(),
        match fetched {
            Err(e) => r == Err::<(), PollError>(e) && final(manager)@ == old(manager)@,
            Ok(st) => r is Ok && exists|ids: Seq<Seq<char>>|
                ids.len() == st.service_status@.len() && final(manager)@ == #[trigger] submitted_seq(
                    old(manager)@,
                    status_notes(st.service_status@),
                    ids,
                ),
        },
{
    let status = match fetched {
        Err(e) => return Err(e),
        Ok(status) => status,
    };
    let ghost start = manager@;
    let ghost notes = status_notes(status.service_status@);
    let ghost mut ids: Seq<Seq<char>> = Seq::empty();
    let mut i: usize = 0;
    assert(notes.take(0).len() == 0);
    while i < status.service_status.len()
        invariant
            i <= status.service_status@.len(),
            notes == status_notes(status.service_status@),
            ids.len() == i,
            well_formed(manager@),
            manager.webhook_url() == old(manager).webhook_url(),
            manager@ == submitted_seq(start, notes.take(i as int), ids),
        decreases status.service_status@.len() - i,
    {
        let notif = to_bare_notification(&status.service_status[i]);
        let ghost before = manager@;
        let ghost t = notif.notification_type;
        let ghost m = notif.message@;
        manager.send_notification(notif);
        let ghost id = if fingerprint_taken(before.history, fingerprint_spec(t, m)) {
            Seq::<char>::empty()
        } else {
            manager@.history.last().id
        };
        proof {
            assert(manager@ == submitted(before, t, m, id));
            assert(notes.take(i + 1).drop_last() =~= notes.take(i as int));
            assert(ids.push(id).drop_last() =~= ids);
            assert(notes.take(i + 1).last() == (t, m));
            ids = ids.push(id);
        }
        i = i + 1;
    }
    assert(notes.take(i as int) =~= notes);
    Ok(())
}

/// Starts the recurring health check: registers its job, unless a job of that
/// name is registered already.
pub fn enable(jobs: &mut JobRegistry) -> (r: Result<(), SchedulerError>)
    requires
        old(jobs).wf(),
    ensures
        final(jobs).wf(),
        job_named(old(jobs)@, POLL_JOB_NAME@) ==> r == Err::<(), SchedulerError>(
            SchedulerError::DuplicateName,
        ) && final(jobs)@ == old(jobs)@,
        !job_named(old(jobs)@, POLL_JOB_NAME@) ==> r is Ok && final(jobs)@ == old(jobs)@.push(
            JobEntry { name: POLL_JOB_NAME@, schedule: POLL_SCHEDULE@ },
        ),
{
    jobs.add(String::from_str(POLL_JOB_NAME), String::from_str(POLL_SCHEDULE))
}

/// Stops the recurring health check; does nothing if it is not running.
pub fn disable(jobs: &mut JobRegistry) -> (r: bool)
    requires
        old(jobs).wf(),
    ensures
        final(jobs).wf(),
        r == job_named(old(jobs)@, POLL_JOB_NAME@),
        !job_named(final(jobs)@, POLL_JOB_NAME@),
        !r ==> final(jobs)@ == old(jobs)@,
        r ==> exists|i: int|
            0 <= i < old(jobs)@.len() && #[trigger] old(jobs)@[i].name == POLL_JOB_NAME@
                && final(jobs)@ == old(jobs)@.remove(i),
{
    let name = String::from_str(POLL_JOB_NAME);
    jobs.cancel(&name)
}

} // verus!
