use vstd::prelude::*;
use vstd::string::*;

use crate::dispatchers::EventDispatcher;
use crate::jobs::{job_named, JobEntry, JobRegistry, SchedulerError};
use crate::notifications::{payload_text, Notification, NotificationRecord};

verus! {

/// The JSON body posted to the webhook: `{"content": ...}`.
pub struct DiscordWebhookBody {
    pub content: String,
}

/// What a dispatcher holds: its target and the rendered payloads waiting to be sent.
pub struct DispatcherState {
    pub webhook_url: Seq<char>,
    pub queue: Seq<Seq<char>>,
}

/// The rendered text of each queued body, in queue order.
pub open spec fn contents(q: Seq<DiscordWebhookBody>) -> Seq<Seq<char>> {
    q.map_values(|b: DiscordWebhookBody| b.content@)
}

pub open spec fn payload_of(n: NotificationRecord) -> Seq<char> {
    payload_text(n.id, n.notification_type, n.message)
}

/// The state after queueing `n`.
pub open spec fn enqueued(d: DispatcherState, n: NotificationRecord) -> DispatcherState {
    DispatcherState { webhook_url: d.webhook_url, queue: d.queue.push(payload_of(n)) }
}

/// The state after queueing each of `ns`, in order.
pub open spec fn enqueued_all(d: DispatcherState, ns: Seq<NotificationRecord>) -> DispatcherState
    decreases ns.len(),
{
    if ns.len() == 0 {
        d
    } else {
        enqueued(enqueued_all(d, ns.drop_last()), ns.last())
    }
}

/// A flush: the state left behind, with an empty queue, and the payloads taken.
pub open spec fn drained(d: DispatcherState) -> (DispatcherState, Seq<Seq<char>>) {
    (DispatcherState { webhook_url: d.webhook_url, queue: Seq::empty() }, d.queue)
}

proof fn lemma_enqueued_all_queue(d: DispatcherState, ns: Seq<NotificationRecord>)
    ensures
        enqueued_all(d, ns).queue == d.queue + ns.map_values(|n: NotificationRecord| payload_of(n)),
        enqueued_all(d, ns).webhook_url == d.webhook_url,
    decreases ns.len(),
{
    if ns.len() > 0 {
        lemma_enqueued_all_queue(d, ns.drop_last());
        assert(d.queue + ns.map_values(|n: NotificationRecord| payload_of(n)) =~= (d.queue
            + ns.drop_last().map_values(|n: NotificationRecord| payload_of(n))).push(
            payload_of(ns.last()),
        ));
    } else {
        assert(d.queue + ns.map_values(|n: NotificationRecord| payload_of(n)) =~= d.queue);
    }
}

/// Queueing notifications on an empty queue and then flushing takes exactly
/// their payloads, in the order they were queued, and leaves the queue empty;
/// what then becomes of each send changes neither.
pub proof fn lemma_enqueue_then_flush(d: DispatcherState, ns: Seq<NotificationRecord>)
    requires
        d.queue.len() == 0,
    ensures
        drained(enqueued_all(d, ns)).1 == ns.map_values(|n: NotificationRecord| payload_of(n)),
        drained(enqueued_all(d, ns)).0 == (DispatcherState {
            webhook_url: d.webhook_url,
            queue: Seq::empty(),
        }),
{
    lemma_enqueued_all_queue(d, ns);
    assert(d.queue + ns.map_values(|n: NotificationRecord| payload_of(n)) =~= ns.map_values(
        |n: NotificationRecord| payload_of(n),
    ));
}

/// Why a dispatcher could not be built.
#[derive(Clone, Copy, Debug, PartialEq, Eq, Structural)]
pub enum DispatchError {
    /// No webhook target was configured.
    MissingWebhookUrl,
}

/// Queues rendered notifications and hands them out, in order, for sending.
pub struct DiscordDispatcher {
    webhook_url: String,
    message_queue: Vec<DiscordWebhookBody>,
}

impl View for DiscordDispatcher {
    type V = DispatcherState;

    closed spec fn view(&self) -> DispatcherState {
        DispatcherState { webhook_url: self.webhook_url@, queue: contents(self.message_queue@) }
    }
}

impl DiscordDispatcher {
    /// Builds a dispatcher for a webhook target; an empty target is refused.
    pub fn new(webhook_url: String) -> (r: Result<DiscordDispatcher, DispatchError>)
        ensures
            webhook_url@.len() == 0 <==> r is Err,
            r is Err ==> r == Err::<DiscordDispatcher, DispatchError>(DispatchError::MissingWebhookUrl),
            r matches Ok(d) ==> d@.webhook_url == webhook_url@ && d@.queue == Seq::<Seq<char>>::empty(),
    {
        if webhook_url.as_str().is_empty() {
            return Err(DispatchError::MissingWebhookUrl);
        }
        let d = DiscordDispatcher { webhook_url, message_queue: Vec::new() };
        assert(d@.queue =~= Seq::<Seq<char>>::empty());
        Ok(d)
    }

    /// The webhook target.
    pub fn webhook_url(&self) -> (r: &String)
        ensures
            r@ == self@.webhook_url,
    {
        &self.webhook_url
    }

    /// Number of payloads waiting to be sent.
    pub fn pending(&self) -> (r: usize)
        ensures
            r == self@.queue.len(),
    {
        self.message_queue.len()
    }

    /// Renders a notification and appends it to the queue; never sends.
    pub fn send_message(&mut self, msg: &Notification)
        ensures
            final(self)@ == enqueued(old(self)@, msg@),
    {
        let content = render_payload(msg);
        self.message_queue.push(DiscordWebhookBody { content });
        assert(contents(self.message_queue@) =~= contents(old(self).message_queue@).push(
            payload_of(msg@),
        ));
    }

    /// Takes the whole queue, oldest first, and leaves it empty: what was taken
    /// is never put back, whatever becomes of its sending.
    pub fn drain_messages(&mut self) -> (r: Vec<DiscordWebhookBody>)
        ensures
            (final(self)@, contents(r@)) == drained(old(self)@),
    {
        let mut taken: Vec<DiscordWebhookBody> = Vec::new();
        std::mem::swap(&mut taken, &mut self.message_queue);
        assert(contents(self.message_queue@) =~= Seq::<Seq<char>>::empty());
        taken
    }
}

impl EventDispatcher for DiscordDispatcher {
    open spec fn queued(&self) -> Seq<Seq<char>> {
        self@.queue
    }

    open spec fn rendered(msg: Notification) -> Seq<char> {
        payload_of(msg@)
    }

    fn send_message(&mut self, msg: &Notification) {
        DiscordDispatcher::send_message(self, msg);
    }

    fn take_messages(&mut self) -> (r: Vec<String>) {
        let bodies = self.drain_messages();
        let ghost taken = contents(bodies@);
        let mut out: Vec<String> = Vec::new();
        let mut i: usize = 0;
        while i < bodies.len()
            invariant
                i <= bodies@.len(),
                out@.len() == i,
                forall|j: int| 0 <= j < i ==> #[trigger] out@[j]@ == bodies@[j].content@,
            decreases bodies@.len() - i,
        {
            out.push(bodies[i].content.clone());
            i = i + 1;
        }
        assert(out@.map_values(|s: String| s@) =~= taken);
        out
    }
}

/// The name of the recurring job that flushes the queue.
pub const FLUSH_JOB_NAME: &'static str = "Send all messages";

/// Every second.
pub const FLUSH_SCHEDULE: &'static str = "* * * * * *";

/// Registers the recurring flush job, unless a job of that name is registered already.
pub fn register_flush_job(jobs: &mut JobRegistry) -> (r: Result<(), SchedulerError>)
    requires
        old(jobs).wf(),
    ensures
        final(jobs).wf(),
        job_named(old(jobs)@, FLUSH_JOB_NAME@) ==> r == Err::<(), SchedulerError>(
            SchedulerError::DuplicateName,
        ) && final(jobs)@ == old(jobs)@,
        !job_named(old(jobs)@, FLUSH_JOB_NAME@) ==> r is Ok && final(jobs)@ == old(jobs)@.push(
            JobEntry { name: FLUSH_JOB_NAME@, schedule: FLUSH_SCHEDULE@ },
        ),
{
    jobs.add(String::from_str(FLUSH_JOB_NAME), String::from_str(FLUSH_SCHEDULE))
}

/// `Notification <id> (<SEVERITY>): <message>`, built when the notification is
/// queued so that sending never has to format.
pub fn render_payload(n: &Notification) -> (r: String)
    ensures
        r@ == payload_text(n.id@, n.notification_type, n.message@),
{
    let mut s = String::from_str("Notification ");
    s.append(n.id.as_str());
    s.append(" (");
    s.append(n.notification_type.label());
    s.append("): ");
    s.append(n.message.as_str());
    s
}

} // verus!
