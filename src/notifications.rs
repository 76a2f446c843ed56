use vstd::prelude::*;

use crate::dispatchers::discord::{DiscordDispatcher, DiscordWebhookBody, contents};

verus! {

/// How serious a notification is.
#[derive(Clone, Copy, Debug, PartialEq, Eq, Structural, Hash)]
pub enum NotificationType {
    Info,
    Warning,
    Error,
}

impl NotificationType {
    pub open spec fn label_spec(self) -> Seq<char> {
        match self {
            NotificationType::Info => "INFO"@,
            NotificationType::Warning => "WARNING"@,
            NotificationType::Error => "ERROR"@,
        }
    }

    /// The upper-case name shown in rendered payloads.
    pub fn label(&self) -> (r: &'static str)
        ensures
            r@ == self.label_spec(),
    {
        match self {
            NotificationType::Info => "INFO",
            NotificationType::Warning => "WARNING",
            NotificationType::Error => "ERROR",
        }
    }

    /// The variant's index, which is what the fingerprint hashes for it.
    pub open spec fn code_spec(self) -> isize {
        match self {
            NotificationType::Info => 0,
            NotificationType::Warning => 1,
            NotificationType::Error => 2,
        }
    }

    pub fn code(&self) -> (r: isize)
        ensures
            r == self.code_spec(),
    {
        match self {
            NotificationType::Info => 0,
            NotificationType::Warning => 1,
            NotificationType::Error => 2,
        }
    }
}

/// An alert as a caller raises it, before it is deduplicated or given an id.
pub struct BareNotification {
    pub notification_type: NotificationType,
    pub message: String,
}

/// The 64-bit hash of a message and a severity code.
pub uninterp spec fn fingerprint_of(message: Seq<char>, code: isize) -> u64;

pub open spec fn fingerprint_spec(t: NotificationType, message: Seq<char>) -> u64 {
    fingerprint_of(message, t.code_spec())
}

/// Relies on std's `BuildHasher::hash_one` with a `BuildHasherDefault<DefaultHasher>`:
/// it hashes the pair (the message, then the code) with fixed keys, so the value
/// depends on the pair alone.
#[verifier::external_body]
fn hash_fields(message: &str, code: isize) -> (r: u64)
    ensures
        r == fingerprint_of(message@, code),
{
    std::hash::BuildHasher::hash_one(
        &std::hash::BuildHasherDefault::<std::hash::DefaultHasher>::default(),
        (message, code),
    )
}

/// A character of nanoid's URL-safe alphabet.
pub open spec fn is_id_char(c: char) -> bool {
    ('a' <= c && c <= 'z') || ('A' <= c && c <= 'Z') || ('0' <= c && c <= '9') || c == '_' || c
        == '-'
}

/// Relies on `nanoid::format` with nanoid's default random source and its
/// URL-safe alphabet: a random id of 21 characters of that alphabet.
#[verifier::external_body]
fn random_id() -> (r: String)
    ensures
        r@.len() == 21,
        forall|i: int| 0 <= i < r@.len() ==> is_id_char(#[trigger] r@[i]),
{
    nanoid::format(nanoid::rngs::default, &nanoid::alphabet::SAFE, 21)
}

/// A notification as recorded: what a `Notification` holds.
pub struct NotificationRecord {
    pub id: Seq<char>,
    pub notification_type: NotificationType,
    pub message: Seq<char>,
    pub fingerprint: u64,
}

/// A deduplicated alert with its identity.
#[derive(Debug, Clone)]
pub struct Notification {
    pub id: String,
    pub notification_type: NotificationType,
    pub message: String,
    pub hash: u64,
}

impl View for Notification {
    type V = NotificationRecord;

    open spec fn view(&self) -> NotificationRecord {
        NotificationRecord {
            id: self.id@,
            notification_type: self.notification_type,
            message: self.message@,
            fingerprint: self.hash,
        }
    }
}

/// The text queued for a notification.
pub open spec fn payload_text(id: Seq<char>, t: NotificationType, message: Seq<char>) -> Seq<char> {
    "Notification "@ + id + " ("@ + t.label_spec() + "): "@ + message
}

/// What a manager holds: its history, oldest first, and its dispatcher's queue.
pub struct ManagerState {
    pub history: Seq<NotificationRecord>,
    pub queue: Seq<Seq<char>>,
}

pub open spec fn fingerprint_taken(h: Seq<NotificationRecord>, fp: u64) -> bool {
    exists|i: int| 0 <= i < h.len() && #[trigger] h[i].fingerprint == fp
}

pub open spec fn id_taken(h: Seq<NotificationRecord>, id: Seq<char>) -> bool {
    exists|i: int| 0 <= i < h.len() && #[trigger] h[i].id == id
}

/// Ids are never reused and each fingerprint is recorded at most once.
pub open spec fn well_formed(s: ManagerState) -> bool {
    &&& forall|i: int, j: int|
        0 <= i < j < s.history.len() ==> #[trigger] s.history[i].id != #[trigger] s.history[j].id
    &&& forall|i: int, j: int|
        0 <= i < j < s.history.len() ==> #[trigger] s.history[i].fingerprint
            != #[trigger] s.history[j].fingerprint
}

pub open spec fn dashes(k: nat) -> Seq<char> {
    Seq::new(k, |_i: int| '-')
}

/// `k` is the fewest dashes that, appended to `candidate`, give an id not yet in `h`.
pub open spec fn is_first_free(h: Seq<NotificationRecord>, candidate: Seq<char>, k: nat) -> bool {
    &&& !id_taken(h, candidate + dashes(k))
    &&& forall|j: nat| j < k ==> id_taken(h, #[trigger] (candidate + dashes(j)))
}

/// The id given for a drawn candidate: the candidate itself when unused, else
/// the candidate with the fewest dashes appended that make it unused.
pub open spec fn fresh_id(h: Seq<NotificationRecord>, candidate: Seq<char>) -> Seq<char> {
    candidate + dashes(choose|k: nat| is_first_free(h, candidate, k))
}

/// The state after submitting a notification of severity `t` and text `message`
/// that would get the id `id`: unchanged when its fingerprint is already
/// recorded; else recorded and its payload queued.
pub open spec fn submitted(s: ManagerState, t: NotificationType, message: Seq<char>, id: Seq<char>) -> ManagerState {
    let fp = fingerprint_spec(t, message);
    if fingerprint_taken(s.history, fp) {
        s
    } else {
        ManagerState {
            history: s.history.push(
                NotificationRecord { id, notification_type: t, message, fingerprint: fp },
            ),
            queue: s.queue.push(payload_text(id, t, message)),
        }
    }
}

/// Deduplicates alerts, records each new one and forwards it to the dispatcher.
pub struct NotificationManager {
    notifications: Vec<Notification>,
    discord: DiscordDispatcher,
}

impl View for NotificationManager {
    type V = ManagerState;

    closed spec fn view(&self) -> ManagerState {
        ManagerState {
            history: self.notifications@.map_values(|n: Notification| n@),
            queue: self.discord@.queue,
        }
    }
}

/// Every history has a bound on the length of its ids.
proof fn lemma_id_len_bound(h: Seq<NotificationRecord>) -> (bound: nat)
    ensures
        forall|i: int| 0 <= i < h.len() ==> #[trigger] h[i].id.len() <= bound,
    decreases h.len(),
{
    if h.len() == 0 {
        0
    } else {
        let rest = lemma_id_len_bound(h.drop_last());
        let last = h.last().id.len();
        let bound = if rest < last { last } else { rest };
        assert forall|i: int| 0 <= i < h.len() implies #[trigger] h[i].id.len() <= bound by {
            if i < h.len() - 1 {
                assert(h[i] == h.drop_last()[i]);
            }
        }
        bound
    }
}

/// From any free number of dashes, a fewest one exists.
proof fn lemma_first_free_exists(h: Seq<NotificationRecord>, c: Seq<char>, k0: nat)
    requires
        !id_taken(h, c + dashes(k0)),
    ensures
        exists|k: nat| is_first_free(h, c, k),
    decreases k0,
{
    if forall|j: nat| j < k0 ==> id_taken(h, #[trigger] (c + dashes(j))) {
        assert(is_first_free(h, c, k0));
    } else {
        let j = choose|j: nat| j < k0 && !id_taken(h, #[trigger] (c + dashes(j)));
        lemma_first_free_exists(h, c, j);
    }
}

/// The fewest free number of dashes is the one `fresh_id` picks.
proof fn lemma_first_free_is_chosen(h: Seq<NotificationRecord>, c: Seq<char>, k: nat)
    requires
        is_first_free(h, c, k),
    ensures
        fresh_id(h, c) == c + dashes(k),
{
    let k2 = choose|k2: nat| is_first_free(h, c, k2);
    assert(is_first_free(h, c, k2));
    if k2 < k {
        assert(id_taken(h, c + dashes(k2)));
    } else if k < k2 {
        assert(id_taken(h, c + dashes(k)));
    }
}

/// The id picked for any candidate is not in the history.
pub proof fn lemma_fresh_id_is_unused(h: Seq<NotificationRecord>, c: Seq<char>)
    ensures
        !id_taken(h, fresh_id(h, c)),
{
    let bound = lemma_id_len_bound(h);
    let k0: nat = bound + 1;
    assert((c + dashes(k0)).len() > bound);
    lemma_first_free_exists(h, c, k0);
    let k = choose|k: nat| is_first_free(h, c, k);
    lemma_first_free_is_chosen(h, c, k);
}

/// The state after submitting, in order, notifications of the given severities
/// and texts, the i-th of which would get the i-th id.
pub open spec fn submitted_seq(
    s: ManagerState,
    notes: Seq<(NotificationType, Seq<char>)>,
    ids: Seq<Seq<char>>,
) -> ManagerState
    decreases notes.len(),
{
    if notes.len() == 0 || ids.len() == 0 {
        s
    } else {
        submitted(
            submitted_seq(s, notes.drop_last(), ids.drop_last()),
            notes.last().0,
            notes.last().1,
            ids.last(),
        )
    }
}

pub open spec fn bare_fingerprint(n: BareNotification) -> u64 {
    fingerprint_spec(n.notification_type, n.message@)
}

/// Of two submissions with equal severity and text, only the first can record
/// and forward a notification (it does when its fingerprint is new); the second
/// leaves history and queue as they were, whatever id it would have had.
pub proof fn lemma_duplicate_submission_is_noop(
    s: ManagerState,
    a: BareNotification,
    b: BareNotification,
    id_a: Seq<char>,
    id_b: Seq<char>,
)
    requires
        a.notification_type == b.notification_type,
        a.message@ == b.message@,
    ensures
        ({
            let s1 = submitted(s, a.notification_type, a.message@, id_a);
            &&& submitted(s1, b.notification_type, b.message@, id_b) == s1
            &&& !fingerprint_taken(s.history, bare_fingerprint(a)) ==> {
                &&& s1.history.len() == s.history.len() + 1
                &&& s1.queue == s.queue.push(payload_text(id_a, a.notification_type, a.message@))
            }
        }),
{
    let fp = bare_fingerprint(a);
    let s1 = submitted(s, a.notification_type, a.message@, id_a);
    if !fingerprint_taken(s.history, fp) {
        assert(s1.history[s.history.len() as int].fingerprint == fp);
    }
    assert(fingerprint_taken(s1.history, fp));
}

/// Two submissions that differ in severity or text, neither of whose
/// fingerprints is recorded yet, both record a notification, under distinct
/// ids, and both are forwarded in order. Two texts whose 64-bit fingerprints
/// collide are deduplicated as one, so the law is stated for distinct
/// fingerprints.
pub proof fn lemma_distinct_submissions_are_both_recorded(
    s: ManagerState,
    a: BareNotification,
    b: BareNotification,
    candidate_a: Seq<char>,
    candidate_b: Seq<char>,
)
    requires
        a.notification_type != b.notification_type || a.message@ != b.message@,
        bare_fingerprint(a) != bare_fingerprint(b),
        !fingerprint_taken(s.history, bare_fingerprint(a)),
        !fingerprint_taken(s.history, bare_fingerprint(b)),
    ensures
        ({
            let id_a = fresh_id(s.history, candidate_a);
            let s1 = submitted(s, a.notification_type, a.message@, id_a);
            let id_b = fresh_id(s1.history, candidate_b);
            let s2 = submitted(s1, b.notification_type, b.message@, id_b);
            &&& s2.history == s.history.push(
                NotificationRecord {
                    id: id_a,
                    notification_type: a.notification_type,
                    message: a.message@,
                    fingerprint: bare_fingerprint(a),
                },
            ).push(
                NotificationRecord {
                    id: id_b,
                    notification_type: b.notification_type,
                    message: b.message@,
                    fingerprint: bare_fingerprint(b),
                },
            )
            &&& s2.queue == s.queue.push(payload_text(id_a, a.notification_type, a.message@)).push(
                payload_text(id_b, b.notification_type, b.message@),
            )
            &&& id_a != id_b
        }),
{
    let id_a = fresh_id(s.history, candidate_a);
    let s1 = submitted(s, a.notification_type, a.message@, id_a);
    let id_b = fresh_id(s1.history, candidate_b);
    assert(!fingerprint_taken(s1.history, bare_fingerprint(b))) by {
        assert forall|i: int| 0 <= i < s1.history.len() implies #[trigger] s1.history[i].fingerprint
            != bare_fingerprint(b) by {
            if i < s.history.len() {
                assert(s1.history[i] == s.history[i]);
            }
        }
    }
    lemma_fresh_id_is_unused(s1.history, candidate_b);
    assert(s1.history[s.history.len() as int].id == id_a);
}

/// However many submissions of one severity and text arrive, and in whatever
/// order the lock lets them through, they record and forward exactly what the
/// first of them alone would: one notification when the fingerprint is new,
/// nothing otherwise.
pub proof fn lemma_repeated_submissions_record_once(
    s: ManagerState,
    n: BareNotification,
    notes: Seq<(NotificationType, Seq<char>)>,
    ids: Seq<Seq<char>>,
)
    requires
        notes.len() >= 1,
        ids.len() == notes.len(),
        forall|i: int| 0 <= i < notes.len() ==> #[trigger] notes[i] == (n.notification_type, n.message@),
    ensures
        submitted_seq(s, notes, ids) == submitted(s, n.notification_type, n.message@, ids[0]),
        fingerprint_taken(s.history, bare_fingerprint(n)) ==> submitted_seq(s, notes, ids) == s,
        !fingerprint_taken(s.history, bare_fingerprint(n)) ==> {
            &&& submitted_seq(s, notes, ids).history.len() == s.history.len() + 1
            &&& submitted_seq(s, notes, ids).queue.len() == s.queue.len() + 1
        },
    decreases notes.len(),
{
    if notes.len() == 1 {
        assert(submitted_seq(s, notes.drop_last(), ids.drop_last()) == s);
        assert(notes.last() == notes[0]);
        assert(ids.last() == ids[0]);
    } else {
        let front = notes.drop_last();
        assert forall|i: int| 0 <= i < front.len() implies #[trigger] front[i] == (
            n.notification_type,
            n.message@,
        ) by {
            assert(front[i] == notes[i]);
        }
        lemma_repeated_submissions_record_once(s, n, front, ids.drop_last());
        assert(ids.drop_last()[0] == ids[0]);
        assert(notes.last() == notes[notes.len() - 1]);
        lemma_duplicate_submission_is_noop(s, n, n, ids[0], ids.last());
    }
}

impl NotificationManager {
    /// A manager with an empty history that forwards to `discord`.
    pub fn new(discord: DiscordDispatcher) -> (r: NotificationManager)
        ensures
            r@.history == Seq::<NotificationRecord>::empty(),
            r@.queue == discord@.queue,
            r.webhook_url() == discord@.webhook_url,
            well_formed(r@),
    {
        let r = NotificationManager { notifications: Vec::new(), discord };
        assert(r@.history =~= Seq::<NotificationRecord>::empty());
        r
    }

    pub closed spec fn webhook_url(&self) -> Seq<char> {
        self.discord@.webhook_url
    }

    /// The recorded notifications, oldest first.
    pub fn notifications(&self) -> (r: &Vec<Notification>)
        ensures
            r@.map_values(|n: Notification| n@) == self@.history,
    {
        &self.notifications
    }

    /// The dispatcher that new notifications are forwarded to.
    pub fn discord(&self) -> (r: &DiscordDispatcher)
        ensures
            r@.queue == self@.queue,
            r@.webhook_url == self.webhook_url(),
    {
        &self.discord
    }

    /// Takes every queued payload, oldest first, for sending; the history is kept.
    pub fn drain_messages(&mut self) -> (r: Vec<DiscordWebhookBody>)
        ensures
            contents(r@) == old(self)@.queue,
            final(self)@.queue == Seq::<Seq<char>>::empty(),
            final(self)@.history == old(self)@.history,
            final(self).webhook_url() == old(self).webhook_url(),
    {
        self.discord.drain_messages()
    }

    fn hash_notif(&self, notif: &BareNotification) -> (r: u64)
        ensures
            r == fingerprint_spec(notif.notification_type, notif.message@),
    {
        hash_fields(notif.message.as_str(), notif.notification_type.code())
    }

    fn has_existing_notification(&self, notif: &BareNotification) -> (r: bool)
        ensures
            r == fingerprint_taken(
                self@.history,
                fingerprint_spec(notif.notification_type, notif.message@),
            ),
    {
        let hash = self.hash_notif(notif);
        let mut i: usize = 0;
        while i < self.notifications.len()
            invariant
                i <= self.notifications@.len(),
                hash == fingerprint_spec(notif.notification_type, notif.message@),
                forall|j: int| 0 <= j < i ==> #[trigger] self@.history[j].fingerprint != hash,
            decreases self.notifications@.len() - i,
        {
            if self.notifications[i].hash == hash {
                assert(self@.history[i as int].fingerprint == hash);
                assert(fingerprint_taken(self@.history, hash));
                return true;
            }
            i = i + 1;
        }
        false
    }

    fn id_in_use(&self, id: &String) -> (r: bool)
        ensures
            r == id_taken(self@.history, id@),
    {
        let mut i: usize = 0;
        while i < self.notifications.len()
            invariant
                i <= self.notifications@.len(),
                forall|j: int| 0 <= j < i ==> #[trigger] self@.history[j].id != id@,
            decreases self.notifications@.len() - i,
        {
            if self.notifications[i].id == *id {
                assert(self@.history[i as int].id == id@);
                return true;
            }
            i = i + 1;
        }
        false
    }

    /// The id given for a drawn candidate: see `fresh_id`.
    fn unused_id(&self, candidate: String) -> (r: String)
        ensures
            r@ == fresh_id(self@.history, candidate@),
            !id_taken(self@.history, r@),
    {
        let ghost h = self@.history;
        let ghost bound = lemma_id_len_bound(h);
        let mut id = candidate;
        let ghost mut k: nat = 0;
        assert(id@ =~= candidate@ + dashes(0));
        while self.id_in_use(&id)
            invariant
                h == self@.history,
                id@ == candidate@ + dashes(k),
                forall|j: nat| j < k ==> id_taken(h, #[trigger] (candidate@ + dashes(j))),
                forall|i: int| 0 <= i < h.len() ==> #[trigger] h[i].id.len() <= bound,
            decreases bound + 1 - id@.len(),
        {
            let ghost i = choose|i: int| 0 <= i < h.len() && #[trigger] h[i].id == id@;
            assert(h[i].id.len() <= bound);
            proof {
                reveal_strlit("-");
            }
            id.append("-");
            proof {
                assert(candidate@ + dashes(k) + "-"@ =~= candidate@ + dashes(k + 1));
                k = k + 1;
            }
        }
        proof {
            assert(is_first_free(h, candidate@, k));
            lemma_first_free_is_chosen(h, candidate@, k);
        }
        id
    }

    /// Submits `notif`, to be identified by `candidate` (or, where that id is
    /// taken, by `candidate` with the fewest dashes appended that free it).
    /// A notification whose fingerprint is already recorded changes nothing;
    /// any other is recorded and forwarded to the dispatcher's queue.
    pub fn send_notification_with_id(&mut self, notif: BareNotification, candidate: String)
        requires
            well_formed(old(self)@),
        ensures
            well_formed(final(self)@),
            final(self)@ == submitted(
                old(self)@,
                notif.notification_type,
                notif.message@,
                fresh_id(old(self)@.history, candidate@),
            ),
            final(self).webhook_url() == old(self).webhook_url(),
    {
        if self.has_existing_notification(&notif) {
            return;
        }
        let hash = self.hash_notif(&notif);
        let id = self.unused_id(candidate);
        let ghost old_history = self@.history;
        let notification = Notification {
            id,
            notification_type: notif.notification_type,
            message: notif.message,
            hash,
        };
        self.discord.send_message(&notification);
        self.notifications.push(notification);
        assert(self@.history =~= old_history.push(notification@));
        assert forall|i: int, j: int|
            0 <= i < j < self@.history.len() implies #[trigger] self@.history[i].id
            != #[trigger] self@.history[j].id && self@.history[i].fingerprint
            != self@.history[j].fingerprint by {
            if j == self@.history.len() - 1 {
                assert(self@.history[i] == old_history[i]);
            } else {
                assert(self@.history[i] == old_history[i]);
                assert(self@.history[j] == old_history[j]);
            }
        }
    }

    /// Submits `notif` with a freshly drawn random id. A notification whose
    /// fingerprint is already recorded changes nothing; any other is recorded
    /// under an id not used before and forwarded to the dispatcher's queue.
    pub fn send_notification(&mut self, notif: BareNotification)
        requires
            well_formed(old(self)@),
        ensures
            well_formed(final(self)@),
            final(self).webhook_url() == old(self).webhook_url(),
            fingerprint_taken(
                old(self)@.history,
                fingerprint_spec(notif.notification_type, notif.message@),
            ) ==> final(self)@ == old(self)@,
            !fingerprint_taken(
                old(self)@.history,
                fingerprint_spec(notif.notification_type, notif.message@),
            ) ==> {
                &&& final(self)@ == submitted(
                    old(self)@,
                    notif.notification_type,
                    notif.message@,
                    final(self)@.history.last().id,
                )
                &&& !id_taken(old(self)@.history, final(self)@.history.last().id)
            },
    {
        let candidate = random_id();
        let ghost c = candidate@;
        proof {
            lemma_fresh_id_is_unused(self@.history, c);
        }
        self.send_notification_with_id(notif, candidate);
    }
}

} // verus!
