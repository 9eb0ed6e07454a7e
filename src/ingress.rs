use vstd::prelude::*;
use crate::job::{content_type, image_content_type, Job, JobView};

verus! {

/// Parameters of the ingress stage: the container that receives uploads and
/// the largest total payload a request may carry.
#[derive(Debug)]
pub struct IngressConfig {
    pub container: String,
    pub max_payload: u64,
}

impl IngressConfig {
    pub fn new(container: String, max_payload: u64) -> (r: IngressConfig)
        ensures
            r.container@ == container@,
            r.max_payload == max_payload,
    {
        IngressConfig { container, max_payload }
    }

    /// Uploads go to `container`, with requests of at most 5 MiB.
    pub fn standard(container: String) -> (r: IngressConfig)
        ensures
            r.container@ == container@,
            r.max_payload == 5 * 1024 * 1024,
    {
        IngressConfig { container, max_payload: 5 * 1024 * 1024 }
    }
}

/// One part of an upload: its form field name, the file name it declares, if
/// any, and its bytes.
#[derive(Debug)]
pub struct UploadPart {
    pub name: String,
    pub filename: Option<String>,
    pub payload: Vec<u8>,
}

impl UploadPart {
    pub fn new(name: String, filename: Option<String>, payload: Vec<u8>) -> (r: UploadPart)
        ensures
            r.name@ == name@,
            r.filename == filename,
            r.payload@ == payload@,
    {
        UploadPart { name, filename, payload }
    }
}

/// Why a part was not announced.
#[derive(Debug, Clone, Copy, PartialEq, Eq, Structural)]
pub enum PartError {
    /// The part declares no (or an empty) file name.
    MissingFilename,
    /// Writing the payload to the store failed; nothing was announced.
    StoreWrite,
    /// The payload was stored but announcing the job failed: the object is orphaned.
    QueuePublish,
}

/// How the handling of one part ended.
#[derive(Debug, Clone, Copy, PartialEq, Eq, Structural)]
pub enum PartStatus {
    /// The payload is empty: nothing was stored or announced.
    Skipped,
    /// The payload was stored and its job announced.
    Published,
    /// The part failed.
    Failed(PartError),
}

/// Where the handling of one part stands.
#[derive(Debug)]
pub enum IngressState {
    /// Nothing has happened yet.
    Start,
    /// The payload is being written as the object that `job` names.
    Writing { job: Job },
    /// The payload is stored and `job` is being announced.
    Publishing { job: Job },
    /// The part has been handled.
    Done(PartStatus),
}

/// What the caller reports back after performing an action.
#[derive(Debug)]
pub enum IngressEvent {
    /// Begin handling the part.
    Begin,
    /// The store acknowledged the write.
    WriteSucceeded,
    /// The write failed.
    WriteFailed,
    /// The queue accepted the job.
    PublishSucceeded,
    /// The queue refused the job.
    PublishFailed,
}

/// What the caller is asked to do next.
#[derive(Debug)]
pub enum IngressAction {
    /// Store `payload` as the object `name` of `container`, tagged `content_type`.
    WriteObject { container: String, name: String, content_type: String, payload: Vec<u8> },
    /// Announce `job` on the queue.
    PublishJob(Job),
    /// Keep going: deliver the outcome of the operation under way.
    Continue,
    /// The part has been handled with this status.
    Finish(PartStatus),
}

pub open spec fn part_finished(s2: IngressState, a: IngressAction, st: PartStatus) -> bool {
    s2 == IngressState::Done(st) && a == IngressAction::Finish(st)
}

/// The file name a part declares, when it declares a non-empty one.
pub open spec fn declared_name(part: UploadPart) -> Option<Seq<char>> {
    match part.filename {
        Some(f) => if f@.len() > 0 {
            Some(f@)
        } else {
            None
        },
        None => None,
    }
}

/// The step relation of the handling of one part: from `s`, on event `e`, it
/// may move to `s2` and ask for `a`. An event that does not fit the state
/// leaves the state as it is.
pub open spec fn part_transition(
    cfg: IngressConfig,
    part: UploadPart,
    s: IngressState,
    e: IngressEvent,
    s2: IngressState,
    a: IngressAction,
) -> bool {
    let unchanged = s2 == s && a == IngressAction::Continue;
    match s {
        IngressState::Start => match e {
            IngressEvent::Begin => if part.payload@.len() == 0 {
                part_finished(s2, a, PartStatus::Skipped)
            } else if declared_name(part) is None {
                part_finished(s2, a, PartStatus::Failed(PartError::MissingFilename))
            } else {
                match (s2, a) {
                    (
                        IngressState::Writing { job },
                        IngressAction::WriteObject { container, name, content_type, payload },
                    ) => job@ == (JobView {
                        filename: declared_name(part)->Some_0,
                        image_container: cfg.container@,
                    }) && container@ == cfg.container@ && name@ == declared_name(part)->Some_0
                        && content_type@ == image_content_type() && payload@ == part.payload@,
                    _ => false,
                }
            },
            _ => unchanged,
        },
        IngressState::Writing { job } => match e {
            IngressEvent::WriteSucceeded => match (s2, a) {
                (IngressState::Publishing { job: j2 }, IngressAction::PublishJob(j3)) => j2@
                    == job@ && j3@ == job@,
                _ => false,
            },
            IngressEvent::WriteFailed => part_finished(
                s2,
                a,
                PartStatus::Failed(PartError::StoreWrite),
            ),
            _ => unchanged,
        },
        IngressState::Publishing { job } => match e {
            IngressEvent::PublishSucceeded => part_finished(s2, a, PartStatus::Published),
            IngressEvent::PublishFailed => part_finished(
                s2,
                a,
                PartStatus::Failed(PartError::QueuePublish),
            ),
            _ => unchanged,
        },
        IngressState::Done(_) => unchanged,
    }
}

/// Advances the handling of `part` by one event, returning the next state and
/// the action the caller must perform.
pub fn part_step(cfg: &IngressConfig, part: &UploadPart, s: IngressState, e: IngressEvent) -> (r: (
    IngressState,
    IngressAction,
))
    ensures
        part_transition(*cfg, *part, s, e, r.0, r.1),
{
    match s {
        IngressState::Start => match e {
            IngressEvent::Begin => {
                if part.payload.len() == 0 {
                    return finish_part(PartStatus::Skipped);
                }
                match &part.filename {
                    Some(f) => {
                        if f.as_str().is_empty() {
                            finish_part(PartStatus::Failed(PartError::MissingFilename))
                        } else {
                            let job = Job::new(f.clone(), cfg.container.clone());
                            let action = IngressAction::WriteObject {
                                container: cfg.container.clone(),
                                name: f.clone(),
                                content_type: content_type(),
                                payload: copy_bytes(&part.payload),
                            };
                            (IngressState::Writing { job }, action)
                        }
                    },
                    None => finish_part(PartStatus::Failed(PartError::MissingFilename)),
                }
            },
            _ => (IngressState::Start, IngressAction::Continue),
        },
        IngressState::Writing { job } => match e {
            IngressEvent::WriteSucceeded => {
                let announced = job.duplicate();
                (IngressState::Publishing { job }, IngressAction::PublishJob(announced))
            },
            IngressEvent::WriteFailed => finish_part(PartStatus::Failed(PartError::StoreWrite)),
            _ => (IngressState::Writing { job }, IngressAction::Continue),
        },
        IngressState::Publishing { job } => match e {
            IngressEvent::PublishSucceeded => finish_part(PartStatus::Published),
            IngressEvent::PublishFailed => finish_part(PartStatus::Failed(PartError::QueuePublish)),
            _ => (IngressState::Publishing { job }, IngressAction::Continue),
        },
        IngressState::Done(st) => (IngressState::Done(st), IngressAction::Continue),
    }
}

/// `states`, `events` and `actions` record a run of steps on one part.
pub open spec fn is_part_run(
    cfg: IngressConfig,
    part: UploadPart,
    states: Seq<IngressState>,
    events: Seq<IngressEvent>,
    actions: Seq<IngressAction>,
) -> bool {
    &&& states.len() == events.len() + 1
    &&& actions.len() == events.len()
    &&& states[0] == IngressState::Start
    &&& forall|i: int|
        0 <= i < events.len() ==> #[trigger] part_transition(
            cfg,
            part,
            states[i],
            events[i],
            states[i + 1],
            actions[i],
        )
}

/// The write of the object that `job` names, as asked for by an action.
pub open spec fn writes_object_of(a: IngressAction, job: JobView) -> bool {
    match a {
        IngressAction::WriteObject { container, name, .. } => container@
            == job.image_container && name@ == job.filename,
        _ => false,
    }
}

/// The job that a part in the middle of being handled will announce.
pub open spec fn pending_job(s: IngressState) -> JobView {
    match s {
        IngressState::Writing { job } => job@,
        IngressState::Publishing { job } => job@,
        _ => arbitrary(),
    }
}

proof fn lemma_writing_follows_write(
    cfg: IngressConfig,
    part: UploadPart,
    states: Seq<IngressState>,
    events: Seq<IngressEvent>,
    actions: Seq<IngressAction>,
    k: int,
)
    requires
        is_part_run(cfg, part, states, events, actions),
        0 <= k < states.len(),
        states[k] is Writing || states[k] is Publishing,
    ensures
        exists|j: int|
            0 <= j < k && #[trigger] writes_object_of(
                actions[j],
                pending_job(states[k]),
            ) && states[j] is Start && events[j] is Begin,
    decreases k,
{
    let j = k - 1;
    assert(part_transition(cfg, part, states[j], events[j], states[j + 1], actions[j]));
    if states[j] is Start {
        assert(writes_object_of(actions[j], pending_job(states[k])));
    } else {
        lemma_writing_follows_write(cfg, part, states, events, actions, j);
        assert(pending_job(states[j]) == pending_job(states[k]));
    }
}

proof fn lemma_no_publish_before_write(
    cfg: IngressConfig,
    part: UploadPart,
    states: Seq<IngressState>,
    events: Seq<IngressEvent>,
    actions: Seq<IngressAction>,
    k: int,
)
    requires
        is_part_run(cfg, part, states, events, actions),
        0 <= k < states.len(),
        states[k] is Start || states[k] is Writing,
    ensures
        forall|j: int| 0 <= j < k ==> !(#[trigger] actions[j] is PublishJob),
    decreases k,
{
    if k > 0 {
        let j = k - 1;
        assert(part_transition(cfg, part, states[j], events[j], states[j + 1], actions[j]));
        lemma_no_publish_before_write(cfg, part, states, events, actions, j);
    }
}

proof fn lemma_after_publish_forward(
    cfg: IngressConfig,
    part: UploadPart,
    states: Seq<IngressState>,
    events: Seq<IngressEvent>,
    actions: Seq<IngressAction>,
    k: int,
)
    requires
        is_part_run(cfg, part, states, events, actions),
        0 <= k < states.len(),
        states[k] is Publishing || states[k] is Done,
    ensures
        forall|j: int| k <= j < actions.len() ==> !(#[trigger] actions[j] is PublishJob),
    decreases states.len() - k,
{
    if k + 1 < states.len() {
        assert(part_transition(cfg, part, states[k], events[k], states[k + 1], actions[k]));
        lemma_after_publish_forward(cfg, part, states, events, actions, k + 1);
    }
}

/// Publish after write: once the store acknowledges the write of a non-empty
/// part, the job that names exactly that object is published at that step,
/// after the write was asked for, and at no other step of the run.
pub proof fn lemma_publish_once_after_write(
    cfg: IngressConfig,
    part: UploadPart,
    states: Seq<IngressState>,
    events: Seq<IngressEvent>,
    actions: Seq<IngressAction>,
    i: int,
)
    requires
        is_part_run(cfg, part, states, events, actions),
        0 <= i < events.len(),
        states[i] is Writing,
        events[i] is WriteSucceeded,
    ensures
        part.payload@.len() > 0,
        actions[i] is PublishJob,
        actions[i]->PublishJob_0@ == (JobView {
            filename: declared_name(part)->Some_0,
            image_container: cfg.container@,
        }),
        exists|j: int| 0 <= j < i && #[trigger] writes_object_of(actions[j], actions[i]->PublishJob_0@),
        forall|j: int| 0 <= j < actions.len() && j != i ==> !(#[trigger] actions[j] is PublishJob),
{
    assert(part_transition(cfg, part, states[i], events[i], states[i + 1], actions[i]));
    lemma_writing_follows_write(cfg, part, states, events, actions, i);
    let j = choose|j: int|
        0 <= j < i && #[trigger] writes_object_of(actions[j], pending_job(states[i]))
            && states[j] is Start && events[j] is Begin;
    assert(part_transition(cfg, part, states[j], events[j], states[j + 1], actions[j]));
    lemma_no_publish_before_write(cfg, part, states, events, actions, i);
    lemma_after_publish_forward(cfg, part, states, events, actions, i + 1);
}

/// Every published job comes from a step where the store had just acknowledged
/// the write of the object it names.
pub proof fn lemma_publish_needs_acknowledged_write(
    cfg: IngressConfig,
    part: UploadPart,
    states: Seq<IngressState>,
    events: Seq<IngressEvent>,
    actions: Seq<IngressAction>,
    i: int,
)
    requires
        is_part_run(cfg, part, states, events, actions),
        0 <= i < actions.len(),
        actions[i] is PublishJob,
    ensures
        states[i] is Writing,
        events[i] is WriteSucceeded,
        exists|j: int| 0 <= j < i && #[trigger] writes_object_of(actions[j], actions[i]->PublishJob_0@),
{
    assert(part_transition(cfg, part, states[i], events[i], states[i + 1], actions[i]));
    lemma_publish_once_after_write(cfg, part, states, events, actions, i);
}

proof fn lemma_skipped_forward(
    cfg: IngressConfig,
    part: UploadPart,
    states: Seq<IngressState>,
    events: Seq<IngressEvent>,
    actions: Seq<IngressAction>,
    k: int,
)
    requires
        is_part_run(cfg, part, states, events, actions),
        part.payload@.len() == 0,
        0 <= k < states.len(),
        states[k] == IngressState::Start || states[k] == IngressState::Done(PartStatus::Skipped),
    ensures
        forall|j: int|
            k <= j < actions.len() ==> !(#[trigger] actions[j] is WriteObject)
                && !(actions[j] is PublishJob),
        states.last() == IngressState::Start || states.last() == IngressState::Done(
            PartStatus::Skipped,
        ),
    decreases states.len() - k,
{
    if k + 1 < states.len() {
        assert(part_transition(cfg, part, states[k], events[k], states[k + 1], actions[k]));
        lemma_skipped_forward(cfg, part, states, events, actions, k + 1);
    }
}

/// A part with an empty payload is never written nor announced: every run on
/// it asks for no write and no publish, and ends skipped once it has begun.
pub proof fn lemma_empty_part_untouched(
    cfg: IngressConfig,
    part: UploadPart,
    states: Seq<IngressState>,
    events: Seq<IngressEvent>,
    actions: Seq<IngressAction>,
)
    requires
        is_part_run(cfg, part, states, events, actions),
        part.payload@.len() == 0,
    ensures
        forall|j: int|
            0 <= j < actions.len() ==> !(#[trigger] actions[j] is WriteObject)
                && !(actions[j] is PublishJob),
        states.last() == IngressState::Start || states.last() == IngressState::Done(
            PartStatus::Skipped,
        ),
{
    lemma_skipped_forward(cfg, part, states, events, actions, 0);
}

fn copy_bytes(v: &Vec<u8>) -> (r: Vec<u8>)
    ensures
        r@ == v@,
{
    let mut r: Vec<u8> = Vec::with_capacity(v.len());
    let mut i: usize = 0;
    while i < v.len()
        invariant
            0 <= i <= v.len(),
            r@ == v@.subrange(0, i as int),
        decreases v.len() - i,
    {
        r.push(v[i]);
        i = i + 1;
        assert(r@ =~= v@.subrange(0, i as int));
    }
    assert(v@.subrange(0, i as int) =~= v@);
    r
}

fn finish_part(st: PartStatus) -> (r: (IngressState, IngressAction))
    ensures
        part_finished(r.0, r.1, st),
{
    (IngressState::Done(st), IngressAction::Finish(st))
}

/// The total number of payload bytes of a sequence of parts.
pub open spec fn total_payload(parts: Seq<UploadPart>) -> nat
    decreases parts.len(),
{
    if parts.len() == 0 {
        0
    } else {
        total_payload(parts.drop_last()) + parts.last().payload@.len()
    }
}

proof fn lemma_total_payload_prefix(parts: Seq<UploadPart>, k: int)
    requires
        0 <= k <= parts.len(),
    ensures
        total_payload(parts.subrange(0, k)) <= total_payload(parts),
    decreases parts.len(),
{
    if k < parts.len() {
        assert(parts.drop_last().subrange(0, k) =~= parts.subrange(0, k));
        lemma_total_payload_prefix(parts.drop_last(), k);
    } else {
        assert(parts.subrange(0, k) =~= parts);
    }
}

/// Whether the parts of one request together stay within the configured
/// payload ceiling; a request over it is refused before any part is handled.
pub fn within_ceiling(cfg: &IngressConfig, parts: &Vec<UploadPart>) -> (r: bool)
    ensures
        r == (total_payload(parts@) <= cfg.max_payload),
{
    let mut acc: u64 = 0;
    let mut i: usize = 0;
    while i < parts.len()
        invariant
            0 <= i <= parts.len(),
            acc == total_payload(parts@.subrange(0, i as int)),
            acc <= cfg.max_payload,
        decreases parts.len() - i,
    {
        let len = parts[i].payload.len();
        assert(parts@.subrange(0, i as int + 1).drop_last() =~= parts@.subrange(0, i as int));
        if len as u128 + acc as u128 > cfg.max_payload as u128 {
            proof {
                lemma_total_payload_prefix(parts@, i as int + 1);
            }
            return false;
        }
        acc = acc + len as u64;
        i = i + 1;
    }
    assert(parts@.subrange(0, i as int) =~= parts@);
    true
}

/// The text that a sequence of bytes reads as, with each ill-formed UTF-8
/// sequence replaced by the replacement character.
pub uninterp spec fn lossy_text(bytes: Seq<u8>) -> Seq<char>;

/// Relies on String::from_utf8_lossy: the bytes read as UTF-8, each ill-formed
/// sequence replaced by U+FFFD; no bytes give the empty string.
#[verifier::external_body]
fn text_of(bytes: &[u8]) -> (r: String)
    ensures
        r@ == lossy_text(bytes@),
        bytes@.len() == 0 ==> r@.len() == 0,
{
    String::from_utf8_lossy(bytes).into_owned()
}

/// What the response says of one part: its field name, declared file name,
/// payload read as text, and how its handling ended.
#[derive(Debug)]
pub struct PartReport {
    pub name: String,
    pub filename: Option<String>,
    pub content: String,
    pub status: PartStatus,
}

/// The report of `part`, handled with `status`.
pub fn part_report(part: &UploadPart, status: PartStatus) -> (r: PartReport)
    ensures
        r.name@ == part.name@,
        r.filename == part.filename,
        r.content@ == lossy_text(part.payload@),
        part.payload@.len() == 0 ==> r.content@.len() == 0,
        r.status == status,
{
    let filename = match &part.filename {
        Some(f) => Some(f.clone()),
        None => None,
    };
    PartReport {
        name: part.name.clone(),
        filename,
        content: text_of(part.payload.as_slice()),
        status,
    }
}

/// Why a request was refused before any part was handled.
#[derive(Debug, Clone, Copy, PartialEq, Eq, Structural)]
pub enum RejectionKind {
    /// No route matches the request.
    NotFound,
    /// The request is over the payload ceiling.
    PayloadTooLarge,
    /// Anything else.
    Other,
}

/// The status code and message sent back for a refused request.
pub fn rejection_reply(kind: RejectionKind) -> (r: (u16, String))
    ensures
        kind == RejectionKind::NotFound ==> r.0 == 404 && r.1@ == "Not Found"@,
        kind == RejectionKind::PayloadTooLarge ==> r.0 == 400 && r.1@ == "Payload too large"@,
        kind == RejectionKind::Other ==> r.0 == 500 && r.1@ == "Internal Server Error"@,
{
    match kind {
        RejectionKind::NotFound => (404, String::from_str("Not Found")),
        RejectionKind::PayloadTooLarge => (400, String::from_str("Payload too large")),
        RejectionKind::Other => (500, String::from_str("Internal Server Error")),
    }
}

} // verus!
