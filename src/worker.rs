use vstd::prelude::*;
use crate::job::{derived, image_content_type, Job, content_type};
use crate::thumbnail::{decodes, jpeg_thumbnail, make_thumbnail, TransformError};

verus! {

/// Parameters of the worker: the thumbnail bounding box and the size of the
/// chunks in which a source object is read.
#[derive(Debug)]
pub struct WorkerConfig {
    pub max_width: u32,
    pub max_height: u32,
    pub chunk_size: u64,
}

impl WorkerConfig {
    pub fn new(max_width: u32, max_height: u32, chunk_size: u64) -> (r: WorkerConfig)
        ensures
            r.max_width == max_width,
            r.max_height == max_height,
            r.chunk_size == chunk_size,
    {
        WorkerConfig { max_width, max_height, chunk_size }
    }

    /// Thumbnails within 100 x 100 pixels, sources read 8 KiB at a time.
    pub fn standard() -> (r: WorkerConfig)
        ensures
            r.max_width == 100,
            r.max_height == 100,
            r.chunk_size == 8192,
    {
        WorkerConfig { max_width: 100, max_height: 100, chunk_size: 8192 }
    }
}

/// Why a worker cycle ended without storing a thumbnail.
#[derive(Debug, Clone, Copy, PartialEq, Eq, Structural)]
pub enum CycleError {
    /// The queue could not be asked for a message.
    QueueReceive,
    /// The message taken from the queue is not a well-formed job.
    Deserialization,
    /// The source object could not be read (missing, or a failed chunk).
    StoreRead,
    /// The source bytes are not a decodable image.
    Decode,
    /// The thumbnail could not be encoded.
    Encode,
    /// The thumbnail could not be written to the store.
    StoreWrite,
}

/// How a worker cycle ended.
#[derive(Debug, Clone, Copy, PartialEq, Eq, Structural)]
pub enum CycleOutcome {
    /// The queue held no message: nothing to do.
    NoMessage,
    /// The thumbnail was stored.
    Completed,
    /// The cycle stopped on an error; the consumed job is lost.
    Failed(CycleError),
}

/// Where a worker cycle stands.
#[derive(Debug)]
pub enum WorkerState {
    /// Nothing has happened yet.
    Idle,
    /// A message has been asked of the queue.
    Receiving,
    /// The source object of `job` is being read; `buffer` holds what came so far.
    Reading { job: Job, buffer: Vec<u8> },
    /// The thumbnail of `job` is being written.
    Writing { job: Job },
    /// The cycle is over.
    Done(CycleOutcome),
}

/// What the caller reports back after performing an action.
#[derive(Debug)]
pub enum WorkerEvent {
    /// Begin the cycle.
    Start,
    /// The queue held no message.
    QueueEmpty,
    /// Asking the queue failed.
    QueueFailed,
    /// A message was taken but it does not decode as a job.
    Malformed,
    /// A message was taken and decodes as this job.
    Received(Job),
    /// The next chunk of the source object.
    Chunk(Vec<u8>),
    /// Reading the source object failed.
    ReadFailed,
    /// The source object has been read to its end.
    ReadFinished,
    /// The thumbnail was written.
    WriteSucceeded,
    /// Writing the thumbnail failed.
    WriteFailed,
}

/// What the caller is asked to do next.
#[derive(Debug)]
pub enum WorkerAction {
    /// Take (and thereby remove) one message from the queue.
    ReceiveJob,
    /// Stream the object `name` of `container`, `chunk_size` bytes at a time.
    ReadObject { container: String, name: String, chunk_size: u64 },
    /// Store `bytes` as the object `name` of `container`, tagged `content_type`.
    WriteObject { container: String, name: String, content_type: String, bytes: Vec<u8> },
    /// Keep going: deliver the next event of the operation under way.
    Continue,
    /// The cycle is over with this outcome.
    Finish(CycleOutcome),
}

pub open spec fn finished(s2: WorkerState, a: WorkerAction, o: CycleOutcome) -> bool {
    s2 == WorkerState::Done(o) && a == WorkerAction::Finish(o)
}

/// The step relation of a worker cycle: from `s`, on event `e`, the cycle may
/// move to `s2` and ask for `a`. An event that does not fit the state leaves
/// the state as it is.
pub open spec fn transition(
    cfg: WorkerConfig,
    s: WorkerState,
    e: WorkerEvent,
    s2: WorkerState,
    a: WorkerAction,
) -> bool {
    let unchanged = s2 == s && a == WorkerAction::Continue;
    match s {
        WorkerState::Idle => match e {
            WorkerEvent::Start => s2 == WorkerState::Receiving && a == WorkerAction::ReceiveJob,
            _ => unchanged,
        },
        WorkerState::Receiving => match e {
            WorkerEvent::QueueEmpty => finished(s2, a, CycleOutcome::NoMessage),
            WorkerEvent::QueueFailed => finished(
                s2,
                a,
                CycleOutcome::Failed(CycleError::QueueReceive),
            ),
            WorkerEvent::Malformed => finished(
                s2,
                a,
                CycleOutcome::Failed(CycleError::Deserialization),
            ),
            WorkerEvent::Received(job) => if !job.wf() {
                finished(s2, a, CycleOutcome::Failed(CycleError::Deserialization))
            } else {
                match (s2, a) {
                    (
                        WorkerState::Reading { job: j2, buffer },
                        WorkerAction::ReadObject { container, name, chunk_size },
                    ) => j2@ == job@ && buffer@.len() == 0 && container@ == job.image_container@
                        && name@ == job.filename@ && chunk_size == cfg.chunk_size,
                    _ => false,
                }
            },
            _ => unchanged,
        },
        WorkerState::Reading { job, buffer } => match e {
            WorkerEvent::Chunk(c) => a == WorkerAction::Continue && match s2 {
                WorkerState::Reading { job: j2, buffer: b2 } => j2@ == job@ && b2@ == buffer@
                    + c@,
                _ => false,
            },
            WorkerEvent::ReadFailed => finished(s2, a, CycleOutcome::Failed(CycleError::StoreRead)),
            WorkerEvent::ReadFinished => if !decodes(buffer@) {
                finished(s2, a, CycleOutcome::Failed(CycleError::Decode))
            } else {
                match jpeg_thumbnail(buffer@, cfg.max_width, cfg.max_height) {
                    None => finished(s2, a, CycleOutcome::Failed(CycleError::Encode)),
                    Some(thumb) => match (s2, a) {
                        (
                            WorkerState::Writing { job: j2 },
                            WorkerAction::WriteObject { container, name, content_type, bytes },
                        ) => j2@ == job@ && container@ == job.image_container@ && name@
                            == derived(job.filename@) && content_type@ == image_content_type()
                            && bytes@ == thumb,
                        _ => false,
                    },
                }
            },
            _ => unchanged,
        },
        WorkerState::Writing { job } => match e {
            WorkerEvent::WriteSucceeded => finished(s2, a, CycleOutcome::Completed),
            WorkerEvent::WriteFailed => finished(
                s2,
                a,
                CycleOutcome::Failed(CycleError::StoreWrite),
            ),
            _ => unchanged,
        },
        WorkerState::Done(_) => unchanged,
    }
}

/// Advances a worker cycle by one event, returning the next state and the
/// action the caller must perform.
pub fn step(cfg: &WorkerConfig, s: WorkerState, e: WorkerEvent) -> (r: (WorkerState, WorkerAction))
    ensures
        transition(*cfg, s, e, r.0, r.1),
{
    match s {
        WorkerState::Idle => match e {
            WorkerEvent::Start => (WorkerState::Receiving, WorkerAction::ReceiveJob),
            _ => (WorkerState::Idle, WorkerAction::Continue),
        },
        WorkerState::Receiving => match e {
            WorkerEvent::QueueEmpty => finish(CycleOutcome::NoMessage),
            WorkerEvent::QueueFailed => finish(CycleOutcome::Failed(CycleError::QueueReceive)),
            WorkerEvent::Malformed => finish(CycleOutcome::Failed(CycleError::Deserialization)),
            WorkerEvent::Received(job) => {
                if job.filename.as_str().is_empty() {
                    finish(CycleOutcome::Failed(CycleError::Deserialization))
                } else {
                    let action = WorkerAction::ReadObject {
                        container: job.image_container.clone(),
                        name: job.filename.clone(),
                        chunk_size: cfg.chunk_size,
                    };
                    (WorkerState::Reading { job, buffer: Vec::new() }, action)
                }
            },
            _ => (WorkerState::Receiving, WorkerAction::Continue),
        },
        WorkerState::Reading { job, buffer } => match e {
            WorkerEvent::Chunk(c) => {
                let mut buffer = buffer;
                let mut c = c;
                buffer.append(&mut c);
                (WorkerState::Reading { job, buffer }, WorkerAction::Continue)
            },
            WorkerEvent::ReadFailed => finish(CycleOutcome::Failed(CycleError::StoreRead)),
            WorkerEvent::ReadFinished => {
                match make_thumbnail(buffer.as_slice(), cfg.max_width, cfg.max_height) {
                    Ok(bytes) => {
                        let action = WorkerAction::WriteObject {
                            container: job.image_container.clone(),
                            name: job.derived_filename(),
                            content_type: content_type(),
                            bytes,
                        };
                        (WorkerState::Writing { job }, action)
                    },
                    Err(TransformError::Decode) => finish(
                        CycleOutcome::Failed(CycleError::Decode),
                    ),
                    Err(TransformError::Encode) => finish(
                        CycleOutcome::Failed(CycleError::Encode),
                    ),
                }
            },
            _ => (WorkerState::Reading { job, buffer }, WorkerAction::Continue),
        },
        WorkerState::Writing { job } => match e {
            WorkerEvent::WriteSucceeded => finish(CycleOutcome::Completed),
            WorkerEvent::WriteFailed => finish(CycleOutcome::Failed(CycleError::StoreWrite)),
            _ => (WorkerState::Writing { job }, WorkerAction::Continue),
        },
        WorkerState::Done(o) => (WorkerState::Done(o), WorkerAction::Continue),
    }
}

/// `states`, `events` and `actions` record a run of worker steps: each step
/// goes from `states[i]` on `events[i]` to `states[i + 1]`, asking for `actions[i]`.
pub open spec fn is_run(
    cfg: WorkerConfig,
    states: Seq<WorkerState>,
    events: Seq<WorkerEvent>,
    actions: Seq<WorkerAction>,
) -> bool {
    &&& states.len() == events.len() + 1
    &&& actions.len() == events.len()
    &&& forall|i: int|
        0 <= i < events.len() ==> #[trigger] transition(
            cfg,
            states[i],
            events[i],
            states[i + 1],
            actions[i],
        )
}

/// Whether an action reads or writes the object store.
pub open spec fn touches_store(a: WorkerAction) -> bool {
    a is ReadObject || a is WriteObject
}

/// No job has been taken yet.
pub open spec fn before_job(s: WorkerState) -> bool {
    s is Idle || s is Receiving
}

/// No thumbnail write has been asked for yet.
pub open spec fn before_write(s: WorkerState) -> bool {
    s is Idle || s is Receiving || s is Reading
}

proof fn lemma_before_job_back(
    cfg: WorkerConfig,
    states: Seq<WorkerState>,
    events: Seq<WorkerEvent>,
    actions: Seq<WorkerAction>,
    k: int,
)
    requires
        is_run(cfg, states, events, actions),
        0 <= k < states.len(),
        before_job(states[k]),
    ensures
        forall|j: int| 0 <= j < k ==> !touches_store(#[trigger] actions[j]),
    decreases k,
{
    if k > 0 {
        let j = k - 1;
        assert(transition(cfg, states[j], events[j], states[j + 1], actions[j]));
        lemma_before_job_back(cfg, states, events, actions, k - 1);
    }
}

proof fn lemma_before_write_back(
    cfg: WorkerConfig,
    states: Seq<WorkerState>,
    events: Seq<WorkerEvent>,
    actions: Seq<WorkerAction>,
    k: int,
)
    requires
        is_run(cfg, states, events, actions),
        0 <= k < states.len(),
        before_write(states[k]),
    ensures
        forall|j: int| 0 <= j < k ==> !(#[trigger] actions[j] is WriteObject),
    decreases k,
{
    if k > 0 {
        let j = k - 1;
        assert(transition(cfg, states[j], events[j], states[j + 1], actions[j]));
        lemma_before_write_back(cfg, states, events, actions, k - 1);
    }
}

proof fn lemma_done_stays(
    cfg: WorkerConfig,
    states: Seq<WorkerState>,
    events: Seq<WorkerEvent>,
    actions: Seq<WorkerAction>,
    k: int,
    o: CycleOutcome,
)
    requires
        is_run(cfg, states, events, actions),
        0 <= k < states.len(),
        states[k] == WorkerState::Done(o),
    ensures
        forall|j: int| k <= j < states.len() ==> #[trigger] states[j] == WorkerState::Done(o),
        forall|j: int| k <= j < actions.len() ==> #[trigger] actions[j] == WorkerAction::Continue,
    decreases states.len() - k,
{
    if k + 1 < states.len() {
        assert(transition(cfg, states[k], events[k], states[k + 1], actions[k]));
        lemma_done_stays(cfg, states, events, actions, k + 1, o);
    }
}

proof fn lemma_after_write_forward(
    cfg: WorkerConfig,
    states: Seq<WorkerState>,
    events: Seq<WorkerEvent>,
    actions: Seq<WorkerAction>,
    k: int,
)
    requires
        is_run(cfg, states, events, actions),
        0 <= k < states.len(),
        states[k] is Writing || states[k] is Done,
    ensures
        forall|j: int| k <= j < actions.len() ==> !(#[trigger] actions[j] is WriteObject),
    decreases states.len() - k,
{
    if k + 1 < states.len() {
        assert(transition(cfg, states[k], events[k], states[k + 1], actions[k]));
        lemma_after_write_forward(cfg, states, events, actions, k + 1);
    }
}

/// When the queue reports that it holds no message, the cycle ends with the
/// no-message outcome and no action of the whole run touches the object store.
pub proof fn lemma_empty_queue_touches_no_store(
    cfg: WorkerConfig,
    states: Seq<WorkerState>,
    events: Seq<WorkerEvent>,
    actions: Seq<WorkerAction>,
    i: int,
)
    requires
        is_run(cfg, states, events, actions),
        0 <= i < events.len(),
        states[i] is Receiving,
        events[i] is QueueEmpty,
    ensures
        states.last() == WorkerState::Done(CycleOutcome::NoMessage),
        forall|j: int| 0 <= j < actions.len() ==> !touches_store(#[trigger] actions[j]),
{
    assert(transition(cfg, states[i], events[i], states[i + 1], actions[i]));
    lemma_before_job_back(cfg, states, events, actions, i);
    lemma_done_stays(cfg, states, events, actions, i + 1, CycleOutcome::NoMessage);
    assert forall|j: int| 0 <= j < actions.len() implies !touches_store(#[trigger] actions[j]) by {
        if j > i {
            assert(actions[j] == WorkerAction::Continue);
        }
    }
}

/// When reading the source object fails, the cycle ends with a read error and
/// no action of the whole run writes an object.
pub proof fn lemma_failed_read_writes_nothing(
    cfg: WorkerConfig,
    states: Seq<WorkerState>,
    events: Seq<WorkerEvent>,
    actions: Seq<WorkerAction>,
    i: int,
)
    requires
        is_run(cfg, states, events, actions),
        0 <= i < events.len(),
        states[i] is Reading,
        events[i] is ReadFailed,
    ensures
        states.last() == WorkerState::Done(CycleOutcome::Failed(CycleError::StoreRead)),
        forall|j: int| 0 <= j < actions.len() ==> !(#[trigger] actions[j] is WriteObject),
{
    assert(transition(cfg, states[i], events[i], states[i + 1], actions[i]));
    lemma_before_write_back(cfg, states, events, actions, i);
    lemma_done_stays(
        cfg,
        states,
        events,
        actions,
        i + 1,
        CycleOutcome::Failed(CycleError::StoreRead),
    );
    assert forall|j: int| 0 <= j < actions.len() implies !(#[trigger] actions[j] is WriteObject) by {
        if j > i {
            assert(actions[j] == WorkerAction::Continue);
        }
    }
}

/// A run asks for at most one write, and that write stores the thumbnail of
/// the bytes read for the job under the derived name in the job's container.
pub proof fn lemma_single_derived_write(
    cfg: WorkerConfig,
    states: Seq<WorkerState>,
    events: Seq<WorkerEvent>,
    actions: Seq<WorkerAction>,
    i: int,
)
    requires
        is_run(cfg, states, events, actions),
        0 <= i < actions.len(),
        actions[i] is WriteObject,
    ensures
        states[i] is Reading,
        actions[i]->WriteObject_name@ == derived(states[i]->Reading_job.filename@),
        actions[i]->WriteObject_container@ == states[i]->Reading_job.image_container@,
        actions[i]->WriteObject_content_type@ == image_content_type(),
        jpeg_thumbnail(states[i]->Reading_buffer@, cfg.max_width, cfg.max_height) is Some,
        actions[i]->WriteObject_bytes@ == jpeg_thumbnail(
            states[i]->Reading_buffer@,
            cfg.max_width,
            cfg.max_height,
        )->Some_0,
        forall|j: int| 0 <= j < actions.len() && j != i ==> !(#[trigger] actions[j] is WriteObject),
{
    assert(transition(cfg, states[i], events[i], states[i + 1], actions[i]));
    lemma_before_write_back(cfg, states, events, actions, i);
    lemma_after_write_forward(cfg, states, events, actions, i + 1);
}

fn finish(o: CycleOutcome) -> (r: (WorkerState, WorkerAction))
    ensures
        finished(r.0, r.1, o),
{
    (WorkerState::Done(o), WorkerAction::Finish(o))
}

} // verus!
