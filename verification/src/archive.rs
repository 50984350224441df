//! Walrus archiver. Packs unarchived routing receipts older than
//! ARCHIVE_AFTER_MINUTES into a CBOR batch, uploads it to Walrus, and stamps
//! each row with the resulting blob_id.
//!
//! One run of the job is a state machine: the caller performs each action
//! (a database query, an upload, a row update) and reports what came of it
//! as the next event.

use vstd::prelude::*;

use crate::cbor::{cbor_encode_json_array, spec_cbor_json_array};
use crate::config::{archive_after_minutes_from, spec_i64_or, DEFAULT_ARCHIVE_AFTER_MINUTES};
use crate::db::ARCHIVE_BATCH_LIMIT;
use crate::json::{parse_json, spec_as_str, spec_get, spec_parse_json, Json};

verus! {

broadcast use vstd::std_specs::vec::axiom_spec_into_iter;

/// Where blobs are published.
#[derive(Debug, PartialEq, Eq)]
pub struct WalrusClient {
    publisher_url: String,
}

/// Why a publisher's reply to an upload gives no blob id.
#[derive(Debug, PartialEq, Eq)]
pub enum ReplyError {
    /// The reply body is not JSON.
    NotJson,
    /// The reply is JSON but holds no blob id where one is expected.
    MissingBlobId,
}

/// The blob id in a publisher's reply: under `newlyCreated` if that member is
/// present, else under `alreadyCertified`, at `.blobObject.blobId`, which
/// must be a string.
pub open spec fn spec_blob_id(body: Json) -> Option<Seq<char>> {
    let outcome = match spec_get(body, "newlyCreated"@) {
        Some(v) => Some(v),
        None => spec_get(body, "alreadyCertified"@),
    };
    match outcome {
        Some(o) => match spec_get(o, "blobObject"@) {
            Some(b) => match spec_get(b, "blobId"@) {
                Some(id) => spec_as_str(id),
                None => None,
            },
            None => None,
        },
        None => None,
    }
}

impl WalrusClient {
    pub fn new(publisher_url: String) -> (r: Self)
        ensures
            r.publisher_url() == publisher_url@,
    {
        WalrusClient { publisher_url }
    }

    pub closed spec fn publisher_url(&self) -> Seq<char> {
        self.publisher_url@
    }

    /// The upload URL: the publisher URL followed by `/v1/blobs`.
    pub fn blobs_url(&self) -> (r: String)
        ensures
            r@ == self.publisher_url() + "/v1/blobs"@,
    {
        self.publisher_url.clone().concat("/v1/blobs")
    }

    /// The blob id in the body of the publisher's reply to an upload.
    pub fn blob_id_in_reply(body: &Vec<u8>) -> (r: Result<String, ReplyError>)
        ensures
            match spec_parse_json(body@) {
                None => r == Err::<String, ReplyError>(ReplyError::NotJson),
                Some(j) => match spec_blob_id(j) {
                    Some(id) => r matches Ok(s) && s@ == id,
                    None => r == Err::<String, ReplyError>(ReplyError::MissingBlobId),
                },
            },
    {
        match parse_json(body) {
            None => Err(ReplyError::NotJson),
            Some(j) => match WalrusClient::blob_id(&j) {
                Some(id) => Ok(id),
                None => Err(ReplyError::MissingBlobId),
            },
        }
    }

    /// The blob id in the publisher's reply to an upload.
    pub fn blob_id(body: &Json) -> (r: Option<String>)
        ensures
            match r {
                Some(s) => spec_blob_id(*body) == Some(s@),
                None => spec_blob_id(*body) is None,
            },
    {
        let outcome = match body.get("newlyCreated") {
            Some(v) => Some(v),
            None => body.get("alreadyCertified"),
        };
        match outcome {
            Some(o) => match o.get("blobObject") {
                Some(b) => match b.get("blobId") {
                    Some(id) => match id.as_str() {
                        Some(s) => Some(s.clone()),
                        None => None,
                    },
                    None => None,
                },
                None => None,
            },
            None => None,
        }
    }
}

/// Why an archive run failed.
#[derive(Debug, PartialEq, Eq)]
pub enum ArchiveError {
    /// Reading the unarchived receipts failed.
    Fetch(String),
    /// Encoding a receipt as CBOR failed.
    Encode(String),
    /// Uploading the batch failed.
    Upload(String),
}

/// What came of the last action (or, first, that a run starts).
#[derive(Debug, PartialEq, Eq)]
pub enum ArchiveEvent {
    /// A run starts; the current value of `ARCHIVE_AFTER_MINUTES`, if set.
    Started { archive_after_minutes: Option<String> },
    /// The unarchived receipts: each one's request id and `receipt_json`,
    /// oldest first.
    RowsFetched { rows: Vec<(u128, Json)> },
    FetchFailed { reason: String },
    /// The batch was stored under this blob id.
    Uploaded { blob_id: String },
    UploadFailed { reason: String },
    /// The last stamp was written (`ok`) or failed; either way the run goes on.
    Stamped { ok: bool },
}

/// What the caller is to do next.
#[derive(Debug, PartialEq, Eq)]
pub enum ArchiveAction {
    /// Read at most `limit` unarchived receipts created more than
    /// `older_than_minutes` minutes ago, oldest first.
    FetchUnarchived { older_than_minutes: i64, limit: i64 },
    /// Upload `body`, the CBOR array of `count` receipts.
    Upload { body: Vec<u8>, count: usize },
    /// Record `blob_id` as the archive of request `request_id`.
    Stamp { request_id: u128, blob_id: String },
    /// The run is over.
    Finish { outcome: Result<(), ArchiveError> },
    /// The event does not fit the run's state; nothing to do.
    Ignore,
}

enum Phase {
    Ready,
    Fetching,
    Uploading { request_ids: Vec<u128> },
    /// `issued` stamps have been asked for so far.
    Stamping { request_ids: Vec<u128>, blob_id: String, issued: usize },
    Finished,
}

/// One run of the archive job.
pub struct ArchiveJob {
    phase: Phase,
}

/// The state of a run.
pub enum PhaseModel {
    Ready,
    Fetching,
    Uploading { ids: Seq<u128> },
    Stamping { ids: Seq<u128>, blob_id: Seq<char>, issued: nat },
    Finished,
}

pub enum ErrorModel {
    Fetch(Seq<char>),
    Encode(Seq<char>),
    Upload(Seq<char>),
}

pub enum EventModel {
    Started { older_than_minutes: i64 },
    RowsFetched { ids: Seq<u128>, receipts: Seq<Json> },
    FetchFailed { reason: Seq<char> },
    Uploaded { blob_id: Seq<char> },
    UploadFailed { reason: Seq<char> },
    Stamped { ok: bool },
}

pub enum ActionModel {
    FetchUnarchived { older_than_minutes: i64, limit: i64 },
    Upload { body: Seq<u8>, count: nat },
    Stamp { request_id: u128, blob_id: Seq<char> },
    Finish { outcome: Result<(), ErrorModel> },
    Ignore,
}

impl View for ArchiveError {
    type V = ErrorModel;

    open spec fn view(&self) -> ErrorModel {
        match self {
            ArchiveError::Fetch(m) => ErrorModel::Fetch(m@),
            ArchiveError::Encode(m) => ErrorModel::Encode(m@),
            ArchiveError::Upload(m) => ErrorModel::Upload(m@),
        }
    }
}

impl View for ArchiveEvent {
    type V = EventModel;

    /// `Started` is seen through the minutes it sets: the variable as a
    /// decimal `i64`, else 5.
    open spec fn view(&self) -> EventModel {
        match self {
            ArchiveEvent::Started { archive_after_minutes } => EventModel::Started {
                older_than_minutes: spec_i64_or(*archive_after_minutes, DEFAULT_ARCHIVE_AFTER_MINUTES),
            },
            ArchiveEvent::RowsFetched { rows } => EventModel::RowsFetched {
                ids: rows@.map_values(|r: (u128, Json)| r.0),
                receipts: rows@.map_values(|r: (u128, Json)| r.1),
            },
            ArchiveEvent::FetchFailed { reason } => EventModel::FetchFailed { reason: reason@ },
            ArchiveEvent::Uploaded { blob_id } => EventModel::Uploaded { blob_id: blob_id@ },
            ArchiveEvent::UploadFailed { reason } => EventModel::UploadFailed { reason: reason@ },
            ArchiveEvent::Stamped { ok } => EventModel::Stamped { ok: *ok },
        }
    }
}

impl View for ArchiveAction {
    type V = ActionModel;

    open spec fn view(&self) -> ActionModel {
        match self {
            ArchiveAction::FetchUnarchived { older_than_minutes, limit } => ActionModel::FetchUnarchived {
                older_than_minutes: *older_than_minutes,
                limit: *limit,
            },
            ArchiveAction::Upload { body, count } => ActionModel::Upload {
                body: body@,
                count: *count as nat,
            },
            ArchiveAction::Stamp { request_id, blob_id } => ActionModel::Stamp {
                request_id: *request_id,
                blob_id: blob_id@,
            },
            ArchiveAction::Finish { outcome } => ActionModel::Finish {
                outcome: match outcome {
                    Ok(()) => Ok(()),
                    Err(e) => Err(e@),
                },
            },
            ArchiveAction::Ignore => ActionModel::Ignore,
        }
    }
}

impl View for Phase {
    type V = PhaseModel;

    closed spec fn view(&self) -> PhaseModel {
        match self {
            Phase::Ready => PhaseModel::Ready,
            Phase::Fetching => PhaseModel::Fetching,
            Phase::Uploading { request_ids } => PhaseModel::Uploading { ids: request_ids@ },
            Phase::Stamping { request_ids, blob_id, issued } => PhaseModel::Stamping {
                ids: request_ids@,
                blob_id: blob_id@,
                issued: *issued as nat,
            },
            Phase::Finished => PhaseModel::Finished,
        }
    }
}

impl View for ArchiveJob {
    type V = PhaseModel;

    closed spec fn view(&self) -> PhaseModel {
        self.phase@
    }
}

/// A run's state is consistent: an upload is only pending for a non-empty
/// batch, and stamping has asked for at least one and at most all rows.
pub open spec fn spec_wf(p: PhaseModel) -> bool {
    match p {
        PhaseModel::Uploading { ids } => ids.len() > 0,
        PhaseModel::Stamping { ids, issued, .. } => 1 <= issued <= ids.len(),
        _ => true,
    }
}

/// One step of a run: the next state and what to do, given the state and
/// what came of the last action. A fetched, non-empty batch is uploaded as
/// its receipts' CBOR array where they encode, and ends the run with the
/// encoding error where they do not.
pub open spec fn spec_step(p: PhaseModel, e: EventModel) -> (PhaseModel, ActionModel) {
    match p {
        PhaseModel::Ready => match e {
            EventModel::Started { older_than_minutes } => (
                PhaseModel::Fetching,
                ActionModel::FetchUnarchived { older_than_minutes, limit: ARCHIVE_BATCH_LIMIT },
            ),
            _ => (p, ActionModel::Ignore),
        },
        PhaseModel::Fetching => match e {
            EventModel::RowsFetched { ids, receipts } => if ids.len() == 0 {
                (PhaseModel::Finished, ActionModel::Finish { outcome: Ok(()) })
            } else {
                match spec_cbor_json_array(receipts) {
                    Ok(body) => (
                        PhaseModel::Uploading { ids },
                        ActionModel::Upload { body, count: ids.len() },
                    ),
                    Err(reason) => (
                        PhaseModel::Finished,
                        ActionModel::Finish { outcome: Err(ErrorModel::Encode(reason)) },
                    ),
                }
            },
            EventModel::FetchFailed { reason } => (
                PhaseModel::Finished,
                ActionModel::Finish { outcome: Err(ErrorModel::Fetch(reason)) },
            ),
            _ => (p, ActionModel::Ignore),
        },
        PhaseModel::Uploading { ids } => match e {
            EventModel::Uploaded { blob_id } => (
                PhaseModel::Stamping { ids, blob_id, issued: 1 },
                ActionModel::Stamp { request_id: ids[0], blob_id },
            ),
            EventModel::UploadFailed { reason } => (
                PhaseModel::Finished,
                ActionModel::Finish { outcome: Err(ErrorModel::Upload(reason)) },
            ),
            _ => (p, ActionModel::Ignore),
        },
        PhaseModel::Stamping { ids, blob_id, issued } => match e {
            EventModel::Stamped { .. } => if issued < ids.len() {
                (
                    PhaseModel::Stamping { ids, blob_id, issued: issued + 1 },
                    ActionModel::Stamp { request_id: ids[issued as int], blob_id },
                )
            } else {
                (PhaseModel::Finished, ActionModel::Finish { outcome: Ok(()) })
            },
            _ => (p, ActionModel::Ignore),
        },
        PhaseModel::Finished => (p, ActionModel::Ignore),
    }
}

impl ArchiveJob {
    #[verifier::type_invariant]
    closed spec fn inv(self) -> bool {
        spec_wf(self.phase@)
    }

    /// A run that has not started.
    pub fn new() -> (r: ArchiveJob)
        ensures
            r@ == PhaseModel::Ready,
    {
        ArchiveJob { phase: Phase::Ready }
    }

    /// Whether the run is over.
    pub fn is_finished(&self) -> (r: bool)
        ensures
            r == (self@ is Finished),
    {
        match self.phase {
            Phase::Finished => true,
            _ => false,
        }
    }

    /// Advances the run by one event and says what to do next. A fetched,
    /// non-empty batch is encoded here.
    pub fn step(&mut self, event: ArchiveEvent) -> (act: ArchiveAction)
        ensures
            (final(self)@, act@) == spec_step(old(self)@, event@),
            spec_wf(final(self)@),
    {
        proof {
            use_type_invariant(&*self);
        }
        let mut phase = Phase::Finished;
        std::mem::swap(&mut phase, &mut self.phase);
        let (next, act) = match phase {
            Phase::Ready => match event {
                ArchiveEvent::Started { archive_after_minutes } => {
                    let minutes = archive_after_minutes_from(&archive_after_minutes);
                    (
                        Phase::Fetching,
                        ArchiveAction::FetchUnarchived {
                            older_than_minutes: minutes,
                            limit: ARCHIVE_BATCH_LIMIT,
                        },
                    )
                },
                _ => (Phase::Ready, ArchiveAction::Ignore),
            },
            Phase::Fetching => match event {
                ArchiveEvent::RowsFetched { rows } => {
                    let ghost rs = rows@;
                    let mut request_ids: Vec<u128> = Vec::new();
                    let mut receipts: Vec<Json> = Vec::new();
                    for row in it: rows
                        invariant
                            it.seq() == rs,
                            request_ids@ == rs.take(it.index() as int).map_values(
                                |r: (u128, Json)| r.0,
                            ),
                            receipts@ == rs.take(it.index() as int).map_values(
                                |r: (u128, Json)| r.1,
                            ),
                    {
                        let ghost k = it.index();
                        let (id, receipt) = row;
                        request_ids.push(id);
                        receipts.push(receipt);
                        assert(request_ids@ =~= rs.take(k + 1).map_values(|r: (u128, Json)| r.0));
                        assert(receipts@ =~= rs.take(k + 1).map_values(|r: (u128, Json)| r.1));
                    }
                    assert(rs.take(rs.len() as int) =~= rs);
                    let count = request_ids.len();
                    if count == 0 {
                        (Phase::Finished, ArchiveAction::Finish { outcome: Ok(()) })
                    } else {
                        match cbor_encode_json_array(&receipts) {
                            Ok(body) => (
                                Phase::Uploading { request_ids },
                                ArchiveAction::Upload { body, count },
                            ),
                            Err(reason) => (
                                Phase::Finished,
                                ArchiveAction::Finish { outcome: Err(ArchiveError::Encode(reason)) },
                            ),
                        }
                    }
                },
                ArchiveEvent::FetchFailed { reason } => (
                    Phase::Finished,
                    ArchiveAction::Finish { outcome: Err(ArchiveError::Fetch(reason)) },
                ),
                _ => (Phase::Fetching, ArchiveAction::Ignore),
            },
            Phase::Uploading { request_ids } => match event {
                ArchiveEvent::Uploaded { blob_id } => {
                    let request_id = request_ids[0];
                    let stamp_blob = blob_id.clone();
                    (
                        Phase::Stamping { request_ids, blob_id, issued: 1 },
                        ArchiveAction::Stamp { request_id, blob_id: stamp_blob },
                    )
                },
                ArchiveEvent::UploadFailed { reason } => (
                    Phase::Finished,
                    ArchiveAction::Finish { outcome: Err(ArchiveError::Upload(reason)) },
                ),
                _ => (Phase::Uploading { request_ids }, ArchiveAction::Ignore),
            },
            Phase::Stamping { request_ids, blob_id, issued } => match event {
                ArchiveEvent::Stamped { .. } => {
                    if issued < request_ids.len() {
                        let request_id = request_ids[issued];
                        let stamp_blob = blob_id.clone();
                        (
                            Phase::Stamping { request_ids, blob_id, issued: issued + 1 },
                            ArchiveAction::Stamp { request_id, blob_id: stamp_blob },
                        )
                    } else {
                        (Phase::Finished, ArchiveAction::Finish { outcome: Ok(()) })
                    }
                },
                _ => (Phase::Stamping { request_ids, blob_id, issued }, ArchiveAction::Ignore),
            },
            Phase::Finished => (Phase::Finished, ArchiveAction::Ignore),
        };
        self.phase = next;
        act
    }
}

/// A run fed `events` one after another from state `p`: the final state and
/// the actions asked for, in order.
pub open spec fn spec_run(p: PhaseModel, events: Seq<EventModel>) -> (PhaseModel, Seq<ActionModel>)
    decreases events.len(),
{
    if events.len() == 0 {
        (p, Seq::empty())
    } else {
        let first = spec_step(p, events[0]);
        let rest = spec_run(first.0, events.drop_first());
        (rest.0, seq![first.1] + rest.1)
    }
}

/// The stamp events reporting the given outcomes.
pub open spec fn spec_stamped(oks: Seq<bool>) -> Seq<EventModel> {
    oks.map_values(|ok: bool| EventModel::Stamped { ok })
}

/// One stamp action per request id, in order, all with `blob_id`.
pub open spec fn spec_stamps(ids: Seq<u128>, blob_id: Seq<char>) -> Seq<ActionModel> {
    ids.map_values(|id: u128| ActionModel::Stamp { request_id: id, blob_id })
}

/// `n` actions that ask for nothing.
pub open spec fn spec_ignores(n: nat) -> Seq<ActionModel> {
    Seq::new(n, |i: int| ActionModel::Ignore)
}

/// Every step keeps a run's state consistent.
pub proof fn lemma_step_keeps_wf(p: PhaseModel, e: EventModel)
    requires
        spec_wf(p),
    ensures
        spec_wf(spec_step(p, e).0),
{
}

/// A finished run stays finished and asks for nothing more, whatever it is told.
pub proof fn lemma_finished_is_final(events: Seq<EventModel>)
    ensures
        spec_run(PhaseModel::Finished, events) == (PhaseModel::Finished, spec_ignores(events.len())),
    decreases events.len(),
{
    if events.len() > 0 {
        lemma_finished_is_final(events.drop_first());
        assert(seq![ActionModel::Ignore] + spec_ignores((events.len() - 1) as nat) =~= spec_ignores(
            events.len(),
        ));
    }
}

/// With nothing old enough to archive, a run ends successfully without
/// uploading anything.
pub proof fn lemma_empty_batch_uploads_nothing(receipts: Seq<Json>)
    ensures
        spec_step(
            PhaseModel::Fetching,
            EventModel::RowsFetched { ids: Seq::empty(), receipts },
        ) == (PhaseModel::Finished, ActionModel::Finish { outcome: Ok::<(), ErrorModel>(()) }),
{
}

/// A failed read or upload ends the run with that error, and no stamp (nor
/// anything else) is asked for afterwards.
pub proof fn lemma_failure_ends_run(p: PhaseModel, e: EventModel, later: Seq<EventModel>)
    requires
        (p is Fetching && e is FetchFailed) || (p is Uploading
            && e is UploadFailed),
    ensures
        spec_run(p, seq![e] + later).0 is Finished,
        spec_run(p, seq![e] + later).1[0] matches ActionModel::Finish { outcome: Err(_) },
        spec_run(p, seq![e] + later).1.drop_first() == spec_ignores(later.len()),
{
    let events = seq![e] + later;
    assert(events.drop_first() =~= later);
    lemma_finished_is_final(later);
}

/// A failed encoding ends the run with an encoding error, and nothing is
/// asked for afterwards: the batch is neither uploaded nor stamped.
pub proof fn lemma_encoding_failure_ends_run(
    ids: Seq<u128>,
    receipts: Seq<Json>,
    reason: Seq<char>,
    later: Seq<EventModel>,
)
    requires
        ids.len() > 0,
        spec_cbor_json_array(receipts) == Err::<Seq<u8>, Seq<char>>(reason),
    ensures
        spec_run(PhaseModel::Fetching, seq![EventModel::RowsFetched { ids, receipts }] + later) == (
            PhaseModel::Finished,
            seq![ActionModel::Finish { outcome: Err::<(), ErrorModel>(ErrorModel::Encode(reason)) }]
                + spec_ignores(later.len()),
        ),
{
    let events = seq![EventModel::RowsFetched { ids, receipts }] + later;
    assert(events.drop_first() =~= later);
    lemma_finished_is_final(later);
}

proof fn lemma_stamping_rest(ids: Seq<u128>, blob_id: Seq<char>, issued: nat, oks: Seq<bool>)
    requires
        1 <= issued <= ids.len(),
        oks.len() == ids.len() - issued + 1,
    ensures
        spec_run(PhaseModel::Stamping { ids, blob_id, issued }, spec_stamped(oks)) == (
            PhaseModel::Finished,
            spec_stamps(ids.skip(issued as int), blob_id) + seq![
                ActionModel::Finish { outcome: Ok::<(), ErrorModel>(()) },
            ],
        ),
    decreases ids.len() - issued,
{
    let events = spec_stamped(oks);
    let finish = ActionModel::Finish { outcome: Ok::<(), ErrorModel>(()) };
    assert(events.drop_first() =~= spec_stamped(oks.drop_first()));
    if issued < ids.len() {
        lemma_stamping_rest(ids, blob_id, (issued + 1) as nat, oks.drop_first());
        assert(seq![ActionModel::Stamp { request_id: ids[issued as int], blob_id }] + (spec_stamps(
            ids.skip(issued + 1 as int),
            blob_id,
        ) + seq![finish]) =~= spec_stamps(ids.skip(issued as int), blob_id) + seq![finish]);
    } else {
        assert(spec_run(PhaseModel::Finished, spec_stamped(oks.drop_first())) == (
            PhaseModel::Finished,
            Seq::<ActionModel>::empty(),
        ));
        assert(seq![finish] + Seq::<ActionModel>::empty() =~= spec_stamps(
            ids.skip(issued as int),
            blob_id,
        ) + seq![finish]);
    }
}

/// Once a batch is uploaded, every row of it is stamped with the blob id,
/// once and in order, whether or not earlier stamps failed; then the run ends
/// successfully.
pub proof fn lemma_every_row_stamped(ids: Seq<u128>, blob_id: Seq<char>, oks: Seq<bool>)
    requires
        ids.len() > 0,
        oks.len() == ids.len(),
    ensures
        spec_run(
            PhaseModel::Uploading { ids },
            seq![EventModel::Uploaded { blob_id }] + spec_stamped(oks),
        ) == (
            PhaseModel::Finished,
            spec_stamps(ids, blob_id) + seq![
                ActionModel::Finish { outcome: Ok::<(), ErrorModel>(()) },
            ],
        ),
{
    let events = seq![EventModel::Uploaded { blob_id }] + spec_stamped(oks);
    let finish = ActionModel::Finish { outcome: Ok::<(), ErrorModel>(()) };
    assert(events.drop_first() =~= spec_stamped(oks));
    lemma_stamping_rest(ids, blob_id, 1, oks);
    assert(seq![ActionModel::Stamp { request_id: ids[0], blob_id }] + (spec_stamps(ids.skip(1), blob_id)
        + seq![finish]) =~= spec_stamps(ids, blob_id) + seq![finish]);
}

/// A whole successful run: it reads the receipts older than the configured
/// minutes (at most a batch), uploads the CBOR encoding of the array of their
/// receipt documents in the order read, stamps each with the blob id, and
/// ends successfully.
pub proof fn lemma_successful_run(
    older_than_minutes: i64,
    ids: Seq<u128>,
    receipts: Seq<Json>,
    body: Seq<u8>,
    blob_id: Seq<char>,
    oks: Seq<bool>,
)
    requires
        ids.len() > 0,
        oks.len() == ids.len(),
        spec_cbor_json_array(receipts) == Ok::<Seq<u8>, Seq<char>>(body),
    ensures
        spec_run(
            PhaseModel::Ready,
            seq![
                EventModel::Started { older_than_minutes },
                EventModel::RowsFetched { ids, receipts },
                EventModel::Uploaded { blob_id },
            ] + spec_stamped(oks),
        ) == (
            PhaseModel::Finished,
            seq![
                ActionModel::FetchUnarchived { older_than_minutes, limit: ARCHIVE_BATCH_LIMIT },
                ActionModel::Upload { body, count: ids.len() },
            ] + spec_stamps(ids, blob_id) + seq![
                ActionModel::Finish { outcome: Ok::<(), ErrorModel>(()) },
            ],
        ),
{
    let events = seq![
        EventModel::Started { older_than_minutes },
        EventModel::RowsFetched { ids, receipts },
        EventModel::Uploaded { blob_id },
    ] + spec_stamped(oks);
    let tail = seq![EventModel::Uploaded { blob_id }] + spec_stamped(oks);
    assert(events.drop_first().drop_first() =~= tail);
    lemma_every_row_stamped(ids, blob_id, oks);
    let fetch = ActionModel::FetchUnarchived { older_than_minutes, limit: ARCHIVE_BATCH_LIMIT };
    let upload = ActionModel::Upload { body, count: ids.len() };
    let finish = ActionModel::Finish { outcome: Ok::<(), ErrorModel>(()) };
    let rest = spec_stamps(ids, blob_id) + seq![finish];
    assert(events.drop_first()[0] == EventModel::RowsFetched { ids, receipts });
    assert(spec_run(PhaseModel::Fetching, events.drop_first()) == (
        PhaseModel::Finished,
        seq![upload] + rest,
    ));
    assert(seq![fetch] + (seq![upload] + (spec_stamps(ids, blob_id) + seq![finish])) =~= seq![
        fetch,
        upload,
    ] + spec_stamps(ids, blob_id) + seq![finish]);
}


/// A reply whose `newlyCreated.blobObject.blobId` is the string `s` gives
/// exactly `s`, whole and unchanged.
pub proof fn lemma_blob_id_newly_created(body: Json, created: Json, object: Json, s: String)
    requires
        spec_get(body, "newlyCreated"@) == Some(created),
        spec_get(created, "blobObject"@) == Some(object),
        spec_get(object, "blobId"@) == Some(Json::Str(s)),
    ensures
        spec_blob_id(body) == Some(s@),
{
}

/// A reply with no `newlyCreated` member whose
/// `alreadyCertified.blobObject.blobId` is the string `s` gives exactly `s`.
pub proof fn lemma_blob_id_already_certified(body: Json, certified: Json, object: Json, s: String)
    requires
        spec_get(body, "newlyCreated"@) is None,
        spec_get(body, "alreadyCertified"@) == Some(certified),
        spec_get(certified, "blobObject"@) == Some(object),
        spec_get(object, "blobId"@) == Some(Json::Str(s)),
    ensures
        spec_blob_id(body) == Some(s@),
{
}

/// A blob id is only ever read from one of those two places: it is the
/// string found there, and nothing else.
pub proof fn lemma_blob_id_comes_from_reply(body: Json, t: Seq<char>)
    requires
        spec_blob_id(body) == Some(t),
    ensures
        exists|outcome: Json, object: Json|
            #![trigger spec_get(outcome, "blobObject"@), spec_get(object, "blobId"@)]
            {
                &&& (spec_get(body, "newlyCreated"@) == Some(outcome) || (spec_get(
                    body,
                    "newlyCreated"@,
                ) is None && spec_get(body, "alreadyCertified"@) == Some(outcome)))
                &&& spec_get(outcome, "blobObject"@) == Some(object)
                &&& spec_get(object, "blobId"@) matches Some(Json::Str(s)) && s@ == t
            },
{
    let outcome = match spec_get(body, "newlyCreated"@) {
        Some(v) => v,
        None => spec_get(body, "alreadyCertified"@)->0,
    };
    let object = spec_get(outcome, "blobObject"@)->0;
    assert(spec_get(object, "blobId"@) matches Some(Json::Str(s)) && s@ == t);
}

} // verus!
