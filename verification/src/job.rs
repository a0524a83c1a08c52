//! The download orchestrator: one job per dispatched link.
//!
//! A job walks `Created -> Announced -> Downloading -> Succeeded | Failed ->
//! Cleaned`. Every step is a decision of this module: it takes the state and
//! what came back from the last operations, and gives the next state and the
//! operations to carry out next.

use vstd::prelude::*;
use crate::effect::{
    effect_views, nudge_text, reaction_to, send_author_info, send_react, Effect, EffectView,
    Reaction,
};
use crate::text::{chars_of, contains_text, has_substring};

verus! {

/// Seconds a finished job waits before its task completes.
pub const COOLDOWN_SECONDS: u64 = 3;

/// Directory prefix of every job's output file.
pub open spec fn workspace_prefix() -> Seq<char> {
    "./video/"@
}

/// Extension of every job's output file.
pub open spec fn video_suffix() -> Seq<char> {
    ".mp4"@
}

/// Path of the shared credential file.
pub open spec fn credential_path() -> Seq<char> {
    "cookies.txt"@
}

/// Marker in the downloader's error text that tells an expired credential.
pub open spec fn login_marker() -> Seq<char> {
    "login required"@
}

/// The output file of the job with the id `job_id`.
pub open spec fn job_path(job_id: Seq<char>) -> Seq<char> {
    workspace_prefix() + job_id + video_suffix()
}

/// `c` is a digit or one of `a` to `f`.
pub open spec fn is_lower_hex(c: char) -> bool {
    let v = c as u32;
    (0x30 <= v <= 0x39) || (0x61 <= v <= 0x66)
}

/// `i` is one of the four places of a hyphen in the text form of a UUID.
pub open spec fn is_hyphen_place(i: int) -> bool {
    i == 8 || i == 13 || i == 18 || i == 23
}

/// `c` may stand at place `i` of the text form of a UUID: a hyphen at the
/// hyphen places, a lower-case hexadecimal digit elsewhere.
pub open spec fn fits_uuid_place(i: int, c: char) -> bool {
    if is_hyphen_place(i) {
        c == '-'
    } else {
        is_lower_hex(c)
    }
}

/// `s` is the canonical text form of a UUID: 36 characters, hyphens at
/// 8, 13, 18 and 23, lower-case hexadecimal digits elsewhere.
pub open spec fn is_uuid_text(s: Seq<char>) -> bool {
    &&& s.len() == 36
    &&& forall|i: int| 0 <= i < 36 ==> fits_uuid_place(i, #[trigger] s[i])
}

/// Why a download failed.
#[derive(Clone, Copy, Debug, PartialEq, Eq, Structural)]
pub enum FailureKind {
    /// The shared credential is no longer accepted.
    AuthExpired,
    /// Anything else.
    Other,
}

/// How a download ended.
#[derive(Clone, Copy, Debug, PartialEq, Eq, Structural)]
pub enum Outcome {
    Succeeded,
    Failed(FailureKind),
}

/// Where a job stands.
#[derive(Clone, Copy, Debug, PartialEq, Eq, Structural)]
pub enum JobState {
    /// Built, nothing sent yet.
    Created,
    /// The activity indicator is on its way.
    Announced,
    /// The downloader is running.
    Downloading,
    /// The download succeeded and the video is on its way to the chat.
    Succeeded,
    /// The download failed and the failure feedback is on its way.
    Failed(FailureKind),
    /// The output file is removed. Nothing follows.
    Cleaned,
}

/// What the downloader process handed back.
#[derive(Clone, Debug, PartialEq, Eq)]
pub enum ProcessResult {
    /// The process ran. `success` tells an exit code of zero, `stderr` holds
    /// the captured error text.
    Exited { success: bool, stderr: String },
    /// The process could not be started.
    SpawnFailed { error: String },
}

/// Mathematical model of a [`ProcessResult`].
pub enum ProcessResultView {
    Exited { success: bool, stderr: Seq<char> },
    SpawnFailed { error: Seq<char> },
}

impl View for ProcessResult {
    type V = ProcessResultView;

    open spec fn view(&self) -> ProcessResultView {
        match *self {
            ProcessResult::Exited { success, stderr } => ProcessResultView::Exited {
                success,
                stderr: stderr@,
            },
            ProcessResult::SpawnFailed { error } => ProcessResultView::SpawnFailed {
                error: error@,
            },
        }
    }
}

/// What came back from the operations of the last step.
#[derive(Clone, Debug, PartialEq, Eq)]
pub enum JobEvent {
    /// The job was handed to its task.
    Start,
    /// The activity indicator was sent, or could not be.
    Announce { ok: bool },
    /// The downloader returned.
    Download { result: ProcessResult },
    /// The video was sent, or could not be.
    VideoSend { ok: bool },
    /// The failure feedback was handed to the platform.
    FeedbackDone,
}

/// Mathematical model of a [`JobEvent`].
pub enum JobEventView {
    Start,
    Announce { ok: bool },
    Download { result: ProcessResultView },
    VideoSend { ok: bool },
    FeedbackDone,
}

impl View for JobEvent {
    type V = JobEventView;

    open spec fn view(&self) -> JobEventView {
        match *self {
            JobEvent::Start => JobEventView::Start,
            JobEvent::Announce { ok } => JobEventView::Announce { ok },
            JobEvent::Download { result } => JobEventView::Download { result: result@ },
            JobEvent::VideoSend { ok } => JobEventView::VideoSend { ok },
            JobEvent::FeedbackDone => JobEventView::FeedbackDone,
        }
    }
}

/// One dispatched download attempt, bound to one output file.
#[derive(Debug, PartialEq, Eq)]
pub struct DownloadJob {
    job_id: String,
    source_url: String,
    destination_path: String,
    requester_chat_id: i64,
    requester_message_id: i32,
}

/// Mathematical model of a [`DownloadJob`].
pub struct JobView {
    pub job_id: Seq<char>,
    pub source_url: Seq<char>,
    pub destination_path: Seq<char>,
    pub requester_chat_id: i64,
    pub requester_message_id: i32,
}

/// The job's id is a UUID and its output file is named by that id.
pub open spec fn valid_job(job: JobView) -> bool {
    is_uuid_text(job.job_id) && job.destination_path == job_path(job.job_id)
}

/// The job that a link from message `message_id` in chat `chat_id` gets
/// under the id `job_id`.
pub open spec fn job_for(job_id: Seq<char>, source_url: Seq<char>, chat_id: i64, message_id: i32)
    -> JobView {
    JobView {
        job_id,
        source_url,
        destination_path: job_path(job_id),
        requester_chat_id: chat_id,
        requester_message_id: message_id,
    }
}

/// How a download ended, as the process result tells it: a zero exit code is
/// success; any other exit fails, with an expired credential where the error
/// text holds the login marker; a process that did not start fails otherwise.
pub open spec fn outcome_of(result: ProcessResultView) -> Outcome {
    match result {
        ProcessResultView::Exited { success, stderr } => if success {
            Outcome::Succeeded
        } else if contains_text(stderr, login_marker()) {
            Outcome::Failed(FailureKind::AuthExpired)
        } else {
            Outcome::Failed(FailureKind::Other)
        },
        ProcessResultView::SpawnFailed { .. } => Outcome::Failed(FailureKind::Other),
    }
}

/// The raw error text of a process result.
pub open spec fn error_text(result: ProcessResultView) -> Seq<char> {
    match result {
        ProcessResultView::Exited { stderr, .. } => stderr,
        ProcessResultView::SpawnFailed { error } => error,
    }
}

/// Arguments of the downloader for a job: verbose, the link, the output
/// file, the credential file.
pub open spec fn downloader_args(job: JobView) -> Seq<Seq<char>> {
    seq!["-v"@, job.source_url, "-o"@, job.destination_path, "--cookies"@, credential_path()]
}

/// The line that goes to the process log for a failure that is no expired
/// credential.
pub open spec fn failure_log_line(result: ProcessResultView) -> Seq<char> {
    "Error: "@ + error_text(result)
}

/// The activity indicator in the requester's chat.
pub open spec fn announce_effects(job: JobView) -> Seq<EffectView> {
    seq![EffectView::SendChatAction { chat_id: job.requester_chat_id }]
}

/// What follows the activity indicator: a negative reaction where it could
/// not be sent, and the downloader in either case.
pub open spec fn download_effects(job: JobView, announced: bool) -> Seq<EffectView> {
    let run = EffectView::RunDownloader { args: downloader_args(job) };
    if announced {
        seq![run]
    } else {
        seq![reaction_to(job.requester_chat_id, job.requester_message_id, Reaction::Negative), run]
    }
}

/// What follows the downloader: the video as a reply on success; the nudge
/// and a negative reaction for an expired credential; a log line and a
/// negative reaction for any other failure.
pub open spec fn outcome_effects(job: JobView, result: ProcessResultView) -> Seq<EffectView> {
    let thumbs_down = reaction_to(
        job.requester_chat_id,
        job.requester_message_id,
        Reaction::Negative,
    );
    match outcome_of(result) {
        Outcome::Succeeded => seq![
            EffectView::SendVideo {
                chat_id: job.requester_chat_id,
                path: job.destination_path,
                reply_to: job.requester_message_id,
            },
        ],
        Outcome::Failed(FailureKind::AuthExpired) => seq![
            EffectView::SendMessage { chat_id: job.requester_chat_id, text: nudge_text() },
            thumbs_down,
        ],
        Outcome::Failed(FailureKind::Other) => seq![
            EffectView::Log { line: failure_log_line(result) },
            thumbs_down,
        ],
    }
}

/// Removal of the output file, then the cooldown.
pub open spec fn cleanup_effects(job: JobView) -> Seq<EffectView> {
    seq![
        EffectView::RemoveFile { path: job.destination_path },
        EffectView::Sleep { seconds: COOLDOWN_SECONDS },
    ]
}

/// What follows the sending of the video: a positive reaction where it was
/// sent, a negative one where it was not, then the cleanup.
pub open spec fn delivery_effects(job: JobView, sent: bool) -> Seq<EffectView> {
    let reaction = if sent {
        Reaction::Positive
    } else {
        Reaction::Negative
    };
    seq![reaction_to(job.requester_chat_id, job.requester_message_id, reaction)] + cleanup_effects(
        job,
    )
}

/// The state that an outcome leads to.
pub open spec fn state_of(outcome: Outcome) -> JobState {
    match outcome {
        Outcome::Succeeded => JobState::Succeeded,
        Outcome::Failed(kind) => JobState::Failed(kind),
    }
}

/// One step of a job: the next state and the operations to carry out. An
/// event that the state does not wait for changes nothing.
pub open spec fn job_step(job: JobView, state: JobState, event: JobEventView) -> (
    JobState,
    Seq<EffectView>,
) {
    match (state, event) {
        (JobState::Created, JobEventView::Start) => (JobState::Announced, announce_effects(job)),
        (JobState::Announced, JobEventView::Announce { ok }) => (
            JobState::Downloading,
            download_effects(job, ok),
        ),
        (JobState::Downloading, JobEventView::Download { result }) => (
            state_of(outcome_of(result)),
            outcome_effects(job, result),
        ),
        (JobState::Succeeded, JobEventView::VideoSend { ok }) => (
            JobState::Cleaned,
            delivery_effects(job, ok),
        ),
        (JobState::Failed(_), JobEventView::FeedbackDone) => (
            JobState::Cleaned,
            cleanup_effects(job),
        ),
        _ => (state, Seq::empty()),
    }
}

/// The events of a whole run, as they come back: the start, the result of
/// the announcement, the result of the downloader, and then the result of
/// sending the video after a success, or the end of the feedback after a
/// failure.
pub open spec fn run_events(announced: bool, result: ProcessResultView, sent: bool) -> Seq<
    JobEventView,
> {
    seq![
        JobEventView::Start,
        JobEventView::Announce { ok: announced },
        JobEventView::Download { result },
        if outcome_of(result) == Outcome::Succeeded {
            JobEventView::VideoSend { ok: sent }
        } else {
            JobEventView::FeedbackDone
        },
    ]
}

/// Steps a job through `events`, one after the other: the state at the end
/// and all operations in the order in which they were asked for.
pub open spec fn run_from(job: JobView, state: JobState, events: Seq<JobEventView>) -> (
    JobState,
    Seq<EffectView>,
)
    decreases events.len(),
{
    if events.len() == 0 {
        (state, Seq::empty())
    } else {
        let first = job_step(job, state, events[0]);
        let rest = run_from(job, first.0, events.drop_first());
        (rest.0, first.1 + rest.1)
    }
}

/// A whole run of a new job.
pub open spec fn job_run(job: JobView, announced: bool, result: ProcessResultView, sent: bool)
    -> (JobState, Seq<EffectView>) {
    run_from(job, JobState::Created, run_events(announced, result, sent))
}

/// How many of `effects` are `wanted`.
pub open spec fn count_of(effects: Seq<EffectView>, wanted: spec_fn(EffectView) -> bool) -> nat
    decreases effects.len(),
{
    if effects.len() == 0 {
        0
    } else {
        count_of(effects.drop_last(), wanted) + if wanted(effects.last()) {
            1nat
        } else {
            0nat
        }
    }
}

/// `effect` is a reaction of the kind `reaction`.
pub open spec fn is_reaction(effect: EffectView, reaction: Reaction) -> bool {
    effect matches EffectView::SetReaction { reaction: r, .. } && r == reaction
}

/// A whole run asks for exactly the operations of its four steps, and ends
/// in `Cleaned`.
pub proof fn lemma_run_unfolds(
    job: JobView,
    announced: bool,
    result: ProcessResultView,
    sent: bool,
)
    ensures
        job_run(job, announced, result, sent).0 == JobState::Cleaned,
        job_run(job, announced, result, sent).1 == announce_effects(job) + download_effects(
            job,
            announced,
        ) + outcome_effects(job, result) + if outcome_of(result) == Outcome::Succeeded {
            delivery_effects(job, sent)
        } else {
            cleanup_effects(job)
        },
{
    let events = run_events(announced, result, sent);
    let e1 = events.drop_first();
    let e2 = e1.drop_first();
    let e3 = e2.drop_first();
    let e4 = e3.drop_first();
    assert(e4.len() == 0);
    let s1 = job_step(job, JobState::Created, events[0]);
    let s2 = job_step(job, s1.0, e1[0]);
    let s3 = job_step(job, s2.0, e2[0]);
    let s4 = job_step(job, s3.0, e3[0]);
    assert(run_from(job, s4.0, e4).1 == Seq::<EffectView>::empty());
    assert(run_from(job, s3.0, e3).1 == s4.1 + Seq::<EffectView>::empty());
    assert(run_from(job, s3.0, e3).1 =~= s4.1);
    assert(run_from(job, s2.0, e2).1 == s3.1 + s4.1);
    assert(run_from(job, s1.0, e1).1 == s2.1 + (s3.1 + s4.1));
    assert(run_from(job, JobState::Created, events).1 == s1.1 + (s2.1 + (s3.1 + s4.1)));
    assert(s1.1 + (s2.1 + (s3.1 + s4.1)) =~= s1.1 + s2.1 + s3.1 + s4.1);
}

/// However a run goes, it asks for the removal of the job's output file
/// exactly once, after everything that it sends to the chat, and ends with
/// the cooldown.
pub proof fn lemma_every_run_cleans_up(
    job: JobView,
    announced: bool,
    result: ProcessResultView,
    sent: bool,
)
    ensures
        ({
            let trace = job_run(job, announced, result, sent).1;
            &&& job_run(job, announced, result, sent).0 == JobState::Cleaned
            &&& count_of(trace, |e: EffectView| e is RemoveFile) == 1
            &&& count_of(trace, |e: EffectView| e is Sleep) == 1
            &&& count_of(trace, |e: EffectView| e is RunDownloader) == 1
            &&& trace.len() >= 2
            &&& trace[trace.len() - 2] == (EffectView::RemoveFile { path: job.destination_path })
            &&& trace.last() == (EffectView::Sleep { seconds: COOLDOWN_SECONDS })
        }),
{
    lemma_run_unfolds(job, announced, result, sent);
    let trace = job_run(job, announced, result, sent).1;
    let head = announce_effects(job) + download_effects(job, announced);
    let body = outcome_effects(job, result);
    let tail = if outcome_of(result) == Outcome::Succeeded {
        delivery_effects(job, sent)
    } else {
        cleanup_effects(job)
    };
    assert(trace == head + body + tail);
    let is_remove = |e: EffectView| e is RemoveFile;
    let is_sleep = |e: EffectView| e is Sleep;
    let is_run = |e: EffectView| e is RunDownloader;
    lemma_count_concat(head + body, tail, is_remove);
    lemma_count_concat(head, body, is_remove);
    lemma_count_concat(head + body, tail, is_sleep);
    lemma_count_concat(head, body, is_sleep);
    lemma_count_concat(head + body, tail, is_run);
    lemma_count_concat(head, body, is_run);
    reveal_with_fuel(count_of, 4);
    assert(head =~= if announced {
        seq![announce_effects(job)[0], download_effects(job, announced)[0]]
    } else {
        seq![
            announce_effects(job)[0],
            download_effects(job, announced)[0],
            download_effects(job, announced)[1],
        ]
    });
    assert(tail.len() >= 2);
    assert(tail[tail.len() - 2] == (EffectView::RemoveFile { path: job.destination_path }));
    assert(tail.last() == (EffectView::Sleep { seconds: COOLDOWN_SECONDS }));
    if outcome_of(result) == Outcome::Succeeded {
        assert(tail =~= seq![tail[0], tail[1], tail[2]]);
    }
}

/// Counting over a concatenation adds the counts of its parts.
pub proof fn lemma_count_concat(
    a: Seq<EffectView>,
    b: Seq<EffectView>,
    wanted: spec_fn(EffectView) -> bool,
)
    ensures
        count_of(a + b, wanted) == count_of(a, wanted) + count_of(b, wanted),
    decreases b.len(),
{
    if b.len() == 0 {
        assert(a + b == a);
    } else {
        assert((a + b).drop_last() == a + b.drop_last());
        assert((a + b).last() == b.last());
        lemma_count_concat(a, b.drop_last(), wanted);
    }
}

/// After a successful download whose video was sent, the run has asked for
/// exactly one video and exactly one positive reaction, and its last file
/// operation, after both, removes the job's output file.
pub proof fn lemma_success_sends_one_video(job: JobView, announced: bool, result: ProcessResultView)
    requires
        outcome_of(result) == Outcome::Succeeded,
    ensures
        ({
            let trace = job_run(job, announced, result, true).1;
            &&& count_of(trace, |e: EffectView| e is SendVideo) == 1
            &&& count_of(trace, |e: EffectView| is_reaction(e, Reaction::Positive)) == 1
            &&& count_of(trace, |e: EffectView| e is RemoveFile) == 1
            &&& trace.len() >= 3
            &&& trace[trace.len() - 3] == reaction_to(
                job.requester_chat_id,
                job.requester_message_id,
                Reaction::Positive,
            )
            &&& trace[trace.len() - 2] == (EffectView::RemoveFile { path: job.destination_path })
            &&& trace.last() == (EffectView::Sleep { seconds: COOLDOWN_SECONDS })
        }),
{
    lemma_run_unfolds(job, announced, result, true);
    let trace = job_run(job, announced, result, true).1;
    let chat = job.requester_chat_id;
    let msg = job.requester_message_id;
    let indicator = EffectView::SendChatAction { chat_id: chat };
    let run = EffectView::RunDownloader { args: downloader_args(job) };
    let video = EffectView::SendVideo { chat_id: chat, path: job.destination_path, reply_to: msg };
    let up = reaction_to(chat, msg, Reaction::Positive);
    let down = reaction_to(chat, msg, Reaction::Negative);
    let remove = EffectView::RemoveFile { path: job.destination_path };
    let sleep = EffectView::Sleep { seconds: COOLDOWN_SECONDS };
    reveal_with_fuel(count_of, 8);
    if announced {
        assert(trace =~= seq![indicator, run, video, up, remove, sleep]);
    } else {
        assert(trace =~= seq![indicator, down, run, video, up, remove, sleep]);
    }
}

/// After a download that failed for an expired credential, the run has
/// asked for exactly one nudge message and no video, has emitted a negative
/// reaction, and ends by removing the job's output file.
pub proof fn lemma_expired_credential_nudges_once(
    job: JobView,
    announced: bool,
    result: ProcessResultView,
    sent: bool,
)
    requires
        outcome_of(result) == Outcome::Failed(FailureKind::AuthExpired),
    ensures
        ({
            let trace = job_run(job, announced, result, sent).1;
            let nudge = EffectView::SendMessage {
                chat_id: job.requester_chat_id,
                text: nudge_text(),
            };
            &&& count_of(trace, |e: EffectView| e is SendMessage) == 1
            &&& count_of(trace, |e: EffectView| e == nudge) == 1
            &&& count_of(trace, |e: EffectView| e is SendVideo) == 0
            &&& count_of(trace, |e: EffectView| is_reaction(e, Reaction::Positive)) == 0
            &&& count_of(trace, |e: EffectView| is_reaction(e, Reaction::Negative)) == if announced {
                1nat
            } else {
                2nat
            }
            &&& trace.len() >= 2
            &&& trace[trace.len() - 2] == (EffectView::RemoveFile { path: job.destination_path })
        }),
{
    lemma_run_unfolds(job, announced, result, sent);
    let trace = job_run(job, announced, result, sent).1;
    let chat = job.requester_chat_id;
    let msg = job.requester_message_id;
    let indicator = EffectView::SendChatAction { chat_id: chat };
    let run = EffectView::RunDownloader { args: downloader_args(job) };
    let nudge = EffectView::SendMessage { chat_id: chat, text: nudge_text() };
    let down = reaction_to(chat, msg, Reaction::Negative);
    let remove = EffectView::RemoveFile { path: job.destination_path };
    let sleep = EffectView::Sleep { seconds: COOLDOWN_SECONDS };
    reveal_with_fuel(count_of, 8);
    if announced {
        assert(trace =~= seq![indicator, run, nudge, down, remove, sleep]);
    } else {
        assert(trace =~= seq![indicator, down, run, nudge, down, remove, sleep]);
    }
}

/// After any other failure the chat gets a negative reaction and nothing
/// else: no message, no video. The raw error text goes to the log only.
pub proof fn lemma_other_failure_stays_in_the_log(
    job: JobView,
    announced: bool,
    result: ProcessResultView,
    sent: bool,
)
    requires
        outcome_of(result) == Outcome::Failed(FailureKind::Other),
    ensures
        ({
            let trace = job_run(job, announced, result, sent).1;
            &&& count_of(trace, |e: EffectView| e is SendMessage) == 0
            &&& count_of(trace, |e: EffectView| e is SendVideo) == 0
            &&& count_of(trace, |e: EffectView| e is SendPhoto) == 0
            &&& count_of(
                trace,
                |e: EffectView| e == (EffectView::Log { line: failure_log_line(result) }),
            ) == 1
            &&& count_of(trace, |e: EffectView| is_reaction(e, Reaction::Positive)) == 0
            &&& trace.len() >= 2
            &&& trace[trace.len() - 2] == (EffectView::RemoveFile { path: job.destination_path })
        }),
{
    lemma_run_unfolds(job, announced, result, sent);
    let trace = job_run(job, announced, result, sent).1;
    let chat = job.requester_chat_id;
    let msg = job.requester_message_id;
    let indicator = EffectView::SendChatAction { chat_id: chat };
    let run = EffectView::RunDownloader { args: downloader_args(job) };
    let log = EffectView::Log { line: failure_log_line(result) };
    let down = reaction_to(chat, msg, Reaction::Negative);
    let remove = EffectView::RemoveFile { path: job.destination_path };
    let sleep = EffectView::Sleep { seconds: COOLDOWN_SECONDS };
    reveal_with_fuel(count_of, 8);
    if announced {
        assert(trace =~= seq![indicator, run, log, down, remove, sleep]);
    } else {
        assert(trace =~= seq![indicator, down, run, log, down, remove, sleep]);
    }
}

/// Whatever step a job takes, the only file that it hands to the downloader,
/// sends or removes is its own output file. It fetches nothing and writes no
/// file, so the credential file stays as it is.
pub proof fn lemma_job_touches_only_its_file(
    job: JobView,
    state: JobState,
    event: JobEventView,
    i: int,
)
    requires
        valid_job(job),
        0 <= i < job_step(job, state, event).1.len(),
    ensures
        ({
            let effect = job_step(job, state, event).1[i];
            &&& !(effect is WriteFile) && !(effect is FetchUrl) && !(effect is GetFile)
            &&& effect matches EffectView::RemoveFile { path } ==> path == job.destination_path
            &&& effect matches EffectView::SendVideo { path, .. } ==> path == job.destination_path
            &&& effect matches EffectView::RunDownloader { args } ==> args == downloader_args(job)
            &&& job.destination_path != credential_path()
        }),
{
    reveal_strlit("./video/");
    reveal_strlit("cookies.txt");
    assert(job.destination_path[0] == '.');
    assert(credential_path()[0] == 'c');
}

/// Two ids that name the same output file are the same id.
pub proof fn lemma_job_path_injective(a: Seq<char>, b: Seq<char>)
    requires
        job_path(a) == job_path(b),
    ensures
        a == b,
{
    let p = workspace_prefix();
    let x = video_suffix();
    assert(job_path(a).len() == p.len() + a.len() + x.len());
    assert(job_path(b).len() == p.len() + b.len() + x.len());
    assert forall|i: int| 0 <= i < a.len() implies a[i] == b[i] by {
        assert(job_path(a)[p.len() + i] == a[i]);
        assert(job_path(b)[p.len() + i] == b[i]);
    }
    assert(a =~= b);
}

/// Jobs with pairwise distinct ids write to pairwise distinct files.
pub proof fn lemma_distinct_jobs_distinct_files(jobs: Seq<JobView>)
    requires
        forall|i: int| 0 <= i < jobs.len() ==> valid_job(#[trigger] jobs[i]),
        forall|i: int, j: int|
            0 <= i < j < jobs.len() ==> #[trigger] jobs[i].job_id != #[trigger] jobs[j].job_id,
    ensures
        forall|i: int, j: int|
            0 <= i < j < jobs.len() ==> #[trigger] jobs[i].destination_path
                != #[trigger] jobs[j].destination_path,
{
    assert forall|i: int, j: int| 0 <= i < j < jobs.len() implies #[trigger] jobs[i].destination_path
        != #[trigger] jobs[j].destination_path by {
        assert(valid_job(jobs[i]));
        assert(valid_job(jobs[j]));
        if jobs[i].destination_path == jobs[j].destination_path {
            lemma_job_path_injective(jobs[i].job_id, jobs[j].job_id);
        }
    }
}

/// Calls `uuid::Uuid::new_v4` and renders the result with the crate's
/// `Display` impl. The id itself is random; the contract claims only the
/// shape of its text, which the crate's formatter fixes: lower-case
/// hexadecimal digits in groups of 8, 4, 4, 4 and 12, joined by hyphens.
#[verifier::external_body]
fn fresh_uuid_text() -> (id: String)
    ensures
        is_uuid_text(id@),
{
    uuid::Uuid::new_v4().to_string()
}

/// Tells whether `s` is the canonical text form of a UUID.
pub fn check_uuid_text(s: &str) -> (ok: bool)
    ensures
        ok == is_uuid_text(s@),
{
    let chars = chars_of(s);
    if chars.len() != 36 {
        return false;
    }
    let mut i: usize = 0;
    while i < 36
        invariant
            0 <= i <= 36,
            chars@ == s@,
            chars.len() == 36,
            forall|k: int| 0 <= k < i ==> fits_uuid_place(k, #[trigger] s@[k]),
        decreases 36 - i,
    {
        let c = chars[i];
        let v = c as u32;
        let good = if i == 8 || i == 13 || i == 18 || i == 23 {
            c == '-'
        } else {
            (0x30 <= v && v <= 0x39) || (0x61 <= v && v <= 0x66)
        };
        if !good {
            assert(!fits_uuid_place(i as int, s@[i as int]));
            return false;
        }
        i = i + 1;
    }
    true
}

/// Tells how a download ended.
pub fn classify_outcome(result: &ProcessResult) -> (outcome: Outcome)
    ensures
        outcome == outcome_of(result@),
{
    match result {
        ProcessResult::Exited { success, stderr } => {
            if *success {
                Outcome::Succeeded
            } else if has_substring(stderr.as_str(), "login required") {
                Outcome::Failed(FailureKind::AuthExpired)
            } else {
                Outcome::Failed(FailureKind::Other)
            }
        },
        ProcessResult::SpawnFailed { .. } => Outcome::Failed(FailureKind::Other),
    }
}

impl View for DownloadJob {
    type V = JobView;

    closed spec fn view(&self) -> JobView {
        JobView {
            job_id: self.job_id@,
            source_url: self.source_url@,
            destination_path: self.destination_path@,
            requester_chat_id: self.requester_chat_id,
            requester_message_id: self.requester_message_id,
        }
    }
}

impl Clone for DownloadJob {
    fn clone(&self) -> (copy: DownloadJob)
        ensures
            copy@ == self@,
    {
        proof {
            use_type_invariant(self);
        }
        DownloadJob {
            job_id: self.job_id.clone(),
            source_url: self.source_url.clone(),
            destination_path: self.destination_path.clone(),
            requester_chat_id: self.requester_chat_id,
            requester_message_id: self.requester_message_id,
        }
    }
}

impl DownloadJob {
    #[verifier::type_invariant]
    spec fn well_formed(&self) -> bool {
        valid_job(self@)
    }

    /// Builds the job for a link under a given id. `None` where `job_id` is
    /// not the canonical text form of a UUID.
    pub fn with_id(job_id: String, source_url: String, chat_id: i64, message_id: i32) -> (job:
        Option<DownloadJob>)
        ensures
            match job {
                Some(job) => is_uuid_text(job_id@) && job@ == job_for(
                    job_id@,
                    source_url@,
                    chat_id,
                    message_id,
                ),
                None => !is_uuid_text(job_id@),
            },
    {
        if !check_uuid_text(job_id.as_str()) {
            return None;
        }
        let destination_path = "./video/".to_owned().concat(job_id.as_str()).concat(".mp4");
        Some(
            DownloadJob {
                job_id,
                source_url,
                destination_path,
                requester_chat_id: chat_id,
                requester_message_id: message_id,
            },
        )
    }

    /// Builds the job for a link under a fresh random id.
    pub fn create(source_url: String, chat_id: i64, message_id: i32) -> (job: DownloadJob)
        ensures
            valid_job(job@),
            job@ == job_for(job@.job_id, source_url@, chat_id, message_id),
    {
        let job_id = fresh_uuid_text();
        let made = DownloadJob::with_id(job_id, source_url, chat_id, message_id);
        made.unwrap()
    }

    /// The job's id, a UUID in its canonical text form.
    pub fn job_id(&self) -> (id: &str)
        ensures
            id@ == self@.job_id,
            is_uuid_text(id@),
    {
        proof {
            use_type_invariant(self);
        }
        self.job_id.as_str()
    }

    /// The link to download.
    pub fn source_url(&self) -> (url: &str)
        ensures
            url@ == self@.source_url,
    {
        self.source_url.as_str()
    }

    /// The output file, named by the job's id.
    pub fn destination_path(&self) -> (path: &str)
        ensures
            path@ == self@.destination_path,
            path@ == job_path(self@.job_id),
    {
        proof {
            use_type_invariant(self);
        }
        self.destination_path.as_str()
    }

    /// The chat that asked for the download.
    pub fn requester_chat_id(&self) -> (chat_id: i64)
        ensures
            chat_id == self@.requester_chat_id,
    {
        self.requester_chat_id
    }

    /// The message that carried the link.
    pub fn requester_message_id(&self) -> (message_id: i32)
        ensures
            message_id == self@.requester_message_id,
    {
        self.requester_message_id
    }

    /// The downloader's arguments for this job.
    pub fn downloader_arguments(&self) -> (args: Vec<String>)
        ensures
            args@.map_values(|a: String| a@) == downloader_args(self@),
    {
        let mut args: Vec<String> = Vec::new();
        args.push("-v".to_owned());
        args.push(self.source_url.clone());
        args.push("-o".to_owned());
        args.push(self.destination_path.clone());
        args.push("--cookies".to_owned());
        args.push("cookies.txt".to_owned());
        assert(args@.map_values(|a: String| a@) =~= downloader_args(self@));
        args
    }

    /// Takes one step: gives the state after `event` and the operations to
    /// carry out, in order.
    pub fn process_video(&self, state: JobState, event: &JobEvent) -> (next: (
        JobState,
        Vec<Effect>,
    ))
        ensures
            (next.0, effect_views(next.1@)) == job_step(self@, state, event@),
    {
        let chat_id = self.requester_chat_id;
        let message_id = self.requester_message_id;
        let mut effects: Vec<Effect> = Vec::new();
        let mut after = state;
        match state {
            JobState::Created => {
                if let JobEvent::Start = event {
                    effects.push(Effect::SendChatAction { chat_id });
                    after = JobState::Announced;
                }
            },
            JobState::Announced => {
                if let JobEvent::Announce { ok } = event {
                    if !*ok {
                        effects.push(send_react(chat_id, message_id, Reaction::Negative));
                    }
                    effects.push(Effect::RunDownloader { args: self.downloader_arguments() });
                    after = JobState::Downloading;
                }
            },
            JobState::Downloading => {
                if let JobEvent::Download { result } = event {
                    match classify_outcome(result) {
                        Outcome::Succeeded => {
                            effects.push(
                                Effect::SendVideo {
                                    chat_id,
                                    path: self.destination_path.clone(),
                                    reply_to: message_id,
                                },
                            );
                            after = JobState::Succeeded;
                        },
                        Outcome::Failed(FailureKind::AuthExpired) => {
                            effects.push(send_author_info(chat_id));
                            effects.push(send_react(chat_id, message_id, Reaction::Negative));
                            after = JobState::Failed(FailureKind::AuthExpired);
                        },
                        Outcome::Failed(FailureKind::Other) => {
                            let raw = match result {
                                ProcessResult::Exited { stderr, .. } => stderr,
                                ProcessResult::SpawnFailed { error } => error,
                            };
                            let line = "Error: ".to_owned().concat(raw.as_str());
                            effects.push(Effect::Log { line });
                            effects.push(send_react(chat_id, message_id, Reaction::Negative));
                            after = JobState::Failed(FailureKind::Other);
                        },
                    }
                }
            },
            JobState::Succeeded => {
                if let JobEvent::VideoSend { ok } = event {
                    let reaction = if *ok {
                        Reaction::Positive
                    } else {
                        Reaction::Negative
                    };
                    effects.push(send_react(chat_id, message_id, reaction));
                    effects.push(Effect::RemoveFile { path: self.destination_path.clone() });
                    effects.push(Effect::Sleep { seconds: COOLDOWN_SECONDS });
                    after = JobState::Cleaned;
                }
            },
            JobState::Failed(_) => {
                if let JobEvent::FeedbackDone = event {
                    effects.push(Effect::RemoveFile { path: self.destination_path.clone() });
                    effects.push(Effect::Sleep { seconds: COOLDOWN_SECONDS });
                    after = JobState::Cleaned;
                }
            },
            JobState::Cleaned => {},
        }
        assert(effect_views(effects@) =~= job_step(self@, state, event@).1);
        (after, effects)
    }
}

} // verus!
