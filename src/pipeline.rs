//! The bookkeeping of a mirroring run: which documents a run writes, where
//! each story's thread is fetched from, and what became of each story.
//!
//! The run itself (fetching, decoding, writing files, the worker pool) is
//! driven from outside the library; each story's work ends in a
//! `ThreadOutcome`, and outcomes are gathered into a `RunReport`. A failed
//! story never keeps another story's outcome from being recorded.

use vstd::prelude::*;
use crate::model::{Comment, Story};
use crate::render::{render_thread, thread_file, thread_file_name, thread_text, Dialect};
use crate::text::{has_prefix, starts_with};

verus! {

/// The address of the story list on `host`: `https://` is put in front where
/// the host names no scheme of its own.
pub open spec fn list_address(host: Seq<char>) -> Seq<char> {
    if starts_with(host, "http://"@) || starts_with(host, "https://"@) {
        host + "/hottest.json"@
    } else {
        "https://"@ + host + "/hottest.json"@
    }
}

/// The address of the story list on `host`: `https://` is put in front where
/// the host names no scheme of its own.
pub fn feed_url(host: &str) -> (r: String)
    ensures
        r@ == list_address(host@),
{
    let mut out = if has_prefix(host, "http://") || has_prefix(host, "https://") {
        String::from_str(host)
    } else {
        let mut with_scheme = String::from_str("https://");
        with_scheme.append(host);
        with_scheme
    };
    out.append("/hottest.json");
    out
}

/// The address of a story's thread in the feed: its permalink with `.json`.
pub open spec fn thread_address(permalink: Seq<char>) -> Seq<char> {
    permalink + ".json"@
}

/// The address of a story's thread in the feed: its permalink with `.json`.
pub fn thread_url(permalink: &str) -> (r: String)
    ensures
        r@ == thread_address(permalink@),
{
    let mut out = String::from_str(permalink);
    out.append(".json");
    out
}

/// The work for one story's thread: which story, and where to fetch its
/// thread.
#[derive(Debug)]
pub struct ThreadJob {
    /// The position of the story in the list.
    pub story: usize,
    pub url: String,
}

/// The job of the story at position `i`.
pub open spec fn job_matches(job: ThreadJob, stories: Seq<Story>, i: int) -> bool {
    &&& job.story == i
    &&& job.url@ == thread_address(stories[i].short_id_url@)
}

/// One job per story, in the order of the list.
pub fn plan_threads(stories: &Vec<Story>) -> (r: Vec<ThreadJob>)
    ensures
        r@.len() == stories@.len(),
        forall|i: int| 0 <= i < r@.len() ==> job_matches(#[trigger] r@[i], stories@, i),
{
    let mut jobs: Vec<ThreadJob> = Vec::new();
    let mut i: usize = 0;
    while i < stories.len()
        invariant
            i <= stories.len(),
            jobs@.len() == i,
            forall|k: int| 0 <= k < i ==> job_matches(#[trigger] jobs@[k], stories@, k),
        decreases stories.len() - i,
    {
        let story = &stories[i];
        let job = ThreadJob { story: i, url: thread_url(story.short_id_url.as_str()) };
        jobs.push(job);
        i = i + 1;
    }
    jobs
}

/// The files that a run writes: the index, then each story's thread document.
pub open spec fn output_names(stories: Seq<Story>, d: Dialect) -> Seq<Seq<char>> {
    seq![d.index_file()] + Seq::new(stories.len(), |i: int| thread_file(stories[i], d))
}

/// The files that a run writes: the index, then each story's thread document
/// in the order of the list.
pub fn output_files(stories: &Vec<Story>, dialect: Dialect) -> (r: Vec<String>)
    ensures
        r@.len() == stories@.len() + 1,
        forall|i: int| 0 <= i < r@.len() ==> (#[trigger] r@[i])@ == output_names(stories@, dialect)[i],
{
    let mut names: Vec<String> = Vec::new();
    names.push(String::from_str(dialect.index_name()));
    let mut i: usize = 0;
    while i < stories.len()
        invariant
            i <= stories.len(),
            names@.len() == i + 1,
            forall|k: int| 0 <= k < names@.len() ==> (#[trigger] names@[k])@ == output_names(stories@, dialect)[k],
        decreases stories.len() - i,
    {
        names.push(thread_file_name(&stories[i], dialect));
        i = i + 1;
    }
    names
}

/// Where the work on a story's thread failed.
#[derive(Clone, Copy, Debug, PartialEq, Eq)]
pub enum FailureKind {
    /// The thread could not be fetched.
    Transport,
    /// The thread's payload could not be decoded.
    Decode,
    /// The thread document could not be written.
    Write,
}

/// A story whose thread failed, and why.
#[derive(Debug)]
pub struct Failure {
    pub short_id: String,
    pub title: String,
    pub kind: FailureKind,
    /// The underlying error, for diagnostics.
    pub detail: String,
}

/// What became of one story's thread: the file it was to be written to, and
/// the failure if there was one.
#[derive(Debug)]
pub struct ThreadOutcome {
    pub file_name: String,
    pub failure: Option<Failure>,
}

impl ThreadOutcome {
    /// The outcome of a thread document that was written to `file_name`.
    pub fn written(file_name: String) -> (r: ThreadOutcome)
        ensures
            r.file_name == file_name,
            r.failure is None,
    {
        ThreadOutcome { file_name, failure: None }
    }

    /// The outcome of a story whose thread failed with `kind`.
    pub fn failed(story: &Story, file_name: String, kind: FailureKind, detail: String) -> (r:
        ThreadOutcome)
        ensures
            r.file_name == file_name,
            r.failure matches Some(f) && f.short_id == story.short_id && f.title == story.title
                && f.kind == kind && f.detail == detail,
    {
        let failure = Failure {
            short_id: story.short_id.clone(),
            title: story.title.clone(),
            kind,
            detail,
        };
        ThreadOutcome { file_name, failure: Some(failure) }
    }
}

/// What the work on one story's thread does next once the thread was fetched.
#[derive(Debug)]
pub enum ThreadAction {
    /// Write `page` to the file `file_name`.
    Write { file_name: String, page: String },
    /// Nothing is written; record the outcome.
    Record(ThreadOutcome),
}

/// Whether `a` is the step for `story` once its thread was fetched: on
/// success, write its rendered document to its thread file; on failure,
/// record the failure under the story's id and title.
pub open spec fn fetch_step(
    a: ThreadAction,
    story: Story,
    d: Dialect,
    fetched: Result<Vec<Comment>, (FailureKind, String)>,
) -> bool {
    match fetched {
        Ok(comments) => a matches ThreadAction::Write { file_name, page } && file_name@
            == thread_file(story, d) && page@ == thread_text(comments@, story, d),
        Err(e) => a matches ThreadAction::Record(o) && o.file_name@ == thread_file(story, d) && (
        o.failure matches Some(f) && f.short_id == story.short_id && f.title == story.title
            && f.kind == e.0 && f.detail == e.1),
    }
}

/// The next step once a story's thread was fetched, or failed to be fetched
/// or decoded: render and write its document, or record the failure.
pub fn after_fetch(
    story: &Story,
    dialect: Dialect,
    fetched: &Result<Vec<Comment>, (FailureKind, String)>,
) -> (r: ThreadAction)
    ensures
        fetch_step(r, *story, dialect, *fetched),
{
    let file_name = thread_file_name(story, dialect);
    match fetched {
        Ok(comments) => ThreadAction::Write {
            file_name,
            page: render_thread(comments, story, dialect),
        },
        Err((kind, detail)) => ThreadAction::Record(
            ThreadOutcome::failed(story, file_name, *kind, detail.clone()),
        ),
    }
}

/// The outcome of writing a story's thread document to `file_name`: written,
/// or a write failure with the error's text.
pub fn after_write(story: &Story, file_name: String, written: Result<(), String>) -> (r:
    ThreadOutcome)
    ensures
        r.file_name == file_name,
        written is Ok ==> r.failure is None,
        written matches Err(detail) ==> (r.failure matches Some(f) && f.short_id == story.short_id
            && f.title == story.title && f.kind == FailureKind::Write && f.detail == detail),
{
    match written {
        Ok(()) => ThreadOutcome::written(file_name),
        Err(detail) => ThreadOutcome::failed(story, file_name, FailureKind::Write, detail),
    }
}

/// The result of a run's thread phase: the thread documents written, and the
/// stories that failed.
#[derive(Debug)]
pub struct RunReport {
    pub written: Vec<String>,
    pub failures: Vec<Failure>,
}

/// The documents written among `outcomes`, in order.
pub open spec fn written_of(outcomes: Seq<ThreadOutcome>) -> Seq<String>
    decreases outcomes.len(),
{
    if outcomes.len() == 0 {
        Seq::empty()
    } else if outcomes.last().failure is None {
        written_of(outcomes.drop_last()).push(outcomes.last().file_name)
    } else {
        written_of(outcomes.drop_last())
    }
}

/// The failures among `outcomes`, in order.
pub open spec fn failures_of(outcomes: Seq<ThreadOutcome>) -> Seq<Failure>
    decreases outcomes.len(),
{
    if outcomes.len() == 0 {
        Seq::empty()
    } else if outcomes.last().failure is Some {
        failures_of(outcomes.drop_last()).push(outcomes.last().failure->0)
    } else {
        failures_of(outcomes.drop_last())
    }
}

impl RunReport {
    /// The report of a run in which nothing has finished yet.
    pub fn new() -> (r: RunReport)
        ensures
            r.written@.len() == 0,
            r.failures@.len() == 0,
    {
        RunReport { written: Vec::new(), failures: Vec::new() }
    }

    /// Records one story's outcome; the records of other stories are kept.
    pub fn record(&mut self, outcome: ThreadOutcome)
        ensures
            outcome.failure is None ==> final(self).written@ == old(self).written@.push(
                outcome.file_name,
            ) && final(self).failures@ == old(self).failures@,
            outcome.failure matches Some(f) ==> final(self).failures@ == old(self).failures@.push(f)
                && final(self).written@ == old(self).written@,
    {
        match outcome.failure {
            None => self.written.push(outcome.file_name),
            Some(f) => self.failures.push(f),
        }
    }

    /// Whether every story's thread was written.
    pub fn is_complete(&self) -> (r: bool)
        ensures
            r == (self.failures@.len() == 0),
    {
        self.failures.len() == 0
    }

    /// The number of stories whose thread failed.
    pub fn failed_count(&self) -> (r: usize)
        ensures
            r == self.failures@.len(),
    {
        self.failures.len()
    }

    /// The number of thread documents written.
    pub fn written_count(&self) -> (r: usize)
        ensures
            r == self.written@.len(),
    {
        self.written.len()
    }
}

/// Gathers the outcomes of a run's stories into a report, in their order.
pub fn summarize(outcomes: Vec<ThreadOutcome>) -> (r: RunReport)
    ensures
        r.written@ == written_of(outcomes@),
        r.failures@ == failures_of(outcomes@),
{
    let ghost all = outcomes@;
    let mut rest = outcomes;
    let mut report = RunReport::new();
    let ghost done: int = 0;
    while rest.len() > 0
        invariant
            0 <= done <= all.len(),
            rest@ == all.skip(done),
            report.written@ == written_of(all.take(done)),
            report.failures@ == failures_of(all.take(done)),
        decreases rest.len(),
    {
        let outcome = rest.remove(0);
        proof {
            assert(outcome == all[done]);
            assert(all.take(done + 1).drop_last() =~= all.take(done));
            assert(all.take(done + 1).last() == all[done]);
        }
        report.record(outcome);
        proof {
            done = done + 1;
        }
        assert(rest@ =~= all.skip(done));
    }
    assert(all.take(done) =~= all);
    report
}

/// A run writes exactly one index and one thread document per story: where
/// the stories' short ids are distinct and none names the index, the names of
/// the files are pairwise distinct, one more than there are stories.
pub proof fn lemma_one_file_per_story(stories: Seq<Story>, d: Dialect)
    requires
        forall|i: int, j: int|
            0 <= i < j < stories.len() ==> stories[i].short_id@ != stories[j].short_id@,
        forall|i: int| 0 <= i < stories.len() ==> thread_file(#[trigger] stories[i], d) != d.index_file(),
    ensures
        output_names(stories, d).len() == stories.len() + 1,
        forall|i: int, j: int|
            0 <= i < j < stories.len() + 1 ==> output_names(stories, d)[i] != output_names(stories, d)[j],
{
    let names = output_names(stories, d);
    assert forall|i: int, j: int| 0 <= i < j < stories.len() + 1 implies names[i] != names[j] by {
        if i == 0 {
            assert(names[j] == thread_file(stories[j - 1], d));
        } else {
            let a = stories[i - 1].short_id@;
            let b = stories[j - 1].short_id@;
            if names[i] == names[j] {
                assert(names[i] == a + d.ext());
                assert(names[j] == b + d.ext());
                assert(a.len() == b.len());
                assert(a =~= (a + d.ext()).take(a.len() as int));
                assert(b =~= (b + d.ext()).take(b.len() as int));
            }
        }
    }
}

/// One story whose thread fails to be fetched takes nothing from the others:
/// where the thread of story `k` alone failed, every other story's document is
/// still rendered and bound for its own thread file, and story `k` alone is
/// recorded as failed, under its title.
pub proof fn lemma_batch_failure_isolated(
    stories: Seq<Story>,
    d: Dialect,
    fetched: Seq<Result<Vec<Comment>, (FailureKind, String)>>,
    actions: Seq<ThreadAction>,
    k: int,
)
    requires
        stories.len() == fetched.len() == actions.len(),
        forall|i: int| 0 <= i < actions.len() ==> fetch_step(#[trigger] actions[i], stories[i], d, fetched[i]),
        0 <= k < fetched.len(),
        fetched[k] is Err,
        forall|j: int| 0 <= j < fetched.len() && j != k ==> (#[trigger] fetched[j]) is Ok,
    ensures
        forall|j: int| 0 <= j < actions.len() && j != k ==> (#[trigger] actions[j] matches ThreadAction::Write { file_name, page }
            && file_name@ == thread_file(stories[j], d)
            && page@ == thread_text(fetched[j]->Ok_0@, stories[j], d)),
        actions[k] matches ThreadAction::Record(o) && (o.failure matches Some(f) && f.title
            == stories[k].title && f.short_id == stories[k].short_id),
{
    assert(fetch_step(actions[k], stories[k], d, fetched[k]));
    assert forall|j: int| 0 <= j < actions.len() && j != k implies (#[trigger] actions[j] matches ThreadAction::Write { file_name, page }
        && file_name@ == thread_file(stories[j], d)
        && page@ == thread_text(fetched[j]->Ok_0@, stories[j], d)) by {
        assert(fetched[j] is Ok);
        assert(fetch_step(actions[j], stories[j], d, fetched[j]));
    }
}

/// The file names of `outcomes`, in order.
pub open spec fn file_names(outcomes: Seq<ThreadOutcome>) -> Seq<String> {
    outcomes.map_values(|o: ThreadOutcome| o.file_name)
}

proof fn lemma_all_written(outcomes: Seq<ThreadOutcome>)
    requires
        forall|i: int| 0 <= i < outcomes.len() ==> (#[trigger] outcomes[i]).failure is None,
    ensures
        written_of(outcomes) == file_names(outcomes),
        failures_of(outcomes) == Seq::<Failure>::empty(),
    decreases outcomes.len(),
{
    if outcomes.len() > 0 {
        lemma_all_written(outcomes.drop_last());
        assert(outcomes.last().failure is None);
        assert(file_names(outcomes) =~= file_names(outcomes.drop_last()).push(outcomes.last().file_name));
    }
}

/// One failing story takes nothing from the others: where exactly the outcome
/// at `k` is a failure, the report holds that one failure and the documents of
/// every other story, in order.
pub proof fn lemma_failure_isolated(outcomes: Seq<ThreadOutcome>, k: int)
    requires
        0 <= k < outcomes.len(),
        outcomes[k].failure is Some,
        forall|i: int| 0 <= i < outcomes.len() && i != k ==> (#[trigger] outcomes[i]).failure is None,
    ensures
        failures_of(outcomes) == seq![outcomes[k].failure->0],
        written_of(outcomes) == file_names(outcomes).remove(k),
        written_of(outcomes).len() == outcomes.len() - 1,
    decreases outcomes.len(),
{
    let init = outcomes.drop_last();
    if k == outcomes.len() - 1 {
        assert forall|i: int| 0 <= i < init.len() implies (#[trigger] init[i]).failure is None by {
            assert(init[i] == outcomes[i]);
        }
        lemma_all_written(init);
        assert(file_names(outcomes).remove(k) =~= file_names(init));
        assert(failures_of(outcomes) =~= seq![outcomes[k].failure->0]);
    } else {
        assert forall|i: int| 0 <= i < init.len() && i != k implies (#[trigger] init[i]).failure is None by {
            assert(init[i] == outcomes[i]);
        }
        lemma_failure_isolated(init, k);
        assert(outcomes.last().failure is None);
        assert(file_names(outcomes).remove(k) =~= file_names(init).remove(k).push(
            outcomes.last().file_name,
        ));
    }
}

} // verus!
