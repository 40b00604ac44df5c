//! The bracket grouper: a state machine over the files of a run, in the
//! order they were found. Files that follow each other in one directory
//! with bracket indexes that count up by one form a group. A group is
//! known, with its length, only when it has ended; its files are held back
//! until then.

use vstd::prelude::*;
use crate::analysis::name_formatters::{BracketInfo, BracketInfoView};
use crate::analyzer::{SourceFile, SourceFileView};
use crate::text::same_text;

verus! {

/// What the metadata of a photo says about bracketing.
#[derive(Debug, Copy, Clone, PartialEq, Eq, Structural)]
pub struct BracketEXIFInformation {
    /// The place of the photo in its bracket sequence, counted from 1.
    pub index: u32,
}

/// What looking for bracketing in a file gave.
#[derive(Debug, Copy, Clone, PartialEq, Eq, Structural)]
pub enum Detection {
    /// The file is part of a bracket sequence.
    Bracketed(BracketEXIFInformation),
    /// The file is no part of a bracket sequence.
    Plain,
    /// The metadata could not be read.
    Failed,
}

/// A file that waits for its group to end.
#[derive(Debug, PartialEq, Eq)]
pub struct QueuedFile {
    pub file: SourceFile,
    pub index: u32,
}

/// The mathematical value of a `QueuedFile`.
pub struct QueuedView {
    pub file: SourceFileView,
    pub index: u32,
}

impl View for QueuedFile {
    type V = QueuedView;

    open spec fn view(&self) -> QueuedView {
        QueuedView { file: self.file@, index: self.index }
    }
}

/// A file that is ready to be named, with its place in a bracket group if
/// it has one.
#[derive(Debug, PartialEq, Eq)]
pub struct Job {
    pub file: SourceFile,
    pub bracket_info: Option<BracketInfo>,
}

/// The mathematical value of a `Job`.
pub struct JobView {
    pub file: SourceFileView,
    pub bracket_info: Option<BracketInfoView>,
}

impl View for Job {
    type V = JobView;

    open spec fn view(&self) -> JobView {
        JobView {
            file: self.file@,
            bracket_info: match self.bracket_info {
                Some(b) => Some(b@),
                None => None,
            },
        }
    }
}

/// The values of a list of jobs.
pub open spec fn job_views(jobs: Seq<Job>) -> Seq<JobView> {
    jobs.map_values(|j: Job| j@)
}

/// The values of a list of queued files.
pub open spec fn queue_views(queue: Seq<QueuedFile>) -> Seq<QueuedView> {
    queue.map_values(|q: QueuedFile| q@)
}

/// The grouper's state: the files of the group that is being gathered, and
/// the number of groups that have ended.
#[derive(Debug, PartialEq, Eq)]
pub struct BracketGrouper {
    pub queue: Vec<QueuedFile>,
    pub group_index: usize,
}

/// The mathematical value of a `BracketGrouper`.
pub struct GrouperView {
    pub queue: Seq<QueuedView>,
    pub group_index: usize,
}

impl View for BracketGrouper {
    type V = GrouperView;

    open spec fn view(&self) -> GrouperView {
        GrouperView { queue: queue_views(self.queue@), group_index: self.group_index }
    }
}

/// The place of the file with number `i` in a group that has ended.
pub open spec fn group_info(queue: Seq<QueuedView>, group_index: usize, i: int) -> BracketInfoView {
    BracketInfoView {
        sequence_number: queue[i].index,
        first: queue[0].file.path,
        last: queue[queue.len() - 1].file.path,
        first_name: queue[0].file.stem,
        last_name: queue[queue.len() - 1].file.stem,
        sequence_length: queue.len() as usize,
        group_index,
    }
}

/// The jobs of a group that has ended: one for each file, in order, all
/// with the same group facts and each with its own sequence number.
pub open spec fn group_jobs(queue: Seq<QueuedView>, group_index: usize) -> Seq<JobView> {
    Seq::new(
        queue.len(),
        |i: int| JobView { file: queue[i].file, bracket_info: Some(group_info(queue, group_index, i)) },
    )
}

/// Whether a file carries on the group that `last` is the end of: it lies
/// in the same directory and its index is the next.
pub open spec fn continues_group(last: QueuedView, file: SourceFileView, index: u32) -> bool {
    last.file.parent == file.parent && last.index + 1 == index
}

/// The state after the queue was flushed, and the jobs that came out. An
/// empty queue gives no group and leaves the count of groups as it is.
pub open spec fn flushed(state: GrouperView) -> (GrouperView, Seq<JobView>) {
    if state.queue.len() == 0 {
        (state, Seq::empty())
    } else {
        (
            GrouperView { queue: Seq::empty(), group_index: (state.group_index + 1) as usize },
            group_jobs(state.queue, state.group_index),
        )
    }
}

/// The state after one more file, and the jobs that it set free.
pub open spec fn stepped(state: GrouperView, file: SourceFileView, detection: Detection) -> (
    GrouperView,
    Seq<JobView>,
) {
    match detection {
        Detection::Bracketed(info) => {
            let queued = QueuedView { file, index: info.index };
            if state.queue.len() > 0 && !continues_group(
                state.queue[state.queue.len() - 1],
                file,
                info.index,
            ) {
                (
                    GrouperView { queue: seq![queued], group_index: flushed(state).0.group_index },
                    flushed(state).1,
                )
            } else {
                (
                    GrouperView {
                        queue: state.queue.push(queued),
                        group_index: state.group_index,
                    },
                    Seq::empty(),
                )
            }
        },
        _ => (flushed(state).0, flushed(state).1.push(JobView { file, bracket_info: None })),
    }
}

/// The files of a list of jobs, in order.
pub open spec fn job_files(jobs: Seq<JobView>) -> Seq<SourceFileView> {
    jobs.map_values(|j: JobView| j.file)
}

/// The files of a queue, in order.
pub open spec fn queue_files(queue: Seq<QueuedView>) -> Seq<SourceFileView> {
    queue.map_values(|q: QueuedView| q.file)
}

/// A flush loses no file and invents none: the files that come out,
/// followed by those that stay, are the files that were held, in order.
/// The files of one group agree on everything but the sequence number, and
/// the group's length is the number of its files.
pub proof fn lemma_flush_keeps_files(state: GrouperView)
    ensures
        job_files(flushed(state).1) + queue_files(flushed(state).0.queue) == queue_files(
            state.queue,
        ),
        flushed(state).0.queue.len() == 0,
        flushed(state).1.len() == state.queue.len(),
        forall|i: int|
            0 <= i < state.queue.len() ==> (#[trigger] flushed(state).1[i]).bracket_info == Some(
                group_info(state.queue, state.group_index, i),
            ),
{
}

/// A step loses no file and invents none: the files that come out,
/// followed by those that are held back, are the files that were held
/// before followed by the new file. The count of groups never goes down,
/// and it goes up by one exactly when a group comes out.
pub proof fn lemma_step_keeps_files(state: GrouperView, file: SourceFileView, detection: Detection)
    requires
        state.group_index < usize::MAX,
    ensures
        job_files(stepped(state, file, detection).1) + queue_files(
            stepped(state, file, detection).0.queue,
        ) == queue_files(state.queue).push(file),
        stepped(state, file, detection).0.group_index == state.group_index + (if exists|i: int|
            0 <= i < stepped(state, file, detection).1.len() && (#[trigger] stepped(
                state,
                file,
                detection,
            ).1[i]).bracket_info is Some {
            1int
        } else {
            0int
        }),
{
    lemma_flush_keeps_files(state);
    let after = stepped(state, file, detection);
    if state.queue.len() > 0 && flushed(state).1 == after.1 {
        assert(after.1[0].bracket_info is Some);
    }
}

/// The state and the jobs after a run of files, one step for each.
pub open spec fn ran(state: GrouperView, entries: Seq<(SourceFileView, Detection)>) -> (
    GrouperView,
    Seq<JobView>,
)
    decreases entries.len(),
{
    if entries.len() == 0 {
        (state, Seq::empty())
    } else {
        let before = ran(state, entries.drop_last());
        let step = stepped(before.0, entries.last().0, entries.last().1);
        (step.0, before.1 + step.1)
    }
}

/// The jobs of a whole run: those that the steps set free, then those of
/// the last flush.
pub open spec fn finished(state: GrouperView, entries: Seq<(SourceFileView, Detection)>) -> Seq<
    JobView,
> {
    ran(state, entries).1 + flushed(ran(state, entries).0).1
}

/// The files of a run, in the order they were found.
pub open spec fn entry_files(entries: Seq<(SourceFileView, Detection)>) -> Seq<SourceFileView> {
    entries.map_values(|e: (SourceFileView, Detection)| e.0)
}

/// A grouper that has seen no file.
pub open spec fn fresh() -> GrouperView {
    GrouperView { queue: Seq::empty(), group_index: 0 }
}

proof fn lemma_run(entries: Seq<(SourceFileView, Detection)>)
    requires
        entries.len() < usize::MAX,
    ensures
        ran(fresh(), entries).0.group_index <= entries.len(),
        job_files(ran(fresh(), entries).1) + queue_files(ran(fresh(), entries).0.queue)
            == entry_files(entries),
    decreases entries.len(),
{
    if entries.len() > 0 {
        let front = entries.drop_last();
        lemma_run(front);
        let before = ran(fresh(), front);
        let step = stepped(before.0, entries.last().0, entries.last().1);
        lemma_step_keeps_files(before.0, entries.last().0, entries.last().1);
        assert(entry_files(entries) =~= entry_files(front).push(entries.last().0));
    }
}

/// Over a whole run every file comes out exactly once, in the order in
/// which the files went in, whatever was found about their bracketing.
pub proof fn lemma_run_keeps_files(entries: Seq<(SourceFileView, Detection)>)
    requires
        entries.len() < usize::MAX,
    ensures
        job_files(finished(fresh(), entries)) == entry_files(entries),
{
    lemma_run(entries);
    let end = ran(fresh(), entries);
    lemma_flush_keeps_files(end.0);
}

fn same_parent(a: &Option<String>, b: &Option<String>) -> (same: bool)
    ensures
        same == (crate::text::option_text(*a) == crate::text::option_text(*b)),
{
    match (a, b) {
        (Some(x), Some(y)) => same_text(x.as_str(), y.as_str()),
        (None, None) => true,
        _ => false,
    }
}

impl BracketGrouper {
    /// A grouper that has seen no file.
    pub fn new() -> (grouper: BracketGrouper)
        ensures
            grouper@.queue.len() == 0,
            grouper@.group_index == 0,
    {
        BracketGrouper { queue: Vec::new(), group_index: 0 }
    }

    /// Ends the group that is being gathered and hands out its files. The
    /// group gets the next group number.
    pub fn drain_bracketed_queue(&mut self) -> (jobs: Vec<Job>)
        requires
            old(self).group_index < usize::MAX,
        ensures
            final(self)@ == flushed(old(self)@).0,
            job_views(jobs@) == flushed(old(self)@).1,
    {
        let mut jobs: Vec<Job> = Vec::new();
        let length = self.queue.len();
        if length == 0 {
            return jobs;
        }
        let ghost views = queue_views(self.queue@);
        let mut i: usize = 0;
        while i < length
            invariant
                i <= length,
                length == self.queue.len(),
                length > 0,
                self == old(self),
                views == queue_views(self.queue@),
                job_views(jobs@) == group_jobs(views, self.group_index).subrange(0, i as int),
            decreases length - i,
        {
            let queued = &self.queue[i];
            let first = &self.queue[0];
            let last = &self.queue[length - 1];
            let info = BracketInfo {
                sequence_number: queued.index,
                first: first.file.path.clone(),
                last: last.file.path.clone(),
                first_name: first.file.stem.clone(),
                last_name: last.file.stem.clone(),
                sequence_length: length,
                group_index: self.group_index,
            };
            let ghost before = job_views(jobs@);
            jobs.push(Job { file: queued.file.copy(), bracket_info: Some(info) });
            assert(job_views(jobs@) == before.push(
                group_jobs(views, self.group_index)[i as int],
            ));
            i += 1;
        }
        self.queue.clear();
        self.group_index = self.group_index + 1;
        assert(queue_views(self.queue@) == Seq::<QueuedView>::empty());
        jobs
    }

    /// Takes the next file of the run and says which files are ready now.
    /// A bracketed file that carries on the gathered group joins it and
    /// sets nothing free. One that does not ends the group and starts the
    /// next. A file that is not bracketed, or whose metadata could not be
    /// read, ends the group and is itself ready, after the group's files.
    pub fn push(&mut self, file: SourceFile, detection: Detection) -> (jobs: Vec<Job>)
        requires
            old(self).group_index < usize::MAX,
        ensures
            final(self)@ == stepped(old(self)@, file@, detection).0,
            job_views(jobs@) == stepped(old(self)@, file@, detection).1,
    {
        match detection {
            Detection::Bracketed(info) => {
                let length = self.queue.len();
                let carries_on = if length > 0 {
                    let last = &self.queue[length - 1];
                    same_parent(&last.file.parent, &file.parent) && last.index < u32::MAX
                        && last.index + 1 == info.index
                } else {
                    true
                };
                let jobs = if carries_on {
                    Vec::new()
                } else {
                    self.drain_bracketed_queue()
                };
                let ghost before = queue_views(self.queue@);
                self.queue.push(QueuedFile { file, index: info.index });
                assert(queue_views(self.queue@) == before.push(
                    QueuedView { file: file@, index: info.index },
                ));
                jobs
            },
            _ => {
                let mut jobs = self.drain_bracketed_queue();
                jobs.push(Job { file, bracket_info: None });
                jobs
            },
        }
    }

    /// Ends the run: the group that is being gathered, if any, is handed
    /// out.
    pub fn finish(&mut self) -> (jobs: Vec<Job>)
        requires
            old(self).group_index < usize::MAX,
        ensures
            final(self)@ == flushed(old(self)@).0,
            job_views(jobs@) == flushed(old(self)@).1,
    {
        self.drain_bracketed_queue()
    }
}

} // verus!
