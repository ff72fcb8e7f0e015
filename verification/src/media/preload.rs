//! Planning and reporting of a preload: which files to decode, with how
//! many workers, and what to say about the progress.

use vstd::prelude::*;

verus! {

/// Largest number of workers of a preload.
pub const MAX_WORKERS: usize = 8;

/// What a preload is to do.
#[derive(Clone, Debug, PartialEq, Eq)]
pub struct PreloadPlan {
    /// The files to decode, each once.
    pub paths: Vec<String>,
    /// Number of files, as the progress reports count it.
    pub total: u32,
    /// Number of workers.
    pub workers: usize,
}

/// A line of the progress report.
#[derive(Clone, Copy, Debug, PartialEq, Eq, Structural)]
pub enum ProgressLine {
    /// So many of so many files are done.
    Progress {
        /// Files done.
        current: u32,
        /// Files in all.
        total: u32,
    },
    /// The preload is over.
    Finished,
}

/// Reports the progress of a preload: a line each second until the work is
/// done, then the closing line.
#[derive(Clone, Copy, Debug, PartialEq, Eq, Structural)]
pub struct ProgressReporter {
    /// Files in all.
    total: u32,
    /// Whether the closing line was given.
    closed: bool,
}

/// Whether a text stands in a list of texts.
pub open spec fn holds(list: Seq<String>, text: Seq<char>) -> bool {
    exists|i: int| 0 <= i < list.len() && (#[trigger] list[i])@ == text
}

/// A list of files without its repetitions: each file where it stands
/// first.
pub open spec fn deduped(files: Seq<String>) -> Seq<String>
    decreases files.len(),
{
    if files.len() == 0 {
        Seq::empty()
    } else {
        let before = deduped(files.drop_last());
        if holds(before, files.last()@) {
            before
        } else {
            before.push(files.last())
        }
    }
}

/// Number of workers for a machine that can run `available` threads at a
/// time: that number, but one at least and eight at most; one where the
/// machine does not say.
pub open spec fn workers_for(available: Option<usize>) -> usize {
    match available {
        Some(n) => if n < 1 {
            1
        } else if n > MAX_WORKERS {
            MAX_WORKERS
        } else {
            n
        },
        None => 1,
    }
}

/// A count of files as the progress reports hold it.
pub open spec fn counted(n: nat) -> u32 {
    if n > u32::MAX {
        u32::MAX
    } else {
        n as u32
    }
}

/// The decimal digits of a number.
pub open spec fn decimal(n: nat) -> Seq<char>
    decreases n,
{
    if n < 10 {
        seq![digit(n)]
    } else {
        decimal(n / 10).push(digit(n % 10))
    }
}

/// The character of a digit.
pub open spec fn digit(d: nat) -> char {
    if d == 0 {
        '0'
    } else if d == 1 {
        '1'
    } else if d == 2 {
        '2'
    } else if d == 3 {
        '3'
    } else if d == 4 {
        '4'
    } else if d == 5 {
        '5'
    } else if d == 6 {
        '6'
    } else if d == 7 {
        '7'
    } else if d == 8 {
        '8'
    } else {
        '9'
    }
}

/// The text of a progress line: files done, a slash, files in all.
pub open spec fn progress_text(current: u32, total: u32) -> Seq<char> {
    decimal(current as nat) + seq!['/'] + decimal(total as nat)
}

/// Every file of a list stands in the list without repetitions, which holds
/// no file twice and nothing else.
pub proof fn deduped_is_the_same_set(files: Seq<String>)
    ensures
        forall|i: int| 0 <= i < files.len() ==> holds(deduped(files), (#[trigger] files[i])@),
        forall|i: int|
            0 <= i < deduped(files).len() ==> holds(files, (#[trigger] deduped(files)[i])@),
        forall|i: int, j: int|
            0 <= i < j < deduped(files).len() ==> (#[trigger] deduped(files)[i])@ != (
            #[trigger] deduped(files)[j])@,
        deduped(files).len() <= files.len(),
    decreases files.len(),
{
    if files.len() > 0 {
        let rest = files.drop_last();
        let before = deduped(rest);
        let out = deduped(files);
        deduped_is_the_same_set(rest);
        assert forall|i: int| 0 <= i < files.len() implies holds(out, (#[trigger] files[i])@) by {
            if i < files.len() - 1 {
                assert(rest[i] == files[i]);
                let k = choose|k: int| 0 <= k < before.len() && (#[trigger] before[k])@ == rest[i]@;
                assert(out[k] == before[k]);
            } else if holds(before, files.last()@) {
                let k = choose|k: int|
                    0 <= k < before.len() && (#[trigger] before[k])@ == files.last()@;
                assert(out[k] == before[k]);
            } else {
                assert(out[out.len() - 1] == files.last());
            }
        }
        assert forall|i: int| 0 <= i < out.len() implies holds(files, (#[trigger] out[i])@) by {
            if i < before.len() {
                assert(out[i] == before[i]);
                let k = choose|k: int| 0 <= k < rest.len() && (#[trigger] rest[k])@ == before[i]@;
                assert(files[k] == rest[k]);
            } else {
                assert(files[files.len() - 1] == files.last());
            }
        }
        assert forall|i: int, j: int| 0 <= i < j < out.len() implies (#[trigger] out[i])@ != (
        #[trigger] out[j])@ by {
            if j < before.len() {
                assert(out[i] == before[i] && out[j] == before[j]);
            } else {
                assert(out[i] == before[i]);
            }
        }
    }
}

/// Tells whether a text stands in a list of texts.
fn list_holds(list: &Vec<String>, text: &String) -> (found: bool)
    ensures
        found == holds(list@, text@),
{
    let mut i: usize = 0;
    while i < list.len()
        invariant
            i <= list.len(),
            forall|j: int| 0 <= j < i ==> (#[trigger] list@[j])@ != text@,
        decreases list.len() - i,
    {
        if list[i] == *text {
            return true;
        }
        i += 1;
    }
    false
}

/// Drops the repetitions from a list of files.
pub fn unique_paths(files: &Vec<String>) -> (paths: Vec<String>)
    ensures
        paths@ == deduped(files@),
{
    let mut paths: Vec<String> = Vec::new();
    let mut i: usize = 0;
    while i < files.len()
        invariant
            i <= files.len(),
            paths@ == deduped(files@.take(i as int)),
        decreases files.len() - i,
    {
        assert(files@.take(i + 1).drop_last() =~= files@.take(i as int));
        assert(files@.take(i + 1).last() == files@[i as int]);
        if !list_holds(&paths, &files[i]) {
            paths.push(files[i].clone());
        }
        i += 1;
    }
    assert(files@.take(i as int) =~= files@);
    paths
}

/// Picks the number of workers.
pub fn worker_count(available: Option<usize>) -> (workers: usize)
    ensures
        workers == workers_for(available),
        1 <= workers <= MAX_WORKERS,
{
    match available {
        Some(n) => if n < 1 {
            1
        } else if n > MAX_WORKERS {
            MAX_WORKERS
        } else {
            n
        },
        None => 1,
    }
}

/// Plans the preload of a list of files on a machine that can run
/// `available` threads at a time.
pub fn plan_preload(files: &Vec<String>, available: Option<usize>) -> (plan: PreloadPlan)
    ensures
        plan.paths@ == deduped(files@),
        plan.total == counted(plan.paths@.len()),
        plan.workers == workers_for(available),
{
    let paths = unique_paths(files);
    let total: u32 = if paths.len() > u32::MAX as usize {
        u32::MAX
    } else {
        paths.len() as u32
    };
    PreloadPlan { paths, total, workers: worker_count(available) }
}

impl ProgressReporter {
    /// Files in all.
    pub closed spec fn total(&self) -> u32 {
        self.total
    }

    /// Whether the closing line was given.
    pub closed spec fn is_closed(&self) -> bool {
        self.closed
    }

    /// Starts the report of a preload of `total` files. A preload of no
    /// file is over at once: its report is one progress line and the
    /// closing line.
    pub fn start(total: u32) -> (started: (Self, Vec<ProgressLine>))
        ensures
            started.0.total() == total,
            started.0.is_closed() == (total == 0),
            started.1@ == if total == 0 {
                seq![ProgressLine::Progress { current: 0, total: 0 }, ProgressLine::Finished]
            } else {
                Seq::<ProgressLine>::empty()
            },
    {
        let mut lines: Vec<ProgressLine> = Vec::new();
        if total == 0 {
            lines.push(ProgressLine::Progress { current: 0, total: 0 });
            lines.push(ProgressLine::Finished);
        }
        (ProgressReporter { total, closed: total == 0 }, lines)
    }

    /// Tells whether the report is over.
    pub fn finished(&self) -> (closed: bool)
        ensures
            closed == self.is_closed(),
    {
        self.closed
    }

    /// The lines due when a second has passed, with `loaded` files done and
    /// `done` telling whether the workers have finished: the progress, and
    /// the closing line once the workers have finished. A report that is
    /// over gives no more lines.
    pub fn on_second(&mut self, loaded: u32, done: bool) -> (lines: Vec<ProgressLine>)
        ensures
            final(self).total() == old(self).total(),
            final(self).is_closed() == (old(self).is_closed() || done),
            lines@ == if old(self).is_closed() {
                Seq::<ProgressLine>::empty()
            } else if done {
                seq![
                    ProgressLine::Progress { current: loaded, total: old(self).total() },
                    ProgressLine::Finished,
                ]
            } else {
                seq![ProgressLine::Progress { current: loaded, total: old(self).total() }]
            },
    {
        let mut lines: Vec<ProgressLine> = Vec::new();
        if !self.closed {
            lines.push(ProgressLine::Progress { current: loaded, total: self.total });
            if done {
                lines.push(ProgressLine::Finished);
                self.closed = true;
            }
        }
        lines
    }
}

/// `format!` of std with two numbers and a slash between them. The
/// contract says that the text is the decimal digits of the first number, a
/// slash, and the decimal digits of the second, which is how `Display`
/// writes an unsigned integer.
#[verifier::external_body]
fn format_progress(current: u32, total: u32) -> (text: String)
    ensures
        text@ == progress_text(current, total),
{
    format!("{}/{}", current, total)
}

/// The text of a progress line, or none for the closing line.
pub fn line_text(line: ProgressLine) -> (text: Option<String>)
    ensures
        match line {
            ProgressLine::Progress { current, total } => text matches Some(t) && t@
                == progress_text(current, total),
            ProgressLine::Finished => text is None,
        },
{
    match line {
        ProgressLine::Progress { current, total } => Some(format_progress(current, total)),
        ProgressLine::Finished => None,
    }
}

} // verus!
