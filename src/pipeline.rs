use vstd::prelude::*;
use crate::finding::{Finding, FindingKey, ScanResult};
use crate::output::OutputMethods;
use crate::scanner::{all_wf, handle_file, opt_view, scan_all, FileEntry, Scanner};

verus! {

broadcast use vstd::seq_lib::group_to_multiset_ensures;

/// What a worker saw when it polled the work queue.
#[derive(PartialEq, Eq, Structural, Clone, Copy, Debug)]
pub enum WorkEvent {
    /// An entry was taken from the queue.
    Received,
    /// The queue is open but holds nothing at the moment.
    Empty,
    /// The queue is closed and drained.
    Disconnected,
}

/// What a worker does next.
#[derive(PartialEq, Eq, Structural, Clone, Copy, Debug)]
pub enum WorkerAction {
    /// Run the scanner set on the entry just received, then send its result.
    Scan,
    /// Sleep a short while, then poll again.
    Backoff,
    /// Poll the queue again at once.
    Poll,
    /// Release the worker's resources and end it.
    Stop,
}

/// The worker's decision after polling the work queue.
pub fn next_action(event: WorkEvent) -> (r: WorkerAction)
    ensures
        event == WorkEvent::Received ==> r == WorkerAction::Scan,
        event == WorkEvent::Empty ==> r == WorkerAction::Backoff,
        event == WorkEvent::Disconnected ==> r == WorkerAction::Stop,
{
    match event {
        WorkEvent::Received => WorkerAction::Scan,
        WorkEvent::Empty => WorkerAction::Backoff,
        WorkEvent::Disconnected => WorkerAction::Stop,
    }
}

/// The worker's decision after handing a result to the collector: go on
/// polling, or stop when the collector is gone.
pub fn after_send(delivered: bool) -> (r: WorkerAction)
    ensures
        delivered ==> r == WorkerAction::Poll,
        !delivered ==> r == WorkerAction::Stop,
{
    if delivered {
        WorkerAction::Poll
    } else {
        WorkerAction::Stop
    }
}

/// The records that the collector writes for one result: none for a file
/// without findings, else one per finding in order.
pub fn collect(methods: &OutputMethods, result: &ScanResult) -> (r: Vec<String>)
    ensures
        result.spec_findings().len() == 0 ==> r@.len() == 0,
        r@.map_values(|s: String| s@) == methods.spec_records(result.spec_findings()),
{
    if result.has_findings() {
        methods.print_result(result)
    } else {
        let r: Vec<String> = Vec::new();
        assert(r@.map_values(|s: String| s@) =~= methods.spec_records(result.spec_findings()));
        r
    }
}

/// A file as the scanners see it: path, base name, and content when it could be read.
pub type FileInput = (Seq<char>, Seq<char>, Option<Seq<u8>>);

/// One file handed to a worker, with its content when it could be read.
pub struct ScanJob {
    pub entry: FileEntry,
    pub content: Option<Vec<u8>>,
}

impl ScanJob {
    pub open spec fn input(&self) -> FileInput {
        (self.entry.path@, self.entry.name@, opt_view(&self.content))
    }
}

pub open spec fn inputs_of(jobs: Seq<ScanJob>) -> Seq<FileInput> {
    jobs.map_values(|j: ScanJob| j.input())
}

/// The findings of the scanner set for one file.
pub open spec fn file_findings(scanners: Seq<Scanner>, f: FileInput) -> Seq<FindingKey> {
    scan_all(scanners, f.0, f.1, f.2)
}

/// The findings of a whole run, file after file in the order the results arrive.
pub open spec fn run_findings(scanners: Seq<Scanner>, files: Seq<FileInput>) -> Seq<FindingKey>
    decreases files.len(),
{
    if files.len() == 0 {
        seq![]
    } else {
        run_findings(scanners, files.drop_last()) + file_findings(scanners, files.last())
    }
}

/// Scans the files one after another, as a single worker would.
pub fn scan_files(scanners: &Vec<Scanner>, jobs: &Vec<ScanJob>) -> (r: Vec<ScanResult>)
    requires
        all_wf(scanners@),
        forall|i: int| 0 <= i < jobs@.len() ==> (#[trigger] jobs@[i]).entry.name@.len() < usize::MAX,
    ensures
        r@.len() == jobs@.len(),
        forall|i: int| 0 <= i < jobs@.len() ==> (#[trigger] r@[i]).spec_path() == jobs@[i].entry.path@
            && r@[i].spec_findings().map_values(|f: Finding| f.key()) == file_findings(scanners@, jobs@[i].input()),
{
    let mut out: Vec<ScanResult> = Vec::new();
    let mut i: usize = 0;
    while i < jobs.len()
        invariant
            i <= jobs@.len(),
            out@.len() == i,
            all_wf(scanners@),
            forall|k: int| 0 <= k < jobs@.len() ==> (#[trigger] jobs@[k]).entry.name@.len() < usize::MAX,
            forall|k: int| 0 <= k < i ==> (#[trigger] out@[k]).spec_path() == jobs@[k].entry.path@
                && out@[k].spec_findings().map_values(|f: Finding| f.key()) == file_findings(scanners@, jobs@[k].input()),
        decreases jobs@.len() - i,
    {
        let job = &jobs[i];
        out.push(handle_file(scanners, &job.entry, &job.content));
        i = i + 1;
    }
    out
}

proof fn lemma_run_remove(scanners: Seq<Scanner>, files: Seq<FileInput>, k: int)
    requires
        0 <= k < files.len(),
    ensures
        run_findings(scanners, files).to_multiset() =~= run_findings(scanners, files.remove(k)).to_multiset().add(
            file_findings(scanners, files[k]).to_multiset(),
        ),
    decreases files.len(),
{
    broadcast use vstd::seq_lib::lemma_multiset_commutative;
    broadcast use vstd::multiset::group_multiset_axioms;

    if k == files.len() - 1 {
        assert(files.remove(k) =~= files.drop_last());
    } else {
        let rest = files.drop_last();
        lemma_run_remove(scanners, rest, k);
        assert(files.remove(k).drop_last() =~= rest.remove(k));
        assert(files.remove(k).last() == files.last());
    }
}

/// The findings of a run do not depend on the order in which the files'
/// results reach the collector: any arrival order of the same files, which is
/// what any number of workers produces, yields the same multiset of findings,
/// each finding of each file exactly as often as one worker alone yields it.
pub proof fn lemma_arrival_order_irrelevant(scanners: Seq<Scanner>, files: Seq<FileInput>, arrival: Seq<FileInput>)
    requires
        arrival.to_multiset() == files.to_multiset(),
    ensures
        run_findings(scanners, arrival).to_multiset() == run_findings(scanners, files).to_multiset(),
    decreases files.len(),
{
    broadcast use vstd::seq_lib::lemma_multiset_commutative;
    broadcast use vstd::multiset::group_multiset_axioms;

    if files.len() == 0 {
        assert(arrival.to_multiset().len() == 0);
        assert(arrival =~= seq![]);
    } else {
        let x = files.last();
        assert(files =~= files.drop_last().push(x));
        assert(files.to_multiset().count(x) > 0);
        assert(arrival.contains(x));
        let k = choose|k: int| 0 <= k < arrival.len() && arrival[k] == x;
        assert(arrival.remove(k).to_multiset() =~= files.drop_last().to_multiset());
        lemma_arrival_order_irrelevant(scanners, files.drop_last(), arrival.remove(k));
        lemma_run_remove(scanners, arrival, k);
    }
}

/// Running the pipeline again on the same files with the same scanners yields
/// the same multiset of findings, whatever order the files are met in each time.
pub proof fn lemma_rerun_same_findings(scanners: Seq<Scanner>, first: Seq<FileInput>, second: Seq<FileInput>)
    requires
        first.to_multiset() == second.to_multiset(),
    ensures
        run_findings(scanners, first).to_multiset() == run_findings(scanners, second).to_multiset(),
{
    lemma_arrival_order_irrelevant(scanners, first, second);
}

} // verus!
