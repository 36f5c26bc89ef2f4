use vstd::prelude::*;

use crate::download::{stats_after, sum, Action, DownloadView, Event, Phase};
use crate::report::percent_hundredths_of;
use vstd::arithmetic::div_mod::lemma_fundamental_div_mod;
use crate::stats::StatsView;

verus! {

/// Bytes written to the files of all the jobs.
pub open spec fn total_written(jobs: Seq<DownloadView>) -> nat
    decreases jobs.len(),
{
    if jobs.len() == 0 {
        0
    } else {
        total_written(jobs.drop_last()) + jobs.last().written()
    }
}

/// Content lengths declared for all the jobs; a job without one adds nothing.
pub open spec fn total_declared(jobs: Seq<DownloadView>) -> nat
    decreases jobs.len(),
{
    if jobs.len() == 0 {
        0
    } else {
        total_declared(jobs.drop_last()) + jobs.last().contributed_total()
    }
}

/// A job that has not had its response yet has neither a declared length
/// nor written chunks.
pub open spec fn job_well_formed(d: DownloadView) -> bool {
    d.phase == Phase::Requesting ==> d.advertised is None && d.chunks.len() == 0
}

/// A job as it is before its request is sent.
pub open spec fn fresh_job() -> DownloadView {
    DownloadView { phase: Phase::Requesting, advertised: None, chunks: Seq::empty() }
}

/// The shared counters account for exactly these jobs: the bytes downloaded
/// are the bytes written to their files, and the expected total is the sum of
/// their declared lengths.
pub open spec fn ledger(jobs: Seq<DownloadView>, s: StatsView) -> bool {
    &&& s.downloaded == total_written(jobs)
    &&& s.total == total_declared(jobs)
    &&& forall|j: int| 0 <= j < jobs.len() ==> job_well_formed(#[trigger] jobs[j])
}

proof fn lemma_totals_update(jobs: Seq<DownloadView>, j: int, d: DownloadView)
    requires
        0 <= j < jobs.len(),
    ensures
        total_written(jobs.update(j, d)) + jobs[j].written() == total_written(jobs) + d.written(),
        total_declared(jobs.update(j, d)) + jobs[j].contributed_total() == total_declared(jobs)
            + d.contributed_total(),
    decreases jobs.len(),
{
    let u = jobs.update(j, d);
    if j == jobs.len() - 1 {
        assert(u.drop_last() =~= jobs.drop_last());
    } else {
        assert(u.drop_last() =~= jobs.drop_last().update(j, d));
        lemma_totals_update(jobs.drop_last(), j, d);
    }
}

proof fn lemma_fresh_totals(n: nat)
    ensures
        total_written(Seq::new(n, |i: int| fresh_job())) == 0,
        total_declared(Seq::new(n, |i: int| fresh_job())) == 0,
    decreases n,
{
    if n > 0 {
        let jobs = Seq::new(n, |i: int| fresh_job());
        assert(jobs.drop_last() =~= Seq::new((n - 1) as nat, |i: int| fresh_job()));
        lemma_fresh_totals((n - 1) as nat);
    }
}

proof fn lemma_written_within_declared(jobs: Seq<DownloadView>)
    requires
        forall|j: int| 0 <= j < jobs.len() ==> (#[trigger] jobs[j]).written() <= jobs[j].contributed_total(),
    ensures
        total_written(jobs) <= total_declared(jobs),
    decreases jobs.len(),
{
    if jobs.len() > 0 {
        let rest = jobs.drop_last();
        assert forall|j: int| 0 <= j < rest.len() implies (#[trigger] rest[j]).written()
            <= rest[j].contributed_total() by {
            assert(rest[j] == jobs[j]);
        }
        lemma_written_within_declared(rest);
        assert(jobs[jobs.len() - 1].written() <= jobs[jobs.len() - 1].contributed_total());
    }
}

/// A run starts balanced: fresh counters account for any number of jobs that
/// have not yet sent their request.
pub proof fn lemma_ledger_starts_balanced(n: nat)
    ensures
        ledger(Seq::new(n, |i: int| fresh_job()), StatsView { downloaded: 0, total: 0 }),
{
    lemma_fresh_totals(n);
}

/// Whichever job takes a step, however the jobs interleave, the counters keep
/// accounting for all of them. So at the end of a run the bytes downloaded
/// equal the sum of the sizes of all the files written.
pub proof fn lemma_step_keeps_ledger(jobs: Seq<DownloadView>, s: StatsView, j: int, e: Event)
    requires
        ledger(jobs, s),
        0 <= j < jobs.len(),
        jobs[j].expects(e),
    ensures
        ledger(jobs.update(j, jobs[j].next(e)), stats_after(s, e)),
{
    let d = jobs[j];
    let d2 = d.next(e);
    lemma_totals_update(jobs, j, d2);
    if let Event::ChunkWritten { len } = e {
        assert(d2.chunks.drop_last() =~= d.chunks);
    }
    let u = jobs.update(j, d2);
    assert forall|k: int| 0 <= k < u.len() implies job_well_formed(#[trigger] u[k]) by {
        if k != j {
            assert(u[k] == jobs[k]);
        }
    }
}

/// Percent complete goes past one hundred only when some job wrote more
/// bytes than its server declared (a job without a declared length declares
/// nothing).
pub proof fn lemma_percent_within_hundred(jobs: Seq<DownloadView>, s: StatsView)
    requires
        ledger(jobs, s),
        s.total > 0,
        forall|j: int| 0 <= j < jobs.len() ==> (#[trigger] jobs[j]).written() <= jobs[j].contributed_total(),
    ensures
        percent_hundredths_of(s.downloaded, s.total) <= 10000,
{
    lemma_written_within_declared(jobs);
    let d = s.downloaded as int;
    let t = s.total as int;
    assert(d * 10000 / t <= 10000) by (nonlinear_arith)
        requires
            0 <= d <= t,
            t > 0,
    ;
}

/// The job after each of `lens` arrived as a written chunk, in order.
pub open spec fn stream_chunks(d: DownloadView, lens: Seq<u64>) -> DownloadView
    decreases lens.len(),
{
    if lens.len() == 0 {
        d
    } else {
        stream_chunks(d, lens.drop_last()).next(Event::ChunkWritten { len: lens.last() })
    }
}

/// The chunk lengths as numbers.
pub open spec fn lengths(lens: Seq<u64>) -> Seq<nat> {
    lens.map_values(|l: u64| l as nat)
}

/// The shared counters after each event of `events`, in order.
pub open spec fn stats_after_all(s: StatsView, events: Seq<Event>) -> StatsView
    decreases events.len(),
{
    if events.len() == 0 {
        s
    } else {
        stats_after(stats_after_all(s, events.drop_last()), events.last())
    }
}

/// A job that streams a whole body into its new file takes every chunk in
/// turn, and when the body ends it succeeds with the file's size: the sum of
/// the chunk lengths, in the order received. When the server's declared
/// length was truthful, that size is the declared length.
pub proof fn lemma_streamed_file_size(d: DownloadView, lens: Seq<u64>)
    requires
        d.phase == Phase::Streaming,
        d.chunks.len() == 0,
        sum(lengths(lens)) <= u64::MAX,
    ensures
        stream_chunks(d, lens).phase == Phase::Streaming,
        stream_chunks(d, lens).chunks == lengths(lens),
        stream_chunks(d, lens).advertised == d.advertised,
        stream_chunks(d, lens).expects(Event::StreamEnded),
        stream_chunks(d, lens).action_for(Event::StreamEnded) == Action::Finish(
            Ok(sum(lengths(lens)) as u64),
        ),
        d.advertised == Some(sum(lengths(lens))) ==> stream_chunks(d, lens).action_for(
            Event::StreamEnded,
        ) == Action::Finish(Ok(d.advertised->Some_0 as u64)),
{
    lemma_streamed_file_size_prefix(d, lens);
}

proof fn lemma_streamed_file_size_prefix(d: DownloadView, lens: Seq<u64>)
    requires
        d.phase == Phase::Streaming,
        d.chunks.len() == 0,
    ensures
        stream_chunks(d, lens).phase == Phase::Streaming,
        stream_chunks(d, lens).chunks == lengths(lens),
        stream_chunks(d, lens).advertised == d.advertised,
    decreases lens.len(),
{
    if lens.len() == 0 {
        assert(lengths(lens) =~= Seq::<nat>::empty());
        assert(d.chunks =~= Seq::<nat>::empty());
    } else {
        let rest = lens.drop_last();
        lemma_streamed_file_size_prefix(d, rest);
        assert(lengths(rest).push(lens.last() as nat) =~= lengths(lens));
    }
}

/// Over any run of events, whatever the jobs they come from, the bytes
/// downloaded and the expected total never fall.
pub proof fn lemma_counters_never_fall(s: StatsView, events: Seq<Event>)
    ensures
        stats_after_all(s, events).downloaded >= s.downloaded,
        stats_after_all(s, events).total >= s.total,
    decreases events.len(),
{
    if events.len() > 0 {
        lemma_counters_never_fall(s, events.drop_last());
    }
}

/// With the expected total unchanged, more bytes downloaded never show a
/// lower percent.
pub proof fn lemma_percent_never_falls(d1: nat, d2: nat, total: nat)
    requires
        d1 <= d2,
        total > 0,
    ensures
        percent_hundredths_of(d1, total) <= percent_hundredths_of(d2, total),
{
    let t = total as int;
    let a = d1 as int;
    let b = d2 as int;
    let x = a * 10000;
    let y = b * 10000;
    assert(x <= y);
    lemma_fundamental_div_mod(x, t);
    lemma_fundamental_div_mod(y, t);
    assert(x / t <= y / t) by (nonlinear_arith)
        requires
            0 <= x <= y,
            t > 0,
    ;
    if x % t != 0 && y % t == 0 {
        assert(x / t < y / t) by (nonlinear_arith)
            requires
                x == t * (x / t) + x % t,
                y == t * (y / t),
                0 < x % t < t,
                x <= y,
                t > 0,
        ;
    }
}

} // verus!
