use vstd::prelude::*;

use crate::download::{DownloadError, DownloadOutcome};

verus! {

/// File name used when a URL ends in `/`.
pub const FALLBACK_NAME: &'static str = "downloaded_file";

/// The characters after the last `/` (all of them when there is none).
pub open spec fn last_segment(s: Seq<char>) -> Seq<char>
    decreases s.len(),
{
    if s.len() == 0 {
        s
    } else if s.last() == '/' {
        Seq::empty()
    } else {
        last_segment(s.drop_last()).push(s.last())
    }
}

/// The local file a URL is saved to: its last `/`-delimited segment, or the
/// fallback name when that segment is empty.
pub open spec fn destination_of(url: Seq<char>) -> Seq<char> {
    if last_segment(url).len() == 0 {
        FALLBACK_NAME@
    } else {
        last_segment(url)
    }
}

/// One URL-to-file unit of work.
#[derive(Debug)]
pub struct DownloadJob {
    pub url: String,
    pub destination: String,
}

/// Why a run could not start.
#[derive(PartialEq, Eq, Structural, Clone, Copy, Debug)]
pub enum UsageError {
    /// No URL was given.
    NoUrls,
}

/// The name of the local file that `url` is saved to.
pub fn destination_for(url: &str) -> (r: String)
    ensures
        r@ == destination_of(url@),
{
    let n = url.unicode_len();
    let mut start: usize = 0;
    let mut i: usize = 0;
    proof {
        assert(url@.subrange(0, 0) =~= Seq::<char>::empty());
    }
    while i < n
        invariant
            n == url@.len(),
            start <= i <= n,
            last_segment(url@.subrange(0, i as int)) == url@.subrange(start as int, i as int),
        decreases n - i,
    {
        let c = url.get_char(i);
        proof {
            let pre = url@.subrange(0, i as int + 1);
            assert(pre.drop_last() =~= url@.subrange(0, i as int));
            assert(pre.last() == c);
        }
        if c == '/' {
            start = i + 1;
            proof {
                assert(url@.subrange(start as int, i as int + 1) =~= Seq::<char>::empty());
            }
        } else {
            proof {
                assert(url@.subrange(start as int, i as int).push(c) =~= url@.subrange(
                    start as int,
                    i as int + 1,
                ));
            }
        }
        i = i + 1;
    }
    proof {
        assert(url@.subrange(0, n as int) =~= url@);
    }
    if start == n {
        String::from_str(FALLBACK_NAME)
    } else {
        String::from_str(url.substring_char(start, n))
    }
}

/// One job per URL, in order; at least one URL is required.
pub fn plan_jobs(urls: &Vec<String>) -> (r: Result<Vec<DownloadJob>, UsageError>)
    ensures
        urls@.len() == 0 <==> r is Err,
        r is Err ==> r == Err::<Vec<DownloadJob>, UsageError>(UsageError::NoUrls),
        r matches Ok(jobs) ==> jobs@.len() == urls@.len() && forall|i: int|
            0 <= i < jobs@.len() ==> (#[trigger] jobs@[i]).url@ == urls@[i]@
                && jobs@[i].destination@ == destination_of(urls@[i]@),
{
    if urls.len() == 0 {
        return Err(UsageError::NoUrls);
    }
    let mut jobs: Vec<DownloadJob> = Vec::new();
    let mut i: usize = 0;
    while i < urls.len()
        invariant
            i <= urls@.len(),
            jobs@.len() == i,
            forall|k: int|
                0 <= k < i ==> (#[trigger] jobs@[k]).url@ == urls@[k]@ && jobs@[k].destination@
                    == destination_of(urls@[k]@),
        decreases urls@.len() - i,
    {
        let url = urls[i].clone();
        let destination = destination_for(urls[i].as_str());
        jobs.push(DownloadJob { url, destination });
        i = i + 1;
    }
    Ok(jobs)
}

/// Whether job `k` is the latest job before job `i` with the same destination.
pub open spec fn is_predecessor(jobs: Seq<DownloadJob>, k: int, i: int) -> bool {
    &&& 0 <= k < i
    &&& jobs[k].destination@ == jobs[i].destination@
    &&& forall|m: int| k < m < i ==> (#[trigger] jobs[m]).destination@ != jobs[i].destination@
}

/// For each job, the latest earlier job that writes the same file, if any.
/// Jobs that share a destination run one after another in this chain, so the
/// file ends up holding exactly what the last of them wrote.
pub fn same_destination_predecessors(jobs: &Vec<DownloadJob>) -> (r: Vec<Option<usize>>)
    ensures
        r@.len() == jobs@.len(),
        forall|i: int|
            0 <= i < r@.len() ==> match #[trigger] r@[i] {
                Some(k) => is_predecessor(jobs@, k as int, i),
                None => forall|m: int| 0 <= m < i ==> jobs@[m].destination@ != jobs@[i].destination@,
            },
{
    let mut r: Vec<Option<usize>> = Vec::new();
    let mut i: usize = 0;
    while i < jobs.len()
        invariant
            i <= jobs@.len(),
            r@.len() == i,
            forall|j: int|
                0 <= j < i ==> match #[trigger] r@[j] {
                    Some(k) => is_predecessor(jobs@, k as int, j),
                    None => forall|m: int| 0 <= m < j ==> jobs@[m].destination@ != jobs@[j].destination@,
                },
        decreases jobs@.len() - i,
    {
        let mut found: Option<usize> = None;
        let mut k: usize = i;
        while k > 0
            invariant_except_break
                found is None,
            invariant
                k <= i < jobs@.len(),
                forall|m: int| k <= m < i ==> (#[trigger] jobs@[m]).destination@ != jobs@[i as int].destination@,
            ensures
                found matches Some(p) ==> is_predecessor(jobs@, p as int, i as int),
                found is None ==> forall|m: int| 0 <= m < i ==> (#[trigger] jobs@[m]).destination@ != jobs@[i as int].destination@,
            decreases k,
        {
            if jobs[k - 1].destination == jobs[i].destination {
                found = Some(k - 1);
                break;
            }
            k = k - 1;
        }
        r.push(found);
        i = i + 1;
    }
    r
}

/// The first job, in the order given, that failed; none when all succeeded.
pub fn first_failure(outcomes: &Vec<DownloadOutcome>) -> (r: Option<usize>)
    ensures
        r is None <==> forall|i: int| 0 <= i < outcomes@.len() ==> (#[trigger] outcomes@[i]) is Ok,
        r matches Some(k) ==> k < outcomes@.len() && outcomes@[k as int] is Err && forall|i: int|
            0 <= i < k ==> (#[trigger] outcomes@[i]) is Ok,
{
    let mut i: usize = 0;
    while i < outcomes.len()
        invariant
            i <= outcomes@.len(),
            forall|k: int| 0 <= k < i ==> (#[trigger] outcomes@[k]) is Ok,
        decreases outcomes@.len() - i,
    {
        if outcomes[i].is_err() {
            return Some(i);
        }
        i = i + 1;
    }
    None
}

/// Process exit status of a run: zero exactly when every job succeeded.
pub fn exit_status(outcomes: &Vec<DownloadOutcome>) -> (r: i32)
    ensures
        r == 0 <==> forall|i: int| 0 <= i < outcomes@.len() ==> (#[trigger] outcomes@[i]) is Ok,
        r == 0 || r == 1,
{
    match first_failure(outcomes) {
        None => 0,
        Some(_) => 1,
    }
}

} // verus!
