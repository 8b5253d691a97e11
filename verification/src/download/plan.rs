//! Download plans: jobs, their checksums, and the checks a plan must pass
//! before any transfer starts.

use vstd::prelude::*;

use super::paths::{issue_message, path_issue, validate_relative_path};
use super::DownloadError;
use crate::net::{allowed_url, url_allowed};
use crate::text::{chars_equal, chars_of, hex_text, is_hex_digit, lower_chars, lower_seq};

verus! {

/// An integrity value supplied by trusted metadata: the hexadecimal digest.
#[derive(Debug, Clone, PartialEq, Eq)]
pub enum Checksum {
    Sha1(String),
    Sha256(String),
}

impl Checksum {
    /// The digest text.
    pub open spec fn digest_view(self) -> Seq<char> {
        match self {
            Checksum::Sha1(v) => v@,
            Checksum::Sha256(v) => v@,
        }
    }

    /// Number of hexadecimal digits in a well-formed digest of this kind.
    pub open spec fn digest_len(self) -> nat {
        match self {
            Checksum::Sha1(_) => 40,
            Checksum::Sha256(_) => 64,
        }
    }

    /// A checksum is well formed when it has the digit count of its algorithm.
    pub open spec fn well_formed(self) -> bool {
        hex_text(self.digest_view(), self.digest_len())
    }

    /// The message reporting a malformed checksum of this kind.
    pub open spec fn invalid_message(self) -> Seq<char> {
        match self {
            Checksum::Sha1(_) => "invalid SHA-1 checksum"@,
            Checksum::Sha256(_) => "invalid SHA-256 checksum"@,
        }
    }

    /// Accepts the checksum when it is well formed; otherwise an
    /// `InvalidPlan` error naming the algorithm.
    pub fn validate(&self) -> (r: Result<(), DownloadError>)
        ensures
            self.well_formed() ==> r is Ok,
            !self.well_formed() ==> (r matches Err(DownloadError::InvalidPlan(m)) && m@
                == self.invalid_message()),
    {
        let (value, length): (&String, usize) = match self {
            Checksum::Sha1(v) => (v, 40),
            Checksum::Sha256(v) => (v, 64),
        };
        let chars = chars_of(value.as_str());
        assert(chars@ == self.digest_view() && length == self.digest_len());
        let mut ok = chars.len() == length;
        let mut i: usize = 0;
        while ok && i < chars.len()
            invariant
                i <= chars.len(),
                ok ==> forall|k: int| 0 <= k < i ==> is_hex_digit(chars@[k]),
                ok ==> chars@.len() == length,
                !ok ==> !hex_text(chars@, length as nat),
            decreases chars.len() - i,
        {
            let c = chars[i];
            if !(('0' <= c && c <= '9') || ('a' <= c && c <= 'f') || ('A' <= c && c <= 'F')) {
                assert(!is_hex_digit(chars@[i as int]));
                ok = false;
            }
            i += 1;
        }
        if ok {
            Ok(())
        } else {
            let message = match self {
                Checksum::Sha1(_) => String::from_str("invalid SHA-1 checksum"),
                Checksum::Sha256(_) => String::from_str("invalid SHA-256 checksum"),
            };
            Err(DownloadError::InvalidPlan(message))
        }
    }
}

/// A single immutable transfer description.
#[derive(Debug, Clone)]
pub struct DownloadJob {
    pub id: String,
    /// The absolute URL text to fetch.
    pub url: String,
    /// Path below the manager's configured destination root, `/`-separated.
    pub destination: String,
    pub expected_size: Option<u64>,
    pub checksum: Option<Checksum>,
}

/// A set of independent downloads.
#[derive(Debug, Clone)]
pub struct DownloadPlan {
    pub jobs: Vec<DownloadJob>,
}

impl Default for DownloadPlan {
    /// The plan with no jobs.
    fn default() -> (r: DownloadPlan)
        ensures
            r.jobs@.len() == 0,
    {
        DownloadPlan { jobs: Vec::new() }
    }
}

/// Whether an earlier job than `k` has the id of job `k`.
pub open spec fn id_taken(jobs: Seq<DownloadJob>, k: int) -> bool {
    exists|j: int| 0 <= j < k && jobs[j].id@ == jobs[k].id@
}

/// Whether an earlier job than `k` has the destination of job `k`, ignoring ASCII case.
pub open spec fn destination_taken(jobs: Seq<DownloadJob>, k: int) -> bool {
    exists|j: int|
        0 <= j < k && lower_seq(jobs[j].destination@) == lower_seq(jobs[k].destination@)
}

/// The message refusing job `k` of a plan whose earlier jobs all passed, if any.
pub open spec fn job_problem(jobs: Seq<DownloadJob>, k: int) -> Option<Seq<char>> {
    let job = jobs[k];
    if job.id@.len() == 0 || id_taken(jobs, k) {
        Some("job IDs must be non-empty and unique"@)
    } else if path_issue(job.destination@) is Some {
        Some(issue_message(path_issue(job.destination@)->Some_0, job.destination@))
    } else if destination_taken(jobs, k) {
        Some("duplicate destination: "@ + job.destination@)
    } else if !url_allowed(job.url@) {
        Some("URL must use HTTPS: "@ + job.url@)
    } else {
        match job.checksum {
            Some(c) => if c.well_formed() {
                None
            } else {
                Some(c.invalid_message())
            },
            None => None,
        }
    }
}

/// The message refusing the first of the first `n` jobs that is refused, if any.
pub open spec fn plan_problem(jobs: Seq<DownloadJob>, n: int) -> Option<Seq<char>>
    decreases n,
{
    if n <= 0 {
        None
    } else {
        match plan_problem(jobs, n - 1) {
            Some(m) => Some(m),
            None => job_problem(jobs, n - 1),
        }
    }
}

proof fn lemma_plan_problem_extends(jobs: Seq<DownloadJob>, m: int, n: int)
    requires
        0 <= m <= n,
        plan_problem(jobs, m) is Some,
    ensures
        plan_problem(jobs, n) == plan_problem(jobs, m),
    decreases n - m,
{
    if n > m {
        lemma_plan_problem_extends(jobs, m, n - 1);
    }
}

/// Whether `r` is the outcome that `validate_plan` owes for `jobs`.
pub open spec fn plan_outcome(jobs: Seq<DownloadJob>, r: Result<(), DownloadError>) -> bool {
    match plan_problem(jobs, jobs.len() as int) {
        None => r is Ok,
        Some(m) => match r {
            Err(DownloadError::InvalidPlan(e)) => e@ == m,
            _ => false,
        },
    }
}

fn text_with(prefix: &str, rest: &String) -> (r: String)
    ensures
        r@ == prefix@ + rest@,
{
    let mut r = String::from_str(prefix);
    r.append(rest.as_str());
    r
}

/// Checks a plan: job ids non-empty and unique, destinations safe and unique
/// (ignoring ASCII case), URLs allowed, checksums well formed. The first
/// refused job, in order, decides the error.
pub fn validate_plan(plan: &DownloadPlan) -> (r: Result<(), DownloadError>)
    ensures
        plan_outcome(plan.jobs@, r),
{
    let jobs = &plan.jobs;
    let mut folded: Vec<Vec<char>> = Vec::new();
    let mut k: usize = 0;
    while k < jobs.len()
        invariant
            jobs@ == plan.jobs@,
            k <= jobs.len(),
            folded@.len() == k,
            forall|j: int| 0 <= j < k ==> #[trigger] folded@[j]@ == lower_seq(jobs@[j].destination@),
            plan_problem(jobs@, k as int) is None,
        decreases jobs.len() - k,
    {
        let job = &jobs[k];
        let ghost n = jobs@.len() as int;
        assert(plan_problem(jobs@, k + 1) == job_problem(jobs@, k as int));
        let mut taken = false;
        let mut j: usize = 0;
        while j < k
            invariant
                k < jobs.len(),
                j <= k,
                job == jobs@[k as int],
                taken == exists|i: int| 0 <= i < j && jobs@[i].id@ == jobs@[k as int].id@,
            decreases k - j,
        {
            if jobs[j].id == job.id {
                taken = true;
            }
            j += 1;
        }
        if job.id.as_str().is_empty() || taken {
            proof { lemma_plan_problem_extends(jobs@, k + 1, n); }
            return Err(DownloadError::InvalidPlan(String::from_str("job IDs must be non-empty and unique")));
        }
        // destination
        match validate_relative_path(job.destination.as_str()) {
            Ok(()) => {},
            Err(e) => {
                proof { lemma_plan_problem_extends(jobs@, k + 1, n); }
                return Err(e);
            },
        }
        let lowered = lower_chars(&chars_of(job.destination.as_str()));
        let mut dup = false;
        let mut j: usize = 0;
        while j < k
            invariant
                k < jobs.len(),
                j <= k,
                folded@.len() == k,
                forall|i: int| 0 <= i < k ==> #[trigger] folded@[i]@ == lower_seq(jobs@[i].destination@),
                lowered@ == lower_seq(jobs@[k as int].destination@),
                dup == exists|i: int| 0 <= i < j && lower_seq(jobs@[i].destination@) == lowered@,
            decreases k - j,
        {
            if chars_equal(&folded[j], &lowered) {
                dup = true;
            }
            j += 1;
        }
        if dup {
            proof { lemma_plan_problem_extends(jobs@, k + 1, n); }
            return Err(DownloadError::InvalidPlan(text_with("duplicate destination: ", &job.destination)));
        }
        if !allowed_url(job.url.as_str()) {
            proof { lemma_plan_problem_extends(jobs@, k + 1, n); }
            return Err(DownloadError::InvalidPlan(text_with("URL must use HTTPS: ", &job.url)));
        }
        match &job.checksum {
            Some(checksum) => {
                match checksum.validate() {
                    Ok(()) => {},
                    Err(e) => {
                        proof { lemma_plan_problem_extends(jobs@, k + 1, n); }
                        return Err(e);
                    },
                }
            },
            None => {},
        }
        folded.push(lowered);
        k += 1;
    }
    Ok(())
}

/// What an accepted plan guarantees of each job.
pub open spec fn job_accepted(jobs: Seq<DownloadJob>, k: int) -> bool {
    let job = jobs[k];
    &&& job.id@.len() > 0
    &&& forall|j: int| 0 <= j < k ==> jobs[j].id@ != job.id@
    &&& path_issue(job.destination@) is None
    &&& forall|j: int| 0 <= j < k ==> lower_seq(jobs[j].destination@) != lower_seq(job.destination@)
    &&& url_allowed(job.url@)
    &&& (job.checksum matches Some(c) ==> c.well_formed())
}

/// Every job of an accepted plan has a unique non-empty id, a safe destination
/// that no earlier job uses (ignoring ASCII case), an allowed URL and a
/// well-formed checksum.
pub proof fn law_accepted_plan_jobs(jobs: Seq<DownloadJob>, n: int)
    requires
        0 <= n <= jobs.len(),
        plan_problem(jobs, n) is None,
    ensures
        forall|k: int| 0 <= k < n ==> #[trigger] job_accepted(jobs, k),
    decreases n,
{
    if n > 0 {
        law_accepted_plan_jobs(jobs, n - 1);
        assert(job_problem(jobs, n - 1) is None);
        assert(job_accepted(jobs, n - 1));
    }
}

/// The first `n` jobs raise no problem exactly when each of them is
/// acceptable.
proof fn lemma_plan_problem_none(jobs: Seq<DownloadJob>, n: int)
    requires
        0 <= n <= jobs.len(),
    ensures
        plan_problem(jobs, n) is None <==> forall|k: int| 0 <= k < n ==> #[trigger] job_accepted(jobs, k),
    decreases n,
{
    if n > 0 {
        lemma_plan_problem_none(jobs, n - 1);
        let k = n - 1;
        if job_accepted(jobs, k) {
            assert(!id_taken(jobs, k));
            assert(!destination_taken(jobs, k));
            assert(job_problem(jobs, k) is None);
        } else if job_problem(jobs, k) is None {
            assert(!id_taken(jobs, k));
            assert(!destination_taken(jobs, k));
            assert(job_accepted(jobs, k));
        }
        if plan_problem(jobs, n) is None {
            assert forall|i: int| 0 <= i < n implies #[trigger] job_accepted(jobs, i) by {
                if i < n - 1 {
                    assert(plan_problem(jobs, n - 1) is None);
                }
            }
        }
        if forall|i: int| 0 <= i < n ==> #[trigger] job_accepted(jobs, i) {
            assert forall|i: int| 0 <= i < n - 1 implies #[trigger] job_accepted(jobs, i) by {}
            assert(job_accepted(jobs, k));
        }
    }
}

/// A plan is accepted exactly when each job has a non-empty id that no
/// earlier job uses, a destination with no path issue that no earlier job
/// uses (ignoring ASCII case), an allowed URL and, when it has a checksum, a
/// well-formed one. Nothing else decides: in particular a job's expected size,
/// known or not, never makes a plan refused.
pub proof fn law_plan_accepted_exactly_when_jobs_valid(jobs: Seq<DownloadJob>, r: Result<(), DownloadError>)
    requires
        plan_outcome(jobs, r),
    ensures
        r is Ok <==> forall|k: int|
            0 <= k < jobs.len() ==> {
                let job = #[trigger] jobs[k];
                &&& job.id@.len() > 0
                &&& forall|j: int| 0 <= j < k ==> jobs[j].id@ != job.id@
                &&& path_issue(job.destination@) is None
                &&& forall|j: int|
                    0 <= j < k ==> lower_seq(jobs[j].destination@) != lower_seq(job.destination@)
                &&& url_allowed(job.url@)
                &&& (job.checksum matches Some(c) ==> c.well_formed())
            },
{
    lemma_plan_problem_none(jobs, jobs.len() as int);
    if r is Ok {
        assert forall|k: int| 0 <= k < jobs.len() implies {
            let job = #[trigger] jobs[k];
            &&& job.id@.len() > 0
            &&& forall|j: int| 0 <= j < k ==> jobs[j].id@ != job.id@
            &&& path_issue(job.destination@) is None
            &&& forall|j: int|
                0 <= j < k ==> lower_seq(jobs[j].destination@) != lower_seq(job.destination@)
            &&& url_allowed(job.url@)
            &&& (job.checksum matches Some(c) ==> c.well_formed())
        } by {
            assert(job_accepted(jobs, k));
        }
    } else {
        if forall|k: int|
            0 <= k < jobs.len() ==> {
                let job = #[trigger] jobs[k];
                &&& job.id@.len() > 0
                &&& forall|j: int| 0 <= j < k ==> jobs[j].id@ != job.id@
                &&& path_issue(job.destination@) is None
                &&& forall|j: int|
                    0 <= j < k ==> lower_seq(jobs[j].destination@) != lower_seq(job.destination@)
                &&& url_allowed(job.url@)
                &&& (job.checksum matches Some(c) ==> c.well_formed())
            } {
            assert forall|k: int| 0 <= k < jobs.len() implies #[trigger] job_accepted(jobs, k) by {
                let _ = jobs[k];
            }
        }
    }
}

/// The sum of the expected sizes of `jobs`.
pub open spec fn size_sum(jobs: Seq<DownloadJob>) -> nat
    decreases jobs.len(),
{
    if jobs.len() == 0 {
        0
    } else {
        size_sum(jobs.drop_last()) + match jobs.last().expected_size {
            Some(n) => n as nat,
            None => 0,
        }
    }
}

/// The total byte count of a plan: known when every job states its size and
/// the sum fits in a `u64`.
pub open spec fn planned_total(jobs: Seq<DownloadJob>) -> Option<u64> {
    if (forall|i: int| 0 <= i < jobs.len() ==> (#[trigger] jobs[i]).expected_size is Some)
        && size_sum(jobs) <= u64::MAX {
        Some(size_sum(jobs) as u64)
    } else {
        None
    }
}

proof fn lemma_size_sum_monotone(jobs: Seq<DownloadJob>, k: int)
    requires
        0 <= k <= jobs.len(),
    ensures
        size_sum(jobs.take(k)) <= size_sum(jobs),
    decreases jobs.len() - k,
{
    if k < jobs.len() {
        lemma_size_sum_monotone(jobs, k + 1);
        assert(jobs.take(k + 1).drop_last() =~= jobs.take(k));
    } else {
        assert(jobs.take(k) =~= jobs);
    }
}

/// Total expected bytes of a plan, or `None` when a size is unknown or the sum
/// overflows.
pub fn total_expected_bytes(plan: &DownloadPlan) -> (r: Option<u64>)
    ensures
        r == planned_total(plan.jobs@),
{
    let jobs = &plan.jobs;
    let mut sum: u64 = 0;
    let mut k: usize = 0;
    while k < jobs.len()
        invariant
            jobs@ == plan.jobs@,
            k <= jobs.len(),
            sum == size_sum(jobs@.take(k as int)),
            forall|i: int| 0 <= i < k ==> (#[trigger] jobs@[i]).expected_size is Some,
        decreases jobs.len() - k,
    {
        assert(jobs@.take(k + 1).drop_last() =~= jobs@.take(k as int));
        match jobs[k].expected_size {
            None => {
                assert(jobs@[k as int].expected_size is None);
                return None;
            },
            Some(n) => match sum.checked_add(n) {
                None => {
                    assert(jobs@.take(k + 1).last() == jobs@[k as int]);
                    assert(size_sum(jobs@.take(k + 1)) == sum + n);
                    proof {
                        lemma_size_sum_monotone(jobs@, k + 1);
                    }
                    return None;
                },
                Some(total) => {
                    sum = total;
                },
            },
        }
        k += 1;
    }
    assert(jobs@.take(k as int) =~= jobs@);
    Some(sum)
}

} // verus!
