//! Supervision of one network transfer: chunks go to a temporary sibling of
//! the destination, throttled and reported, and only a complete file is
//! renamed into place.
use vstd::prelude::*;

use crate::paths::{
    ancestors, is_within_app_config, parent_dirs, string_texts, temp_of, temp_path_for, within_root,
};
use crate::progress::{clock_text, eta_spec, share_done, DownloadProgress};
use crate::rate::{consume_model, pause_length, rate_for_limit, RateBucket, MAX_PAUSE_MICROS};

verus! {

/// Why a transfer failed.
pub enum TransferFailure {
    /// The destination is not below the permitted root.
    OutsideRoot,
    /// Too many parent directories would have to be created.
    DirectoryDepth,
    /// The response declares no length.
    MissingContentLength,
    /// The response status is not a success.
    Status(u16),
    /// The body brought more bytes than declared.
    Overrun { declared: u64 },
    /// The body ended before the declared length.
    Truncated { declared: u64, received: u64 },
    /// The connection failed.
    Remote(String),
    /// Writing the temporary file failed.
    Io(String),
    /// Renaming the temporary file onto the destination failed.
    Rename(String),
}

/// Where a transfer stands. The last three are final.
pub enum TransferPhase {
    /// Chunks are being written to the temporary file.
    Streaming,
    /// The body is complete; the temporary file is being renamed.
    Finalizing,
    Completed,
    Cancelled,
    Failed(TransferFailure),
}

/// What the host is to do after an event.
pub enum TransferStep {
    Nothing,
    /// Append the `len` bytes of the chunk to the temporary file, deliver
    /// `progress`, then pause for `pause` microseconds if there is one.
    Write { len: u64, progress: DownloadProgress, pause: Option<u64> },
    /// Flush and close the temporary file, then rename it onto the destination.
    Finalize,
    /// Remove the temporary file; the transfer is over.
    Discard,
}

/// The files a transfer touches, as its steps leave them: the bytes in the
/// temporary file (none once it is gone), and the size of the file it placed
/// at the destination (none while it placed nothing).
pub struct DiskModel {
    pub temp: Option<nat>,
    pub placed: Option<nat>,
}

/// One transfer job.
pub struct TransferJob {
    pub destination: String,
    pub temp_path: String,
    pub total_size: u64,
    pub downloaded: u64,
    pub started_at: u64,
    pub bucket: RateBucket,
    pub phase: TransferPhase,
    pub disk: Ghost<DiskModel>,
}

/// The disk after the steps `step` orders are carried out.
pub open spec fn disk_after(d: DiskModel, step: TransferStep) -> DiskModel {
    match step {
        TransferStep::Write { len, .. } => DiskModel {
            temp: match d.temp {
                Some(t) => Some((t + len) as nat),
                None => None,
            },
            placed: d.placed,
        },
        TransferStep::Discard => DiskModel { temp: None, placed: d.placed },
        _ => d,
    }
}

/// The disk once the temporary file was renamed onto the destination.
pub open spec fn disk_after_rename(d: DiskModel) -> DiskModel {
    DiskModel { temp: None, placed: d.temp }
}

/// Whether a status code is a success (2xx).
pub open spec fn is_success_status(status: u16) -> bool {
    200 <= status < 300
}

/// The phase after a chunk of `len` bytes, with the cancellation flag as read.
pub open spec fn chunk_phase(p: TransferPhase, downloaded: u64, total: u64, len: u64, cancelled: bool) -> TransferPhase {
    if !(p is Streaming) {
        p
    } else if cancelled {
        TransferPhase::Cancelled
    } else if len > total - downloaded {
        TransferPhase::Failed(TransferFailure::Overrun { declared: total })
    } else {
        TransferPhase::Streaming
    }
}

impl TransferJob {
    /// What the job knows of the files it touches.
    pub open spec fn disk(&self) -> DiskModel {
        self.disk@
    }

    /// The job's invariant: counts within the declared length, the temporary
    /// path beside the destination, and the files as each phase leaves them.
    pub open spec fn wf(&self) -> bool {
        &&& self.downloaded <= self.total_size
        &&& self.bucket.accumulated <= self.downloaded
        &&& self.temp_path@ == temp_of(self.destination@)
        &&& match self.phase {
            TransferPhase::Streaming => self.disk() == DiskModel {
                temp: Some(self.downloaded as nat),
                placed: None,
            },
            TransferPhase::Finalizing => {
                &&& self.downloaded == self.total_size
                &&& self.disk() == DiskModel { temp: Some(self.total_size as nat), placed: None }
            },
            TransferPhase::Completed => {
                &&& self.downloaded == self.total_size
                &&& self.disk() == DiskModel { temp: None, placed: Some(self.total_size as nat) }
            },
            _ => self.disk() == DiskModel { temp: None, placed: None },
        }
    }

    /// Starts a transfer to `destination` once the response is in: its
    /// status must be a success and it must declare its length. The
    /// temporary file is then created empty.
    pub fn start(
        destination: String,
        status: u16,
        content_length: Option<u64>,
        rate_limit_kb: Option<u64>,
        now: u64,
    ) -> (r: Result<TransferJob, TransferFailure>)
        ensures
            !is_success_status(status) ==> r == Err::<TransferJob, TransferFailure>(
                TransferFailure::Status(status),
            ),
            is_success_status(status) && content_length is None ==> r == Err::<
                TransferJob,
                TransferFailure,
            >(TransferFailure::MissingContentLength),
            is_success_status(status) && content_length is Some ==> (r matches Ok(job) && {
                &&& job.wf()
                &&& job.phase is Streaming
                &&& job.destination@ == destination@
                &&& job.total_size == content_length->0
                &&& job.downloaded == 0
                &&& job.started_at == now
                &&& job.bucket.rate == rate_for_limit(rate_limit_kb)
                &&& job.bucket.accumulated == 0
                &&& job.bucket.window_start == now
                &&& job.disk() == (DiskModel { temp: Some(0), placed: None })
            }),
    {
        if status < 200 || status >= 300 {
            return Err(TransferFailure::Status(status));
        }
        let total = match content_length {
            Some(t) => t,
            None => {
                return Err(TransferFailure::MissingContentLength);
            },
        };
        let temp_path = temp_path_for(destination.as_str());
        Ok(TransferJob {
            destination,
            temp_path,
            total_size: total,
            downloaded: 0,
            started_at: now,
            bucket: RateBucket::new(rate_limit_kb, now),
            phase: TransferPhase::Streaming,
            disk: Ghost(DiskModel { temp: Some(0), placed: None }),
        })
    }

    /// Takes in a chunk of `len` bytes that arrived at `now`, with the
    /// cancellation flag as read for it. A cancelled transfer, or one given
    /// more bytes than declared, discards its temporary file; otherwise the
    /// chunk is written and reported, with the pause the throttle asks for.
    /// A transfer whose declared length fits in one second's allowance is
    /// never throttled.
    pub fn on_chunk(&mut self, len: u64, cancelled: bool, now: u64) -> (step: TransferStep)
        requires
            old(self).wf(),
            cancelled || now <= u64::MAX - MAX_PAUSE_MICROS,
        ensures
            final(self).wf(),
            final(self).phase == chunk_phase(
                old(self).phase,
                old(self).downloaded,
                old(self).total_size,
                len,
                cancelled,
            ),
            final(self).disk() == disk_after(old(self).disk(), step),
            final(self).destination == old(self).destination,
            final(self).total_size == old(self).total_size,
            !(old(self).phase is Streaming) ==> step is Nothing && *final(self) == *old(self),
            old(self).phase is Streaming && (cancelled || len > old(self).total_size
                - old(self).downloaded) ==> step is Discard,
            old(self).phase is Streaming && !cancelled && len <= old(self).total_size
                - old(self).downloaded ==> {
                let d = (old(self).downloaded + len) as u64;
                let exempt = old(self).total_size <= old(self).bucket.rate;
                let (b, p) = consume_model(old(self).bucket@, len as int, now as int);
                &&& final(self).downloaded == d
                &&& exempt ==> final(self).bucket == old(self).bucket
                &&& !exempt ==> final(self).bucket@ == b
                &&& (step matches TransferStep::Write { len: l, progress, pause } && {
                    &&& l == len
                    &&& exempt ==> pause is None
                    &&& !exempt ==> pause_length(pause) == p
                    &&& progress.bytes_downloaded == d
                    &&& progress.total_size == old(self).total_size
                    &&& progress.progress == share_done(d as nat, old(self).total_size as nat)
                    &&& progress.eta@ == clock_text(
                        eta_spec(
                            old(self).total_size as nat,
                            d as nat,
                            (if now >= old(self).started_at {
                                now - old(self).started_at
                            } else {
                                0
                            }) as nat,
                        ),
                    )
                })
            },
    {
        let streaming = match self.phase {
            TransferPhase::Streaming => true,
            _ => false,
        };
        if !streaming {
            return TransferStep::Nothing;
        }
        if cancelled {
            self.phase = TransferPhase::Cancelled;
            self.disk = Ghost(DiskModel { temp: None, placed: None });
            return TransferStep::Discard;
        }
        if len > self.total_size - self.downloaded {
            self.phase = TransferPhase::Failed(TransferFailure::Overrun { declared: self.total_size });
            self.disk = Ghost(DiskModel { temp: None, placed: None });
            return TransferStep::Discard;
        }
        self.downloaded = self.downloaded + len;
        let pause = if self.total_size <= self.bucket.rate {
            None
        } else {
            self.bucket.consume(len, now)
        };
        let elapsed: u64 = if now >= self.started_at {
            now - self.started_at
        } else {
            0
        };
        let progress = DownloadProgress::measure(self.downloaded, self.total_size, elapsed);
        self.disk = Ghost(DiskModel { temp: Some(self.downloaded as nat), placed: None });
        TransferStep::Write { len, progress, pause }
    }

    /// Takes in the end of the body: a complete body is renamed into place,
    /// a short one is discarded.
    pub fn on_body_end(&mut self) -> (step: TransferStep)
        requires
            old(self).wf(),
        ensures
            final(self).wf(),
            final(self).disk() == disk_after(old(self).disk(), step),
            final(self).destination == old(self).destination,
            final(self).total_size == old(self).total_size,
            final(self).downloaded == old(self).downloaded,
            !(old(self).phase is Streaming) ==> step is Nothing && *final(self) == *old(self),
            old(self).phase is Streaming && old(self).downloaded == old(self).total_size ==> {
                &&& step is Finalize
                &&& final(self).phase is Finalizing
            },
            old(self).phase is Streaming && old(self).downloaded != old(self).total_size ==> {
                &&& step is Discard
                &&& final(self).phase == TransferPhase::Failed(
                    TransferFailure::Truncated {
                        declared: old(self).total_size,
                        received: old(self).downloaded,
                    },
                )
            },
    {
        let streaming = match self.phase {
            TransferPhase::Streaming => true,
            _ => false,
        };
        if !streaming {
            return TransferStep::Nothing;
        }
        if self.downloaded == self.total_size {
            self.phase = TransferPhase::Finalizing;
            TransferStep::Finalize
        } else {
            self.phase = TransferPhase::Failed(
                TransferFailure::Truncated { declared: self.total_size, received: self.downloaded },
            );
            self.disk = Ghost(DiskModel { temp: None, placed: None });
            TransferStep::Discard
        }
    }

    /// Takes in a failure of the connection or of the file: a transfer that
    /// is not over fails with it and discards its temporary file.
    pub fn on_failure(&mut self, failure: TransferFailure) -> (step: TransferStep)
        requires
            old(self).wf(),
        ensures
            final(self).wf(),
            final(self).disk() == disk_after(old(self).disk(), step),
            final(self).destination == old(self).destination,
            final(self).total_size == old(self).total_size,
            (old(self).phase is Streaming || old(self).phase is Finalizing) ==> {
                &&& step is Discard
                &&& final(self).phase == TransferPhase::Failed(failure)
            },
            !(old(self).phase is Streaming || old(self).phase is Finalizing) ==> step is Nothing
                && *final(self) == *old(self),
    {
        let live = match self.phase {
            TransferPhase::Streaming | TransferPhase::Finalizing => true,
            _ => false,
        };
        if !live {
            return TransferStep::Nothing;
        }
        self.phase = TransferPhase::Failed(failure);
        self.disk = Ghost(DiskModel { temp: None, placed: None });
        TransferStep::Discard
    }

    /// Takes in the result of renaming the temporary file onto the
    /// destination: done where it succeeded, failed (and the temporary file
    /// discarded) where it did not.
    pub fn on_renamed(&mut self, result: Result<(), String>) -> (step: TransferStep)
        requires
            old(self).wf(),
        ensures
            final(self).wf(),
            final(self).destination == old(self).destination,
            final(self).total_size == old(self).total_size,
            !(old(self).phase is Finalizing) ==> step is Nothing && *final(self) == *old(self),
            old(self).phase is Finalizing ==> match result {
                Ok(_) => {
                    &&& step is Nothing
                    &&& final(self).phase is Completed
                    &&& final(self).disk() == disk_after_rename(old(self).disk())
                },
                Err(m) => {
                    &&& step is Discard
                    &&& final(self).phase == TransferPhase::Failed(TransferFailure::Rename(m))
                    &&& final(self).disk() == disk_after(old(self).disk(), step)
                },
            },
    {
        let finalizing = match self.phase {
            TransferPhase::Finalizing => true,
            _ => false,
        };
        if !finalizing {
            return TransferStep::Nothing;
        }
        match result {
            Ok(_) => {
                self.phase = TransferPhase::Completed;
                self.disk = Ghost(DiskModel { temp: None, placed: Some(self.total_size as nat) });
                TransferStep::Nothing
            },
            Err(m) => {
                self.phase = TransferPhase::Failed(TransferFailure::Rename(m));
                self.disk = Ghost(DiskModel { temp: None, placed: None });
                TransferStep::Discard
            },
        }
    }
}

/// Relies on `std::path::is_separator`: whether the platform separates path
/// components at `c`; `/` does on every platform.
#[verifier::external_body]
fn platform_separates(c: char) -> (r: bool)
    ensures
        c == '/' ==> r,
{
    std::path::is_separator(c)
}

/// Where a transfer writes: the temporary sibling of the destination, and
/// the directories above it, outermost first.
pub struct TransferPlan {
    pub temp_path: String,
    pub parent_dirs: Vec<String>,
}

/// Whether `r` is the plan for `dest` under `root`, with `backslash` telling
/// whether `\\` separates components: a plan where `dest` lies below `root`,
/// the refusal `OutsideRoot` otherwise.
pub open spec fn plan_for(
    dest: Seq<char>,
    root: Seq<char>,
    backslash: bool,
    r: Result<TransferPlan, TransferFailure>,
) -> bool {
    match r {
        Ok(p) => {
            &&& within_root(dest, root, backslash)
            &&& p.temp_path@ == temp_of(dest)
            &&& string_texts(p.parent_dirs@) == ancestors(temp_of(dest), backslash)
        },
        Err(e) => !within_root(dest, root, backslash) && e is OutsideRoot,
    }
}

/// Plans a transfer to `destination`, refused where it does not lie below
/// `root`; `backslash` tells whether `\\` separates path components.
pub fn plan_destination(destination: &str, root: &str, backslash: bool) -> (r: Result<
    TransferPlan,
    TransferFailure,
>)
    ensures
        plan_for(destination@, root@, backslash, r),
{
    if is_within_app_config(destination, root, backslash) {
        let temp_path = temp_path_for(destination);
        let parents = parent_dirs(temp_path.as_str(), backslash);
        Ok(TransferPlan { temp_path, parent_dirs: parents })
    } else {
        Err(TransferFailure::OutsideRoot)
    }
}

/// Plans a transfer to `destination` under `root` with the separators of
/// the platform it runs on.
pub fn check_destination(destination: &str, root: &str) -> (r: Result<TransferPlan, TransferFailure>)
    ensures
        plan_for(destination@, root@, false, r) || plan_for(destination@, root@, true, r),
{
    let backslash = platform_separates('\\');
    plan_destination(destination, root, backslash)
}

/// Most attempts at renaming the temporary file onto the destination.
pub const RENAME_ATTEMPTS: u32 = 5;

/// Pause before the second rename attempt, in microseconds; each later pause
/// is twice the one before.
pub const RENAME_FIRST_BACKOFF_MICROS: u64 = 20_000;

/// Two to the power `n`.
pub open spec fn pow2(n: nat) -> nat
    decreases n,
{
    if n == 0 {
        1
    } else {
        2 * pow2((n - 1) as nat)
    }
}

/// Whether a failed rename means the file is still held open elsewhere:
/// permission denied, or the sharing violation of Windows (OS error 32).
pub open spec fn is_held_open(permission_denied: bool, os_code: Option<i32>) -> bool {
    permission_denied || os_code == Some(32i32)
}

/// After rename attempt `attempt` (counting from 1) failed: the pause before
/// the next attempt, or none to give up. Only a file held open is retried,
/// at most `RENAME_ATTEMPTS` times in all, with pauses doubling from
/// `RENAME_FIRST_BACKOFF_MICROS`.
pub fn rename_retry(attempt: u32, permission_denied: bool, os_code: Option<i32>) -> (r: Option<u64>)
    ensures
        r is Some <==> is_held_open(permission_denied, os_code) && 1 <= attempt < RENAME_ATTEMPTS,
        r matches Some(p) ==> p == RENAME_FIRST_BACKOFF_MICROS * pow2((attempt - 1) as nat),
{
    let held = permission_denied || match os_code {
        Some(c) => c == 32,
        None => false,
    };
    if !held || attempt < 1 || attempt >= RENAME_ATTEMPTS {
        return None;
    }
    let mut p: u64 = RENAME_FIRST_BACKOFF_MICROS;
    let mut k: u32 = 1;
    while k < attempt
        invariant
            1 <= k <= attempt,
            attempt < RENAME_ATTEMPTS,
            p == RENAME_FIRST_BACKOFF_MICROS * pow2((k - 1) as nat),
        decreases attempt - k,
    {
        proof {
            reveal_with_fuel(pow2, 4);
        }
        assert(pow2(0) == 1 && pow2(1) == 2 && pow2(2) == 4);
        assert(pow2(k as nat) == 2 * pow2((k - 1) as nat));
        p = p * 2;
        k = k + 1;
    }
    Some(p)
}

/// A completed transfer leaves exactly the declared number of bytes at the
/// destination and no temporary file.
pub proof fn lemma_completed_transfer(job: TransferJob)
    requires
        job.wf(),
        job.phase is Completed,
    ensures
        job.disk().placed == Some(job.total_size as nat),
        job.disk().temp is None,
{
}

/// A cancelled transfer leaves no temporary file and places nothing at the
/// destination.
pub proof fn lemma_cancelled_transfer(job: TransferJob)
    requires
        job.wf(),
        job.phase is Cancelled,
    ensures
        job.disk().temp is None,
        job.disk().placed is None,
{
}

/// A transfer that is streaming when the cancellation flag is read as set,
/// after any number of progress reports, ends cancelled, not failed.
pub proof fn lemma_abort_cancels(downloaded: u64, total: u64, len: u64)
    ensures
        chunk_phase(TransferPhase::Streaming, downloaded, total, len, true) is Cancelled,
{
}

/// Reading the cancellation flag as set for two chunks in a row ends the
/// transfer as reading it once does.
pub proof fn lemma_transfer_cancel_idempotent(p: TransferPhase, downloaded: u64, total: u64, len1: u64, len2: u64)
    ensures
        chunk_phase(chunk_phase(p, downloaded, total, len1, true), downloaded, total, len2, true)
            == chunk_phase(p, downloaded, total, len1, true),
{
}

} // verus!
