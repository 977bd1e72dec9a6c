//! Progress of a transfer: share done, time left, and the clock text of it.
use vstd::prelude::*;

use crate::text::{push_char, push_two_digits, two_digits};

verus! {

/// Microseconds in one second.
pub const MICROS_PER_SECOND: u64 = 1_000_000;

/// The `HH:MM:SS` text of a number of seconds; hours take more than two
/// digits when they need them.
pub open spec fn clock_text(secs: nat) -> Seq<char> {
    two_digits(secs / 3600) + seq![':'] + two_digits((secs % 3600) / 60) + seq![':'] + two_digits(
        secs % 60,
    )
}

/// Formats a number of seconds as `HH:MM:SS`.
pub fn format_eta(eta_secs: u64) -> (r: String)
    ensures
        r@ == clock_text(eta_secs as nat),
{
    let hours = eta_secs / 3600;
    let minutes = (eta_secs % 3600) / 60;
    let seconds = eta_secs % 60;
    let mut r = String::new();
    push_two_digits(&mut r, hours);
    push_char(&mut r, ':');
    push_two_digits(&mut r, minutes);
    push_char(&mut r, ':');
    push_two_digits(&mut r, seconds);
    assert(r@ =~= clock_text(eta_secs as nat));
    r
}

/// Hundredths of a percent of `total` that `downloaded` makes, rounded down;
/// a transfer with all its bytes (or an empty total) counts as complete.
pub open spec fn share_done(downloaded: nat, total: nat) -> nat {
    if downloaded >= total {
        10000
    } else {
        (downloaded * 10000) / total
    }
}

/// Seconds left at the average speed so far, rounded up: the bytes still to
/// come divided by `downloaded / elapsed`. Zero where no speed is known yet
/// (nothing received, or no time elapsed) and where the value does not fit
/// in 64 bits.
pub open spec fn eta_spec(total: nat, downloaded: nat, elapsed_us: nat) -> nat {
    if downloaded == 0 || elapsed_us == 0 {
        0
    } else {
        let remaining: nat = if total > downloaded {
            (total - downloaded) as nat
        } else {
            0
        };
        let num = remaining * elapsed_us;
        let den = downloaded * MICROS_PER_SECOND;
        let eta = (num + den - 1) / den;
        if eta > u64::MAX {
            0
        } else {
            eta as nat
        }
    }
}

/// Share of the transfer done, in hundredths of a percent.
pub fn share_done_hundredths(downloaded: u64, total: u64) -> (r: u64)
    ensures
        r == share_done(downloaded as nat, total as nat),
{
    if downloaded >= total {
        10000
    } else {
        let scaled = (downloaded as u128) * 10000;
        let q = scaled / (total as u128);
        assert(q <= 10000) by (nonlinear_arith)
            requires
                q == scaled / (total as u128),
                scaled == (downloaded as u128) * 10000,
                downloaded < total,
        ;
        q as u64
    }
}

/// Whole seconds left of the transfer at its average speed so far.
pub fn eta_seconds(total: u64, downloaded: u64, elapsed_us: u64) -> (r: u64)
    ensures
        r == eta_spec(total as nat, downloaded as nat, elapsed_us as nat),
{
    if downloaded == 0 || elapsed_us == 0 {
        return 0;
    }
    let remaining: u64 = if total > downloaded {
        total - downloaded
    } else {
        0
    };
    assert((remaining as int) * (elapsed_us as int) <= 0xffff_ffff_ffff_ffffint
        * 0xffff_ffff_ffff_ffffint) by (nonlinear_arith)
        requires
            remaining <= 0xffff_ffff_ffff_ffffint,
            elapsed_us <= 0xffff_ffff_ffff_ffffint,
    ;
    let num = (remaining as u128) * (elapsed_us as u128);
    assert(1 <= (downloaded as int) * 1_000_000 <= 0xffff_ffff_ffff_ffffint * 1_000_000)
        by (nonlinear_arith)
        requires
            1 <= downloaded <= 0xffff_ffff_ffff_ffffint,
    ;
    let den = (downloaded as u128) * (MICROS_PER_SECOND as u128);
    let q = num / den;
    let eta = if num % den == 0 {
        q
    } else {
        assert(q < num) by (nonlinear_arith)
            requires
                q == num / den,
                den >= 1,
                num % den != 0,
        ;
        q + 1
    };
    assert(eta as int == (num as int + den as int - 1) / (den as int)) by (nonlinear_arith)
        requires
            den >= 1,
            q == num / den,
            num % den == 0 ==> eta == q,
            num % den != 0 ==> eta == q + 1,
    ;
    if eta > u64::MAX as u128 {
        0
    } else {
        eta as u64
    }
}

/// One progress report of a transfer.
pub struct DownloadProgress {
    pub bytes_downloaded: u64,
    pub total_size: u64,
    /// Share done, in hundredths of a percent.
    pub progress: u64,
    /// Time left, as `HH:MM:SS`.
    pub eta: String,
}

impl DownloadProgress {
    /// The report after `downloaded` of `total` bytes, `elapsed_us`
    /// microseconds after the transfer began.
    pub fn measure(downloaded: u64, total: u64, elapsed_us: u64) -> (r: DownloadProgress)
        ensures
            r.bytes_downloaded == downloaded,
            r.total_size == total,
            r.progress == share_done(downloaded as nat, total as nat),
            r.eta@ == clock_text(eta_spec(total as nat, downloaded as nat, elapsed_us as nat)),
    {
        let secs = eta_seconds(total, downloaded, elapsed_us);
        DownloadProgress {
            bytes_downloaded: downloaded,
            total_size: total,
            progress: share_done_hundredths(downloaded, total),
            eta: format_eta(secs),
        }
    }
}

} // verus!
