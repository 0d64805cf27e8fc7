//! The decisions of a resumable transfer: where it resumes, what it reports
//! while it runs, and whether the file is whole when the stream has ended.

use vstd::prelude::*;
use vstd::string::StringExecFns;
use crate::format::{format_percent, format_size, format_speed, percent_text, size_text, speed_text};
use crate::text::{after_last, text_after_last, text_without, without};

verus! {

/// Why a transfer did not leave a whole file.
#[derive(Clone, Debug, PartialEq, Eq)]
pub enum TransferError {
    /// The remote reported no length, or a length of zero.
    SizeUnknown,
    /// The transport failed; its message.
    TransferFailed(String),
    /// The stream ended with the file at the first length, not at the
    /// second, which was expected.
    Incomplete(u64, u64),
}

/// One transfer in flight.
#[derive(Clone, Debug, PartialEq, Eq)]
pub struct TransferState {
    pub url: String,
    pub destination_path: String,
    pub total_bytes: u64,
    pub bytes_already_on_disk: u64,
    /// The time at which the transfer began, in milliseconds on the caller's
    /// clock.
    pub started_at: u64,
}

/// What is to be done about a file.
#[derive(Clone, Debug, PartialEq, Eq)]
pub enum TransferPlan {
    /// The file is whole: nothing is fetched.
    AlreadyComplete,
    /// The rest is fetched, from the offset `bytes_already_on_disk`.
    Fetch(TransferState),
}

/// What the shell is shown of a transfer.
#[derive(Clone, Debug, PartialEq, Eq)]
pub struct ProgressSnapshot {
    pub label: String,
    pub total_size_human: String,
    pub current_size_human: String,
    pub speed_human: String,
    pub percent: String,
}

/// The offset from which a file of `on_disk` bytes out of `total` is
/// resumed; `None` where nothing is left to fetch.
pub open spec fn resume_offset(total: nat, on_disk: nat) -> Option<nat> {
    if on_disk >= total {
        None
    } else {
        Some(on_disk)
    }
}

/// The bytes that a transfer resumed at `on_disk` has to bring.
pub open spec fn remaining(total: nat, on_disk: nat) -> nat {
    if on_disk >= total {
        0
    } else {
        (total - on_disk) as nat
    }
}

/// The verdict on a file of `actual` bytes where `total` were expected.
pub open spec fn is_whole(actual: nat, total: nat) -> bool {
    actual == total
}

/// Whole bytes per second of `received` bytes in `elapsed_ms` milliseconds,
/// zero where no time has passed, and never more than a `u64` holds.
pub open spec fn speed_of(received: nat, elapsed_ms: nat) -> nat {
    if elapsed_ms == 0 {
        0
    } else if received * 1000 / elapsed_ms > u64::MAX {
        u64::MAX as nat
    } else {
        received * 1000 / elapsed_ms
    }
}

/// The label of a file: its name behind the last `/`, without `.zip`.
pub open spec fn label_of(path: Seq<char>) -> Seq<char> {
    without(after_last(path, '/'), ".zip"@)
}

/// The length that a size probe learnt, or `SizeUnknown` where the remote
/// declared none or zero.
pub fn probed_size(declared: Option<u64>) -> (size: Result<u64, TransferError>)
    ensures
        match declared {
            Some(n) if n > 0 => size == Ok::<u64, TransferError>(n),
            _ => size matches Err(TransferError::SizeUnknown),
        },
{
    match declared {
        Some(n) => if n > 0 {
            Ok(n)
        } else {
            Err(TransferError::SizeUnknown)
        },
        None => Err(TransferError::SizeUnknown),
    }
}

/// The label of a file: its name behind the last `/`, without `.zip`.
pub fn file_label(path: &str) -> (label: String)
    ensures
        label@ == label_of(path@),
{
    let name = text_after_last(path, '/');
    text_without(name.as_str(), ".zip")
}

/// Whole bytes per second of `received` bytes in `elapsed_ms` milliseconds.
pub fn speed(received: u64, elapsed_ms: u64) -> (rate: u64)
    ensures
        rate == speed_of(received as nat, elapsed_ms as nat),
{
    if elapsed_ms == 0 {
        return 0;
    }
    let scaled: u128 = (received as u128) * 1000;
    let rate: u128 = scaled / (elapsed_ms as u128);
    if rate > u64::MAX as u128 {
        u64::MAX
    } else {
        rate as u64
    }
}

impl TransferState {
    /// A transfer in flight resumes inside its file: something is left to
    /// fetch.
    pub open spec fn in_flight(&self) -> bool {
        self.bytes_already_on_disk < self.total_bytes
    }

    /// Decides what is to be done about a file of `total_bytes` bytes of
    /// which `on_disk` are already there: nothing where it is whole or
    /// longer, else a fetch of the rest from exactly `on_disk`.
    pub fn plan(
        url: String,
        destination_path: String,
        total_bytes: u64,
        on_disk: u64,
        started_at: u64,
    ) -> (plan: TransferPlan)
        ensures
            match resume_offset(total_bytes as nat, on_disk as nat) {
                None => plan is AlreadyComplete,
                Some(offset) => plan matches TransferPlan::Fetch(state) && state.in_flight()
                    && state.bytes_already_on_disk == offset && state.total_bytes == total_bytes
                    && state.url == url && state.destination_path == destination_path
                    && state.started_at == started_at,
            },
    {
        if on_disk >= total_bytes {
            TransferPlan::AlreadyComplete
        } else {
            TransferPlan::Fetch(
                TransferState {
                    url,
                    destination_path,
                    total_bytes,
                    bytes_already_on_disk: on_disk,
                    started_at,
                },
            )
        }
    }

    /// What is shown when `received` bytes have come in this run and the
    /// caller's clock stands at `now`.
    pub fn progress(&self, received: u64, now: u64) -> (snapshot: ProgressSnapshot)
        requires
            self.in_flight(),
            self.bytes_already_on_disk + received <= u64::MAX,
        ensures
            snapshot.label@ == label_of(self.destination_path@),
            snapshot.total_size_human@ == size_text(self.total_bytes as nat),
            snapshot.current_size_human@ == size_text(
                (self.bytes_already_on_disk + received) as nat,
            ),
            snapshot.speed_human@ == speed_text(
                speed_of(
                    received as nat,
                    if now >= self.started_at {
                        (now - self.started_at) as nat
                    } else {
                        0
                    },
                ),
            ),
            snapshot.percent@ == percent_text(
                (self.bytes_already_on_disk + received) as nat,
                self.total_bytes as nat,
            ),
    {
        let current: u64 = self.bytes_already_on_disk + received;
        let elapsed: u64 = if now >= self.started_at {
            now - self.started_at
        } else {
            0
        };
        ProgressSnapshot {
            label: file_label(self.destination_path.as_str()),
            total_size_human: format_size(self.total_bytes),
            current_size_human: format_size(current),
            speed_human: format_speed(speed(received, elapsed)),
            percent: format_percent(current, self.total_bytes),
        }
    }

    /// The verdict on a fetch that has ended: `TransferFailed` with the
    /// transport's message where the transport failed; else, with the file
    /// at `actual` bytes, success where that is the whole length and
    /// `Incomplete` with both lengths where it is not.
    pub fn conclude(&self, fetched: Result<u64, String>) -> (verdict: Result<(), TransferError>)
        ensures
            match fetched {
                Err(message) => verdict == Err::<(), TransferError>(
                    TransferError::TransferFailed(message),
                ),
                Ok(actual) => if is_whole(actual as nat, self.total_bytes as nat) {
                    verdict is Ok
                } else {
                    verdict == Err::<(), TransferError>(
                        TransferError::Incomplete(actual, self.total_bytes),
                    )
                },
            },
    {
        match fetched {
            Err(message) => Err(TransferError::TransferFailed(message)),
            Ok(actual) => if actual == self.total_bytes {
                Ok(())
            } else {
                Err(TransferError::Incomplete(actual, self.total_bytes))
            },
        }
    }
}

impl ProgressSnapshot {
    /// What is shown when a transfer has left a whole file of `total_bytes`
    /// bytes.
    pub fn completed(total_bytes: u64) -> (snapshot: ProgressSnapshot)
        ensures
            snapshot.label@ == "Download completed successfully"@,
            snapshot.total_size_human@ == size_text(total_bytes as nat),
            snapshot.current_size_human@ == size_text(total_bytes as nat),
            snapshot.speed_human@ == "N/A"@,
            snapshot.percent@ == "100%"@,
    {
        ProgressSnapshot {
            label: String::from_str("Download completed successfully"),
            total_size_human: format_size(total_bytes),
            current_size_human: format_size(total_bytes),
            speed_human: String::from_str("N/A"),
            percent: String::from_str("100%"),
        }
    }

    /// What is shown when an archive is taken in hand, before anything is
    /// known of its size.
    pub fn announcing(remote_path: &str) -> (snapshot: ProgressSnapshot)
        ensures
            snapshot.label@ == label_of(remote_path@),
            snapshot.total_size_human@ == "N/A"@,
            snapshot.current_size_human@ == "N/A"@,
            snapshot.speed_human@ == "N/A"@,
            snapshot.percent@ == "N/A"@,
    {
        ProgressSnapshot {
            label: file_label(remote_path),
            total_size_human: String::from_str("N/A"),
            current_size_human: String::from_str("N/A"),
            speed_human: String::from_str("N/A"),
            percent: String::from_str("N/A"),
        }
    }

    /// What is shown while an archive is extracted into `target`.
    pub fn extracting(target: &str) -> (snapshot: ProgressSnapshot)
        ensures
            snapshot.label@ == "Extracting to: "@ + target@,
            snapshot.total_size_human@ == "N/A"@,
            snapshot.current_size_human@ == "N/A"@,
            snapshot.speed_human@ == "N/A"@,
            snapshot.percent@ == "100%"@,
    {
        let mut label = String::from_str("Extracting to: ");
        label.append(target);
        ProgressSnapshot {
            label,
            total_size_human: String::from_str("N/A"),
            current_size_human: String::from_str("N/A"),
            speed_human: String::from_str("N/A"),
            percent: String::from_str("100%"),
        }
    }

    /// What is shown when every needed archive is applied.
    pub fn finished() -> (snapshot: ProgressSnapshot)
        ensures
            snapshot.label@ == "All updates downloaded"@,
            snapshot.total_size_human@ == "N/A"@,
            snapshot.current_size_human@ == "N/A"@,
            snapshot.speed_human@ == "N/A"@,
            snapshot.percent@ == "N/A"@,
    {
        ProgressSnapshot {
            label: String::from_str("All updates downloaded"),
            total_size_human: String::from_str("N/A"),
            current_size_human: String::from_str("N/A"),
            speed_human: String::from_str("N/A"),
            percent: String::from_str("N/A"),
        }
    }
}

/// A transfer that is cut off and tried again goes on where it stopped: with
/// `on_disk` bytes of `total` there and `written` more brought before the
/// cut, the file is not whole, the next attempt resumes at exactly
/// `on_disk + written`, and what it has left to bring makes the file whole.
pub proof fn interrupted_transfer_resumes(total: nat, on_disk: nat, written: nat)
    requires
        on_disk < total,
        written < total - on_disk,
    ensures
        resume_offset(total, on_disk) == Some(on_disk),
        !is_whole(on_disk + written, total),
        resume_offset(total, on_disk + written) == Some(on_disk + written),
        is_whole(on_disk + written + remaining(total, on_disk + written), total),
{
}

/// A file that is whole before anything is asked of the network needs no
/// transfer, and no byte is left to bring.
pub proof fn whole_file_needs_no_transfer(total: nat)
    ensures
        resume_offset(total, total) is None,
        remaining(total, total) == 0,
        is_whole(total, total),
{
}

} // verus!
