//! Shared state of one self-update download: byte counts, a scaled
//! percentage, and the terminal status. The surrounding program guards one
//! value of this type with a lock and drives it from the transport's
//! progress and completion callbacks; any caller may take a snapshot.

use vstd::prelude::*;

verus! {

/// The percentage is kept in hundredths of a percent, `0 ..= 10_000`,
/// so that it needs no floating point.
pub const PERCENT_SCALE: u32 = 10_000;

/// Progress of the in-flight update download.
pub struct UpdateProgress {
    /// A download has been started and not abandoned.
    pub downloading: bool,
    /// Completed share of the download, in hundredths of a percent.
    pub percent_centi: u32,
    /// Bytes received so far.
    pub downloaded: u64,
    /// Total size reported by the transport, when it reports one.
    pub total: Option<u64>,
    /// The download finished.
    pub complete: bool,
    /// The most recent failure, if any.
    pub error: Option<String>,
}

/// Mathematical image of `UpdateProgress`: the error text as a character
/// sequence, every other field as itself.
pub struct ProgressModel {
    pub downloading: bool,
    pub percent_centi: u32,
    pub downloaded: u64,
    pub total: Option<u64>,
    pub complete: bool,
    pub error: Option<Seq<char>>,
}

impl View for UpdateProgress {
    type V = ProgressModel;

    open spec fn view(&self) -> ProgressModel {
        ProgressModel {
            downloading: self.downloading,
            percent_centi: self.percent_centi,
            downloaded: self.downloaded,
            total: self.total,
            complete: self.complete,
            error: match self.error {
                Some(s) => Some(s@),
                None => None,
            },
        }
    }
}

/// `downloaded / total`, scaled to hundredths of a percent and capped at
/// one hundred percent (bytes beyond the reported total count as complete).
pub open spec fn percent_centi_of(downloaded: u64, total: u64) -> u32
    recommends
        total > 0,
{
    let q = downloaded as int * PERCENT_SCALE as int / total as int;
    if q > PERCENT_SCALE as int {
        PERCENT_SCALE
    } else {
        q as u32
    }
}

impl UpdateProgress {
    /// The percentage never exceeds one hundred percent.
    pub open spec fn wf(self) -> bool {
        self.percent_centi <= PERCENT_SCALE
    }

    /// No download yet: everything zero, no total, no error.
    pub fn new() -> (r: UpdateProgress)
        ensures
            r@ == (ProgressModel {
                downloading: false,
                percent_centi: 0u32,
                downloaded: 0u64,
                total: None::<u64>,
                complete: false,
                error: None::<Seq<char>>,
            }),
            r.wf(),
    {
        UpdateProgress {
            downloading: false,
            percent_centi: 0,
            downloaded: 0,
            total: None,
            complete: false,
            error: None,
        }
    }

    /// Resets the value for a fresh download attempt. Called before any
    /// transport callback may fire. The last reported total is kept: it is
    /// overwritten by the first chunk of the new download.
    pub fn begin_download(&mut self)
        ensures
            final(self)@ == (ProgressModel {
                downloading: true,
                percent_centi: 0u32,
                downloaded: 0u64,
                total: old(self)@.total,
                complete: false,
                error: None::<Seq<char>>,
            }),
            final(self).wf(),
    {
        self.downloading = true;
        self.percent_centi = 0;
        self.downloaded = 0;
        self.complete = false;
        self.error = None;
    }

    /// Records one downloaded chunk: adds its length to the byte count and
    /// takes over the transport's current total. The percentage is
    /// recomputed only when that total is known and positive; otherwise it
    /// keeps its previous value.
    pub fn on_chunk(&mut self, chunk_len: usize, content_length: Option<u64>)
        requires
            old(self).wf(),
            old(self).downloaded + chunk_len <= u64::MAX,
        ensures
            final(self).wf(),
            final(self).downloaded == old(self).downloaded + chunk_len,
            final(self).total == content_length,
            final(self).percent_centi == (match content_length {
                Some(t) => if t > 0 {
                    percent_centi_of(final(self).downloaded, t)
                } else {
                    old(self).percent_centi
                },
                None => old(self).percent_centi,
            }),
            final(self).downloading == old(self).downloading,
            final(self).complete == old(self).complete,
            final(self)@.error == old(self)@.error,
    {
        self.downloaded = self.downloaded + chunk_len as u64;
        self.total = content_length;
        if let Some(t) = content_length {
            if t > 0 {
                proof {
                    vstd::arithmetic::mul::lemma_mul_inequality(
                        self.downloaded as int,
                        u64::MAX as int,
                        PERCENT_SCALE as int,
                    );
                }
                let q: u128 = self.downloaded as u128 * PERCENT_SCALE as u128 / t as u128;
                self.percent_centi = if q > PERCENT_SCALE as u128 {
                    PERCENT_SCALE
                } else {
                    q as u32
                };
            }
        }
    }

    /// The transport finished the download: complete, at one hundred
    /// percent, whatever was counted before.
    pub fn on_complete(&mut self)
        ensures
            final(self).wf(),
            final(self).complete == true,
            final(self).percent_centi == PERCENT_SCALE,
            final(self).downloading == old(self).downloading,
            final(self).downloaded == old(self).downloaded,
            final(self).total == old(self).total,
            final(self)@.error == old(self)@.error,
    {
        self.complete = true;
        self.percent_centi = PERCENT_SCALE;
    }

    /// Records a failure. Prior byte counts are kept and `downloading` is
    /// not cleared: the snapshot still shows how far the attempt came.
    pub fn on_error(&mut self, message: String)
        requires
            old(self).wf(),
        ensures
            final(self).wf(),
            final(self)@.error == Some(message@),
            final(self).downloading == old(self).downloading,
            final(self).percent_centi == old(self).percent_centi,
            final(self).downloaded == old(self).downloaded,
            final(self).total == old(self).total,
            final(self).complete == old(self).complete,
    {
        self.error = Some(message);
    }

    /// An independent copy for external reporting: nothing beyond the copy
    /// itself is done while the caller holds the lock around the value.
    pub fn snapshot(&self) -> (r: UpdateProgress)
        ensures
            r@ == self@,
    {
        UpdateProgress {
            downloading: self.downloading,
            percent_centi: self.percent_centi,
            downloaded: self.downloaded,
            total: self.total,
            complete: self.complete,
            error: match &self.error {
                Some(s) => Some(s.clone()),
                None => None,
            },
        }
    }
}

impl Default for UpdateProgress {
    /// Same value as `UpdateProgress::new`.
    fn default() -> (r: Self)
        ensures
            r@ == (ProgressModel {
                downloading: false,
                percent_centi: 0u32,
                downloaded: 0u64,
                total: None::<u64>,
                complete: false,
                error: None::<Seq<char>>,
            }),
            r.wf(),
    {
        UpdateProgress::new()
    }
}

} // verus!
