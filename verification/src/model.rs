use crate::text::opt_text;
use vstd::prelude::*;

verus! {

/// Where a transfer stands in its life.
#[derive(Clone, Copy, Debug, PartialEq, Eq, Structural)]
pub enum DownloadStatus {
    Queued,
    Running,
    Paused,
    Completed,
    Failed,
    Canceled,
    External,
}

/// What carries a transfer. Only `Http` transfers are run by this library.
#[derive(Clone, Copy, Debug, PartialEq, Eq, Structural)]
pub enum DownloadKind {
    Http,
    Magnet,
    Torrent,
}

/// Rate caps in bytes per second. `None` means no cap.
#[derive(Clone, Copy, Debug)]
pub struct SpeedLimits {
    pub download_bps: Option<u64>,
    pub upload_bps: Option<u64>,
}

/// What a caller hands over to start a transfer.
#[derive(Debug)]
pub struct StartDownloadPayload {
    pub url: String,
    pub file_name: Option<String>,
    pub directory: Option<String>,
    pub kind: Option<String>,
}

/// The state of one transfer as callers see it.
#[derive(Debug)]
pub struct DownloadInfo {
    pub id: String,
    pub url: String,
    pub file_name: String,
    pub save_path: String,
    pub temp_path: String,
    pub status: DownloadStatus,
    pub total_bytes: Option<u64>,
    pub downloaded_bytes: u64,
    pub speed_bps: u64,
    pub error: Option<String>,
    pub created_at: i64,
    pub updated_at: i64,
    pub resume_supported: bool,
    pub kind: DownloadKind,
}

/// Mathematical value of a [`StartDownloadPayload`].
pub ghost struct StartRequest {
    pub url: Seq<char>,
    pub file_name: Option<Seq<char>>,
    pub directory: Option<Seq<char>>,
    pub kind: Option<Seq<char>>,
}

/// Mathematical value of a [`DownloadInfo`].
pub ghost struct Record {
    pub id: Seq<char>,
    pub url: Seq<char>,
    pub file_name: Seq<char>,
    pub save_path: Seq<char>,
    pub temp_path: Seq<char>,
    pub status: DownloadStatus,
    pub total_bytes: Option<u64>,
    pub downloaded_bytes: u64,
    pub speed_bps: u64,
    pub error: Option<Seq<char>>,
    pub created_at: i64,
    pub updated_at: i64,
    pub resume_supported: bool,
    pub kind: DownloadKind,
}

impl View for StartDownloadPayload {
    type V = StartRequest;

    open spec fn view(&self) -> StartRequest {
        StartRequest {
            url: self.url@,
            file_name: opt_text(self.file_name),
            directory: opt_text(self.directory),
            kind: opt_text(self.kind),
        }
    }
}

impl View for DownloadInfo {
    type V = Record;

    open spec fn view(&self) -> Record {
        Record {
            id: self.id@,
            url: self.url@,
            file_name: self.file_name@,
            save_path: self.save_path@,
            temp_path: self.temp_path@,
            status: self.status,
            total_bytes: self.total_bytes,
            downloaded_bytes: self.downloaded_bytes,
            speed_bps: self.speed_bps,
            error: opt_text(self.error),
            created_at: self.created_at,
            updated_at: self.updated_at,
            resume_supported: self.resume_supported,
            kind: self.kind,
        }
    }
}

/// Copy of an optional string.
pub fn clone_opt_string(o: &Option<String>) -> (r: Option<String>)
    ensures
        r == *o,
{
    match o {
        Some(s) => Some(s.clone()),
        None => None,
    }
}

impl Clone for DownloadInfo {
    fn clone(&self) -> (r: Self)
        ensures
            r == *self,
    {
        DownloadInfo {
            id: self.id.clone(),
            url: self.url.clone(),
            file_name: self.file_name.clone(),
            save_path: self.save_path.clone(),
            temp_path: self.temp_path.clone(),
            status: self.status,
            total_bytes: self.total_bytes,
            downloaded_bytes: self.downloaded_bytes,
            speed_bps: self.speed_bps,
            error: clone_opt_string(&self.error),
            created_at: self.created_at,
            updated_at: self.updated_at,
            resume_supported: self.resume_supported,
            kind: self.kind,
        }
    }
}

impl SpeedLimits {
    /// The download cap in bytes per second, zero for none.
    pub open spec fn download_cap(self) -> u64 {
        match self.download_bps {
            Some(v) => v,
            None => 0,
        }
    }

    /// The limits with every zero rate taken as "no cap".
    pub open spec fn normalized(self) -> SpeedLimits {
        SpeedLimits {
            download_bps: if self.download_bps == Some(0u64) {
                None
            } else {
                self.download_bps
            },
            upload_bps: if self.upload_bps == Some(0u64) {
                None
            } else {
                self.upload_bps
            },
        }
    }

    /// Drops rates of zero, which mean "no cap".
    pub fn normalize(self) -> (r: SpeedLimits)
        ensures
            r == self.normalized(),
    {
        SpeedLimits {
            download_bps: match self.download_bps {
                Some(v) if v > 0 => Some(v),
                _ => None,
            },
            upload_bps: match self.upload_bps {
                Some(v) if v > 0 => Some(v),
                _ => None,
            },
        }
    }
}

} // verus!
