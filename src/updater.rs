use vstd::prelude::*;

verus! {

/// What the front end is told about self-updates.
pub struct UpdateInfo {
    pub update_available: bool,
    pub current_version: String,
    pub latest_version: Option<String>,
    pub release_notes: Option<String>,
    pub download_url: Option<String>,
}

/// A newer release that the release source offers.
pub struct AvailableUpdate {
    pub version: String,
    pub notes: Option<String>,
    pub download_url: String,
}

/// How a query of the release source ended.
pub enum CheckOutcome {
    Available(AvailableUpdate),
    UpToDate,
    /// The query itself failed, with this account of why.
    Failed(String),
}

/// A passive check reports an update exactly where the source offered one.
pub open spec fn check_reports_update(o: CheckOutcome) -> bool {
    o is Available
}

/// An explicit install goes ahead exactly where the source offered an update.
pub open spec fn install_proceeds(o: CheckOutcome) -> bool {
    o is Available
}

/// Folds the outcome of a check into a report. This never fails: a failed
/// query becomes "no update", with the reason in the release notes.
pub fn check_for_updates(current_version: &str, outcome: CheckOutcome) -> (r: Result<
    UpdateInfo,
    String,
>)
    ensures
        r matches Ok(info) && info.current_version@ == current_version@
            && info.update_available == check_reports_update(outcome) && match outcome {
            CheckOutcome::Available(u) => info.latest_version == Some(u.version)
                && info.release_notes == u.notes && info.download_url == Some(u.download_url),
            CheckOutcome::UpToDate => info.latest_version is None && info.release_notes is None
                && info.download_url is None,
            CheckOutcome::Failed(e) => info.latest_version is None && info.download_url is None
                && (info.release_notes matches Some(n) && n@ == "Update check failed: "@ + e@),
        },
{
    let current = String::from_str(current_version);
    let info = match outcome {
        CheckOutcome::Available(u) => UpdateInfo {
            update_available: true,
            current_version: current,
            latest_version: Some(u.version),
            release_notes: u.notes,
            download_url: Some(u.download_url),
        },
        CheckOutcome::UpToDate => UpdateInfo {
            update_available: false,
            current_version: current,
            latest_version: None,
            release_notes: None,
            download_url: None,
        },
        CheckOutcome::Failed(e) => {
            let mut n = String::from_str("Update check failed: ");
            n.append(e.as_str());
            UpdateInfo {
                update_available: false,
                current_version: current,
                latest_version: None,
                release_notes: Some(n),
                download_url: None,
            }
        },
    };
    Ok(info)
}

/// Decides an explicit install request: the offered update where there is
/// one, an error where there is nothing to install or the check failed.
pub fn install_update(outcome: CheckOutcome) -> (r: Result<AvailableUpdate, String>)
    ensures
        r is Ok <==> install_proceeds(outcome),
        match outcome {
            CheckOutcome::Available(u) => r == Ok::<AvailableUpdate, String>(u),
            CheckOutcome::UpToDate => r matches Err(m) && m@ == "No update available"@,
            CheckOutcome::Failed(e) => r matches Err(m) && m@ == "Failed to check for updates: "@
                + e@,
        },
{
    match outcome {
        CheckOutcome::Available(u) => Ok(u),
        CheckOutcome::UpToDate => Err(String::from_str("No update available")),
        CheckOutcome::Failed(e) => {
            let mut m = String::from_str("Failed to check for updates: ");
            m.append(e.as_str());
            Err(m)
        },
    }
}

/// The error of an install whose download or hand-off failed with `cause`.
pub fn download_failure(cause: &str) -> (r: String)
    ensures
        r@ == "Failed to download and install update: "@ + cause@,
{
    let mut m = String::from_str("Failed to download and install update: ");
    m.append(cause);
    m
}

/// Bytes received so far, and the total once the transfer has made it known.
pub struct DownloadProgress {
    pub downloaded: u64,
    pub total: Option<u64>,
}

impl DownloadProgress {
    /// Nothing received, total unknown.
    pub fn new() -> (r: DownloadProgress)
        ensures
            r.downloaded == 0,
            r.total is None,
    {
        DownloadProgress { downloaded: 0, total: None }
    }

    /// Counts a received chunk of `chunk` bytes; `content_length` is the
    /// total as the transfer reports it now. The count saturates at the
    /// largest `u64`.
    pub fn record_chunk(&mut self, chunk: usize, content_length: Option<u64>)
        ensures
            final(self).downloaded as int == if old(self).downloaded + chunk > u64::MAX {
                u64::MAX as int
            } else {
                old(self).downloaded + chunk
            },
            final(self).total == content_length,
    {
        self.downloaded = self.downloaded.saturating_add(chunk as u64);
        self.total = content_length;
    }
}

/// A passive check that reports no update means an explicit install
/// request, on the same outcome, fails.
pub proof fn lemma_install_fails_without_update(o: CheckOutcome)
    ensures
        !check_reports_update(o) ==> !install_proceeds(o),
{
}

} // verus!
