//! The result of a run.

use crate::reading::Reading;
use crate::time::Timestamp;
use vstd::prelude::*;

verus! {

/// What a run measured. What was not measured is zero.
#[derive(Debug, Clone, Copy, PartialEq, Eq, Structural)]
pub struct Measured {
    pub latency_ms: Reading,
    pub jitter_ms: Reading,
    pub download_mbps: Reading,
    pub upload_mbps: Reading,
    pub download_bytes: u64,
    pub upload_bytes: u64,
}

/// The result of a run, as it is shown, stored and exported.
#[derive(Debug, PartialEq, Eq)]
pub struct TestResult {
    /// The number under which it is stored, if it is.
    pub id: Option<i64>,
    pub started_at: Timestamp,
    pub duration_seconds: u64,
    pub server_id: String,
    pub server_name: String,
    pub server_download_url: String,
    pub server_upload_url: String,
    pub server_latency_url: String,
    pub measured: Measured,
    pub error: Option<String>,
    pub app_version: String,
}

/// What a [`TestResult`] holds.
#[verifier::ext_equal]
pub struct ResultView {
    pub id: Option<i64>,
    pub started_at: Timestamp,
    pub duration_seconds: u64,
    pub server_id: Seq<char>,
    pub server_name: Seq<char>,
    pub server_download_url: Seq<char>,
    pub server_upload_url: Seq<char>,
    pub server_latency_url: Seq<char>,
    pub measured: Measured,
    pub error: Option<Seq<char>>,
    pub app_version: Seq<char>,
}

/// The characters of an optional text.
pub open spec fn optional_text(text: Option<String>) -> Option<Seq<char>> {
    match text {
        Some(t) => Some(t@),
        None => None,
    }
}

impl View for TestResult {
    type V = ResultView;

    open spec fn view(&self) -> ResultView {
        ResultView {
            id: self.id,
            started_at: self.started_at,
            duration_seconds: self.duration_seconds,
            server_id: self.server_id@,
            server_name: self.server_name@,
            server_download_url: self.server_download_url@,
            server_upload_url: self.server_upload_url@,
            server_latency_url: self.server_latency_url@,
            measured: self.measured,
            error: optional_text(self.error),
            app_version: self.app_version@,
        }
    }
}

/// The measured quantities as they are shown, with two decimals.
#[derive(Debug, PartialEq, Eq)]
pub struct MeasureTexts {
    pub latency_ms: String,
    pub jitter_ms: String,
    pub download_mbps: String,
    pub upload_mbps: String,
}

} // verus!
