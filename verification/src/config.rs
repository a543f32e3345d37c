use vstd::prelude::*;
use crate::contributor::VerifyingKeyBytes;

verus! {

/// The largest number of seconds a timeout may have (`chrono::TimeDelta::seconds`
/// refuses larger magnitudes).
pub const MAX_TIMEOUT_SECS: i64 = 9223372036854775;

/// Server settings.
#[derive(Debug)]
pub struct Config {
    pub db_path: String,
    pub bucket_id: String,
    pub gcp_project_id: String,
    pub admin_verifying_key: VerifyingKeyBytes,
    pub ping_timeout_secs: i64,
    pub download_timeout_secs: i64,
    pub contribute_timeout_secs: i64,
    pub upload_timeout_secs: i64,
    pub port: u16,
}

pub fn default_ping_timeout() -> (r: i64)
    ensures
        r == 20,
{
    20
}

pub fn default_download_timeout() -> (r: i64)
    ensures
        r == 90,
{
    90
}

pub fn default_contribute_timeout() -> (r: i64)
    ensures
        r == 900,
{
    900
}

pub fn default_upload_timeout() -> (r: i64)
    ensures
        r == 350,
{
    350
}

pub fn default_port() -> (r: u16)
    ensures
        r == 8888,
{
    8888
}

/// A timeout in seconds that a duration can hold.
pub open spec fn timeout_in_range(secs: i64) -> bool {
    -MAX_TIMEOUT_SECS <= secs <= MAX_TIMEOUT_SECS
}

/// A timeout of `secs` seconds, in nanoseconds.
fn secs_to_nanos(secs: i64) -> (ns: i128)
    requires
        timeout_in_range(secs),
    ensures
        ns == secs * 1_000_000_000,
{
    secs as i128 * 1_000_000_000
}

impl Config {
    /// All four timeouts can be held as durations.
    pub open spec fn timeouts_in_range(&self) -> bool {
        &&& timeout_in_range(self.ping_timeout_secs)
        &&& timeout_in_range(self.download_timeout_secs)
        &&& timeout_in_range(self.contribute_timeout_secs)
        &&& timeout_in_range(self.upload_timeout_secs)
    }

    /// How long the active contributor may stay silent, in nanoseconds.
    pub fn ping_timeout(&self) -> (ns: i128)
        requires
            timeout_in_range(self.ping_timeout_secs),
        ensures
            ns == self.ping_timeout_secs * 1_000_000_000,
    {
        secs_to_nanos(self.ping_timeout_secs)
    }

    /// How long the download of the previous contribution may take, in nanoseconds.
    pub fn download_timeout(&self) -> (ns: i128)
        requires
            timeout_in_range(self.download_timeout_secs),
        ensures
            ns == self.download_timeout_secs * 1_000_000_000,
    {
        secs_to_nanos(self.download_timeout_secs)
    }

    /// How long computing a contribution may take, in nanoseconds.
    pub fn contribute_timeout(&self) -> (ns: i128)
        requires
            timeout_in_range(self.contribute_timeout_secs),
        ensures
            ns == self.contribute_timeout_secs * 1_000_000_000,
    {
        secs_to_nanos(self.contribute_timeout_secs)
    }

    /// How long the upload of a contribution may take, in nanoseconds.
    pub fn upload_timeout(&self) -> (ns: i128)
        requires
            timeout_in_range(self.upload_timeout_secs),
        ensures
            ns == self.upload_timeout_secs * 1_000_000_000,
    {
        secs_to_nanos(self.upload_timeout_secs)
    }
}

} // verus!
