//! Small helpers shared by the pull and push operations.

use vstd::prelude::*;
use crate::bliss::error::{Error, ErrorView};

verus! {

/// Which side of a transfer an account is on.
#[derive(Clone, Copy, Debug, PartialEq, Eq, Structural)]
pub enum Origin {
    Source,
    Destination,
}

/// Name of the environment variable that may hold the password of the
/// account on the given side.
pub open spec fn spec_password_key(origin: Origin) -> Seq<char> {
    match origin {
        Origin::Source => "LEMMY_SRC_PW"@,
        Origin::Destination => "LEMMY_DST_PW"@,
    }
}

/// Returns the name of the environment variable consulted for the password
/// of the account on the given side, before the user is prompted.
pub fn password_key(origin: Origin) -> (key: &'static str)
    ensures
        key@ == spec_password_key(origin),
{
    match origin {
        Origin::Source => "LEMMY_SRC_PW",
        Origin::Destination => "LEMMY_DST_PW",
    }
}

/// What `url::Url::host_str` gives for the address written as `address`:
/// the host as the address names it, or `None` where `address` is no
/// absolute address or names no host.
pub uninterp spec fn url_host(address: Seq<char>) -> Option<Seq<char>>;

/// Reads the host out of an address. `address` is parsed with
/// `url::Url::parse` and the host is taken with `url::Url::host_str`.
/// `None` stands for a failure to parse as well as for an address without
/// a host. The result depends on the text alone; the contract names it and
/// claims no more.
#[verifier::external_body]
fn host_str(address: &str) -> (host: Option<String>)
    ensures
        host.deep_view() == url_host(address@),
{
    match url::Url::parse(address) {
        Ok(parsed) => match parsed.host_str() {
            Some(host) => Some(host.to_string()),
            None => None,
        },
        Err(_) => None,
    }
}

/// How an instance is called in messages: by the host of its address, or
/// by the whole address where that names no host.
pub open spec fn spec_instance_host(instance: Seq<char>) -> Seq<char> {
    match url_host(instance) {
        Some(host) => host,
        None => instance,
    }
}

/// Returns the name by which messages call the instance at `instance`.
pub fn instance_host(instance: &str) -> (host: String)
    ensures
        host@ == spec_instance_host(instance@),
{
    match host_str(instance) {
        Some(host) => host,
        None => instance.to_owned(),
    }
}

/// How much a message matters.
#[derive(Clone, Copy, Debug, PartialEq, Eq, Structural)]
pub enum Level {
    Debug,
    Info,
    Warn,
    Error,
}

/// A message for the log: the library writes none itself, it hands them to
/// its caller.
#[derive(Debug)]
pub struct LogEntry {
    pub level: Level,
    pub message: String,
}

/// What a `LogEntry` holds.
pub ghost struct LogEntryView {
    pub level: Level,
    pub message: Seq<char>,
}

impl DeepView for LogEntry {
    type V = LogEntryView;

    open spec fn deep_view(&self) -> LogEntryView {
        LogEntryView { level: self.level, message: self.message@ }
    }
}

impl View for LogEntry {
    type V = LogEntryView;

    open spec fn view(&self) -> LogEntryView {
        self.deep_view()
    }
}

/// The message of weight `level` that says `message`.
pub open spec fn entry(level: Level, message: Seq<char>) -> LogEntryView {
    LogEntryView { level, message }
}

impl LogEntry {
    /// A message of weight `level` that says `message`.
    pub fn new(level: Level, message: String) -> (made: LogEntry)
        ensures
            made@ == entry(level, message@),
    {
        LogEntry { level, message }
    }

    /// A message of weight `Level::Info`.
    pub fn info(message: &str) -> (made: LogEntry)
        ensures
            made@ == entry(Level::Info, message@),
    {
        LogEntry { level: Level::Info, message: message.to_owned() }
    }

    /// A message of weight `Level::Warn`.
    pub fn warn(message: &str) -> (made: LogEntry)
        ensures
            made@ == entry(Level::Warn, message@),
    {
        LogEntry { level: Level::Warn, message: message.to_owned() }
    }
}

/// The message that reports how one step went: `Success`, or the failure.
pub open spec fn outcome_entry(failure: Option<ErrorView>, level: Level) -> LogEntryView {
    match failure {
        None => entry(Level::Info, "Success"@),
        Some(error) => entry(level, "Failed: "@ + error.message()),
    }
}

/// What went wrong in `result`, if anything.
pub open spec fn failure_of<T>(result: Result<T, Error>) -> Option<ErrorView> {
    match result {
        Ok(_) => None,
        Err(error) => Some(error@),
    }
}

/// The message that reports `result`: `Success` as information, or the
/// failure as an error.
pub fn log_result<T>(result: Result<T, Error>) -> (made: LogEntry)
    ensures
        made@ == outcome_entry(failure_of(result), Level::Error),
{
    match result {
        Ok(_) => LogEntry::info("Success"),
        Err(err) => LogEntry::new(Level::Error, String::from_str("Failed: ").concat(err.message().as_str())),
    }
}

/// The message that reports `result`: `Success` as information, or the
/// failure as a warning.
pub fn log_res<T>(result: &Result<T, Error>) -> (made: LogEntry)
    ensures
        made@ == outcome_entry(failure_of(*result), Level::Warn),
{
    match result {
        Ok(_) => LogEntry::info("Success"),
        Err(err) => LogEntry::new(Level::Warn, String::from_str("Failed: ").concat(err.message().as_str())),
    }
}

} // verus!
