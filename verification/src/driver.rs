//! The migration driver: what it is asked, what it decides and what it
//! tells the user. The driver decides; its caller reads, asks, converts and
//! writes, and reports back what happened.
//!
//! A request moves a document by at most one schema version. The document
//! is backed up, as it was read, before anything is converted or written.

use serde_json::Value;
use vstd::prelude::*;

verus! {

/// A conversion between two adjacent schema versions.
#[derive(Debug, Clone, Copy, PartialEq, Eq)]
pub enum Migration {
    UpgradeToV2,
    DowngradeToV1,
}

/// The command that starts a run.
#[derive(Debug, Clone, Copy, PartialEq, Eq)]
pub enum Command {
    /// Bring the document to the latest version.
    Update,
    /// Step the document back by one version. The target version is asked
    /// for once the user has confirmed.
    Downgrade,
}

/// What is asked of a document, once everything needed to judge it is known.
#[derive(Debug, Clone, Copy, PartialEq, Eq)]
pub enum Request {
    /// Bring the document to the latest version.
    Update,
    /// Step the document back to version `target`.
    Downgrade { target: u64 },
}

/// Why a request was not carried out.
#[derive(Debug, Clone, Copy, PartialEq, Eq)]
pub enum DriverError {
    /// There is no save document.
    DocumentMissing,
    /// The document is not JSON, or not a document of its declared version.
    MalformedDocument,
    /// The document declares no version, or one that is no unsigned integer.
    VersionUnreadable,
    /// The target of the downgrade is no version number.
    TargetUnreadable,
    /// The downgrade target is zero or not exactly one below the
    /// document's version.
    NotPreviousVersion,
    /// The downgrade is by one version, but no conversion is known for it.
    /// This shows only once the backup is written.
    UnsupportedVersion,
    /// The backup could not be written.
    BackupFailed,
    /// The converted document could not be put into text.
    BuildFailed,
    /// The converted document could not be written.
    WriteFailed,
    /// The caller reported something that the driver was not waiting for.
    OutOfTurn,
}

/// How a request ended.
#[derive(Debug, Clone, Copy, PartialEq, Eq)]
pub enum Outcome {
    /// Nothing had to be done.
    UpToDate,
    Upgraded,
    Downgraded,
    /// The user declined.
    Aborted,
    Failed(DriverError),
}

/// What the driver decides once it has read the document's version.
#[derive(Debug, Clone, Copy, PartialEq, Eq)]
pub enum Verdict {
    /// Back the document up and go on.
    Proceed,
    /// Leave the document as it is: there is nothing to do.
    UpToDate,
    Refuse(DriverError),
}

// ---------------------------------------------------------------------------
// Reading the declared version
// ---------------------------------------------------------------------------

/// What a JSON text holds under a key of its top-level object: `None` where
/// the text is not JSON; `Some(None)` where it is, but holds no unsigned
/// integer under that key; else the integer.
pub uninterp spec fn json_unsigned_field(text: Seq<char>, key: Seq<char>) -> Option<Option<u64>>;

/// Trusted: parses the text with `serde_json::from_str` into a
/// `serde_json::Value`, indexes it by the key and reads the entry with
/// `as_u64`. The result is named `json_unsigned_field`; nothing more is
/// claimed of it.
#[verifier::external_body]
fn read_unsigned_field(text: &str, key: &str) -> (r: Option<Option<u64>>)
    ensures
        r == json_unsigned_field(text@, key@),
{
    match serde_json::from_str::<Value>(text) {
        Ok(value) => Some(value[key].as_u64()),
        Err(_) => None,
    }
}

/// The version that a field reading stands for, or why there is none.
pub open spec fn version_of_field(field: Option<Option<u64>>) -> Result<u64, DriverError> {
    match field {
        None => Err(DriverError::MalformedDocument),
        Some(None) => Err(DriverError::VersionUnreadable),
        Some(Some(version)) => Ok(version),
    }
}

/// The version that a document's text declares under `"version"`.
pub open spec fn declared_version_of(text: Seq<char>) -> Result<u64, DriverError> {
    version_of_field(json_unsigned_field(text, "version"@))
}

/// Interprets what was read under the version key.
pub fn interpret_version_field(field: Option<Option<u64>>) -> (r: Result<u64, DriverError>)
    ensures
        r == version_of_field(field),
{
    match field {
        None => Err(DriverError::MalformedDocument),
        Some(None) => Err(DriverError::VersionUnreadable),
        Some(Some(version)) => Ok(version),
    }
}

/// Reads the version that a document declares.
pub fn declared_version(text: &str) -> (r: Result<u64, DriverError>)
    ensures
        r == declared_version_of(text@),
{
    interpret_version_field(read_unsigned_field(text, "version"))
}

// ---------------------------------------------------------------------------
// Decisions
// ---------------------------------------------------------------------------

/// Whether a downgrade from `current` to `target` is allowed: the target
/// is exactly one version below and is not version 0.
pub open spec fn downgrade_allowed(current: u64, target: u64) -> bool {
    target + 1 == current && target > 0
}

/// The command that a request belongs to.
pub open spec fn command_of(request: Request) -> Command {
    match request {
        Request::Update => Command::Update,
        Request::Downgrade { .. } => Command::Downgrade,
    }
}

/// The verdict on a request, given the version that the document declares.
pub open spec fn verdict_on(request: Request, declared: Result<u64, DriverError>) -> Verdict {
    match declared {
        Err(error) => Verdict::Refuse(error),
        Ok(current) => match request {
            Request::Update => if current == 1 {
                Verdict::Proceed
            } else {
                Verdict::UpToDate
            },
            Request::Downgrade { target } => if downgrade_allowed(current, target) {
                Verdict::Proceed
            } else {
                Verdict::Refuse(DriverError::NotPreviousVersion)
            },
        },
    }
}

/// The conversion that carries out a request, where one is known: an
/// update goes from version 1 to 2, a downgrade to version 1 comes
/// from 2.
pub open spec fn migration_of(request: Request) -> Option<Migration> {
    match request {
        Request::Update => Some(Migration::UpgradeToV2),
        Request::Downgrade { target } => if target == 1 {
            Some(Migration::DowngradeToV1)
        } else {
            None
        },
    }
}

/// The schema version that a conversion starts from.
pub open spec fn source_version(migration: Migration) -> u64 {
    match migration {
        Migration::UpgradeToV2 => 1,
        Migration::DowngradeToV1 => 2,
    }
}

/// The schema version that a conversion leads to.
pub open spec fn target_version(migration: Migration) -> u64 {
    match migration {
        Migration::UpgradeToV2 => 2,
        Migration::DowngradeToV1 => 1,
    }
}

/// How a request ends once the converted document is written.
pub open spec fn outcome_of(migration: Migration) -> Outcome {
    match migration {
        Migration::UpgradeToV2 => Outcome::Upgraded,
        Migration::DowngradeToV1 => Outcome::Downgraded,
    }
}

/// Checks the version gate of a downgrade. Nothing is read or written.
pub fn check_downgrade(current: u64, target: u64) -> (r: Result<(), DriverError>)
    ensures
        r is Ok <==> downgrade_allowed(current, target),
        r is Err ==> r == Err::<(), DriverError>(DriverError::NotPreviousVersion),
{
    if target > 0 && target < current && current - target == 1 {
        Ok(())
    } else {
        Err(DriverError::NotPreviousVersion)
    }
}

/// Decides what to do with a document whose declared version was read.
pub fn decide(request: Request, declared: Result<u64, DriverError>) -> (v: Verdict)
    ensures
        v == verdict_on(request, declared),
{
    match declared {
        Err(error) => Verdict::Refuse(error),
        Ok(current) => match request {
            Request::Update => if current == 1 {
                Verdict::Proceed
            } else {
                Verdict::UpToDate
            },
            Request::Downgrade { target } => match check_downgrade(current, target) {
                Ok(()) => Verdict::Proceed,
                Err(error) => Verdict::Refuse(error),
            },
        },
    }
}

/// Picks the conversion for a request, if one is known.
pub fn select_migration(request: Request) -> (m: Option<Migration>)
    ensures
        m == migration_of(request),
{
    match request {
        Request::Update => Some(Migration::UpgradeToV2),
        Request::Downgrade { target } => if target == 1 {
            Some(Migration::DowngradeToV1)
        } else {
            None
        },
    }
}

// ---------------------------------------------------------------------------
// What the user is told
// ---------------------------------------------------------------------------

/// The text that reports an error.
pub open spec fn error_text(error: DriverError) -> Seq<char> {
    match error {
        DriverError::DocumentMissing => "ERROR: Cannot open save file"@,
        DriverError::MalformedDocument => "ERROR: Cannot parse save file"@,
        DriverError::VersionUnreadable => "ERROR: Error while parsing save version"@,
        DriverError::TargetUnreadable => "ERROR: Cannot get version number"@,
        DriverError::NotPreviousVersion => "ERROR: Only downgrading to the previous version is allowed"@,
        DriverError::UnsupportedVersion => "ERROR: Version not supported"@,
        DriverError::BackupFailed => "ERROR: Failed to create backup"@,
        DriverError::BuildFailed => "ERROR: Fail to build new save file"@,
        DriverError::WriteFailed => "ERROR: Fail to save updated file"@,
        DriverError::OutOfTurn => "ERROR: Unexpected report to the driver"@,
    }
}

/// The text that reports how a request ended.
pub open spec fn outcome_text(outcome: Outcome) -> Seq<char> {
    match outcome {
        Outcome::UpToDate => "Save already up-to-date"@,
        Outcome::Upgraded => "INFO: Save file is up-to-date"@,
        Outcome::Downgraded => "INFO: Save file has been downgraded"@,
        Outcome::Aborted => "Operation aborted"@,
        Outcome::Failed(error) => error_text(error),
    }
}

impl DriverError {
    /// The text that reports this error.
    pub fn message(&self) -> (text: &'static str)
        ensures
            text@ == error_text(*self),
    {
        match self {
            DriverError::DocumentMissing => "ERROR: Cannot open save file",
            DriverError::MalformedDocument => "ERROR: Cannot parse save file",
            DriverError::VersionUnreadable => "ERROR: Error while parsing save version",
            DriverError::TargetUnreadable => "ERROR: Cannot get version number",
            DriverError::NotPreviousVersion => "ERROR: Only downgrading to the previous version is allowed",
            DriverError::UnsupportedVersion => "ERROR: Version not supported",
            DriverError::BackupFailed => "ERROR: Failed to create backup",
            DriverError::BuildFailed => "ERROR: Fail to build new save file",
            DriverError::WriteFailed => "ERROR: Fail to save updated file",
            DriverError::OutOfTurn => "ERROR: Unexpected report to the driver",
        }
    }
}

impl Outcome {
    /// The text that reports this outcome.
    pub fn message(&self) -> (text: &'static str)
        ensures
            text@ == outcome_text(*self),
    {
        match self {
            Outcome::UpToDate => "Save already up-to-date",
            Outcome::Upgraded => "INFO: Save file is up-to-date",
            Outcome::Downgraded => "INFO: Save file has been downgraded",
            Outcome::Aborted => "Operation aborted",
            Outcome::Failed(error) => error.message(),
        }
    }

    /// Whether the request ended without an error.
    pub fn is_success(&self) -> (ok: bool)
        ensures
            ok == !(*self is Failed),
    {
        match self {
            Outcome::Failed(_) => false,
            _ => true,
        }
    }
}

} // verus!
