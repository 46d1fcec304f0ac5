//! The active feature context shared with external agents: the record
//! written to a well-known file under a project directory, and the path
//! of that file. Reading and writing the file is the hosting binary's
//! work; the record and its location are modeled here.

use vstd::prelude::*;
use vstd::string::StringExecFns;

verus! {

/// Relies on uuid's `Uuid` type: an opaque 128-bit identifier, carried
/// through unread.
#[verifier::external_type_specification]
#[verifier::external_body]
pub struct ExUuid(uuid::Uuid);

/// Relies on uuid's `Uuid` being `Copy`: its clone is the value itself.
pub assume_specification[ <uuid::Uuid as Clone>::clone ](u: &uuid::Uuid) -> (r: uuid::Uuid)
    ensures
        r == *u,
;

/// Active feature context written to disk.
#[derive(Debug, Clone)]
pub struct ActiveContext {
    pub feature_id: uuid::Uuid,
    pub title: String,
    /// Feature details: specification, user stories, technical notes.
    pub details: Option<String>,
    /// When the context was last written, as an RFC 3339 timestamp.
    pub updated_at: String,
}

/// The currently active feature, shared across components.
#[derive(Debug, Clone, Default)]
pub struct ActiveFeatureContext {
    pub feature_id: Option<uuid::Uuid>,
    pub feature_title: Option<String>,
    pub feature_details: Option<String>,
}

/// The path of the active context file under a project directory.
pub fn context_file_path(project_dir: &str) -> (r: String)
    ensures
        r@ == project_dir@ + "/.manifest/active_context.json"@,
{
    let mut p: String = project_dir.to_owned();
    p.append("/.manifest/active_context.json");
    p
}

} // verus!
