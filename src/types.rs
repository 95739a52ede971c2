//! Run configuration and the records built for each settlement file.

use vstd::prelude::*;
use vstd::string::StringExecFns;

verus! {

/// The settings of one run.
pub struct Cli {
    /// Endpoint/CIB related to the file.
    pub endpoint: String,
    /// Bucket to look up.
    pub bucket: String,
    /// Prefix that scopes the listing.
    pub prefix: String,
    /// Suffix put before the extension of each backup name.
    pub suffix: Option<String>,
    /// Optional pattern that narrows the structural rules.
    pub regex: Option<String>,
    /// Key that encrypts the copies of streamable files.
    pub kms_key: Option<String>,
    /// Debug logging.
    pub verbose: bool,
    /// Compute everything, copy nothing.
    pub pretend: bool,
}

/// One descriptive tag attached to a copy.
pub enum Metadata {
    SourceFile(String),
    BackupFile(String),
    Tenant(String),
    Streamable(String),
    ParentCid(String),
    Endpoint(String),
}

/// The tag name under which each kind of metadata is stored.
pub open spec fn tag_name(m: Metadata) -> Seq<char> {
    match m {
        Metadata::SourceFile(_) => "SourceFile"@,
        Metadata::BackupFile(_) => "BackupFile"@,
        Metadata::Tenant(_) => "OrgId"@,
        Metadata::Endpoint(_) => "Endpoint"@,
        Metadata::Streamable(_) => "Streamable"@,
        Metadata::ParentCid(_) => "ParentCid"@,
    }
}

/// The text a tag carries.
pub open spec fn tag_value(m: Metadata) -> Seq<char> {
    match m {
        Metadata::SourceFile(v) => v@,
        Metadata::BackupFile(v) => v@,
        Metadata::Tenant(v) => v@,
        Metadata::Endpoint(v) => v@,
        Metadata::Streamable(v) => v@,
        Metadata::ParentCid(v) => v@,
    }
}

impl Metadata {
    /// The tag name.
    pub fn name(&self) -> (r: String)
        ensures
            r@ == tag_name(*self),
    {
        match self {
            Metadata::SourceFile(_) => String::from_str("SourceFile"),
            Metadata::BackupFile(_) => String::from_str("BackupFile"),
            Metadata::Tenant(_) => String::from_str("OrgId"),
            Metadata::Endpoint(_) => String::from_str("Endpoint"),
            Metadata::Streamable(_) => String::from_str("Streamable"),
            Metadata::ParentCid(_) => String::from_str("ParentCid"),
        }
    }

    /// The tag's text.
    pub fn value(&self) -> (r: String)
        ensures
            r@ == tag_value(*self),
    {
        match self {
            Metadata::SourceFile(v) => v.clone(),
            Metadata::BackupFile(v) => v.clone(),
            Metadata::Tenant(v) => v.clone(),
            Metadata::Endpoint(v) => v.clone(),
            Metadata::Streamable(v) => v.clone(),
            Metadata::ParentCid(v) => v.clone(),
        }
    }

    /// `name: (value)`, as the run's log shows it.
    pub fn describe(&self) -> (r: String)
        ensures
            r@ == tag_name(*self) + ": ("@ + tag_value(*self) + ")"@,
    {
        self.name().concat(": (").concat(self.value().as_str()).concat(")")
    }
}

/// One eligible object and everything derived for its copy.
pub struct SettlementFile {
    pub bucket: String,
    pub source_file: Metadata,
    pub backup_file: Metadata,
    pub tenant: Metadata,
    pub streamable: Metadata,
    pub endpoint: Metadata,
    pub parent_cid: Metadata,
}

impl SettlementFile {
    /// Each field holds the kind of tag that its name says.
    pub open spec fn wf(&self) -> bool {
        &&& self.source_file is SourceFile
        &&& self.backup_file is BackupFile
        &&& self.tenant is Tenant
        &&& self.streamable is Streamable
        &&& self.endpoint is Endpoint
        &&& self.parent_cid is ParentCid
    }

    /// Whether the file was classified streamable.
    pub open spec fn is_streamable(&self) -> bool {
        tag_value(self.streamable) == "true"@
    }

    /// The six tags of a copy, in the order they are sent.
    pub open spec fn tags(&self) -> Seq<(Seq<char>, Seq<char>)> {
        seq![
            (tag_name(self.tenant), tag_value(self.tenant)),
            (tag_name(self.endpoint), tag_value(self.endpoint)),
            (tag_name(self.source_file), tag_value(self.source_file)),
            (tag_name(self.backup_file), tag_value(self.backup_file)),
            (tag_name(self.streamable), tag_value(self.streamable)),
            (tag_name(self.parent_cid), tag_value(self.parent_cid)),
        ]
    }

    /// A one-line description for the run's log.
    pub fn describe(&self) -> (r: String) {
        self.parent_cid.describe().concat("; Bucket: (").concat(self.bucket.as_str()).concat(
            "); ",
        ).concat(self.source_file.describe().as_str()).concat("; ").concat(
            self.backup_file.describe().as_str(),
        ).concat("; ").concat(self.tenant.describe().as_str()).concat("; ").concat(
            self.streamable.describe().as_str(),
        ).concat("; ").concat(self.endpoint.describe().as_str())
    }
}

} // verus!
