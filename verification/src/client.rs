//! The per-version metadata document: what the manifest's per-version URL
//! resolves to. The control loop reads only the server download and the
//! required Java version; the rest is carried as data. Timestamps and URLs
//! are held as plain strings.

use vstd::prelude::*;
use crate::manifest::VersionType;

verus! {

/// The whole per-version metadata document.
#[derive(Clone, Debug, PartialEq, Eq)]
pub struct Client {
    pub arguments: Option<Arguments>,
    pub id: String,
    pub assets: String,
    pub asset_index: AssetIndex,
    pub compliance_level: Option<u8>,
    pub downloads: Downloads,
    pub java_version: Option<JavaVersion>,
    pub libraries: Vec<Library>,
    pub logging: Option<Logging>,
    pub main_class: String,
    pub minimum_launcher_version: u64,
    pub version_type: VersionType,
    pub time: String,
    pub release_time: String,
}

#[derive(Clone, Debug, PartialEq, Eq)]
pub struct Logging {
    pub client: ClientLogging,
}

#[derive(Clone, Debug, PartialEq, Eq)]
pub struct ClientLogging {
    pub argument: String,
    pub file: LoggingFile,
    pub logging_type: String,
}

#[derive(Clone, Debug, PartialEq, Eq)]
pub struct LoggingFile {
    pub id: String,
    pub sha1: String,
    pub size: u64,
    pub url: String,
}

#[derive(Clone, Debug, PartialEq, Eq)]
pub struct Library {
    pub name: String,
    pub downloads: LibraryDownloads,
    pub rules: Option<Vec<Rule>>,
    /// Platform name to classifier key, held as ordered pairs.
    pub natives: Option<Vec<(String, String)>>,
    pub extract: Option<LibraryExtract>,
}

#[derive(Clone, Debug, PartialEq, Eq)]
pub struct LibraryExtract {
    pub exclude: Vec<String>,
}

#[derive(Clone, Debug, PartialEq, Eq)]
pub struct LibraryDownloads {
    pub artifact: Option<LibraryArtifact>,
    /// Classifier key to artifact, held as ordered pairs.
    pub classifiers: Option<Vec<(String, LibraryArtifact)>>,
}

#[derive(Clone, Debug, PartialEq, Eq)]
pub struct LibraryArtifact {
    pub path: String,
    pub sha1: String,
    pub size: u64,
    pub url: String,
}

/// The Java runtime the version requires.
#[derive(Clone, Debug, PartialEq, Eq)]
pub struct JavaVersion {
    pub component: String,
    pub major_version: u64,
}

/// The downloadable units of the version. Only `server` matters to the
/// control loop; versions too old to ship a server jar have `None` there.
#[derive(Clone, Debug, PartialEq, Eq)]
pub struct Downloads {
    pub client: Download,
    pub client_mappings: Option<Download>,
    pub server: Option<Download>,
    pub server_mappings: Option<Download>,
}

/// One downloadable unit: its SHA-1 digest, size and URL.
#[derive(Debug, PartialEq, Eq)]
pub struct Download {
    pub sha1: String,
    pub size: u64,
    pub url: String,
}

impl Clone for Download {
    fn clone(&self) -> (r: Self)
        ensures
            r == *self,
    {
        Download { sha1: self.sha1.clone(), size: self.size, url: self.url.clone() }
    }
}

#[derive(Clone, Debug, PartialEq, Eq)]
pub struct AssetIndex {
    pub id: String,
    pub sha1: String,
    pub size: u64,
    pub total_size: u64,
    pub url: String,
}

#[derive(Clone, Debug, PartialEq, Eq)]
pub struct Arguments {
    pub game: Vec<Argument>,
    pub jvm: Vec<Argument>,
}

#[derive(Clone, Debug, PartialEq, Eq)]
pub enum Argument {
    Arg(String),
    Conditional(ConditionalArgument),
}

#[derive(Clone, Debug, PartialEq, Eq)]
pub struct ConditionalArgument {
    pub rules: Vec<Rule>,
    pub value: ConditionalArgumentValue,
}

#[derive(Clone, Debug, PartialEq, Eq)]
pub struct Rule {
    pub action: String,
    pub features: Option<RuleFeatures>,
    pub os: Option<RuleOS>,
}

#[derive(Clone, Debug, PartialEq, Eq)]
pub struct RuleOS {
    pub name: Option<String>,
    pub version: Option<String>,
    pub arch: Option<String>,
}

#[derive(Clone, Debug, PartialEq, Eq)]
pub struct RuleFeatures {
    pub is_demo_user: Option<bool>,
    pub has_custom_resolution: Option<bool>,
}

#[derive(Clone, Debug, PartialEq, Eq)]
pub enum ConditionalArgumentValue {
    Single(String),
    List(Vec<String>),
}

} // verus!
