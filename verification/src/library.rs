//! Library resolution: deriving a concrete download descriptor for a
//! declared library, either verbatim from its explicit artifact metadata or
//! synthesized from its maven-style coordinate against a repository base.

use vstd::prelude::*;
use crate::error::LauncherError;
use crate::rules::{eval_rules, evaluate, HostInfo, Rule};
use crate::strutil::{replace_char, replace_char_exec, split_char, split_string};

verus! {

/// Explicit download metadata of one artifact: relative path, checksum,
/// size, and source URL.
pub struct LibraryArtifact {
    pub path: String,
    pub sha1: String,
    pub size: i64,
    pub url: String,
}

/// A library's explicit downloads table: the main artifact and per-classifier
/// native artifacts.
pub struct LibraryDownloads {
    pub artifact: Option<LibraryArtifact>,
    pub classifiers: Option<Vec<(String, LibraryArtifact)>>,
}

/// One declared library: maven-style coordinate name, optional explicit
/// downloads, an optional native-classifier-per-OS mapping, conditional
/// rules, and an optional alternate repository base URL.
pub struct Library {
    pub name: String,
    pub downloads: Option<LibraryDownloads>,
    pub natives: Option<Vec<(String, String)>>,
    pub rules: Vec<Rule>,
    pub url: Option<String>,
}

/// A resolved download descriptor: where the artifact lives remotely, where
/// it goes locally, and what is known of its checksum and size.
pub struct LibraryDownloadInfo {
    pub path: String,
    pub sha1: Option<String>,
    pub size: Option<i64>,
    pub url: String,
}

/// The colon-separated parts of a maven-style coordinate.
pub open spec fn maven_parts(name: Seq<char>) -> Seq<Seq<char>> {
    split_char(name, ':')
}

/// The conventional relative path of a three-part coordinate
/// `group:artifact:version`: the group with dots as path separators, then
/// the artifact, the version, and the file `artifact-version.jar`.
pub open spec fn maven_artifact_path(name: Seq<char>) -> Seq<char>
    recommends
        maven_parts(name).len() == 3,
{
    replace_char(maven_parts(name)[0], '.', '/') + "/"@ + maven_parts(name)[1] + "/"@
        + maven_parts(name)[2] + "/"@ + maven_parts(name)[1] + "-"@ + maven_parts(name)[2]
        + ".jar"@
}

/// Translate a maven-style coordinate into its conventional relative path.
/// A coordinate without exactly three colon-separated parts is rejected.
pub fn get_maven_artifact_path(name: &String) -> (r: Result<String, LauncherError>)
    ensures
        maven_parts(name@).len() == 3 ==> (r matches Ok(p) && p@ == maven_artifact_path(name@)),
        maven_parts(name@).len() != 3 ==> (r matches Err(e)
            && e matches LauncherError::InvalidVersionProfile(m)
            && m@ == "invalid maven artifact name"@),
{
    let parts = split_string(name, ':');
    if parts.len() != 3 {
        return Err(
            LauncherError::InvalidVersionProfile(String::from_str("invalid maven artifact name")),
        );
    }
    let mut path = replace_char_exec(&parts[0], '.', '/');
    path.append("/");
    path.append(parts[1].as_str());
    path.append("/");
    path.append(parts[2].as_str());
    path.append("/");
    path.append(parts[1].as_str());
    path.append("-");
    path.append(parts[2].as_str());
    path.append(".jar");
    proof {
        assert(parts@[0]@ == maven_parts(name@)[0]);
        assert(parts@[1]@ == maven_parts(name@)[1]);
        assert(parts@[2]@ == maven_parts(name@)[2]);
    }
    Ok(path)
}

/// The repository base a synthesized descriptor is resolved against: the
/// library's declared base, or the default public repository.
pub open spec fn repository_base(url: Option<String>) -> Seq<char> {
    match url {
        Option::Some(u) => u@,
        Option::None => "https://libraries.minecraft.net/"@,
    }
}

impl LibraryDownloadInfo {
    /// The descriptor carried verbatim by explicit artifact metadata.
    pub fn from(artifact: &LibraryArtifact) -> (r: LibraryDownloadInfo)
        ensures
            r.path == artifact.path,
            r.sha1 == Some(artifact.sha1),
            r.size == Some(artifact.size),
            r.url == artifact.url,
    {
        LibraryDownloadInfo {
            path: artifact.path.clone(),
            sha1: Some(artifact.sha1.clone()),
            size: Some(artifact.size),
            url: artifact.url.clone(),
        }
    }
}

impl LibraryDownloadInfo {
    /// The conventional sidecar endpoint the checksum can be fetched from:
    /// the artifact URL with `.sha1` appended.
    pub fn sha1_url(&self) -> (r: String)
        ensures
            r@ == self.url@ + ".sha1"@,
    {
        let mut u = self.url.clone();
        u.append(".sha1");
        u
    }
}

/// The explicit main artifact of a library, when its downloads table
/// declares one.
pub open spec fn explicit_artifact(lib: Library) -> Option<LibraryArtifact> {
    match lib.downloads {
        Option::Some(d) => d.artifact,
        Option::None => Option::None,
    }
}

impl Library {
    /// Resolve this library to a download descriptor. Explicit artifact
    /// metadata is returned verbatim; otherwise the descriptor is
    /// synthesized from the coordinate against the repository base, with
    /// checksum and size left unknown.
    pub fn get_library_download(&self) -> (r: Result<LibraryDownloadInfo, LauncherError>)
        ensures
            explicit_artifact(*self) matches Some(a) ==> (r matches Ok(i) && i.path == a.path
                && i.sha1 == Some(a.sha1) && i.size == Some(a.size) && i.url == a.url),
            explicit_artifact(*self) is None && maven_parts(self.name@).len() == 3 ==> (r matches Ok(
                i,
            ) && i.path@ == maven_artifact_path(self.name@) && i.sha1 is None && i.size is None
                && i.url@ == repository_base(self.url) + maven_artifact_path(self.name@)),
            explicit_artifact(*self) is None && maven_parts(self.name@).len() != 3 ==> (r matches Err(
                e,
            ) && e matches LauncherError::InvalidVersionProfile(m)
                && m@ == "invalid maven artifact name"@),
    {
        match &self.downloads {
            Option::Some(downloads) => {
                match &downloads.artifact {
                    Option::Some(artifact) => {
                        return Ok(LibraryDownloadInfo::from(artifact));
                    },
                    Option::None => {},
                }
            },
            Option::None => {},
        }
        let path = match get_maven_artifact_path(&self.name) {
            Ok(p) => p,
            Err(e) => {
                return Err(e);
            },
        };
        let mut url = match &self.url {
            Option::Some(u) => u.clone(),
            Option::None => String::from_str("https://libraries.minecraft.net/"),
        };
        url.append(path.as_str());
        Ok(LibraryDownloadInfo { url, sha1: None, size: None, path })
    }

    /// Resolve this library for a concrete host and feature set: a library
    /// whose rule list denies the host is excluded (no descriptor); an
    /// applicable one resolves as `get_library_download` does.
    pub fn resolve(&self, host: &HostInfo, features: &Vec<String>) -> (r: Result<
        Option<LibraryDownloadInfo>,
        LauncherError,
    >)
        ensures
            !eval_rules(self.rules@, *host, features@) ==> (r matches Ok(o) && o is None),
            eval_rules(self.rules@, *host, features@) && explicit_artifact(*self) is Some ==> (
            r matches Ok(o) && o matches Some(i) && i.path == explicit_artifact(*self).unwrap().path
                && i.sha1 == Some(explicit_artifact(*self).unwrap().sha1)
                && i.size == Some(explicit_artifact(*self).unwrap().size)
                && i.url == explicit_artifact(*self).unwrap().url),
            eval_rules(self.rules@, *host, features@) && explicit_artifact(*self) is None
                && maven_parts(self.name@).len() == 3 ==> (r matches Ok(o) && o matches Some(i)
                && i.path@ == maven_artifact_path(self.name@) && i.sha1 is None && i.size is None
                && i.url@ == repository_base(self.url) + maven_artifact_path(self.name@)),
            eval_rules(self.rules@, *host, features@) && explicit_artifact(*self) is None
                && maven_parts(self.name@).len() != 3 ==> (r matches Err(e)
                && e matches LauncherError::InvalidVersionProfile(m)
                && m@ == "invalid maven artifact name"@),
    {
        if !evaluate(&self.rules, host, features) {
            return Ok(None);
        }
        match self.get_library_download() {
            Ok(info) => Ok(Some(info)),
            Err(e) => Err(e),
        }
    }
}

} // verus!
