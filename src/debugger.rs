//! The debugger extension's state: where it installs the adapter, which version
//! it settled on, and the decisions that resolve and install that version.

use vstd::prelude::*;
use crate::paths::{adapter_dir_of, exe_path_of, script_path_of, versioned_dir_of};
use crate::release::{select_release, version_of_tag, is_package, no_package_message, Asset};
use crate::request::ADAPTER_NAME;
use crate::text::{lex_less, lex_lt, lemma_lex_order, opt_view, strip_prefix, strip_prefix_of, to_string};

verus! {

/// The AutoHotkey debug adapter extension.
pub struct AutoHotkeyDebugger {
    /// The directory under which the adapter root lies.
    pub base_dir: String,
    /// The version settled on; once set, it is never replaced.
    pub cached_version: Option<String>,
}

/// The prefix of an installation directory's name.
pub open spec fn install_prefix() -> Seq<char> {
    ADAPTER_NAME@ + "_"@
}

/// `v` is the version of one of the directory names.
pub open spec fn is_installed_version(names: Seq<String>, v: Seq<char>) -> bool {
    exists|i: int| 0 <= i < names.len() && strip_prefix(#[trigger] names[i]@, install_prefix()) == Some(v)
}

/// `v` is no smaller, in string order, than the version of any of the directory names.
pub open spec fn is_latest_installed(names: Seq<String>, v: Seq<char>) -> bool {
    forall|i: int|
        0 <= i < names.len() && (#[trigger] strip_prefix(names[i]@, install_prefix())) is Some
            ==> !lex_lt(v, strip_prefix(names[i]@, install_prefix())->0)
}

/// The cache after `v` is offered to it: a version already there stays.
pub open spec fn cache_after(cached: Option<String>, v: Seq<char>) -> Option<Seq<char>> {
    match cached {
        Some(c) => Some(c@),
        None => Some(v),
    }
}

/// The message when neither the release index nor an installed version gives a version.
pub open spec fn no_version_message(fetch_error: Seq<char>) -> Seq<char> {
    "Failed to fetch release and no cached version found: "@ + fetch_error
}

/// The message when the adapter root cannot be created.
pub open spec fn create_dir_failed_message(error: Seq<char>) -> Seq<char> {
    "Failed to create adapter directory: "@ + error
}

/// The installed version that offline resolution picks from the names found in the
/// adapter root: the greatest, in string order, of those that carry the
/// installation prefix.
pub fn fallback_version(names: &Vec<String>) -> (r: Option<String>)
    ensures
        r is None <==> forall|i: int| 0 <= i < names@.len() ==> (#[trigger] strip_prefix(names@[i]@, install_prefix())) is None,
        r matches Some(v) ==> is_installed_version(names@, v@) && is_latest_installed(names@, v@),
{
    let mut prefix = to_string(ADAPTER_NAME);
    prefix.append("_");
    let mut best: Option<String> = None;
    let mut i: usize = 0;
    while i < names.len()
        invariant
            prefix@ == install_prefix(),
            i <= names@.len(),
            best is None <==> forall|j: int| 0 <= j < i ==> (#[trigger] strip_prefix(names@[j]@, install_prefix())) is None,
            best matches Some(b) ==> is_installed_version(names@, b@) && forall|j: int|
                0 <= j < i && (#[trigger] strip_prefix(names@[j]@, install_prefix())) is Some
                    ==> !lex_lt(b@, strip_prefix(names@[j]@, install_prefix())->0),
        decreases names@.len() - i,
    {
        let stripped = strip_prefix_of(names[i].as_str(), prefix.as_str());
        match stripped {
            Some(c) => {
                let take = match &best {
                    None => true,
                    Some(b) => lex_less(b.as_str(), c.as_str()),
                };
                proof {
                    if best is Some {
                        let b = best->0;
                        assert forall|j: int|
                            0 <= j <= i && (#[trigger] strip_prefix(names@[j]@, install_prefix())) is Some
                                implies !lex_lt(if take { c@ } else { b@ }, strip_prefix(names@[j]@, install_prefix())->0) by {
                            let s = strip_prefix(names@[j]@, install_prefix())->0;
                            lemma_lex_order(b@, c@, s);
                            lemma_lex_order(c@, b@, s);
                            lemma_lex_order(s, b@, c@);
                            lemma_lex_order(b@, s, c@);
                            lemma_lex_order(c@, s, b@);
                        }
                    }
                    lemma_lex_order(c@, c@, c@);
                    assert(strip_prefix(names@[i as int]@, install_prefix()) == Some(c@));
                }
                if take {
                    best = Some(c);
                }
            },
            None => {},
        }
        i = i + 1;
    }
    best
}

/// A step of resolving and installing the adapter, as reported back by the host.
#[derive(Debug)]
pub enum InstallEvent {
    /// A version is asked for.
    Start,
    /// The release index answered with the latest release.
    ReleaseFetched { tag: String, assets: Vec<Asset> },
    /// The release index could not be queried.
    ReleaseFailed { message: String },
    /// Whether the installation directory of `version` exists.
    DirChecked { version: String, download_url: String, exists: bool },
    /// The package of `version` was downloaded and unpacked.
    Installed { version: String },
    /// The adapter root could not be created; `error` is the system's reason.
    CreateDirFailed { error: String },
    /// Downloading or unpacking the package failed with `message`.
    DownloadFailed { message: String },
    /// The entry names found in the adapter root (none when it cannot be read),
    /// after the release index failed with `fetch_error`.
    CacheScanned { names: Vec<String>, fetch_error: String },
}

/// What the host does next while resolving and installing the adapter.
#[derive(Debug)]
pub enum InstallAction {
    /// Resolution is over: `version` is installed.
    Done { version: String },
    /// Resolution failed with `message`.
    Fail { message: String },
    /// Query the release index for the latest stable release with assets.
    FetchRelease,
    /// Check whether the directory `path` exists.
    CheckDir { path: String, version: String, download_url: String },
    /// Remove the adapter root `root` (ignoring failure), create it again, then
    /// download `download_url` and unpack it into `target`. A failure of either
    /// step ends resolution: no installed version is tried.
    Install { root: String, target: String, download_url: String, version: String },
    /// List the entry names of the adapter root `root`.
    ScanCache { root: String, fetch_error: String },
}

/// What one step of resolution does for `event`, given the base directory and
/// the version settled on before.
pub open spec fn step_outcome(
    base: Seq<char>,
    cached: Option<String>,
    event: InstallEvent,
    r: InstallAction,
) -> bool {
    match event {
        InstallEvent::Start => match cached {
            Some(c) => r matches InstallAction::Done { version: v } && v@ == c@,
            None => r is FetchRelease,
        },
        InstallEvent::ReleaseFetched { tag, assets } => {
            if exists|i: int| 0 <= i < assets@.len() && is_package(#[trigger] assets@[i]) {
                match r {
                    InstallAction::CheckDir { path, version, download_url } => {
                        &&& version@ == version_of_tag(tag@)
                        &&& path@ == versioned_dir_of(base, version@)
                        &&& exists|i: int|
                            0 <= i < assets@.len() && is_package(#[trigger] assets@[i])
                                && assets@[i].download_url == download_url && forall|j: int|
                                0 <= j < i ==> !is_package(#[trigger] assets@[j])
                    },
                    _ => false,
                }
            } else {
                match r {
                    InstallAction::ScanCache { root, fetch_error } => {
                        &&& root@ == adapter_dir_of(base)
                        &&& fetch_error@ == no_package_message(version_of_tag(tag@))
                    },
                    _ => false,
                }
            }
        },
        InstallEvent::ReleaseFailed { message } => match r {
            InstallAction::ScanCache { root, fetch_error } => root@ == adapter_dir_of(base)
                && fetch_error == message,
            _ => false,
        },
        InstallEvent::DirChecked { version, download_url, exists } => if exists {
            r == (InstallAction::Done { version })
        } else {
            match r {
                InstallAction::Install { root, target, download_url: u, version: v } => {
                    &&& root@ == adapter_dir_of(base)
                    &&& target@ == versioned_dir_of(base, version@)
                    &&& u == download_url
                    &&& v == version
                },
                _ => false,
            }
        },
        InstallEvent::Installed { version } => r == (InstallAction::Done { version }),
        InstallEvent::CreateDirFailed { error } => r matches InstallAction::Fail { message }
            && message@ == create_dir_failed_message(error@),
        InstallEvent::DownloadFailed { message } => r == (InstallAction::Fail { message }),
        InstallEvent::CacheScanned { names, fetch_error } => match r {
            InstallAction::Done { version: v } => is_installed_version(names@, v@)
                && is_latest_installed(names@, v@),
            InstallAction::Fail { message } => message@ == no_version_message(fetch_error@)
                && forall|i: int|
                0 <= i < names@.len() ==> (#[trigger] strip_prefix(
                    names@[i]@,
                    install_prefix(),
                )) is None,
            _ => false,
        },
    }
}

impl AutoHotkeyDebugger {
    /// A debugger that installs under the process's working directory.
    pub fn new() -> (r: Self)
        ensures
            r.base_dir@ == "."@,
            r.cached_version is None,
    {
        AutoHotkeyDebugger { base_dir: to_string("."), cached_version: None }
    }

    /// A debugger that installs under `base_dir`.
    pub fn with_base_dir(base_dir: String) -> (r: Self)
        ensures
            r.base_dir == base_dir,
            r.cached_version is None,
    {
        AutoHotkeyDebugger { base_dir, cached_version: None }
    }

    /// The adapter root directory.
    pub fn adapter_dir(&self) -> (r: String)
        ensures
            r@ == adapter_dir_of(self.base_dir@),
    {
        let mut r = to_string(self.base_dir.as_str());
        r.append("/");
        r.append(ADAPTER_NAME);
        r
    }

    /// The installation directory of `version`.
    pub fn versioned_dir(&self, version: &str) -> (r: String)
        ensures
            r@ == versioned_dir_of(self.base_dir@, version@),
    {
        let mut r = self.adapter_dir();
        r.append("/");
        r.append(ADAPTER_NAME);
        r.append("_");
        r.append(version);
        r
    }

    /// The bundled AutoHotkey runtime of `version`.
    pub fn ahk_exe_path(&self, version: &str) -> (r: String)
        ensures
            r@ == exe_path_of(self.base_dir@, version@),
    {
        let mut r = self.versioned_dir(version);
        r.append("/extension/bin/AutoHotkey.exe");
        r
    }

    /// The adapter entry script of `version`.
    pub fn adapter_script_path(&self, version: &str) -> (r: String)
        ensures
            r@ == script_path_of(self.base_dir@, version@),
    {
        let mut r = self.versioned_dir(version);
        r.append("/extension/ahkdbg/debugAdapter.ahk");
        r
    }

    /// Offers `version` to the write-once cache and hands it back.
    fn settle(&mut self, version: String) -> (r: InstallAction)
        ensures
            final(self).base_dir == old(self).base_dir,
            opt_view(final(self).cached_version) == cache_after(old(self).cached_version, version@),
            r == (InstallAction::Done { version }),
    {
        if self.cached_version.is_none() {
            self.cached_version = Some(to_string(version.as_str()));
        }
        InstallAction::Done { version }
    }

    /// Decides the next step of resolving and installing the adapter: a version
    /// settled on before is used as it is; otherwise the latest release is
    /// installed unless its directory exists, and when the release index fails
    /// the greatest installed version is used.
    pub fn install_step(&mut self, event: InstallEvent) -> (r: InstallAction)
        ensures
            final(self).base_dir == old(self).base_dir,
            !(r is Done) ==> final(self).cached_version == old(self).cached_version,
            r matches InstallAction::Done { version: v } ==> opt_view(final(self).cached_version)
                == cache_after(old(self).cached_version, v@),
            step_outcome(old(self).base_dir@, old(self).cached_version, event, r),
    {
        match event {
            InstallEvent::Start => match &self.cached_version {
                Some(c) => InstallAction::Done { version: to_string(c.as_str()) },
                None => InstallAction::FetchRelease,
            },
            InstallEvent::ReleaseFetched { tag, assets } => match select_release(tag.as_str(), assets) {
                Ok((asset, version)) => {
                    let path = self.versioned_dir(version.as_str());
                    InstallAction::CheckDir { path, version, download_url: asset.download_url }
                },
                Err(m) => InstallAction::ScanCache { root: self.adapter_dir(), fetch_error: m },
            },
            InstallEvent::ReleaseFailed { message } => InstallAction::ScanCache {
                root: self.adapter_dir(),
                fetch_error: message,
            },
            InstallEvent::DirChecked { version, download_url, exists } => {
                if exists {
                    self.settle(version)
                } else {
                    let root = self.adapter_dir();
                    let target = self.versioned_dir(version.as_str());
                    InstallAction::Install { root, target, download_url, version }
                }
            },
            InstallEvent::Installed { version } => self.settle(version),
            InstallEvent::CreateDirFailed { error } => {
                let mut message = to_string("Failed to create adapter directory: ");
                message.append(error.as_str());
                InstallAction::Fail { message }
            },
            InstallEvent::DownloadFailed { message } => InstallAction::Fail { message },
            InstallEvent::CacheScanned { names, fetch_error } => match fallback_version(&names) {
                Some(v) => self.settle(v),
                None => {
                    let mut message = to_string("Failed to fetch release and no cached version found: ");
                    message.append(fetch_error.as_str());
                    InstallAction::Fail { message }
                },
            },
        }
    }
}

} // verus!
