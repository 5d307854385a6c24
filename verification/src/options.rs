//! Persisted launcher configuration as the core reads it, plus the pure
//! pieces of loading and storing it: choosing the effective data path,
//! picking a theme for a detected display mode, and stripping secret tokens
//! from accounts before they are written to disk.

use vstd::prelude::*;
use crate::strutil::clone_opt_string;

verus! {

/// One stored account: identity fields plus the secret tokens that live in
/// the platform credential store while the launcher runs.
pub struct LoginData {
    pub uuid: String,
    pub username: String,
    pub mc_token: String,
    pub access_token: String,
    pub refresh_token: String,
    pub norisk_token: String,
    pub experimental_token: Option<String>,
}

/// The display mode a host can report; drives the default theme choice.
pub enum ThemeMode {
    Dark,
    Light,
    Unspecified,
}

/// The launcher's persisted options. The core only reads these; loading and
/// storing the file itself is the caller's concern.
pub struct LauncherOptions {
    pub keep_launcher_open: bool,
    pub experimental_mode: bool,
    pub data_path: String,
    pub memory_percentage: i32,
    pub custom_java_path: String,
    pub custom_java_args: String,
    pub theme: String,
    pub latest_branch: Option<String>,
    pub latest_dev_branch: Option<String>,
    pub current_uuid: Option<String>,
    pub accounts: Vec<LoginData>,
    pub concurrent_downloads: i32,
}

/// Bound on simultaneously in-flight downloads when the options file does
/// not name one.
pub fn default_concurrent_downloads() -> (n: i32)
    ensures
        n == 10,
{
    10
}

/// The theme a freshly created options file gets for a detected display
/// mode: dark mode selects the dark theme, anything else the light one.
pub fn theme_for_mode(mode: &ThemeMode) -> (r: String)
    ensures
        r@ == match *mode {
            ThemeMode::Dark => "DARK"@,
            ThemeMode::Light => "LIGHT"@,
            ThemeMode::Unspecified => "LIGHT"@,
        },
{
    match mode {
        ThemeMode::Dark => String::from_str("DARK"),
        ThemeMode::Light => String::from_str("LIGHT"),
        ThemeMode::Unspecified => String::from_str("LIGHT"),
    }
}

impl LauncherOptions {
    /// The directory all launcher data lives under: the configured path, or
    /// the caller-supplied platform default when none is configured.
    pub fn data_path_buf(&self, default_data_dir: &str) -> (r: String)
        ensures
            r@ == if self.data_path@.len() == 0 {
                default_data_dir@
            } else {
                self.data_path@
            },
    {
        if self.data_path.as_str().is_empty() {
            return String::from_str(default_data_dir);
        }
        self.data_path.clone()
    }

    /// A copy of these options fit for writing to disk: every field kept,
    /// but each account's secret tokens blanked (they belong in the
    /// platform credential store, never in the options file).
    pub fn sanitized_for_storage(&self) -> (r: LauncherOptions)
        ensures
            r.keep_launcher_open == self.keep_launcher_open,
            r.experimental_mode == self.experimental_mode,
            r.data_path == self.data_path,
            r.memory_percentage == self.memory_percentage,
            r.custom_java_path == self.custom_java_path,
            r.custom_java_args == self.custom_java_args,
            r.theme == self.theme,
            r.latest_branch == self.latest_branch,
            r.latest_dev_branch == self.latest_dev_branch,
            r.current_uuid == self.current_uuid,
            r.concurrent_downloads == self.concurrent_downloads,
            r.accounts@.len() == self.accounts@.len(),
            forall|i: int|
                0 <= i < self.accounts@.len() ==> {
                    &&& (#[trigger] r.accounts@[i]).uuid == self.accounts@[i].uuid
                    &&& r.accounts@[i].username == self.accounts@[i].username
                    &&& r.accounts@[i].mc_token@ == Seq::<char>::empty()
                    &&& r.accounts@[i].access_token@ == Seq::<char>::empty()
                    &&& r.accounts@[i].refresh_token@ == Seq::<char>::empty()
                    &&& r.accounts@[i].norisk_token@ == Seq::<char>::empty()
                    &&& r.accounts@[i].experimental_token is None
                },
    {
        let mut sanitized: Vec<LoginData> = Vec::new();
        let n = self.accounts.len();
        for k in 0..n
            invariant
                n == self.accounts@.len(),
                sanitized@.len() == k,
                forall|i: int|
                    0 <= i < k ==> {
                        &&& (#[trigger] sanitized@[i]).uuid == self.accounts@[i].uuid
                        &&& sanitized@[i].username == self.accounts@[i].username
                        &&& sanitized@[i].mc_token@ == Seq::<char>::empty()
                        &&& sanitized@[i].access_token@ == Seq::<char>::empty()
                        &&& sanitized@[i].refresh_token@ == Seq::<char>::empty()
                        &&& sanitized@[i].norisk_token@ == Seq::<char>::empty()
                        &&& sanitized@[i].experimental_token is None
                    },
        {
            let account = &self.accounts[k];
            sanitized.push(LoginData {
                uuid: account.uuid.clone(),
                username: account.username.clone(),
                mc_token: String::new(),
                access_token: String::new(),
                refresh_token: String::new(),
                norisk_token: String::new(),
                experimental_token: Option::None,
            });
        }
        LauncherOptions {
            keep_launcher_open: self.keep_launcher_open,
            experimental_mode: self.experimental_mode,
            data_path: self.data_path.clone(),
            memory_percentage: self.memory_percentage,
            custom_java_path: self.custom_java_path.clone(),
            custom_java_args: self.custom_java_args.clone(),
            theme: self.theme.clone(),
            latest_branch: clone_opt_string(&self.latest_branch),
            latest_dev_branch: clone_opt_string(&self.latest_dev_branch),
            current_uuid: clone_opt_string(&self.current_uuid),
            accounts: sanitized,
            concurrent_downloads: self.concurrent_downloads,
        }
    }
}

impl Default for LauncherOptions {
    /// Fresh options: launcher kept open, stable mode, light theme, an
    /// empty data path standing for the platform default directory, 35% of
    /// memory for the game, and the default download bound.
    fn default() -> (r: Self)
        ensures
            r.keep_launcher_open == true,
            r.experimental_mode == false,
            r.data_path@ == Seq::<char>::empty(),
            r.memory_percentage == 35,
            r.custom_java_path@ == Seq::<char>::empty(),
            r.custom_java_args@ == Seq::<char>::empty(),
            r.theme@ == "LIGHT"@,
            r.latest_branch is None,
            r.latest_dev_branch is None,
            r.current_uuid is None,
            r.accounts@.len() == 0,
            r.concurrent_downloads == 10,
    {
        LauncherOptions {
            keep_launcher_open: true,
            experimental_mode: false,
            data_path: String::new(),
            memory_percentage: 35,
            custom_java_path: String::new(),
            custom_java_args: String::new(),
            theme: theme_for_mode(&ThemeMode::Unspecified),
            latest_branch: Option::None,
            latest_dev_branch: Option::None,
            current_uuid: Option::None,
            accounts: Vec::new(),
            concurrent_downloads: default_concurrent_downloads(),
        }
    }
}

} // verus!
