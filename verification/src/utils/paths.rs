//! Where mntn keeps its files. Everything lives under `~/.mntn`:
//!
//! ```text
//! ~/.mntn/
//! ├── backup/
//! │   ├── common/encrypted/
//! │   ├── profiles/<name>/encrypted/
//! │   ├── machines/<id>/
//! │   ├── environments/<env>/
//! │   └── packages/
//! ├── symlinks/
//! ├── profiles.json
//! ├── .active-profile
//! ├── config.registry.json
//! ├── package.registry.json
//! └── encrypted.registry.json
//! ```
use vstd::prelude::*;
use crate::path::{join, path_join};

verus! {

pub const MNTN_DIR: &'static str = ".mntn";
pub const BACKUP_DIR: &'static str = "backup";
pub const COMMON_DIR: &'static str = "common";
pub const ENCRYPTED_DIR: &'static str = "encrypted";
pub const PROFILES_DIR: &'static str = "profiles";
pub const MACHINES_DIR: &'static str = "machines";
pub const ENVIRONMENTS_DIR: &'static str = "environments";
pub const PACKAGES_DIR: &'static str = "packages";
pub const SYMLINKS_DIR: &'static str = "symlinks";
pub const PROFILE_CONFIG_FILE: &'static str = "profiles.json";
pub const ACTIVE_PROFILE_FILE: &'static str = ".active-profile";
pub const CONFIG_REGISTRY_FILE: &'static str = "config.registry.json";
pub const PACKAGE_REGISTRY_FILE: &'static str = "package.registry.json";
pub const ENCRYPTED_REGISTRY_FILE: &'static str = "encrypted.registry.json";

/// The standard directories of the current user, as `directories-next` reports them.
#[derive(Debug, Clone)]
pub struct SystemDirs {
    pub home: String,
    pub cache: String,
    pub config: String,
    pub data: String,
}

/// `directories_next::BaseDirs::new()` with its home, cache, config and data
/// directories. What comes back depends on the environment and the user
/// database, so nothing is stated of it; `None` when no home directory is found.
#[verifier::external_body]
pub fn system_dirs() -> Option<SystemDirs> {
    directories_next::BaseDirs::new().map(|b| SystemDirs {
        home: b.home_dir().to_string_lossy().into_owned(),
        cache: b.cache_dir().to_string_lossy().into_owned(),
        config: b.config_dir().to_string_lossy().into_owned(),
        data: b.data_dir().to_string_lossy().into_owned(),
    })
}

/// The `.mntn` directory under a home directory.
pub open spec fn mntn_root(home: Seq<char>) -> Seq<char> {
    path_join(home, MNTN_DIR@)
}

/// The `.mntn/backup` directory under a home directory.
pub open spec fn home_backup(home: Seq<char>) -> Seq<char> {
    path_join(mntn_root(home), BACKUP_DIR@)
}

/// The on-disk layout of mntn, rooted at its `.mntn` directory.
#[derive(Debug, Clone)]
pub struct MntnLayout {
    pub root: String,
}

impl MntnLayout {
    /// The layout under the given home directory.
    pub fn from_home(home: &str) -> (r: Self)
        ensures
            r.root@ == mntn_root(home@),
    {
        MntnLayout { root: join(home, MNTN_DIR) }
    }

    /// The layout of the current user, when a home directory is known.
    pub fn discover() -> (r: Option<Self>)
        ensures
            r matches Some(l) ==> exists|h: Seq<char>| l.root@ == #[trigger] mntn_root(h),
    {
        match system_dirs() {
            Some(d) => Some(Self::from_home(d.home.as_str())),
            None => None,
        }
    }

    pub open spec fn backup_spec(&self) -> Seq<char> {
        path_join(self.root@, BACKUP_DIR@)
    }

    /// `~/.mntn/backup`: the root of all backups, and the legacy layer.
    pub fn backup_path(&self) -> (r: String)
        ensures
            r@ == self.backup_spec(),
    {
        join(self.root.as_str(), BACKUP_DIR)
    }

    /// `~/.mntn/backup/common`.
    pub fn common_path(&self) -> (r: String)
        ensures
            r@ == path_join(self.backup_spec(), COMMON_DIR@),
    {
        join(self.backup_path().as_str(), COMMON_DIR)
    }

    /// `~/.mntn/backup/common/encrypted`.
    pub fn encrypted_common_path(&self) -> (r: String)
        ensures
            r@ == path_join(path_join(self.backup_spec(), COMMON_DIR@), ENCRYPTED_DIR@),
    {
        join(self.common_path().as_str(), ENCRYPTED_DIR)
    }

    /// `~/.mntn/backup/profiles/<name>`.
    pub fn profile_path(&self, name: &str) -> (r: String)
        ensures
            r@ == path_join(path_join(self.backup_spec(), PROFILES_DIR@), name@),
    {
        join(join(self.backup_path().as_str(), PROFILES_DIR).as_str(), name)
    }

    /// `~/.mntn/backup/profiles/<name>/encrypted`.
    pub fn encrypted_profile_path(&self, name: &str) -> (r: String)
        ensures
            r@ == path_join(path_join(path_join(self.backup_spec(), PROFILES_DIR@), name@), ENCRYPTED_DIR@),
    {
        join(self.profile_path(name).as_str(), ENCRYPTED_DIR)
    }

    /// `~/.mntn/backup/machines/<id>`.
    pub fn machine_path(&self, machine_id: &str) -> (r: String)
        ensures
            r@ == path_join(path_join(self.backup_spec(), MACHINES_DIR@), machine_id@),
    {
        join(join(self.backup_path().as_str(), MACHINES_DIR).as_str(), machine_id)
    }

    /// `~/.mntn/backup/environments/<env>`.
    pub fn environment_path(&self, environment: &str) -> (r: String)
        ensures
            r@ == path_join(path_join(self.backup_spec(), ENVIRONMENTS_DIR@), environment@),
    {
        join(join(self.backup_path().as_str(), ENVIRONMENTS_DIR).as_str(), environment)
    }

    /// `~/.mntn/backup/packages`.
    pub fn packages_path(&self) -> (r: String)
        ensures
            r@ == path_join(self.backup_spec(), PACKAGES_DIR@),
    {
        join(self.backup_path().as_str(), PACKAGES_DIR)
    }

    /// `~/.mntn/symlinks`: where files displaced by links are kept.
    pub fn symlinks_path(&self) -> (r: String)
        ensures
            r@ == path_join(self.root@, SYMLINKS_DIR@),
    {
        join(self.root.as_str(), SYMLINKS_DIR)
    }

    /// `~/.mntn/config.registry.json`.
    pub fn config_registry_path(&self) -> (r: String)
        ensures
            r@ == path_join(self.root@, CONFIG_REGISTRY_FILE@),
    {
        join(self.root.as_str(), CONFIG_REGISTRY_FILE)
    }

    /// `~/.mntn/package.registry.json`.
    pub fn package_registry_path(&self) -> (r: String)
        ensures
            r@ == path_join(self.root@, PACKAGE_REGISTRY_FILE@),
    {
        join(self.root.as_str(), PACKAGE_REGISTRY_FILE)
    }

    /// `~/.mntn/encrypted.registry.json`.
    pub fn encrypted_registry_path(&self) -> (r: String)
        ensures
            r@ == path_join(self.root@, ENCRYPTED_REGISTRY_FILE@),
    {
        join(self.root.as_str(), ENCRYPTED_REGISTRY_FILE)
    }

    /// `~/.mntn/profiles.json`.
    pub fn profiles_config_path(&self) -> (r: String)
        ensures
            r@ == path_join(self.root@, PROFILE_CONFIG_FILE@),
    {
        join(self.root.as_str(), PROFILE_CONFIG_FILE)
    }

    /// `~/.mntn/.active-profile`.
    pub fn active_profile_path(&self) -> (r: String)
        ensures
            r@ == path_join(self.root@, ACTIVE_PROFILE_FILE@),
    {
        join(self.root.as_str(), ACTIVE_PROFILE_FILE)
    }
}

/// `~/.mntn`, when a home directory is known.
pub fn get_mntn_dir() -> (r: Option<String>)
    ensures
        r matches Some(p) ==> exists|h: Seq<char>| p@ == #[trigger] mntn_root(h),
{
    match MntnLayout::discover() {
        Some(l) => Some(l.root),
        None => None,
    }
}

/// `~/.mntn/backup`, when a home directory is known.
pub fn get_backup_path() -> (r: Option<String>)
    ensures
        r matches Some(p) ==> exists|h: Seq<char>| p@ == #[trigger] home_backup(h),
{
    match MntnLayout::discover() {
        Some(l) => {
            let r = l.backup_path();
            proof {
                let h = choose|h: Seq<char>| l.root@ == mntn_root(h);
                assert(r@ == home_backup(h));
            }
            Some(r)
        },
        None => None,
    }
}

/// `~/.mntn/backup`, the root of the layered backups (same as `get_backup_path`).
pub fn get_backup_root() -> (r: Option<String>)
    ensures
        r matches Some(p) ==> exists|h: Seq<char>| p@ == #[trigger] home_backup(h),
{
    get_backup_path()
}

/// `~/.mntn/config.registry.json`, when a home directory is known.
pub fn get_registry_path() -> (r: Option<String>)
    ensures
        r matches Some(p) ==> exists|h: Seq<char>| p@ == #[trigger] path_join(mntn_root(h), CONFIG_REGISTRY_FILE@),
{
    match MntnLayout::discover() {
        Some(l) => {
            let r = l.config_registry_path();
            proof {
                let h = choose|h: Seq<char>| l.root@ == mntn_root(h);
                assert(r@ == path_join(mntn_root(h), CONFIG_REGISTRY_FILE@));
            }
            Some(r)
        },
        None => None,
    }
}

/// `~/.mntn/backup/common`, when a home directory is known.
pub fn get_common_path() -> (r: Option<String>)
    ensures
        r matches Some(p) ==> exists|h: Seq<char>| p@ == #[trigger] path_join(home_backup(h), COMMON_DIR@),
{
    match MntnLayout::discover() {
        Some(l) => {
            let r = l.common_path();
            proof {
                let h = choose|h: Seq<char>| l.root@ == mntn_root(h);
                assert(r@ == path_join(home_backup(h), COMMON_DIR@));
            }
            Some(r)
        },
        None => None,
    }
}

/// `~/.mntn/backup/common/encrypted`, when a home directory is known.
pub fn get_encrypted_common_path() -> (r: Option<String>)
    ensures
        r matches Some(p) ==> exists|h: Seq<char>| p@ == #[trigger] path_join(path_join(home_backup(h), COMMON_DIR@), ENCRYPTED_DIR@),
{
    match MntnLayout::discover() {
        Some(l) => {
            let r = l.encrypted_common_path();
            proof {
                let h = choose|h: Seq<char>| l.root@ == mntn_root(h);
                assert(r@ == path_join(path_join(home_backup(h), COMMON_DIR@), ENCRYPTED_DIR@));
            }
            Some(r)
        },
        None => None,
    }
}

/// `~/.mntn/backup/profiles/<name>`, when a home directory is known.
pub fn get_profiles_path(profile_name: &str) -> (r: Option<String>)
    ensures
        r matches Some(p) ==> exists|h: Seq<char>| p@ == #[trigger] path_join(path_join(home_backup(h), PROFILES_DIR@), profile_name@),
{
    match MntnLayout::discover() {
        Some(l) => {
            let r = l.profile_path(profile_name);
            proof {
                let h = choose|h: Seq<char>| l.root@ == mntn_root(h);
                assert(r@ == path_join(path_join(home_backup(h), PROFILES_DIR@), profile_name@));
            }
            Some(r)
        },
        None => None,
    }
}

/// `~/.mntn/backup/profiles/<name>/encrypted`, when a home directory is known.
pub fn get_encrypted_profiles_path(profile_name: &str) -> (r: Option<String>)
    ensures
        r matches Some(p) ==> exists|h: Seq<char>| p@ == #[trigger] path_join(path_join(path_join(home_backup(h), PROFILES_DIR@), profile_name@), ENCRYPTED_DIR@),
{
    match MntnLayout::discover() {
        Some(l) => {
            let r = l.encrypted_profile_path(profile_name);
            proof {
                let h = choose|h: Seq<char>| l.root@ == mntn_root(h);
                assert(r@ == path_join(path_join(path_join(home_backup(h), PROFILES_DIR@), profile_name@), ENCRYPTED_DIR@));
            }
            Some(r)
        },
        None => None,
    }
}

/// `~/.mntn/config.registry.json`, when a home directory is known.
pub fn get_config_registry_path() -> (r: Option<String>)
    ensures
        r matches Some(p) ==> exists|h: Seq<char>| p@ == #[trigger] path_join(mntn_root(h), CONFIG_REGISTRY_FILE@),
{
    match MntnLayout::discover() {
        Some(l) => {
            let r = l.config_registry_path();
            proof {
                let h = choose|h: Seq<char>| l.root@ == mntn_root(h);
                assert(r@ == path_join(mntn_root(h), CONFIG_REGISTRY_FILE@));
            }
            Some(r)
        },
        None => None,
    }
}

/// `~/.mntn/package.registry.json`, when a home directory is known.
pub fn get_package_registry_path() -> (r: Option<String>)
    ensures
        r matches Some(p) ==> exists|h: Seq<char>| p@ == #[trigger] path_join(mntn_root(h), PACKAGE_REGISTRY_FILE@),
{
    match MntnLayout::discover() {
        Some(l) => {
            let r = l.package_registry_path();
            proof {
                let h = choose|h: Seq<char>| l.root@ == mntn_root(h);
                assert(r@ == path_join(mntn_root(h), PACKAGE_REGISTRY_FILE@));
            }
            Some(r)
        },
        None => None,
    }
}

/// `~/.mntn/encrypted.registry.json`, when a home directory is known.
pub fn get_encrypted_registry_path() -> (r: Option<String>)
    ensures
        r matches Some(p) ==> exists|h: Seq<char>| p@ == #[trigger] path_join(mntn_root(h), ENCRYPTED_REGISTRY_FILE@),
{
    match MntnLayout::discover() {
        Some(l) => {
            let r = l.encrypted_registry_path();
            proof {
                let h = choose|h: Seq<char>| l.root@ == mntn_root(h);
                assert(r@ == path_join(mntn_root(h), ENCRYPTED_REGISTRY_FILE@));
            }
            Some(r)
        },
        None => None,
    }
}

/// `~/.mntn/backup/packages`, when a home directory is known.
pub fn get_packages_path() -> (r: Option<String>)
    ensures
        r matches Some(p) ==> exists|h: Seq<char>| p@ == #[trigger] path_join(home_backup(h), PACKAGES_DIR@),
{
    match MntnLayout::discover() {
        Some(l) => {
            let r = l.packages_path();
            proof {
                let h = choose|h: Seq<char>| l.root@ == mntn_root(h);
                assert(r@ == path_join(home_backup(h), PACKAGES_DIR@));
            }
            Some(r)
        },
        None => None,
    }
}

/// `~/.mntn/profiles.json`, when a home directory is known.
pub fn get_profiles_config_path() -> (r: Option<String>)
    ensures
        r matches Some(p) ==> exists|h: Seq<char>| p@ == #[trigger] path_join(mntn_root(h), PROFILE_CONFIG_FILE@),
{
    match MntnLayout::discover() {
        Some(l) => {
            let r = l.profiles_config_path();
            proof {
                let h = choose|h: Seq<char>| l.root@ == mntn_root(h);
                assert(r@ == path_join(mntn_root(h), PROFILE_CONFIG_FILE@));
            }
            Some(r)
        },
        None => None,
    }
}

/// `~/.mntn/.active-profile`, when a home directory is known.
pub fn get_active_profile_path() -> (r: Option<String>)
    ensures
        r matches Some(p) ==> exists|h: Seq<char>| p@ == #[trigger] path_join(mntn_root(h), ACTIVE_PROFILE_FILE@),
{
    match MntnLayout::discover() {
        Some(l) => {
            let r = l.active_profile_path();
            proof {
                let h = choose|h: Seq<char>| l.root@ == mntn_root(h);
                assert(r@ == path_join(mntn_root(h), ACTIVE_PROFILE_FILE@));
            }
            Some(r)
        },
        None => None,
    }
}

/// A configuration path under `$XDG_CONFIG_HOME` when that is set and not
/// empty, else under `~/.config`.
pub open spec fn xdg_or_default(xdg: Option<Seq<char>>, home: Seq<char>, relative: Seq<char>) -> Seq<char> {
    match xdg {
        Some(x) if x.len() > 0 => path_join(x, relative),
        _ => path_join(path_join(home, ".config"@), relative),
    }
}

/// A configuration path under the XDG configuration directory, or `~/.config`.
pub fn get_xdg_or_default_config_path(xdg_config_home: Option<&str>, home: &str, relative: &str) -> (r: String)
    ensures
        r@ == xdg_or_default(
            match xdg_config_home { Some(x) => Some(x@), None => None },
            home@,
            relative@,
        ),
{
    match xdg_config_home {
        Some(x) => {
            if x.unicode_len() > 0 {
                return join(x, relative);
            }
        },
        None => {},
    }
    join(join(home, ".config").as_str(), relative)
}

/// The Ghostty configuration file: under `$XDG_CONFIG_HOME` when that is
/// set and not empty; otherwise, on macOS, under `~/Library/Application
/// Support`, and elsewhere under `~/.config`.
pub fn get_ghostty_config_path(platform: crate::utils::system::Platform, xdg_config_home: Option<&str>, home: &str) -> (r: String)
    ensures
        r@ == match xdg_config_home {
            Some(x) if x@.len() > 0 => path_join(x@, "ghostty/config"@),
            _ => if platform == crate::utils::system::Platform::MacOs {
                path_join(home@, "Library/Application Support/com.mitchellh.ghostty/config"@)
            } else {
                xdg_or_default(None, home@, "ghostty/config"@)
            },
        },
{
    match xdg_config_home {
        Some(x) => {
            if x.unicode_len() > 0 {
                return join(x, "ghostty/config");
            }
        },
        None => {},
    }
    if platform == crate::utils::system::Platform::MacOs {
        join(home, "Library/Application Support/com.mitchellh.ghostty/config")
    } else {
        get_xdg_or_default_config_path(None, home, "ghostty/config")
    }
}

} // verus!
