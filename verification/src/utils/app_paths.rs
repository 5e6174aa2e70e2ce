//! Where other applications keep their configuration files.
use vstd::prelude::*;
use crate::path::{join, path_join};
use crate::utils::system::Platform;

verus! {

/// The path of an application's file under the configuration directory.
pub open spec fn app_config_file(config_dir: Seq<char>, relative: Seq<char>) -> Seq<char> {
    path_join(config_dir, relative)
}

/// `r` is what [`keep_if_exists`] gives for the candidate `path`: the path
/// itself when `file_exists` said the file is there, `None` when it said not.
pub open spec fn checked_path<F: Fn(&String) -> bool>(r: Option<String>, path: String, file_exists: F) -> bool {
    match r {
        Some(q) => q == path && file_exists.ensures((&path,), true),
        None => file_exists.ensures((&path,), false),
    }
}

/// `r` is what checking the file at `target` with `file_exists` gives (see
/// [`checked_path`]).
pub open spec fn existing_file<F: Fn(&String) -> bool>(r: Option<String>, target: Seq<char>, file_exists: F) -> bool {
    exists|path: String| path@ == target && #[trigger] checked_path(r, path, file_exists)
}

/// `path` when `file_exists` says there is a file there, otherwise `None`.
pub fn keep_if_exists<F: Fn(&String) -> bool>(path: String, file_exists: &F) -> (r: Option<String>)
    requires
        forall|p: &String| #[trigger] file_exists.requires((p,)),
    ensures
        checked_path(r, path, *file_exists),
{
    if file_exists(&path) {
        Some(path)
    } else {
        None
    }
}

/// An application's file under the configuration directory, when `file_exists`
/// says it is there.
pub fn resolve_config_path<F: Fn(&String) -> bool>(config_dir: &str, relative: &str, file_exists: &F) -> (r: Option<String>)
    requires
        forall|p: &String| #[trigger] file_exists.requires((p,)),
    ensures
        existing_file(r, app_config_file(config_dir@, relative@), *file_exists),
{
    let path = join(config_dir, relative);
    let r = keep_if_exists(path, file_exists);
    proof {
        assert(checked_path(r, path, *file_exists));
    }
    r
}

/// The VSCode user settings file under `config_dir`, if it exists.
pub fn get_vscode_settings_path<F: Fn(&String) -> bool>(config_dir: &str, file_exists: &F) -> (r: Option<String>)
    requires
        forall|p: &String| #[trigger] file_exists.requires((p,)),
    ensures
        existing_file(r, app_config_file(config_dir@, "Code/User/settings.json"@), *file_exists),
{
    resolve_config_path(config_dir, "Code/User/settings.json", file_exists)
}

/// The VSCode user keybindings file under `config_dir`, if it exists.
pub fn get_vscode_keybindings_path<F: Fn(&String) -> bool>(config_dir: &str, file_exists: &F) -> (r: Option<String>)
    requires
        forall|p: &String| #[trigger] file_exists.requires((p,)),
    ensures
        existing_file(r, app_config_file(config_dir@, "Code/User/keybindings.json"@), *file_exists),
{
    resolve_config_path(config_dir, "Code/User/keybindings.json", file_exists)
}

/// The Ghostty configuration file under `config_dir`, if it exists; macOS
/// keeps it under the application's bundle identifier.
pub fn get_ghostty_config_path<F: Fn(&String) -> bool>(platform: Platform, config_dir: &str, file_exists: &F) -> (r: Option<
    String,
>)
    requires
        forall|p: &String| #[trigger] file_exists.requires((p,)),
    ensures
        platform == Platform::MacOs ==> existing_file(
            r,
            app_config_file(config_dir@, "com.mitchellh.ghostty/config"@),
            *file_exists,
        ),
        platform != Platform::MacOs ==> existing_file(r, app_config_file(config_dir@, "ghostty/config"@), *file_exists),
{
    match platform {
        Platform::MacOs => resolve_config_path(config_dir, "com.mitchellh.ghostty/config", file_exists),
        _ => resolve_config_path(config_dir, "ghostty/config", file_exists),
    }
}

} // verus!
