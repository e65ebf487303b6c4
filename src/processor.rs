use vstd::prelude::*;

use crate::constants::CONFIG_FILE;
use crate::text::{has_substring, is_suffix, str_contains, str_ends_with};
use crate::types::{extension_listed, pattern_listed, Config};

verus! {

/// Paths that never call for a restart, whatever the configuration: the
/// configuration file, build output, dependency caches, environment files,
/// version-control, editor and framework-cache metadata.
pub open spec fn hard_excluded(path: Seq<char>) -> bool {
    has_substring(path, CONFIG_FILE@)
        || has_substring(path, "build"@)
        || has_substring(path, "node_modules"@)
        || is_suffix(".env"@, path)
        || is_suffix(".gitignore"@, path)
        || is_suffix(".next"@, path)
        || is_suffix(".git"@, path)
        || has_substring(path, ".vscode"@)
        || has_substring(path, "dist"@)
}

/// Whether a change of `path` is relevant: it is not hard-excluded and the
/// configuration's rule asks for a restart.
pub open spec fn is_relevant(path: Seq<char>, config: Config) -> bool {
    !hard_excluded(path) && config.restarts_on(path)
}

/// Whether a change of `path` is to be ignored, i.e. is not relevant.
pub fn should_ignore_path(path: &String, config: &Config) -> (r: bool)
    ensures
        r == !is_relevant(path@, *config),
{
    let p = path.as_str();
    if str_contains(p, CONFIG_FILE) || str_contains(p, "build") || str_contains(p, "node_modules")
        || str_ends_with(p, ".env") || str_ends_with(p, ".gitignore") || str_ends_with(p, ".next")
        || str_ends_with(p, ".git") || str_contains(p, ".vscode") || str_contains(p, "dist")
        || !config.should_restart(p) {
        return true;
    }
    false
}

/// A path that ends with an ignore pattern is never relevant, whatever the
/// watch-list and the executable kind.
pub proof fn ignore_list_wins(path: Seq<char>, config: Config)
    requires
        pattern_listed(path, config.ignore_view()),
    ensures
        !config.restarts_on(path),
        !is_relevant(path, config),
{
}

/// A path that ends with a watch pattern and with no ignore pattern calls for a
/// restart, whatever the default suffixes; it is relevant unless hard-excluded.
pub proof fn watch_list_wins(path: Seq<char>, config: Config)
    requires
        !pattern_listed(path, config.ignore_view()),
        pattern_listed(path, config.watch_view()),
    ensures
        config.restarts_on(path),
        !hard_excluded(path) ==> is_relevant(path, config),
{
}

/// With empty ignore- and watch-lists, a path that is not hard-excluded is
/// relevant exactly when it ends with one of the executable's source suffixes.
pub proof fn default_extensions_decide(path: Seq<char>, config: Config)
    requires
        config.ignore_list@.len() == 0,
        config.watch_list@.len() == 0,
    ensures
        config.restarts_on(path) == extension_listed(path, config.executable.extensions()),
        !hard_excluded(path) ==> (is_relevant(path, config) == extension_listed(
            path,
            config.executable.extensions(),
        )),
{
}

} // verus!
