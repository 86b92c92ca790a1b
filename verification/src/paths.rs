//! File paths, handled as text; their parsing is `std::path`'s, which
//! follows the conventions (separators, prefixes) of the platform the crate
//! is built for, so the names below stand for the results on that platform.
use vstd::prelude::*;

verus! {

/// Name for `Path::extension` (as UTF-8 text) of a path given as text.
pub uninterp spec fn path_extension_spec(path: Seq<char>) -> Option<Seq<char>>;

/// Name for `Path::file_name` (as UTF-8 text) of a path given as text.
pub uninterp spec fn path_file_name_spec(path: Seq<char>) -> Option<Seq<char>>;

/// Calls `Path::extension` and `OsStr::to_str`; the result is only named.
#[verifier::external_body]
pub(crate) fn path_extension(path: &str) -> (r: Option<String>)
    ensures
        r matches Some(e) ==> path_extension_spec(path@) == Some(e@),
        r is None ==> path_extension_spec(path@) is None,
{
    std::path::Path::new(path).extension().and_then(|e| e.to_str()).map(|e| e.to_string())
}

/// Calls `Path::file_name` and `OsStr::to_str`; the result is only named.
#[verifier::external_body]
pub(crate) fn path_file_name(path: &str) -> (r: Option<String>)
    ensures
        r matches Some(e) ==> path_file_name_spec(path@) == Some(e@),
        r is None ==> path_file_name_spec(path@) is None,
{
    std::path::Path::new(path).file_name().and_then(|e| e.to_str()).map(|e| e.to_string())
}

/// Name for `Path::join` of two paths given as text (lossily converted back).
pub uninterp spec fn path_join_spec(base: Seq<char>, name: Seq<char>) -> Seq<char>;

/// Calls `Path::join`; the result is only named.
#[verifier::external_body]
pub(crate) fn path_join(base: &str, name: &str) -> (r: String)
    ensures
        r@ == path_join_spec(base@, name@),
{
    std::path::Path::new(base).join(name).to_string_lossy().into_owned()
}

/// The qualifier, organization and application name the app's directories
/// are found under.
pub const APP_QUALIFIER: &'static str = "dev";
pub const APP_ORGANIZATION: &'static str = "transcribe-kit";
pub const APP_NAME: &'static str = "transcribe-kit";

/// The configuration directory `directories::ProjectDirs::from` finds for
/// a project, as text; `None` when the system gives no home directory.  It
/// depends on the environment, so nothing is stated of it.
#[verifier::external_body]
fn project_config_dir(qualifier: &str, organization: &str, application: &str) -> (r: Option<String>) {
    match directories::ProjectDirs::from(qualifier, organization, application) {
        Some(dirs) => Some(dirs.config_dir().to_string_lossy().into_owned()),
        None => None,
    }
}

/// The app's configuration directory (see [`APP_QUALIFIER`]); `None` when
/// the system gives no home directory.
pub(crate) fn app_config_dir() -> (r: Option<String>) {
    project_config_dir(APP_QUALIFIER, APP_ORGANIZATION, APP_NAME)
}

/// Name for `Path::with_extension` of a path given as text.
pub uninterp spec fn path_with_extension_spec(path: Seq<char>, extension: Seq<char>) -> Seq<char>;

/// An extension `Path::with_extension` accepts: it holds no path separator
/// (`PathBuf::set_extension` panics on one).
pub open spec fn is_plain_extension(extension: Seq<char>) -> bool {
    !extension.contains('/') && !extension.contains('\\')
}

/// Calls `Path::with_extension`; the result is only named.
#[verifier::external_body]
pub(crate) fn path_with_extension(path: &str, extension: &str) -> (r: String)
    requires
        is_plain_extension(extension@),
    ensures
        r@ == path_with_extension_spec(path@, extension@),
{
    std::path::Path::new(path).with_extension(extension).to_string_lossy().into_owned()
}

/// The cache directory `directories::ProjectDirs::from` finds for a
/// project, as text; `None` when the system gives no home directory.  It
/// depends on the environment, so nothing is stated of it.
#[verifier::external_body]
fn project_cache_dir(qualifier: &str, organization: &str, application: &str) -> (r: Option<String>) {
    match directories::ProjectDirs::from(qualifier, organization, application) {
        Some(dirs) => Some(dirs.cache_dir().to_string_lossy().into_owned()),
        None => None,
    }
}

/// The app's cache directory (see [`APP_QUALIFIER`]); `None` when the
/// system gives no home directory.
pub(crate) fn app_cache_dir() -> (r: Option<String>) {
    project_cache_dir(APP_QUALIFIER, APP_ORGANIZATION, APP_NAME)
}

} // verus!
