//! Which launch paths are application bundles whose file icon may be set.
use vstd::prelude::*;

verus! {

/// What `std::path::Path::extension` finds in the path `path`.
pub uninterp spec fn path_extension(path: Seq<char>) -> Option<Seq<char>>;

/// Calls `std::path::Path::extension` on `path` and hands back the
/// extension as an owned string. The contract only names the result by
/// `path_extension`: std's rules for finding the extension (the part of the
/// last component after its final `.`, not counting a leading `.`) are not
/// restated here.
#[verifier::external_body]
fn extension_of(path: &str) -> (ext: Option<String>)
    ensures
        ext.deep_view() == path_extension(path@),
{
    std::path::Path::new(path).extension().map(|e| e.to_string_lossy().into_owned())
}

/// An extension marks an application bundle when it is exactly `app`.
pub fn is_app_extension(ext: Option<&str>) -> (is_app: bool)
    ensures
        is_app == (match ext {
            Some(e) => e@ == "app"@,
            None => false,
        }),
{
    match ext {
        Some(e) => {
            let e = e.to_owned();
            let app = "app".to_owned();
            e == app
        },
        None => false,
    }
}

/// Only an application bundle gets a custom file icon: a development launch
/// (`cargo run`) must never customize its containing directory.
pub fn is_app_bundle_path(path: &str) -> (is_app: bool)
    ensures
        is_app == (path_extension(path@) == Some("app"@)),
{
    match extension_of(path) {
        Some(e) => is_app_extension(Some(e.as_str())),
        None => false,
    }
}

} // verus!
