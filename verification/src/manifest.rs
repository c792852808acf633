//! Asset-pack manifests: the checks their constructors run before the
//! framework reads a manifest.

use vstd::prelude::*;

use crate::error::{bridge_error, nul_check, required_cstring, BackgroundAssetsError};

verus! {

broadcast use vstd::string::group_string_axioms;

/// The message for manifest data longer than the bridge can take.
pub open spec fn manifest_too_large_message() -> Seq<char> {
    "manifest data is too large to bridge"@
}

/// Checks the arguments of a manifest read from a URL: the URL, then the
/// app group, must be free of NUL bytes.
pub fn manifest_url_arguments(url: &str, app_group_id: &str) -> (r: Result<(String, String), BackgroundAssetsError>)
    ensures
        match nul_check(url@, "url"@) {
            Some(m) => r matches Err(e) && e@ == bridge_error(m),
            None => match nul_check(app_group_id@, "app_group_id"@) {
                Some(m) => r matches Err(e) && e@ == bridge_error(m),
                None => r matches Ok((u, g)) && u@ == url@ && g@ == app_group_id@,
            },
        },
{
    let url = match required_cstring(url, "url") {
        Ok(s) => s,
        Err(e) => return Err(e),
    };
    match required_cstring(app_group_id, "app_group_id") {
        Ok(g) => Ok((url, g)),
        Err(e) => Err(e),
    }
}

/// Checks the arguments of a manifest read from bytes: the app group must
/// be free of NUL bytes, then the data's length must fit `isize`. Gives the
/// app group and the length as the bridge takes it.
pub fn manifest_data_arguments(length: usize, app_group_id: &str) -> (r: Result<(String, isize), BackgroundAssetsError>)
    ensures
        match nul_check(app_group_id@, "app_group_id"@) {
            Some(m) => r matches Err(e) && e@ == bridge_error(m),
            None => if length <= isize::MAX {
                r matches Ok((g, n)) && g@ == app_group_id@ && n == length
            } else {
                r matches Err(e) && e@ == bridge_error(manifest_too_large_message())
            },
        },
{
    let group = match required_cstring(app_group_id, "app_group_id") {
        Ok(g) => g,
        Err(e) => return Err(e),
    };
    if length > isize::MAX as usize {
        return Err(BackgroundAssetsError::invalid_argument(String::from_str(
            "manifest data is too large to bridge",
        )));
    }
    Ok((group, length as isize))
}

} // verus!
