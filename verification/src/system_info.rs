//! What the core tells the frontend of itself.

use vstd::prelude::*;
use vstd::string::*;
use crate::retro_string::{check_valid, string_defect, StringError};

verus! {

/// What the core tells the frontend of itself. Each string is ASCII and
/// ends with a zero byte.
#[derive(Clone, Copy, Debug, PartialEq, Eq)]
pub struct SystemInfo {
    pub library_name: &'static str,
    pub library_version: &'static str,
    pub valid_extensions: &'static str,
    /// Whether the core wants the path of the content rather than its bytes.
    pub need_fullpath: bool,
    /// Whether the frontend must leave archives as they are.
    pub block_extract: bool,
}

/// What keeps the first of the strings that has a defect from going to the
/// frontend.
pub open spec fn info_defect(name: Seq<u8>, version: Seq<u8>, extensions: Seq<u8>) -> Option<
    StringError,
> {
    if string_defect(name) is Some {
        string_defect(name)
    } else if string_defect(version) is Some {
        string_defect(version)
    } else {
        string_defect(extensions)
    }
}

/// What the core tells the frontend of itself, or what keeps the first of
/// the strings that has a defect from going to the frontend.
pub fn system_info(
    name: &'static str,
    version: &'static str,
    extensions: &'static str,
) -> (result: Result<SystemInfo, StringError>)
    ensures
        match result {
            Ok(info) => info_defect(
                name.spec_bytes(),
                version.spec_bytes(),
                extensions.spec_bytes(),
            ) is None && info == (SystemInfo {
                library_name: name,
                library_version: version,
                valid_extensions: extensions,
                need_fullpath: false,
                block_extract: false,
            }),
            Err(error) => info_defect(
                name.spec_bytes(),
                version.spec_bytes(),
                extensions.spec_bytes(),
            ) == Some(error),
        },
{
    match check_valid(name) {
        Err(error) => {
            return Err(error);
        },
        Ok(_) => {},
    }
    match check_valid(version) {
        Err(error) => {
            return Err(error);
        },
        Ok(_) => {},
    }
    match check_valid(extensions) {
        Err(error) => {
            return Err(error);
        },
        Ok(_) => {},
    }
    Ok(
        SystemInfo {
            library_name: name,
            library_version: version,
            valid_extensions: extensions,
            need_fullpath: false,
            block_extract: false,
        },
    )
}

} // verus!
