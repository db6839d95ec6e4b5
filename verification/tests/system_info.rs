use rust_libretro::config::{CORE_NAME, CORE_VERSION, VALID_EXTENSIONS};
use rust_libretro::retro_string::StringError;
use rust_libretro::system_info::{system_info, SystemInfo};

#[test]
fn core_describes_itself() {
    assert_eq!(
        system_info(CORE_NAME, CORE_VERSION, VALID_EXTENSIONS),
        Ok(SystemInfo {
            library_name: "Example Core\0",
            library_version: "0.0.1\0",
            valid_extensions: "\0",
            need_fullpath: false,
            block_extract: false,
        })
    );
}

#[test]
fn first_string_with_a_defect_decides_the_error() {
    assert_eq!(system_info("Core", "1\0", "bin\0"), Err(StringError::NotTerminated));
    assert_eq!(system_info("C\u{f6}re\0", "1", "bin\0"), Err(StringError::NotAscii));
    assert_eq!(system_info("Core\0", "1", "b\u{ef}n\0"), Err(StringError::NotTerminated));
    assert_eq!(system_info("Core\0", "1\0", "b\u{ef}n\0"), Err(StringError::NotAscii));
    assert_eq!(system_info("Core\0", "1\0", ""), Err(StringError::NotTerminated));
    assert!(system_info("Core\0", "1\0", "bin|iso\0").is_ok());
}
