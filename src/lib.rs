//! Locating an installed Apple platform SDK, either from what the SDK
//! discovery of `apple_sdk` reports or by validating a path that names an SDK
//! bundle.
pub mod sdk;

pub use sdk::{
    platform_from_name, platform_from_parsed, sdk_path_checked, sdk_path_from_path,
    sdk_path_from_search, SdkPath, SdkPathError,
};
