//! Android platform support.
pub mod android;

pub use crate::platform::android::avf::{check_avf_support, microdroid, AVFLauncher};
