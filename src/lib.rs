//! A scanner service core: the device-session protocol, the option model
//! of the scanning driver, and the BMP stream the scanned image is sent as.
use vstd::prelude::*;

pub mod bmp;
pub mod error;
pub mod frontend_files;
pub mod options;
pub mod session;

verus! {

/// The default log level: "debug" for a debug build, "info" otherwise.
pub fn log_str(debug_build: bool) -> (r: &'static str)
    ensures
        r@ == (if debug_build { "debug"@ } else { "info"@ }),
{
    if debug_build {
        "debug"
    } else {
        "info"
    }
}

} // verus!
