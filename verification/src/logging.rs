//! Logging setup.

use vstd::prelude::*;

verus! {

/// Log records go to the terminal only.
pub fn is_only_terminal_output_logging() -> (r: bool)
    ensures
        r,
{
    true
}

/// Log records cannot be written to a file.
pub fn is_file_output_supported() -> (r: bool)
    ensures
        !r,
{
    false
}

/// Installs the global logger by a call of `env_logger::try_init`, which
/// fails, and changes nothing, if a global logger is installed already: the
/// first call installs the logger, every later call does nothing. The path
/// is not used. Nothing is claimed of the outcome.
#[verifier::external_body]
pub fn init_logging<P: AsRef<std::path::Path>>(_log_file_path: Option<P>) {
    let _ = env_logger::try_init();
}

} // verus!
