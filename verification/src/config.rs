//! The user configuration: which outputs a finished capture feeds, where
//! screenshots are saved, and what opens them. Reading and writing the file
//! is the shell's business; the defaults, the validity rule and the file's
//! location inside the config directory are fixed here.

use vstd::prelude::*;
use vstd::string::StringExecFns;

verus! {

/// The persisted settings. `save_path` of `None` means the default pictures
/// directory; `open_with_program` is `"default"` or the path of a program.
#[derive(Clone, Debug)]
pub struct Config {
    pub copy_to_clipboard: bool,
    pub auto_open: bool,
    pub save_locally: bool,
    pub save_path: Option<String>,
    pub open_with_program: String,
}

impl Default for Config {
    /// Out of the box every output is enabled, screenshots go to the default
    /// directory and open with the system default program.
    fn default() -> (c: Config)
        ensures
            c.copy_to_clipboard,
            c.auto_open,
            c.save_locally,
            c.save_path is None,
            c.open_with_program@ == "default"@,
    {
        Config {
            copy_to_clipboard: true,
            auto_open: true,
            save_locally: true,
            save_path: None,
            open_with_program: String::from_str("default"),
        }
    }
}

/// A configuration can be saved only when it still produces some output: at
/// least one of clipboard, auto-open and local saving is enabled.
pub fn config_is_valid(config: &Config) -> (r: bool)
    ensures
        r == (config.copy_to_clipboard || config.auto_open || config.save_locally),
{
    config.copy_to_clipboard || config.auto_open || config.save_locally
}

/// The configuration file's path inside the application's config directory,
/// which the caller resolves and creates.
pub fn get_config_path(config_dir: &str) -> (r: String)
    ensures
        r@ == config_dir@ + "/config.json"@,
{
    let mut path = String::from_str(config_dir);
    path.append("/config.json");
    path
}

} // verus!
