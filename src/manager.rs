use vstd::prelude::*;

verus! {

/// Where the configuration is kept when no other path is given.
pub const DEFAULT_CONFIG_PATH: &'static str = ".mig.json";

/// The local configuration of the command-line tool.
#[derive(Debug)]
pub struct Config {
    pub authorization: String,
    pub project: String,
    pub slug: String,
}

/// The text of an optional setting: the setting, or an empty text where it
/// was not given.
pub open spec fn given_or_empty(setting: Option<String>) -> Seq<char> {
    match setting {
        Some(s) => s@,
        None => Seq::empty(),
    }
}

impl Config {
    /// The configuration that the `config` command writes: each setting
    /// that was not given is stored as an empty text, whatever was stored
    /// before.
    pub fn from_settings(
        authorization: Option<String>,
        project: Option<String>,
        slug: Option<String>,
    ) -> (r: Config)
        ensures
            r.authorization@ == given_or_empty(authorization),
            r.project@ == given_or_empty(project),
            r.slug@ == given_or_empty(slug),
    {
        Config {
            authorization: given_or_empty_string(authorization),
            project: given_or_empty_string(project),
            slug: given_or_empty_string(slug),
        }
    }
}

fn given_or_empty_string(setting: Option<String>) -> (r: String)
    ensures
        r@ == given_or_empty(setting),
{
    match setting {
        Some(s) => s,
        None => String::new(),
    }
}

/// Relies on `std::path::Path::exists`: whether a file system entry is at
/// `path` is up to the machine, so nothing is stated of the result.
#[verifier::external_body]
fn path_exists(path: &str) -> bool {
    std::path::Path::new(path).exists()
}

/// Reads and writes the local configuration file.
pub struct Manager {
    pub config_path: String,
}

impl Manager {
    /// A manager of the file at `custom_path`, or at `DEFAULT_CONFIG_PATH`
    /// where none is given.
    pub fn new(custom_path: Option<&str>) -> (r: Manager)
        ensures
            match custom_path {
                Some(path) => r.config_path@ == path@,
                None => r.config_path@ == DEFAULT_CONFIG_PATH@,
            },
    {
        match custom_path {
            Some(path) => Manager { config_path: String::from_str(path) },
            None => Manager { config_path: String::from_str(DEFAULT_CONFIG_PATH) },
        }
    }

    /// Whether a file system entry is at the configuration path, as the
    /// machine says at the time of the call.
    pub fn config_exist(&self) -> bool {
        path_exists(self.config_path.as_str())
    }
}

} // verus!
