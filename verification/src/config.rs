//! Where the program keeps its data.

use vstd::prelude::*;
use vstd::string::*;

verus! {

/// The directories and files the program works in.
#[derive(Debug)]
pub struct Config {
    /// The root of everything the program stores.
    pub data_dir: String,
    /// The directory under which models are kept.
    pub models_dir: String,
    /// The file that records the installed models.
    pub registry_path: String,
}

/// A configuration as plain mathematical values.
pub struct ConfigView {
    pub data_dir: Seq<char>,
    pub models_dir: Seq<char>,
    pub registry_path: Seq<char>,
}

impl View for Config {
    type V = ConfigView;

    open spec fn view(&self) -> ConfigView {
        ConfigView {
            data_dir: self.data_dir@,
            models_dir: self.models_dir@,
            registry_path: self.registry_path@,
        }
    }
}

impl Clone for Config {
    fn clone(&self) -> (copy: Self)
        ensures
            copy@ == self@,
    {
        Config {
            data_dir: self.data_dir.clone(),
            models_dir: self.models_dir.clone(),
            registry_path: self.registry_path.clone(),
        }
    }
}

/// The name of the program, under which the system assigns it a data
/// directory.
pub fn application_name() -> (name: &'static str)
    ensures
        name@ == "embeddy"@,
{
    "embeddy"
}

/// The environment variable that overrides the data directory.
pub fn data_dir_variable() -> (name: &'static str)
    ensures
        name@ == "EMBEDDY_DATA_DIR"@,
{
    "EMBEDDY_DATA_DIR"
}

/// The name of the models directory within the data directory.
pub fn models_dir_name() -> (name: &'static str)
    ensures
        name@ == "models"@,
{
    "models"
}

/// The name of the registry file within the data directory.
pub fn registry_file_name() -> (name: &'static str)
    ensures
        name@ == "models.toml"@,
{
    "models.toml"
}

} // verus!
