//! The commands of the program, after their arguments have been read.

use crate::error::{is_invalid_input, Error};
use vstd::prelude::*;
use vstd::string::*;

verus! {

/// One invocation of the program.
#[derive(Debug)]
pub struct Cli {
    pub command: Commands,
}

/// What the program can be asked to do.
#[derive(Debug)]
pub enum Commands {
    /// Fetch a model from its remote repository.
    Pull {
        /// The repository to fetch from.
        model: String,
        /// A shorter name for the model.
        alias: Option<String>,
    },
    /// Serve embeddings over HTTP, loading models as they are asked for.
    Serve {
        /// The device to compute on, such as `cpu` or `cuda:0`.
        device: String,
        /// The port to listen on.
        port: u16,
        /// The address to bind to.
        host: String,
    },
    /// Embed the given texts and print the result.
    Run {
        /// The name or alias of the model.
        model: String,
        /// The texts to embed.
        text: Vec<String>,
        /// The device to compute on.
        device: String,
    },
    /// List the installed models.
    List,
}

/// The port that is served on where none is given.
pub const DEFAULT_PORT: u16 = 8080;

/// The device that is computed on where none is given.
pub fn default_device() -> (name: &'static str)
    ensures
        name@ == "cpu"@,
{
    "cpu"
}

/// The address that is bound to where none is given.
pub fn default_host() -> (name: &'static str)
    ensures
        name@ == "0.0.0.0"@,
{
    "0.0.0.0"
}

/// What is reported of a run that was given no text.
pub open spec fn no_text_given() -> Seq<char> {
    "No text provided. Use --text \"your text\""@
}

impl Commands {
    /// Whether the command can be carried out as given: running over no text
    /// cannot.
    pub open spec fn is_usable(self) -> bool {
        match self {
            Commands::Run { text, .. } => text@.len() > 0,
            _ => true,
        }
    }

    /// Checks the command before anything is loaded. A run over no text fails
    /// with `InvalidInput`; every other command passes.
    pub fn check(&self) -> (checked: Result<(), Error>)
        ensures
            match checked {
                Ok(_) => self.is_usable(),
                Err(e) => !self.is_usable() && is_invalid_input(e, no_text_given()),
            },
    {
        match self {
            Commands::Run { text, .. } => {
                if text.len() == 0 {
                    Err(
                        Error::InvalidInput(
                            String::from_str("No text provided. Use --text \"your text\""),
                        ),
                    )
                } else {
                    Ok(())
                }
            },
            _ => Ok(()),
        }
    }
}

} // verus!
