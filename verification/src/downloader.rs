//! Installing a model: which files to fetch from its repository and in what
//! order, what each failure is called, and how the model is then recorded.
//! The fetching itself is done by the caller, one step at a time.

use crate::config::Config;
use crate::error::{is_download_failure, labelled, Error};
use crate::registry::{ModelInfo, ModelInfoView, ModelRegistry};
use vstd::prelude::*;
use vstd::string::*;

verus! {

/// A file of a model repository.
#[derive(Clone, Copy, Debug, PartialEq, Eq, Structural)]
pub enum RemoteFile {
    /// The mappable weight container.
    CanonicalWeights,
    /// The pickled weight container.
    LegacyWeights,
    /// The tokenizer description.
    Tokenizer,
    /// The model configuration.
    Config,
}

impl RemoteFile {
    /// The file's name in the repository.
    pub open spec fn name(self) -> Seq<char> {
        match self {
            RemoteFile::CanonicalWeights => "model.safetensors"@,
            RemoteFile::LegacyWeights => "pytorch_model.bin"@,
            RemoteFile::Tokenizer => "tokenizer.json"@,
            RemoteFile::Config => "config.json"@,
        }
    }

    /// The file's name in the repository.
    pub fn file_name(&self) -> (name: &'static str)
        ensures
            name@ == self.name(),
    {
        match self {
            RemoteFile::CanonicalWeights => "model.safetensors",
            RemoteFile::LegacyWeights => "pytorch_model.bin",
            RemoteFile::Tokenizer => "tokenizer.json",
            RemoteFile::Config => "config.json",
        }
    }
}

/// Where an installation stands: what the caller has been asked to do and
/// has not yet answered.
pub enum PullStage {
    /// Asked to reach the repository service.
    Connect,
    /// Asked to fetch the mappable weights.
    Weights,
    /// Asked to fetch the pickled weights, the mappable ones being missing.
    LegacyWeights,
    /// Asked to fetch the tokenizer; holds where the weights were put.
    Tokenizer(String),
    /// Asked to fetch the configuration; holds where the weights were put.
    Config(String),
    /// Asked for the directory of the weights file.
    Directory,
    /// Asked to convert the weights in this directory.
    Convert(String),
    /// Nothing more to do.
    Finished,
}

/// What the caller answers.
pub enum PullEvent {
    /// The step was carried out.
    Done,
    /// The step was carried out and gave this path.
    Located(String),
    /// The step failed, for this reason.
    Failed(String),
    /// The step failed with an error that is to be passed on as it is.
    Rejected(Error),
}

/// What the caller is asked to do next.
pub enum PullAction {
    /// Reach the repository service.
    Connect,
    /// Fetch this file of the repository and tell where it was put.
    Fetch(RemoteFile),
    /// Tell the directory that holds this file.
    ParentOf(String),
    /// Convert the weights in this directory to the mappable container.
    Convert(String),
    /// Record the model as installed in this directory, and stop.
    Register(String),
    /// Stop, with this error.
    Fail(Error),
}

/// What introduces the reason when neither weight file can be fetched.
pub open spec fn missing_weights_heading() -> Seq<char> {
    "Could not find model file: "@
}

/// What introduces the reason when the tokenizer cannot be fetched.
pub open spec fn missing_tokenizer_heading() -> Seq<char> {
    "Could not find tokenizer: "@
}

/// What introduces the reason when the configuration cannot be fetched.
pub open spec fn missing_config_heading() -> Seq<char> {
    "Could not find config: "@
}

/// What is reported of a weights file that lies in no directory.
pub open spec fn invalid_path_text() -> Seq<char> {
    "Invalid model path"@
}

/// What is reported of an answer that fits no question.
pub open spec fn pull_out_of_step_text() -> Seq<char> {
    "Download was answered out of step"@
}

/// `action` stops the installation with a download failure of this detail.
pub open spec fn fails_with(action: PullAction, detail: Seq<char>) -> bool {
    action matches PullAction::Fail(e) && is_download_failure(e, detail)
}

/// The rule of an installation: `next` and `action` are what follows the
/// answer `event` at `stage`.
///
/// The service is reached first. The mappable weights are fetched, and the
/// pickled ones only if those are missing; then the tokenizer, then the
/// configuration. Each of the three is required. The weights are then
/// converted in their directory, and the model is recorded there.
pub open spec fn pull_follows(
    stage: PullStage,
    event: PullEvent,
    next: PullStage,
    action: PullAction,
) -> bool {
    match (stage, event) {
        (PullStage::Connect, PullEvent::Done) => next is Weights && action
            == PullAction::Fetch(RemoteFile::CanonicalWeights),
        (PullStage::Connect, PullEvent::Failed(why)) => next is Finished && fails_with(
            action,
            why@,
        ),
        (PullStage::Weights, PullEvent::Located(path)) => next == PullStage::Tokenizer(path)
            && action == PullAction::Fetch(RemoteFile::Tokenizer),
        (PullStage::Weights, PullEvent::Failed(_)) => next is LegacyWeights && action
            == PullAction::Fetch(RemoteFile::LegacyWeights),
        (PullStage::LegacyWeights, PullEvent::Located(path)) => next == PullStage::Tokenizer(path)
            && action == PullAction::Fetch(RemoteFile::Tokenizer),
        (PullStage::LegacyWeights, PullEvent::Failed(why)) => next is Finished && fails_with(
            action,
            missing_weights_heading() + why@,
        ),
        (PullStage::Tokenizer(weights), PullEvent::Located(_)) => next == PullStage::Config(
            weights,
        ) && action == PullAction::Fetch(RemoteFile::Config),
        (PullStage::Tokenizer(_), PullEvent::Failed(why)) => next is Finished && fails_with(
            action,
            missing_tokenizer_heading() + why@,
        ),
        (PullStage::Config(weights), PullEvent::Located(_)) => next is Directory && action
            == PullAction::ParentOf(weights),
        (PullStage::Config(_), PullEvent::Failed(why)) => next is Finished && fails_with(
            action,
            missing_config_heading() + why@,
        ),
        (PullStage::Directory, PullEvent::Located(dir)) => next matches PullStage::Convert(d)
            && d@ == dir@ && action == PullAction::Convert(dir),
        (PullStage::Directory, PullEvent::Failed(_)) => next is Finished && fails_with(
            action,
            invalid_path_text(),
        ),
        (PullStage::Convert(dir), PullEvent::Done) => next is Finished && action
            == PullAction::Register(dir),
        (PullStage::Convert(_), PullEvent::Rejected(e)) => next is Finished && action
            == PullAction::Fail(e),
        _ => next is Finished && fails_with(action, pull_out_of_step_text()),
    }
}

fn pull_failure(heading: &str, why: &str) -> (moved: (PullStage, PullAction))
    ensures
        moved.0 is Finished,
        fails_with(moved.1, heading@ + why@),
{
    (PullStage::Finished, PullAction::Fail(Error::DownloadFailed(labelled(heading, why))))
}

fn pull_out_of_step() -> (moved: (PullStage, PullAction))
    ensures
        moved.0 is Finished,
        fails_with(moved.1, pull_out_of_step_text()),
{
    (
        PullStage::Finished,
        PullAction::Fail(
            Error::DownloadFailed(String::from_str("Download was answered out of step")),
        ),
    )
}

/// Starts an installation: asks for the repository service to be reached.
pub fn begin_pull() -> (moved: (PullStage, PullAction))
    ensures
        moved.0 is Connect,
        moved.1 is Connect,
{
    (PullStage::Connect, PullAction::Connect)
}

/// Takes the answer to the last request and decides what comes next, as
/// [`pull_follows`] says.
pub fn advance_pull(stage: PullStage, event: PullEvent) -> (moved: (PullStage, PullAction))
    ensures
        pull_follows(stage, event, moved.0, moved.1),
{
    match stage {
        PullStage::Connect => match event {
            PullEvent::Done => (PullStage::Weights, PullAction::Fetch(RemoteFile::CanonicalWeights)),
            PullEvent::Failed(why) => (
                PullStage::Finished,
                PullAction::Fail(Error::DownloadFailed(why)),
            ),
            _ => pull_out_of_step(),
        },
        PullStage::Weights => match event {
            PullEvent::Located(path) => (
                PullStage::Tokenizer(path),
                PullAction::Fetch(RemoteFile::Tokenizer),
            ),
            PullEvent::Failed(_) => (
                PullStage::LegacyWeights,
                PullAction::Fetch(RemoteFile::LegacyWeights),
            ),
            _ => pull_out_of_step(),
        },
        PullStage::LegacyWeights => match event {
            PullEvent::Located(path) => (
                PullStage::Tokenizer(path),
                PullAction::Fetch(RemoteFile::Tokenizer),
            ),
            PullEvent::Failed(why) => pull_failure("Could not find model file: ", why.as_str()),
            _ => pull_out_of_step(),
        },
        PullStage::Tokenizer(weights) => match event {
            PullEvent::Located(_) => (
                PullStage::Config(weights),
                PullAction::Fetch(RemoteFile::Config),
            ),
            PullEvent::Failed(why) => pull_failure("Could not find tokenizer: ", why.as_str()),
            _ => pull_out_of_step(),
        },
        PullStage::Config(weights) => match event {
            PullEvent::Located(_) => (PullStage::Directory, PullAction::ParentOf(weights)),
            PullEvent::Failed(why) => pull_failure("Could not find config: ", why.as_str()),
            _ => pull_out_of_step(),
        },
        PullStage::Directory => match event {
            PullEvent::Located(dir) => {
                let kept = dir.clone();
                (PullStage::Convert(kept), PullAction::Convert(dir))
            },
            PullEvent::Failed(_) => (
                PullStage::Finished,
                PullAction::Fail(Error::DownloadFailed(String::from_str("Invalid model path"))),
            ),
            _ => pull_out_of_step(),
        },
        PullStage::Convert(dir) => match event {
            PullEvent::Done => (PullStage::Finished, PullAction::Register(dir)),
            PullEvent::Rejected(e) => (PullStage::Finished, PullAction::Fail(e)),
            _ => pull_out_of_step(),
        },
        PullStage::Finished => pull_out_of_step(),
    }
}

/// The position just after the last slash of `s`; zero where there is none.
pub open spec fn after_last_slash(s: Seq<char>) -> int
    decreases s.len(),
{
    if s.len() == 0 {
        0
    } else if s.last() == '/' {
        s.len() as int
    } else {
        after_last_slash(s.drop_last())
    }
}

/// What follows the last slash of `s`: the whole of `s` where it has none.
pub open spec fn last_segment(s: Seq<char>) -> Seq<char> {
    s.subrange(after_last_slash(s), s.len() as int)
}

/// The name a model goes by when it is spoken of: its alias, or else the
/// last segment of its repository.
pub open spec fn short_name(hf_repo_id: Seq<char>, alias: Option<Seq<char>>) -> Seq<char> {
    match alias {
        Some(a) => a,
        None => last_segment(hf_repo_id),
    }
}

proof fn lemma_after_last_slash_found(s: Seq<char>, at: int)
    requires
        0 <= at <= s.len(),
        at > 0 ==> s[at - 1] == '/',
        forall|i: int| at <= i < s.len() ==> s[i] != '/',
    ensures
        after_last_slash(s) == at,
    decreases s.len(),
{
    if s.len() > 0 {
        if at == s.len() {
        } else {
            let init = s.drop_last();
            assert(s.last() == s[s.len() - 1]);
            assert forall|i: int| at <= i < init.len() implies init[i] != '/' by {
                assert(init[i] == s[i]);
            }
            if at > 0 {
                assert(init[at - 1] == s[at - 1]);
            }
            lemma_after_last_slash_found(init, at);
        }
    }
}

/// The name a model goes by when it is spoken of; see [`short_name`].
pub fn display_name(hf_repo_id: &str, alias: &Option<String>) -> (name: String)
    ensures
        name@ == short_name(
            hf_repo_id@,
            match alias {
                Some(a) => Some(a@),
                None => None,
            },
        ),
{
    match alias {
        Some(a) => a.clone(),
        None => {
            let len = hf_repo_id.unicode_len();
            let mut at: usize = len;
            while at > 0 && hf_repo_id.get_char(at - 1) != '/'
                invariant
                    at <= len,
                    len == hf_repo_id@.len(),
                    forall|i: int| at <= i < len ==> hf_repo_id@[i] != '/',
                decreases at,
            {
                at -= 1;
            }
            proof {
                lemma_after_last_slash_found(hf_repo_id@, at as int);
            }
            String::from_str(hf_repo_id.substring_char(at, len))
        },
    }
}

/// Installs models and keeps the record of what is installed.
pub struct ModelDownloader {
    config: Config,
    registry: ModelRegistry,
}

impl ModelDownloader {
    /// The record of installed models.
    pub closed spec fn records(&self) -> Map<Seq<char>, ModelInfoView> {
        self.registry@
    }

    /// The directories the downloader works in.
    pub closed spec fn settings(&self) -> Config {
        self.config
    }

    /// A downloader that works in the directories of `config` and starts from
    /// the record `registry`.
    pub fn new(config: Config, registry: ModelRegistry) -> (downloader: ModelDownloader)
        ensures
            downloader.records() == registry@,
            downloader.settings() == config,
    {
        ModelDownloader { config, registry }
    }

    /// The directories the downloader works in: those it was made with.
    pub fn config(&self) -> (config: &Config)
        ensures
            *config == self.settings(),
    {
        &self.config
    }

    /// The record of installed models.
    pub fn registry(&self) -> (registry: &ModelRegistry)
        ensures
            registry@ == self.records(),
    {
        &self.registry
    }

    /// Records a model that was fetched from `hf_repo_id` into `model_dir` at
    /// the time `downloaded_at`. The model is named after its repository; it
    /// is filed under its alias, or under that name where it has none; its
    /// embedding width is not yet known. Hands back the record that was
    /// filed.
    pub fn register(
        &mut self,
        hf_repo_id: &str,
        alias: Option<String>,
        model_dir: String,
        downloaded_at: String,
    ) -> (info: ModelInfo)
        ensures
            info@ == (ModelInfoView {
                name: hf_repo_id@,
                hf_repo_id: hf_repo_id@,
                alias: match alias {
                    Some(a) => Some(a@),
                    None => None,
                },
                model_path: model_dir@,
                embedding_dim: None,
                downloaded_at: downloaded_at@,
            }),
            final(self).records() == old(self).records().insert(info@.key(), info@),
            final(self).settings() == old(self).settings(),
    {
        let info = ModelInfo {
            name: String::from_str(hf_repo_id),
            hf_repo_id: String::from_str(hf_repo_id),
            alias,
            model_path: model_dir,
            embedding_dim: None,
            downloaded_at,
        };
        self.registry.add_model(info.clone());
        info
    }
}

} // verus!
