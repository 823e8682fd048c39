//! The four artifacts of a translation model and the configuration document
//! the engine reads them from.

use vstd::prelude::*;
use vstd::string::StringExecFns;

verus! {

/// The fixed hyperparameter block that opens every configuration document.
pub const FIXED_SETTINGS: &'static str =
    "\nbeam-size: 1\nnormalize: 1.0\nword-penalty: 0\nmax-length-break: 128\nmini-batch-words: 1024\nworkspace: 128\nmax-length-factor: 2.0\nskip-cost: True\nquiet: True\nquiet_translation: True\ngemm-precision: int8shiftAll\n\n";

/// Paths of the four files a translation model consists of.
#[derive(Debug, PartialEq, Eq)]
pub struct ModelFiles {
    src_vocab_path: String,
    trg_vocab_path: String,
    model_path: String,
    shortlist_path: String,
}

/// What a [`ModelFiles`] stands for: the text of its four paths.
pub struct ModelPaths {
    pub src_vocab_path: Seq<char>,
    pub trg_vocab_path: Seq<char>,
    pub model_path: Seq<char>,
    pub shortlist_path: Seq<char>,
}

impl ModelPaths {
    /// All four slots are populated.
    pub open spec fn is_complete(self) -> bool {
        &&& self.src_vocab_path.len() > 0
        &&& self.trg_vocab_path.len() > 0
        &&& self.model_path.len() > 0
        &&& self.shortlist_path.len() > 0
    }

    /// The configuration document for these paths: the fixed settings, then
    /// the weight file, the two vocabularies with the source first, and the
    /// shortlist with its `false` flag, each path verbatim.
    pub open spec fn config_text(self) -> Seq<char> {
        FIXED_SETTINGS@ + "models: ["@ + self.model_path + "]\nvocabs: ["@ + self.src_vocab_path
            + ", "@ + self.trg_vocab_path + "]\nshortlist: ["@ + self.shortlist_path
            + ", false]\n"@
    }
}

impl View for ModelFiles {
    type V = ModelPaths;

    closed spec fn view(&self) -> ModelPaths {
        ModelPaths {
            src_vocab_path: self.src_vocab_path@,
            trg_vocab_path: self.trg_vocab_path@,
            model_path: self.model_path@,
            shortlist_path: self.shortlist_path@,
        }
    }
}

impl ModelFiles {
    /// A descriptor of the four given paths.
    pub fn new(
        src_vocab_path: String,
        trg_vocab_path: String,
        model_path: String,
        shortlist_path: String,
    ) -> (files: ModelFiles)
        ensures
            files@ == (ModelPaths {
                src_vocab_path: src_vocab_path@,
                trg_vocab_path: trg_vocab_path@,
                model_path: model_path@,
                shortlist_path: shortlist_path@,
            }),
    {
        ModelFiles { src_vocab_path, trg_vocab_path, model_path, shortlist_path }
    }

    /// The path of the source vocabulary.
    pub fn src_vocab_path(&self) -> (path: &str)
        ensures
            path@ == self@.src_vocab_path,
    {
        self.src_vocab_path.as_str()
    }

    /// The path of the target vocabulary.
    pub fn trg_vocab_path(&self) -> (path: &str)
        ensures
            path@ == self@.trg_vocab_path,
    {
        self.trg_vocab_path.as_str()
    }

    /// The path of the weight file.
    pub fn model_path(&self) -> (path: &str)
        ensures
            path@ == self@.model_path,
    {
        self.model_path.as_str()
    }

    /// The path of the shortlist.
    pub fn shortlist_path(&self) -> (path: &str)
        ensures
            path@ == self@.shortlist_path,
    {
        self.shortlist_path.as_str()
    }

    /// Whether all four slots are populated.
    pub fn is_complete(&self) -> (complete: bool)
        ensures
            complete == self@.is_complete(),
    {
        !self.src_vocab_path.as_str().is_empty() && !self.trg_vocab_path.as_str().is_empty()
            && !self.model_path.as_str().is_empty() && !self.shortlist_path.as_str().is_empty()
    }

    /// The configuration document that names these four files.
    pub fn to_config(self) -> (config: String)
        ensures
            config@ == self@.config_text(),
    {
        let mut config = String::from_str(FIXED_SETTINGS);
        config.append("models: [");
        config.append(self.model_path.as_str());
        config.append("]\nvocabs: [");
        config.append(self.src_vocab_path.as_str());
        config.append(", ");
        config.append(self.trg_vocab_path.as_str());
        config.append("]\nshortlist: [");
        config.append(self.shortlist_path.as_str());
        config.append(", false]\n");
        config
    }
}

} // verus!
