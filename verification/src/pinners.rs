//! Pinning a path at a service, and reading the content identifier out of
//! what the service hands back.
//!
//! The upload itself is the caller's: a provider here takes the outcome of
//! the upload and says which content identifier it stands for.

use crate::text::same_text;
use vstd::prelude::*;

pub mod infura;
pub mod pinata;

verus! {

/// The pinning services that can take a path.
#[derive(Clone, Copy, Debug, PartialEq, Eq, Structural)]
pub enum Pinners {
    Infura,
    Pinata,
}

impl Default for Pinners {
    /// The service that takes the path where none is selected.
    fn default() -> (r: Pinners)
        ensures
            r == Pinners::Infura,
    {
        Pinners::Infura
    }
}

impl Pinners {
    /// The name that selects each service.
    pub open spec fn spec_name(self) -> Seq<char> {
        match self {
            Pinners::Infura => "infura"@,
            Pinners::Pinata => "pinata"@,
        }
    }

    /// The name that selects this service.
    pub fn name(&self) -> (r: &'static str)
        ensures
            r@ == self.spec_name(),
    {
        match self {
            Pinners::Infura => "infura",
            Pinners::Pinata => "pinata",
        }
    }

    /// The service that `name` selects, if it selects one.
    pub fn from_name(name: &str) -> (r: Option<Pinners>)
        ensures
            match r {
                Some(pinner) => pinner.spec_name() == name@,
                None => forall|pinner: Pinners| pinner.spec_name() != name@,
            },
    {
        if same_text(name, "infura") {
            Some(Pinners::Infura)
        } else if same_text(name, "pinata") {
            Some(Pinners::Pinata)
        } else {
            None
        }
    }
}

/// Why a pin gave no content identifier.
#[derive(Debug, PartialEq, Eq)]
pub enum PinError {
    /// The service, or the way to it, failed the upload.
    Remote { message: String },
    /// The service answered, and no entry of its answer bears the name of
    /// what was uploaded.
    RootHashNotFound,
}

/// A [`PinError`] over texts.
pub enum PinErrorView {
    Remote { message: Seq<char> },
    RootHashNotFound,
}

impl View for PinError {
    type V = PinErrorView;

    open spec fn view(&self) -> PinErrorView {
        match self {
            PinError::Remote { message } => PinErrorView::Remote { message: message@ },
            PinError::RootHashNotFound => PinErrorView::RootHashNotFound,
        }
    }
}

impl PinErrorView {
    /// The sentence that reports the error.
    pub open spec fn message(self) -> Seq<char> {
        match self {
            PinErrorView::Remote { message } => message,
            PinErrorView::RootHashNotFound => "could not find root hash"@,
        }
    }
}

impl PinError {
    /// The sentence that reports the error.
    pub fn message(&self) -> (r: String)
        ensures
            r@ == self@.message(),
    {
        match self {
            PinError::Remote { message } => message.clone(),
            PinError::RootHashNotFound => "could not find root hash".to_owned(),
        }
    }
}

/// What a pin comes to, over texts.
pub open spec fn pinned(result: Result<String, PinError>) -> Result<Seq<char>, PinErrorView> {
    match result {
        Ok(hash) => Ok(hash@),
        Err(error) => Err(error@),
    }
}

/// A service that pins a path and answers with its content identifier.
pub trait Pinner {
    /// What the service hands back for an upload.
    type Answer;

    /// The content identifier that `answer` gives for an upload of `path`,
    /// if it gives one.
    spec fn identifier(&self, path: Seq<char>, answer: Self::Answer) -> Option<Seq<char>>;

    /// What the pin of `path` comes to, given the `outcome` of its upload:
    /// the failure's text where the upload failed, else the content
    /// identifier that the answer gives for `path`, else the report that it
    /// gives none.
    fn pin_path(&self, path: &str, outcome: Result<Self::Answer, String>) -> (r: Result<
        String,
        PinError,
    >)
        ensures
            pinned(r) == match outcome {
                Err(message) => Err(PinErrorView::Remote { message: message@ }),
                Ok(answer) => match self.identifier(path@, answer) {
                    Some(hash) => Ok(hash),
                    None => Err(PinErrorView::RootHashNotFound),
                },
            },
    ;
}

} // verus!
