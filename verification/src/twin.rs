//! The identity of the twin that one worker looks after.

use vstd::prelude::*;
use vstd::string::*;

use crate::client::GeoLocation;

verus! {

/// What a worker knows of its twin from the start, and never changes.
#[derive(Debug, PartialEq, Eq)]
pub struct Twin {
    pub model_did: String,
    pub seed: String,
    pub label: String,
    pub location: Option<GeoLocation>,
}

/// What a [`Twin`] says.
pub struct TwinView {
    pub model_did: Seq<char>,
    pub seed: Seq<char>,
    pub label: Seq<char>,
    pub location: Option<GeoLocation>,
}

impl View for Twin {
    type V = TwinView;

    open spec fn view(&self) -> TwinView {
        TwinView {
            model_did: self.model_did@,
            seed: self.seed@,
            label: self.label@,
            location: self.location,
        }
    }
}

impl Twin {
    pub fn new(model_did: String, seed: String, label: String, location: Option<GeoLocation>) -> (twin:
        Twin)
        ensures
            twin == (Twin { model_did, seed, label, location }),
    {
        Twin { model_did, seed, label, location }
    }
}

impl Clone for Twin {
    fn clone(&self) -> (copy: Self)
        ensures
            copy == *self,
    {
        Twin {
            model_did: self.model_did.clone(),
            seed: self.seed.clone(),
            label: self.label.clone(),
            location: self.location,
        }
    }
}

} // verus!
