use vstd::prelude::*;
use vstd::string::*;

use crate::transcription::{default_model, TranscriptionSettings};

verus! {

/// The model and text-cleaning choice that transcriptions are made with.
pub struct AsrClient {
    model: String,
    polish: bool,
}

impl View for AsrClient {
    type V = (Seq<char>, bool);

    closed spec fn view(&self) -> (Seq<char>, bool) {
        (self.model@, self.polish)
    }
}

/// The client's choices after a request that may name a model and a cleaning choice.
pub open spec fn client_after_request(
    prev: (Seq<char>, bool),
    model: Option<Seq<char>>,
    polish: Option<bool>,
) -> (Seq<char>, bool) {
    (
        match model {
            Some(m) => m,
            None => prev.0,
        },
        match polish {
            Some(p) => p,
            None => prev.1,
        },
    )
}

impl AsrClient {
    /// A client that transcribes with `model`, cleaning the text when `polish` holds.
    pub fn new(model: String, polish: bool) -> (r: AsrClient)
        ensures
            r@ == (model@, polish),
    {
        AsrClient { model, polish }
    }

    /// Changes the model.
    pub fn set_model(&mut self, model: String)
        ensures
            final(self)@ == (model@, old(self)@.1),
    {
        self.model = model;
    }

    /// Changes whether the text is cleaned.
    pub fn set_polish(&mut self, polish: bool)
        ensures
            final(self)@ == (old(self)@.0, polish),
    {
        self.polish = polish;
    }

    /// The model.
    pub fn model(&self) -> (r: &str)
        ensures
            r@ == self@.0,
    {
        self.model.as_str()
    }

    /// Whether the text is cleaned.
    pub fn polish(&self) -> (r: bool)
        ensures
            r == self@.1,
    {
        self.polish
    }

    /// Takes the model and cleaning choice that a request names, keeps the
    /// others, and hands back a copy of the client to transcribe with.
    pub fn apply_request(&mut self, model: Option<String>, polish: Option<bool>) -> (snapshot:
        AsrClient)
        ensures
            final(self)@ == client_after_request(
                old(self)@,
                match model {
                    Some(m) => Some(m@),
                    None => None,
                },
                polish,
            ),
            snapshot@ == final(self)@,
    {
        match model {
            Some(m) => self.set_model(m),
            None => {},
        }
        match polish {
            Some(p) => self.set_polish(p),
            None => {},
        }
        AsrClient::new(self.model.clone(), self.polish)
    }

    /// The settings a transcription by this client is made with.
    pub fn transcription_settings(&self) -> (r: TranscriptionSettings)
        ensures
            r.model@ == self@.0,
            r.polish == self@.1,
    {
        TranscriptionSettings::resolve(Some(self.model.clone()), Some(self.polish))
    }
}

impl Default for AsrClient {
    /// The `sensevoice` model, with the text cleaned.
    fn default() -> (r: AsrClient)
        ensures
            r@ == (default_model(), true),
    {
        AsrClient::new(String::from_str("sensevoice"), true)
    }
}

/// A request that names neither a model nor a cleaning choice leaves the
/// client as it was; what a request names is what the client then holds.
pub proof fn lemma_request_keeps_unnamed_choices(
    prev: (Seq<char>, bool),
    model: Option<Seq<char>>,
    polish: Option<bool>,
)
    ensures
        client_after_request(prev, None, None) == prev,
        model matches Some(m) ==> client_after_request(prev, model, polish).0 == m,
        model is None ==> client_after_request(prev, model, polish).0 == prev.0,
        polish matches Some(p) ==> client_after_request(prev, model, polish).1 == p,
        polish is None ==> client_after_request(prev, model, polish).1 == prev.1,
{
}

} // verus!
