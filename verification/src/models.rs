use vstd::prelude::*;
use crate::db::{decimal, decimal_string};
use crate::error::{BackendError, BackendErrorKind, BackendErrorView};
use crate::state::OllamaUrl;

verus! {

/// What the backend is asked with to copy a model: the model to copy and the
/// name of the copy.
#[derive(Debug, PartialEq, Eq)]
pub struct CopyModelRequest {
    pub source: String,
    pub destination: String,
}

/// What the backend is asked with to delete a model and its data.
#[derive(Debug, PartialEq, Eq)]
pub struct DeleteModelRequest {
    pub model_name: String,
}

impl OllamaUrl {
    /// The address of the API as text: the host, a colon, the port in
    /// decimal, and a slash.
    pub open spec fn url(self) -> Seq<char> {
        self.host@ + ":"@ + decimal(self.port as int) + "/"@
    }

    /// The address of the API as text.
    pub fn url_str(&self) -> (url: String)
        ensures
            url@ == self.url(),
    {
        let mut url = self.host.clone();
        url.append(":");
        let port = decimal_string(self.port as i32);
        url.append(port.as_str());
        url.append("/");
        url
    }

    /// Where turns are sent for an answer.
    pub fn chat_url(&self) -> (url: String)
        ensures
            url@ == self.url() + "api/chat"@,
    {
        self.url_str().concat("api/chat")
    }

    /// Where the models at hand are listed.
    pub fn tags_url(&self) -> (url: String)
        ensures
            url@ == self.url() + "api/tags"@,
    {
        self.url_str().concat("api/tags")
    }

    /// Where a model is copied.
    pub fn copy_url(&self) -> (url: String)
        ensures
            url@ == self.url() + "api/copy"@,
    {
        self.url_str().concat("api/copy")
    }

    /// Where a model is deleted.
    pub fn delete_url(&self) -> (url: String)
        ensures
            url@ == self.url() + "api/delete"@,
    {
        self.url_str().concat("api/delete")
    }
}

/// What a request about a model came to, given whether the backend's status
/// says success and what the backend's answer holds: on success nothing is
/// given back; otherwise the backend has refused, and its answer says why.
pub fn model_outcome(success: bool, body: String) -> (outcome: Result<(), BackendError>)
    ensures
        match outcome {
            Ok(_) => success,
            Err(e) => !success && e@ == (BackendErrorView {
                kind: BackendErrorKind::Rejected,
                message: body@,
            }),
        },
{
    if success {
        Ok(())
    } else {
        Err(BackendError { kind: BackendErrorKind::Rejected, message: body })
    }
}

} // verus!
