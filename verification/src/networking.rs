//! Requests to a URL: what an answer means.

use vstd::prelude::*;

verus! {

/// The entry to simple requests.
pub struct UrlRequest;

/// A URL to request.
#[derive(Debug, Clone, PartialEq, Eq)]
pub struct UrlHandler {
    pub url: String,
}

/// What came of a request.
#[derive(Debug, Clone, PartialEq, Eq)]
pub enum Fetched {
    /// The request could not be sent; the reason in words.
    Failed(String),
    /// The server answered: the status code, the status in words, and the
    /// body as text.
    Answered { status: u16, status_text: String, body: String },
}

/// Whether a status code reports success.
pub open spec fn is_success(status: u16) -> bool {
    200 <= status < 300
}

/// What a request gives its caller: the body of a successful answer, and
/// else an error text that begins with `failure_lead` where the request
/// could not be sent, or names the status of an answer that reports no
/// success.
pub open spec fn outcome_of(fetched: Fetched, failure_lead: Seq<char>) -> Result<
    Seq<char>,
    Seq<char>,
> {
    match fetched {
        Fetched::Failed(why) => Err(failure_lead + why@),
        Fetched::Answered { status, status_text, body } => if is_success(status) {
            Ok(body@)
        } else {
            Err("Non-OK Status Code: "@ + status_text@)
        },
    }
}

fn outcome(fetched: Fetched, failure_lead: &str) -> (r: Result<String, String>)
    ensures
        match outcome_of(fetched, failure_lead@) {
            Ok(body) => r matches Ok(text) && text@ == body,
            Err(why) => r matches Err(text) && text@ == why,
        },
{
    match fetched {
        Fetched::Failed(why) => {
            let mut text = String::from_str(failure_lead);
            text.append(why.as_str());
            Err(text)
        },
        Fetched::Answered { status, status_text, body } => {
            if 200 <= status && status < 300 {
                Ok(body)
            } else {
                let mut text = String::from_str("Non-OK Status Code: ");
                text.append(status_text.as_str());
                Err(text)
            }
        },
    }
}

impl UrlRequest {
    /// What a simple request gives its caller.
    pub fn outcome(fetched: Fetched) -> (r: Result<String, String>)
        ensures
            match outcome_of(fetched, "Error sending request: "@) {
                Ok(body) => r matches Ok(text) && text@ == body,
                Err(why) => r matches Err(text) && text@ == why,
            },
    {
        outcome(fetched, "Error sending request: ")
    }
}

impl UrlHandler {
    /// What a request of the handler's URL gives its caller.
    pub fn outcome(&self, fetched: Fetched) -> (r: Result<String, String>)
        ensures
            match outcome_of(fetched, "Error while requesting url: "@) {
                Ok(body) => r matches Ok(text) && text@ == body,
                Err(why) => r matches Err(text) && text@ == why,
            },
    {
        outcome(fetched, "Error while requesting url: ")
    }
}

} // verus!
