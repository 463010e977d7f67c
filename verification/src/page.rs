//! The captured result of one page fetch.

use vstd::prelude::*;

verus! {

/// What one fetch captured: the address asked for, the raw response body
/// and the status code as text. Never changed once built.
#[derive(Debug)]
pub struct Data {
    url: String,
    body: String,
    status: String,
}

impl Data {
    /// The address the page was asked from.
    pub closed spec fn spec_url(&self) -> Seq<char> {
        self.url@
    }

    /// The raw response body.
    pub closed spec fn spec_body(&self) -> Seq<char> {
        self.body@
    }

    /// The status code as text.
    pub closed spec fn spec_status(&self) -> Seq<char> {
        self.status@
    }

    pub fn new(url: String, body: String, status: String) -> (data: Self)
        ensures
            data.spec_url() == url@,
            data.spec_body() == body@,
            data.spec_status() == status@,
    {
        Self { url, body, status }
    }

    /// The address the page was asked from.
    pub fn url(&self) -> (url: &str)
        ensures
            url@ == self.spec_url(),
    {
        self.url.as_str()
    }

    /// The raw response body.
    pub fn body(&self) -> (body: &str)
        ensures
            body@ == self.spec_body(),
    {
        self.body.as_str()
    }

    /// The status code as text.
    pub fn status(&self) -> (status: &str)
        ensures
            status@ == self.spec_status(),
    {
        self.status.as_str()
    }
}

} // verus!
