//! Configuration of the client that hands e-mails to the mailer service.

use vstd::prelude::*;

verus! {

/// Where the mailer service is reached.
pub struct ClientConf {
    pub url: String,
}

/// A client of the mailer service.
pub struct Client {
    url: String,
}

impl Client {
    /// The address of the mailer service.
    pub closed spec fn spec_url(&self) -> Seq<char> {
        self.url@
    }

    /// A client for the service at the configured address.
    pub fn new(conf: ClientConf) -> (client: Client)
        ensures
            client.spec_url() == conf.url@,
    {
        Self { url: conf.url }
    }

    /// The address of the mailer service.
    pub fn url(&self) -> (url: &str)
        ensures
            url@ == self.spec_url(),
    {
        self.url.as_str()
    }
}

} // verus!
