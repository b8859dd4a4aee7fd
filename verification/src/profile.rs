//! One stored connection profile and the texts derived from it.

use crate::text::{decimal, decimal_text, text_eq, texts};
use vstd::prelude::*;

verus! {

/// The mathematical content of a [`HostConfig`].
pub struct HostConfigView {
    pub host: Seq<char>,
    pub user: Option<Seq<char>>,
    pub port: Option<u16>,
}

impl HostConfigView {
    /// A profile always names a host.
    pub open spec fn valid(self) -> bool {
        self.host.len() > 0
    }

    /// `user@` when a user is set, nothing otherwise.
    pub open spec fn user_prefix(self) -> Seq<char> {
        match self.user {
            Some(user) => user + "@"@,
            None => Seq::empty(),
        }
    }

    /// `:port` when a port is set, nothing otherwise.
    pub open spec fn port_suffix(self) -> Seq<char> {
        match self.port {
            Some(port) => ":"@ + decimal(port as nat),
            None => Seq::empty(),
        }
    }

    /// The display form `user@host:port`, absent parts left out.
    pub open spec fn display(self) -> Seq<char> {
        self.user_prefix() + self.host + self.port_suffix()
    }

    /// The connection target `user@host`, or `host` alone without a user.
    pub open spec fn target(self) -> Seq<char> {
        self.user_prefix() + self.host
    }

    /// The arguments handed to the remote-login client: the port flag with
    /// its value when a port is set, then the target.
    pub open spec fn arguments(self) -> Seq<Seq<char>> {
        match self.port {
            Some(port) => seq!["-p"@, decimal(port as nat), self.target()],
            None => seq![self.target()],
        }
    }
}

/// The view of an optional text.
pub open spec fn optional_text(text: Option<String>) -> Option<Seq<char>> {
    match text {
        Some(t) => Some(t@),
        None => None,
    }
}

/// A connection profile: a host, and optionally a user and a port.
#[derive(Debug)]
pub struct HostConfig {
    host: String,
    user: Option<String>,
    port: Option<u16>,
}

impl View for HostConfig {
    type V = HostConfigView;

    closed spec fn view(&self) -> HostConfigView {
        HostConfigView { host: self.host@, user: optional_text(self.user), port: self.port }
    }
}

impl HostConfig {
    /// The host is never empty.
    #[verifier::type_invariant]
    pub closed spec fn inv(&self) -> bool {
        self.host@.len() > 0
    }

    /// What the invariant says of the view.
    pub proof fn lemma_valid(self)
        requires
            self.inv(),
        ensures
            self@.valid(),
    {
    }

    /// Builds a profile. An empty host is refused.
    pub fn new(host: &str, user: Option<String>, port: Option<u16>) -> (made: Option<HostConfig>)
        ensures
            host@.len() == 0 <==> made is None,
            made matches Some(config) ==> config@ == (HostConfigView {
                host: host@,
                user: optional_text(user),
                port,
            }),
    {
        if host.is_empty() {
            None
        } else {
            Some(HostConfig { host: String::from_str(host), user, port })
        }
    }

    /// The host to connect to; never empty.
    pub fn host(&self) -> (host: &str)
        ensures
            host@ == self@.host,
            host@.len() > 0,
    {
        proof {
            use_type_invariant(self);
        }
        self.host.as_str()
    }

    /// The user to log in as, where one is set.
    pub fn user(&self) -> (user: Option<&str>)
        ensures
            user is Some <==> self@.user is Some,
            user matches Some(u) ==> u@ == self@.user->0,
    {
        match &self.user {
            Some(u) => Some(u.as_str()),
            None => None,
        }
    }

    /// The port to connect to, where one is set.
    pub fn port(&self) -> (port: Option<u16>)
        ensures
            port == self@.port,
    {
        self.port
    }

    /// Whether two profiles hold the same host, user and port.
    pub fn same(&self, other: &HostConfig) -> (same: bool)
        ensures
            same == (self@ == other@),
    {
        let users = match (&self.user, &other.user) {
            (Some(mine), Some(theirs)) => text_eq(mine.as_str(), theirs.as_str()),
            (None, None) => true,
            _ => false,
        };
        let ports = match (self.port, other.port) {
            (Some(mine), Some(theirs)) => mine == theirs,
            (None, None) => true,
            _ => false,
        };
        users && ports && text_eq(self.host.as_str(), other.host.as_str())
    }

    /// The connection target `user@host`, or `host` alone.
    pub fn target(&self) -> (text: String)
        ensures
            text@ == self@.target(),
    {
        let mut text = String::new();
        match &self.user {
            Some(user) => {
                text.append(user.as_str());
                text.append("@");
            },
            None => {},
        }
        text.append(self.host.as_str());
        text
    }

    /// The display form `user@host:port`, absent parts left out.
    pub fn display(&self) -> (text: String)
        ensures
            text@ == self@.display(),
    {
        let mut text = self.target();
        match self.port {
            Some(port) => {
                text.append(":");
                let digits = decimal_text(port);
                text.append(digits.as_str());
            },
            None => {},
        }
        text
    }

    /// The arguments for the remote-login client.
    pub fn arguments(&self) -> (list: Vec<String>)
        ensures
            texts(list@) == self@.arguments(),
    {
        let mut list: Vec<String> = Vec::new();
        match self.port {
            Some(port) => {
                list.push(String::from_str("-p"));
                list.push(decimal_text(port));
            },
            None => {},
        }
        list.push(self.target());
        list
    }
}

impl Clone for HostConfig {
    fn clone(&self) -> (copy: HostConfig)
        ensures
            copy@ == self@,
    {
        proof {
            use_type_invariant(self);
        }
        let user = match &self.user {
            Some(u) => Some(u.clone()),
            None => None,
        };
        HostConfig { host: self.host.clone(), user, port: self.port }
    }
}

} // verus!
