//! The connection: the local identity and the registry of pending client
//! transactions.

use vstd::prelude::*;
use crate::key::{TransactionKey, TransactionKeyView, request_key};
use crate::message::{Request, Response};
use crate::locator::{url_domain, url_domain_of};
use crate::random::{all_alphanumeric, random_alphanumeric};
use crate::registry::{ChannelId, Registry, no_routes, route_of, routed};
use crate::transaction::ClientTransaction;

verus! {

/// Why a connection cannot be set up.
#[derive(Clone, Copy, Debug, PartialEq, Eq, Structural)]
pub enum ConnectError {
    /// The URL is malformed, or its host is not a domain name.
    NoDomain,
}

/// Why a request cannot be handed over for sending.
#[derive(Clone, Copy, Debug, PartialEq, Eq, Structural)]
pub enum SendError {
    /// Every channel number has been used.
    ChannelsExhausted,
}

/// The suffix that makes the send-by host a name that never resolves.
pub open spec fn send_by_suffix() -> Seq<char> {
    ".invalid"@
}

/// Whether `host` is a placeholder send-by host: a token of 16 ASCII
/// letters and digits, followed by `.invalid`.
pub open spec fn is_placeholder_host(host: Seq<char>) -> bool {
    exists|token: Seq<char>|
        #![trigger all_alphanumeric(token)]
        token.len() == 16 && all_alphanumeric(token) && host == token + send_by_suffix()
}

/// One signalling connection.
pub struct Connection {
    domain: String,
    user: String,
    send_by: String,
    registry: Registry,
    next_channel: u64,
}

/// The mathematical model of `Connection`.
pub struct ConnectionView {
    /// The domain of the server's URL.
    pub domain: Seq<char>,
    /// The local user; the local identity is `sip:user@domain`.
    pub user: Seq<char>,
    /// The placeholder host of Via and Contact.
    pub send_by: Seq<char>,
    /// The pending client transactions.
    pub routes: Map<TransactionKeyView, u64>,
    /// The number that the next channel gets.
    pub next_channel: u64,
}

impl ConnectionView {
    /// Every channel in use was given out by the connection: its number is
    /// below the number that the next channel gets.
    pub open spec fn wf(self) -> bool {
        forall|key: TransactionKeyView| #[trigger]
            self.routes.dom().contains(key) ==> self.routes[key] < self.next_channel
    }

    /// The same connection with other routes and another next channel.
    pub open spec fn with_routes(self, routes: Map<TransactionKeyView, u64>, next_channel: u64) -> ConnectionView {
        ConnectionView { routes, next_channel, ..self }
    }
}

impl View for Connection {
    type V = ConnectionView;

    closed spec fn view(&self) -> ConnectionView {
        ConnectionView {
            domain: self.domain@,
            user: self.user@,
            send_by: self.send_by@,
            routes: self.registry@,
            next_channel: self.next_channel,
        }
    }
}

impl Connection {
    /// A connection with the given identity and no pending transaction.
    pub fn with_identity(domain: &str, user: &str, send_by: &str) -> (connection: Connection)
        ensures
            connection@ == (ConnectionView {
                domain: domain@,
                user: user@,
                send_by: send_by@,
                routes: no_routes(),
                next_channel: 0,
            }),
            connection@.wf(),
    {
        Connection::with_channels_from(domain, user, send_by, 0)
    }

    /// A connection with the given identity and no pending transaction,
    /// whose channels are numbered from `first_channel` on.
    pub fn with_channels_from(
        domain: &str,
        user: &str,
        send_by: &str,
        first_channel: ChannelId,
    ) -> (connection: Connection)
        ensures
            connection@ == (ConnectionView {
                domain: domain@,
                user: user@,
                send_by: send_by@,
                routes: no_routes(),
                next_channel: first_channel,
            }),
            connection@.wf(),
    {
        Connection {
            domain: domain.to_owned(),
            user: user.to_owned(),
            send_by: send_by.to_owned(),
            registry: Registry::new(),
            next_channel: first_channel,
        }
    }

    /// Sets up the connection's state for the server at `url` and the local
    /// user `username`: the identity `sip:username@domain-of(url)`, a fresh
    /// placeholder send-by host and an empty registry. Fails exactly when
    /// the URL has no domain.
    pub fn connect(url: &str, username: &str) -> (connection: Result<Connection, ConnectError>)
        ensures
            url_domain_of(url@) is None <==> connection is Err,
            connection matches Ok(c) ==> {
                &&& Some(c@.domain) == url_domain_of(url@)
                &&& c@.user == username@
                &&& is_placeholder_host(c@.send_by)
                &&& c@.routes == no_routes()
                &&& c@.next_channel == 0
                &&& c@.wf()
            },
    {
        match url_domain(url) {
            Some(domain) => {
                let token = random_alphanumeric(16);
                let send_by = token.concat(".invalid");
                Ok(Connection::with_identity(domain.as_str(), username, send_by.as_str()))
            },
            None => Err(ConnectError::NoDomain),
        }
    }

    /// The domain of the server.
    pub fn domain(&self) -> (domain: &str)
        ensures
            domain@ == self@.domain,
    {
        self.domain.as_str()
    }

    /// The local user.
    pub fn user(&self) -> (user: &str)
        ensures
            user@ == self@.user,
    {
        self.user.as_str()
    }

    /// The placeholder host that stands in Via and Contact.
    pub fn send_by(&self) -> (send_by: &str)
        ensures
            send_by@ == self@.send_by,
    {
        self.send_by.as_str()
    }

    /// Opens a client transaction for `request`: takes a fresh channel,
    /// registers it under the request's key, and hands back the handle that
    /// holds the request for transmission. Since the handle exists only
    /// after the key is registered, a response can never arrive before its
    /// route does.
    pub fn send(&mut self, request: Request) -> (transaction: Result<ClientTransaction, SendError>)
        requires
            old(self)@.wf(),
        ensures
            final(self)@.wf(),
            old(self)@.next_channel == u64::MAX <==> transaction is Err,
            transaction is Err ==> final(self)@ == old(self)@,
            transaction matches Ok(t) ==> {
                &&& t@.request == request@
                &&& t@.channel == old(self)@.next_channel
                &&& route_of(old(self)@.routes, request_key(request@)) != Some(t@.channel)
                &&& final(self)@ == old(self)@.with_routes(
                    old(self)@.routes.insert(request_key(request@), t@.channel),
                    (old(self)@.next_channel + 1) as u64,
                )
            },
    {
        if self.next_channel == u64::MAX {
            return Err(SendError::ChannelsExhausted);
        }
        let channel = self.next_channel;
        let key = TransactionKey::from_request(&request);
        self.registry.register(&key, channel);
        self.next_channel = channel + 1;
        Ok(ClientTransaction::new(request, channel))
    }

    /// The channel of the pending transaction that `response` belongs to.
    pub fn route(&self, response: &Response) -> (channel: Option<ChannelId>)
        ensures
            channel == routed(self@.routes, response@),
    {
        self.registry.route(response)
    }

    /// Forgets the pending transaction with `key`, if there is one.
    pub fn deregister(&mut self, key: &TransactionKey)
        ensures
            old(self)@.wf() ==> final(self)@.wf(),
            final(self)@ == old(self)@.with_routes(
                old(self)@.routes.remove(key@),
                old(self)@.next_channel,
            ),
    {
        let ghost before = self@;
        self.registry.deregister(key);
        proof {
            if before.wf() {
                let after = self@;
                assert forall|k: TransactionKeyView| #[trigger]
                    after.routes.dom().contains(k) implies after.routes[k]
                    < after.next_channel by {
                    assert(before.routes.dom().contains(k));
                }
            }
        }
    }
}

} // verus!
