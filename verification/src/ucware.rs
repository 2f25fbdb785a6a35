//! The remote-procedure side of the client: the namespace and interface
//! names that make up an endpoint's address, the calls that the client
//! makes, the slots that the server reports, and the choice of the slot
//! that carries the signalling. Making the calls is the caller's part.

use vstd::prelude::*;
use core::marker::PhantomData;
use crate::locator::{
    url_domain, url_domain_of, url_join, url_join_of, url_path, url_path_of, url_with_path,
    url_with_path_of,
};
use crate::sip::option_view;
pub use crate::token::TokenStore;
use crate::text::{decimal, decimal_text};

verus! {

/// A namespace of the remote-procedure interface.
pub trait Namespace {
    /// The path segment of the namespace.
    spec fn spec_path() -> Seq<char>;

    fn path() -> (path: &'static str)
        ensures
            path@ == Self::spec_path(),
    ;
}

/// An interface within a namespace.
pub trait Interface {
    /// The path segment of the interface.
    spec fn spec_path() -> Seq<char>;

    fn path() -> (path: &'static str)
        ensures
            path@ == Self::spec_path(),
    ;
}

/// The namespace of the calls that a user makes for themself.
pub struct UserNamespace;

impl Namespace for UserNamespace {
    open spec fn spec_path() -> Seq<char> {
        "user"@
    }

    fn path() -> (path: &'static str) {
        "user"
    }
}

/// The interface that issues and validates tokens.
pub struct AuthenticationInterface;

impl Interface for AuthenticationInterface {
    open spec fn spec_path() -> Seq<char> {
        "authentication"@
    }

    fn path() -> (path: &'static str) {
        "authentication"
    }
}

/// The interface that lists a user's slots.
pub struct SlotInterface;

impl Interface for SlotInterface {
    open spec fn spec_path() -> Seq<char> {
        "slot"@
    }

    fn path() -> (path: &'static str) {
        "slot"
    }
}

/// Whether `text` ends with `suffix`.
pub open spec fn ends_with(text: Seq<char>, suffix: Seq<char>) -> bool {
    text.len() >= suffix.len() && text.subrange(text.len() - suffix.len(), text.len() as int)
        == suffix
}

/// Tells whether `text` ends with `suffix`.
pub fn has_suffix(text: &str, suffix: &str) -> (has: bool)
    ensures
        has == ends_with(text@, suffix@),
{
    let n = text.unicode_len();
    let m = suffix.unicode_len();
    if n < m {
        return false;
    }
    let tail = text.substring_char(n - m, n).to_owned();
    tail == suffix.to_owned()
}

/// The URL with `addition` appended to its path, unless the path ends with
/// `ending` already; `None` where the text is no URL.
pub open spec fn with_path_ending(url: Seq<char>, ending: Seq<char>, addition: Seq<char>) -> Option<
    Seq<char>,
> {
    match url_path_of(url) {
        None => None,
        Some(path) => if ends_with(path, ending) {
            Some(url)
        } else {
            url_with_path_of(url, path + addition)
        },
    }
}

/// The base URL of the interface for a server's URL: the path ends with a
/// slash, and then with `/api/2/`.
pub open spec fn api_base(url: Seq<char>) -> Option<Seq<char>> {
    match with_path_ending(url, "/"@, "/"@) {
        None => None,
        Some(slashed) => with_path_ending(slashed, "/api/2/"@, "api/2/"@),
    }
}

fn ensure_path_ending(url: String, ending: &str, addition: &str) -> (changed: Option<String>)
    ensures
        option_view(changed) == with_path_ending(url@, ending@, addition@),
{
    match url_path(url.as_str()) {
        None => None,
        Some(path) => if has_suffix(path.as_str(), ending) {
            Some(url)
        } else {
            url_with_path(url.as_str(), path.concat(addition).as_str())
        },
    }
}

/// The address of an interface: the interface's segment under the
/// namespace's segment under the base, each closed by a slash.
pub open spec fn endpoint_url(base: Seq<char>, namespace: Seq<char>, interface: Seq<char>) -> Option<
    Seq<char>,
> {
    match url_join_of(base, namespace + "/"@) {
        None => None,
        Some(under) => url_join_of(under, interface + "/"@),
    }
}

/// The value of the HTTP Authorization header for a bearer token.
pub open spec fn bearer(token: Seq<char>) -> Seq<char> {
    "Bearer "@ + token
}

/// One remote-procedure call, ready to be made.
#[derive(Debug)]
pub struct Call {
    /// The address of the interface.
    pub url: String,
    /// The name of the procedure.
    pub method: String,
    /// The value of the Authorization header.
    pub authorization: String,
}

/// The mathematical model of `Call`.
pub struct CallView {
    pub url: Seq<char>,
    pub method: Seq<char>,
    pub authorization: Seq<char>,
}

impl View for Call {
    type V = CallView;

    open spec fn view(&self) -> CallView {
        CallView { url: self.url@, method: self.method@, authorization: self.authorization@ }
    }
}

/// The view of an optional call.
pub open spec fn call_view(call: Option<Call>) -> Option<CallView> {
    match call {
        Some(c) => Some(c@),
        None => None,
    }
}

/// The call of `method` on an interface, made with `token`; `None` where
/// the interface's address cannot be formed.
pub open spec fn call_of(
    base: Seq<char>,
    namespace: Seq<char>,
    interface: Seq<char>,
    method: Seq<char>,
    token: Seq<char>,
) -> Option<CallView> {
    match endpoint_url(base, namespace, interface) {
        None => None,
        Some(url) => Some(CallView { url, method, authorization: bearer(token) }),
    }
}

/// The client of one server.
#[derive(Debug)]
pub struct Client {
    base_url: String,
}

impl View for Client {
    type V = Seq<char>;

    /// The base URL of the server's interface.
    closed spec fn view(&self) -> Seq<char> {
        self.base_url@
    }
}

/// The client of one namespace.
pub struct NamespaceClient<N: Namespace> {
    base_url: String,
    namespace: PhantomData<N>,
}

impl<N: Namespace> View for NamespaceClient<N> {
    type V = Seq<char>;

    closed spec fn view(&self) -> Seq<char> {
        self.base_url@
    }
}

/// The client of one interface of a namespace.
pub struct InterfaceClient<N: Namespace, I: Interface> {
    base_url: String,
    namespace: PhantomData<N>,
    interface: PhantomData<I>,
}

impl<N: Namespace, I: Interface> View for InterfaceClient<N, I> {
    type V = Seq<char>;

    closed spec fn view(&self) -> Seq<char> {
        self.base_url@
    }
}

/// The client of the user's namespace.
pub type UserNamespaceClient = NamespaceClient<UserNamespace>;

/// The client of the interface that issues and validates tokens.
pub type AuthenticationInterfaceClient = InterfaceClient<UserNamespace, AuthenticationInterface>;

/// The client of the interface that lists the user's slots.
pub type SlotInterfaceClient = InterfaceClient<UserNamespace, SlotInterface>;

/// Why a client cannot do what is asked of it.
#[derive(Clone, Copy, Debug, PartialEq, Eq, Structural)]
pub enum ClientError {
    /// The server's URL does not parse.
    InvalidUrl,
    /// The host of the server's URL is not a domain name.
    NoDomain,
    /// No slot is of the kind that carries the signalling.
    NoMatchingSlot,
}

impl<N: Namespace> NamespaceClient<N> {
    /// The client of an interface of this namespace.
    pub fn derive<I: Interface>(&self) -> (client: InterfaceClient<N, I>)
        ensures
            client@ == self@,
    {
        InterfaceClient {
            base_url: self.base_url.clone(),
            namespace: PhantomData,
            interface: PhantomData,
        }
    }
}

impl<N: Namespace, I: Interface> InterfaceClient<N, I> {
    /// The address of the interface.
    pub fn client(&self) -> (url: Option<String>)
        ensures
            option_view(url) == endpoint_url(self@, N::spec_path(), I::spec_path()),
    {
        let namespace = N::path().to_owned().concat("/");
        match url_join(self.base_url.as_str(), namespace.as_str()) {
            None => None,
            Some(under) => {
                let interface = I::path().to_owned().concat("/");
                url_join(under.as_str(), interface.as_str())
            },
        }
    }

    /// The call of `method` on the interface, made with `token`.
    pub fn request(&self, method: &str, token: &str) -> (call: Option<Call>)
        ensures
            call_view(call) == call_of(self@, N::spec_path(), I::spec_path(), method@, token@),
    {
        match self.client() {
            None => None,
            Some(url) => Some(
                Call {
                    url,
                    method: method.to_owned(),
                    authorization: "Bearer ".to_owned().concat(token),
                },
            ),
        }
    }
}

impl UserNamespaceClient {
    /// The client of the interface that issues and validates tokens.
    pub fn authentication(&self) -> (client: AuthenticationInterfaceClient)
        ensures
            client@ == self@,
    {
        self.derive()
    }

    /// The client of the interface that lists the user's slots.
    pub fn slots(&self) -> (client: SlotInterfaceClient)
        ensures
            client@ == self@,
    {
        self.derive()
    }
}

impl AuthenticationInterfaceClient {
    /// The call that asks for a new token.
    pub fn get_token(&self, token: &str) -> (call: Option<Call>)
        ensures
            call_view(call) == call_of(self@, "user"@, "authentication"@, "getToken"@, token@),
    {
        self.request("getToken", token)
    }

    /// The call that asks whether the token is valid.
    pub fn validate_token(&self, token: &str) -> (call: Option<Call>)
        ensures
            call_view(call) == call_of(
                self@,
                "user"@,
                "authentication"@,
                "validateToken"@,
                token@,
            ),
    {
        self.request("validateToken", token)
    }
}

impl SlotInterfaceClient {
    /// The call that asks for all slots of the user.
    pub fn get_all(&self, token: &str) -> (call: Option<Call>)
        ensures
            call_view(call) == call_of(self@, "user"@, "slot"@, "getAll"@, token@),
    {
        self.request("getAll", token)
    }
}

/// One device or endpoint of the user, as the server describes it.
#[derive(Debug)]
pub struct Slot {
    pub id: u64,
    pub name: String,
    pub user_id: u64,
    pub device_type: String,
    pub device_id: u64,
    pub sip_host: String,
    pub sip_port: u16,
    pub sip_username: String,
    pub sip_password: String,
}

/// The mathematical model of `Slot`.
pub struct SlotView {
    pub id: u64,
    pub name: Seq<char>,
    pub user_id: u64,
    pub device_type: Seq<char>,
    pub device_id: u64,
    pub sip_host: Seq<char>,
    pub sip_port: u16,
    pub sip_username: Seq<char>,
    pub sip_password: Seq<char>,
}

impl View for Slot {
    type V = SlotView;

    open spec fn view(&self) -> SlotView {
        SlotView {
            id: self.id,
            name: self.name@,
            user_id: self.user_id,
            device_type: self.device_type@,
            device_id: self.device_id,
            sip_host: self.sip_host@,
            sip_port: self.sip_port,
            sip_username: self.sip_username@,
            sip_password: self.sip_password@,
        }
    }
}

/// The views of a list of slots, in order.
pub open spec fn slot_views(slots: Seq<Slot>) -> Seq<SlotView> {
    slots.map_values(|s: Slot| s@)
}

/// Index of the first slot at or after `from` whose device type is
/// `webrtc`, or the length of the list when there is none.
pub open spec fn webrtc_position(slots: Seq<SlotView>, from: int) -> int
    decreases slots.len() - from,
{
    if from < 0 || from >= slots.len() {
        slots.len() as int
    } else if slots[from].device_type == "webrtc"@ {
        from
    } else {
        webrtc_position(slots, from + 1)
    }
}

/// Picks the slot that carries the signalling: the first one whose device
/// type is `webrtc`.
pub fn select_slot(slots: &Vec<Slot>) -> (found: Option<usize>)
    ensures
        found matches Some(at) ==> at < slots.len() && at == webrtc_position(slot_views(slots@), 0),
        found is None ==> webrtc_position(slot_views(slots@), 0) == slots.len(),
{
    let ghost views = slot_views(slots@);
    let wanted = "webrtc".to_owned();
    let mut i: usize = 0;
    while i < slots.len()
        invariant
            i <= slots.len(),
            wanted@ == "webrtc"@,
            views == slot_views(slots@),
            webrtc_position(views, 0) == webrtc_position(views, i as int),
        decreases slots.len() - i,
    {
        if slots[i].device_type == wanted {
            return Some(i);
        }
        i += 1;
    }
    None
}

/// The address of the signalling socket on `host` and `port`.
pub open spec fn socket_url(host: Seq<char>, port: u16) -> Seq<char> {
    "wss://"@ + host + ":"@ + decimal(port as nat) + "/sipsockets/"@
}

/// Where and as whom the signalling connects.
#[derive(Debug)]
pub struct Endpoint {
    /// The address of the socket.
    pub url: String,
    /// The user to register.
    pub username: String,
    /// The user's password.
    pub password: String,
}

/// The mathematical model of `Endpoint`.
pub struct EndpointView {
    pub url: Seq<char>,
    pub username: Seq<char>,
    pub password: Seq<char>,
}

impl View for Endpoint {
    type V = EndpointView;

    open spec fn view(&self) -> EndpointView {
        EndpointView { url: self.url@, username: self.username@, password: self.password@ }
    }
}

/// The view of the outcome of choosing an endpoint.
pub open spec fn endpoint_view(outcome: Result<Endpoint, ClientError>) -> Result<
    EndpointView,
    ClientError,
> {
    match outcome {
        Ok(endpoint) => Ok(endpoint@),
        Err(error) => Err(error),
    }
}

/// The endpoint for a server's domain and the slots it reports: the socket
/// on the domain and the port of the first `webrtc` slot, with that slot's
/// user and password.
pub open spec fn endpoint_of(domain: Option<Seq<char>>, slots: Seq<SlotView>) -> Result<
    EndpointView,
    ClientError,
> {
    let at = webrtc_position(slots, 0);
    if at >= slots.len() {
        Err(ClientError::NoMatchingSlot)
    } else {
        match domain {
            None => Err(ClientError::NoDomain),
            Some(host) => Ok(
                EndpointView {
                    url: socket_url(host, slots[at].sip_port),
                    username: slots[at].sip_username,
                    password: slots[at].sip_password,
                },
            ),
        }
    }
}

impl Client {
    /// The client of the server at `base_url`. The path of the URL is
    /// completed so that it ends with `/api/2/`.
    pub fn new(base_url: &str) -> (client: Result<Client, ClientError>)
        ensures
            api_base(base_url@) is None <==> client is Err,
            client matches Ok(c) ==> Some(c@) == api_base(base_url@),
            client matches Err(e) ==> e == ClientError::InvalidUrl,
    {
        match ensure_path_ending(base_url.to_owned(), "/", "/") {
            None => Err(ClientError::InvalidUrl),
            Some(slashed) => match ensure_path_ending(slashed, "/api/2/", "api/2/") {
                None => Err(ClientError::InvalidUrl),
                Some(base_url) => Ok(Client { base_url }),
            },
        }
    }

    /// The base URL of the server's interface.
    pub fn url(&self) -> (url: &str)
        ensures
            url@ == self@,
    {
        self.base_url.as_str()
    }

    /// The client of a namespace.
    pub fn derive<N: Namespace>(&self) -> (client: NamespaceClient<N>)
        ensures
            client@ == self@,
    {
        NamespaceClient { base_url: self.base_url.clone(), namespace: PhantomData }
    }

    /// The client of the user's namespace.
    pub fn user(&self) -> (client: UserNamespaceClient)
        ensures
            client@ == self@,
    {
        self.derive()
    }

    /// The call that refreshes the token.
    pub fn refresh_token(&self, token: &str) -> (call: Option<Call>)
        ensures
            call_view(call) == call_of(self@, "user"@, "authentication"@, "getToken"@, token@),
    {
        self.user().authentication().get_token(token)
    }

    /// Chooses where the signalling connects, given the slots that the
    /// server reports.
    pub fn socket(&self, slots: &Vec<Slot>) -> (endpoint: Result<Endpoint, ClientError>)
        ensures
            endpoint_view(endpoint) == endpoint_of(url_domain_of(self@), slot_views(slots@)),
    {
        match select_slot(slots) {
            None => Err(ClientError::NoMatchingSlot),
            Some(at) => match url_domain(self.base_url.as_str()) {
                None => Err(ClientError::NoDomain),
                Some(host) => {
                    let slot = &slots[at];
                    let url = "wss://".to_owned().concat(host.as_str()).concat(":").concat(
                        decimal_text(slot.sip_port.into()).as_str(),
                    ).concat("/sipsockets/");
                    Ok(
                        Endpoint {
                            url,
                            username: slot.sip_username.clone(),
                            password: slot.sip_password.clone(),
                        },
                    )
                },
            },
        }
    }
}

} // verus!
