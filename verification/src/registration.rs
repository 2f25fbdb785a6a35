//! Registration with digest authentication: a first REGISTER without
//! credentials and, where the registrar answers with a challenge, a second
//! one on the same dialog that carries the digest response.

use vstd::prelude::*;
use crate::connection::{Connection, SendError};
use crate::dialog::{Dialog, DialogView, RequestBuilder, RequestBuilderView, is_fresh_dialog};
use crate::key::request_key;
use crate::message::{
    Header, HeaderKind, HeaderView, Method, RequestView, Response, ResponseView, StatusCode,
    StatusCodeView, find_header, header_position, header_value, lemma_known_names,
};
use crate::random::{all_alphanumeric, random_alphanumeric};
use crate::sip::{
    ChallengeFieldsView, authorization_text, challenge_of, colon, compute_digest, contact_text,
    cseq_text, digest_of, hash_hex, host_text, option_view, parse_challenge,
    render_authorization, render_contact, request_uri_text,
};
use crate::text::{eq_ignore_case, same_ignoring_case};
use crate::transaction::ClientTransaction;

verus! {

/// A digest algorithm.
#[derive(Clone, Copy, Debug, PartialEq, Eq, Structural)]
pub enum Algorithm {
    Md5,
    Md5Sess,
    Sha256,
    Sha256Sess,
    Sha512,
    Sha512Sess,
}

impl Algorithm {
    /// The algorithm's name as it stands in a header.
    pub open spec fn spec_name(self) -> Seq<char> {
        match self {
            Algorithm::Md5 => "MD5"@,
            Algorithm::Md5Sess => "MD5-sess"@,
            Algorithm::Sha256 => "SHA256"@,
            Algorithm::Sha256Sess => "SHA256-sess"@,
            Algorithm::Sha512 => "SHA512"@,
            Algorithm::Sha512Sess => "SHA512-sess"@,
        }
    }

    /// The algorithm named by `name`, compared without regard to ASCII case.
    pub open spec fn spec_from_name(name: Seq<char>) -> Option<Algorithm> {
        if eq_ignore_case(name, "MD5"@) {
            Some(Algorithm::Md5)
        } else if eq_ignore_case(name, "MD5-sess"@) {
            Some(Algorithm::Md5Sess)
        } else if eq_ignore_case(name, "SHA256"@) {
            Some(Algorithm::Sha256)
        } else if eq_ignore_case(name, "SHA256-sess"@) {
            Some(Algorithm::Sha256Sess)
        } else if eq_ignore_case(name, "SHA512"@) {
            Some(Algorithm::Sha512)
        } else if eq_ignore_case(name, "SHA512-sess"@) {
            Some(Algorithm::Sha512Sess)
        } else {
            None
        }
    }

    /// The algorithm's name as it stands in a header.
    pub fn name(&self) -> (name: &'static str)
        ensures
            name@ == self.spec_name(),
    {
        match self {
            Algorithm::Md5 => "MD5",
            Algorithm::Md5Sess => "MD5-sess",
            Algorithm::Sha256 => "SHA256",
            Algorithm::Sha256Sess => "SHA256-sess",
            Algorithm::Sha512 => "SHA512",
            Algorithm::Sha512Sess => "SHA512-sess",
        }
    }

    /// The algorithm that `name` stands for, without regard to ASCII case.
    pub fn from_name(name: &str) -> (algorithm: Option<Algorithm>)
        ensures
            algorithm == Algorithm::spec_from_name(name@),
    {
        if same_ignoring_case(name, "MD5") {
            Some(Algorithm::Md5)
        } else if same_ignoring_case(name, "MD5-sess") {
            Some(Algorithm::Md5Sess)
        } else if same_ignoring_case(name, "SHA256") {
            Some(Algorithm::Sha256)
        } else if same_ignoring_case(name, "SHA256-sess") {
            Some(Algorithm::Sha256Sess)
        } else if same_ignoring_case(name, "SHA512") {
            Some(Algorithm::Sha512)
        } else if same_ignoring_case(name, "SHA512-sess") {
            Some(Algorithm::Sha512Sess)
        } else {
            None
        }
    }
}

/// The name of an optional algorithm.
pub open spec fn algorithm_name(algorithm: Option<Algorithm>) -> Option<Seq<char>> {
    match algorithm {
        Some(a) => Some(a.spec_name()),
        None => None,
    }
}

/// A digest challenge.
#[derive(Debug)]
pub struct Challenge {
    pub realm: String,
    pub nonce: String,
    pub algorithm: Option<Algorithm>,
    pub opaque: Option<String>,
}

/// The mathematical model of `Challenge`.
pub struct ChallengeView {
    pub realm: Seq<char>,
    pub nonce: Seq<char>,
    pub algorithm: Option<Algorithm>,
    pub opaque: Option<Seq<char>>,
}

impl View for Challenge {
    type V = ChallengeView;

    open spec fn view(&self) -> ChallengeView {
        ChallengeView {
            realm: self.realm@,
            nonce: self.nonce@,
            algorithm: self.algorithm,
            opaque: option_view(self.opaque),
        }
    }
}

impl ChallengeView {
    /// The algorithm of the digest: the one that the challenge names, or
    /// MD5 where it names none.
    pub open spec fn digest_algorithm(self) -> Algorithm {
        match self.algorithm {
            Some(a) => a,
            None => Algorithm::Md5,
        }
    }
}

/// Why a registration failed.
#[derive(Debug)]
pub enum RegisterError {
    /// The registrar answered with a status that is neither a success nor,
    /// in the first round, a challenge.
    Rejected(StatusCode),
    /// The registrar answered `401` without a WWW-Authenticate header.
    MissingChallenge,
    /// The WWW-Authenticate header does not parse as a challenge.
    InvalidChallenge,
    /// The second request could not be handed over for sending.
    Send(SendError),
}

/// The mathematical model of `RegisterError`.
pub enum RegisterErrorView {
    Rejected(StatusCodeView),
    MissingChallenge,
    InvalidChallenge,
    Send(SendError),
}

impl View for RegisterError {
    type V = RegisterErrorView;

    open spec fn view(&self) -> RegisterErrorView {
        match self {
            RegisterError::Rejected(status) => RegisterErrorView::Rejected(status@),
            RegisterError::MissingChallenge => RegisterErrorView::MissingChallenge,
            RegisterError::InvalidChallenge => RegisterErrorView::InvalidChallenge,
            RegisterError::Send(error) => RegisterErrorView::Send(*error),
        }
    }
}

/// The challenge that parsed fields stand for; `None` where they name an
/// unknown algorithm.
pub open spec fn challenge_from(fields: ChallengeFieldsView) -> Option<ChallengeView> {
    match fields.algorithm {
        None => Some(
            ChallengeView {
                realm: fields.realm,
                nonce: fields.nonce,
                algorithm: None,
                opaque: fields.opaque,
            },
        ),
        Some(name) => match Algorithm::spec_from_name(name) {
            Some(a) => Some(
                ChallengeView {
                    realm: fields.realm,
                    nonce: fields.nonce,
                    algorithm: Some(a),
                    opaque: fields.opaque,
                },
            ),
            None => None,
        },
    }
}

/// The challenge that a response carries in its WWW-Authenticate header.
pub open spec fn challenge_in(headers: Seq<HeaderView>) -> Result<ChallengeView, RegisterErrorView> {
    match header_value(headers, HeaderKind::WwwAuthenticate) {
        None => Err(RegisterErrorView::MissingChallenge),
        Some(value) => match challenge_of(value) {
            None => Err(RegisterErrorView::InvalidChallenge),
            Some(fields) => match challenge_from(fields) {
                None => Err(RegisterErrorView::InvalidChallenge),
                Some(challenge) => Ok(challenge),
            },
        },
    }
}

/// The view of a challenge or the error in its place.
pub open spec fn challenge_view(outcome: Result<Challenge, RegisterError>) -> Result<
    ChallengeView,
    RegisterErrorView,
> {
    match outcome {
        Ok(challenge) => Ok(challenge@),
        Err(error) => Err(error@),
    }
}

/// The digest response to a challenge: computed from the user's name and
/// password, the challenge's realm and nonce, the method REGISTER and an
/// empty digest-URI, with the challenge's algorithm or MD5.
pub open spec fn digest_response(
    username: Seq<char>,
    password: Seq<char>,
    challenge: ChallengeView,
) -> Seq<char> {
    digest_of(
        username,
        password,
        challenge.realm,
        challenge.nonce,
        Method::Register.spec_name(),
        Seq::empty(),
        challenge.digest_algorithm().spec_name(),
    )
}

/// The Authorization header that answers a challenge: the digest response,
/// with realm, nonce, algorithm and opaque value echoed from the challenge,
/// an empty digest-URI and no quality of protection.
pub open spec fn authorization_header(
    username: Seq<char>,
    password: Seq<char>,
    challenge: ChallengeView,
) -> HeaderView {
    HeaderView {
        name: "Authorization"@,
        value: authorization_text(
            username,
            challenge.realm,
            challenge.nonce,
            Seq::empty(),
            digest_response(username, password, challenge),
            algorithm_name(challenge.algorithm),
            challenge.opaque,
        ),
    }
}

/// The Contact header of a registration: the contact user at the send-by
/// host, reached over WebSocket, valid for 6000 seconds.
pub open spec fn contact_header(contact: Seq<char>, send_by: Seq<char>) -> HeaderView {
    HeaderView { name: "Contact"@, value: contact_text(contact, send_by, "WS"@, "6000"@) }
}

/// The REGISTER of the first round: the dialog's headers, and no body.
pub open spec fn first_request(dialog: DialogView) -> RequestView {
    RequestView {
        method: Method::Register,
        uri: request_uri_text(dialog.domain),
        headers: dialog.headers(Method::Register),
        body: Seq::empty(),
    }
}

/// The REGISTER of the second round: the dialog's headers, then Contact and
/// Authorization, and no body.
pub open spec fn second_request(
    dialog: DialogView,
    username: Seq<char>,
    password: Seq<char>,
    contact: Seq<char>,
    challenge: ChallengeView,
) -> RequestView {
    RequestView {
        method: Method::Register,
        uri: request_uri_text(dialog.domain),
        headers: dialog.headers(Method::Register).push(
            contact_header(contact, dialog.send_by),
        ).push(authorization_header(username, password, challenge)),
        body: Seq::empty(),
    }
}

/// The round that a registration waits in.
#[derive(Clone, Copy, Debug, PartialEq, Eq, Structural)]
pub enum Round {
    /// The request without credentials is out.
    First,
    /// The request with credentials is out.
    Second,
}

/// A registration under way.
#[derive(Debug)]
pub struct Registration {
    dialog: Dialog,
    username: String,
    password: String,
    contact: String,
    round: Round,
}

/// The mathematical model of `Registration`.
pub struct RegistrationView {
    pub dialog: DialogView,
    pub username: Seq<char>,
    pub password: Seq<char>,
    pub contact: Seq<char>,
    pub round: Round,
}

impl RegistrationView {
    /// The dialog as it was before it issued its last request.
    pub open spec fn origin(self) -> DialogView {
        DialogView {
            seq: if self.dialog.seq == 0 {
                u32::MAX
            } else {
                (self.dialog.seq - 1) as u32
            },
            ..self.dialog
        }
    }
}

impl View for Registration {
    type V = RegistrationView;

    closed spec fn view(&self) -> RegistrationView {
        RegistrationView {
            dialog: self.dialog@,
            username: self.username@,
            password: self.password@,
            contact: self.contact@,
            round: self.round,
        }
    }
}

/// What a final response means for a registration.
pub enum Verdict {
    /// The registration is complete.
    Registered,
    /// The registration failed.
    Failed(RegisterErrorView),
    /// The registrar asks for credentials: a second request is due.
    Challenged(ChallengeView),
}

/// The meaning of a final response. A success completes the registration
/// in either round. In the first round, `401` leads to the second round
/// where the response carries a challenge that parses, and fails
/// otherwise; every other status fails with that status. In the second
/// round, every status but a success fails with that status.
pub open spec fn verdict(round: Round, response: ResponseView) -> Verdict {
    if 200 <= response.status_code.code < 300 {
        Verdict::Registered
    } else if round == Round::Second || response.status_code.code != 401 {
        Verdict::Failed(RegisterErrorView::Rejected(response.status_code))
    } else {
        match challenge_in(response.headers) {
            Ok(challenge) => Verdict::Challenged(challenge),
            Err(error) => Verdict::Failed(error),
        }
    }
}

/// How a registration goes on after a final response.
#[derive(Debug)]
pub enum Progress {
    /// The second request is registered; its transaction holds it for
    /// transmission, and its final response is due next.
    Pending(Registration, ClientTransaction),
    /// The registration is complete.
    Registered,
    /// The registration failed.
    Failed(RegisterError),
}

/// Reads the challenge of a response.
pub fn read_challenge(response: &Response) -> (challenge: Result<Challenge, RegisterError>)
    ensures
        challenge_view(challenge) == challenge_in(response@.headers),
{
    match find_header(&response.headers, HeaderKind::WwwAuthenticate) {
        None => Err(RegisterError::MissingChallenge),
        Some(header) => match parse_challenge(header.value.as_str()) {
            None => Err(RegisterError::InvalidChallenge),
            Some(fields) => {
                let algorithm = match &fields.algorithm {
                    None => None,
                    Some(name) => match Algorithm::from_name(name.as_str()) {
                        Some(a) => Some(a),
                        None => {
                            return Err(RegisterError::InvalidChallenge);
                        },
                    },
                };
                Ok(
                    Challenge {
                        realm: fields.realm,
                        nonce: fields.nonce,
                        algorithm,
                        opaque: fields.opaque,
                    },
                )
            },
        },
    }
}

/// Adds to a REGISTER what answers a challenge: the Contact header and the
/// Authorization header with the digest response.
pub fn authorize(
    builder: RequestBuilder,
    send_by: &str,
    username: &str,
    password: &str,
    contact: &str,
    challenge: &Challenge,
) -> (authorized: RequestBuilder)
    ensures
        authorized@ == (RequestBuilderView {
            method: builder@.method,
            domain: builder@.domain,
            headers: builder@.headers.push(contact_header(contact@, send_by@)).push(
                authorization_header(username@, password@, challenge@),
            ),
        }),
{
    let algorithm = match challenge.algorithm {
        Some(a) => a,
        None => Algorithm::Md5,
    };
    let response = compute_digest(
        username,
        password,
        challenge.realm.as_str(),
        challenge.nonce.as_str(),
        Method::Register.name(),
        "",
        algorithm.name(),
    );
    let named = match &challenge.algorithm {
        Some(a) => Some(a.name()),
        None => None,
    };
    let opaque = match &challenge.opaque {
        Some(o) => Some(o.as_str()),
        None => None,
    };
    let authorization = render_authorization(
        username,
        challenge.realm.as_str(),
        challenge.nonce.as_str(),
        "",
        response.as_str(),
        named,
        opaque,
    );
    let contact_value = render_contact(contact, send_by, "WS", "6000");
    proof {
        reveal_strlit("");
    }
    builder.header(Header::new("Contact", contact_value.as_str())).header(
        Header::new("Authorization", authorization.as_str()),
    )
}

impl Connection {
    /// Starts to register the user with the registrar: on a new dialog, the
    /// first REGISTER is registered on the connection, and its transaction
    /// holds it for transmission. The contact user of the registration is
    /// a random token of 16 ASCII letters and digits. Fails exactly where
    /// the connection has no channel left.
    pub fn register(&mut self, username: &str, password: &str) -> (started: Result<
        (Registration, ClientTransaction),
        SendError,
    >)
        requires
            old(self)@.wf(),
        ensures
            final(self)@.wf(),
            old(self)@.next_channel == u64::MAX <==> started is Err,
            started is Err ==> final(self)@ == old(self)@,
            started matches Ok((registration, transaction)) ==> {
                &&& is_fresh_dialog(old(self)@, registration@.origin())
                &&& registration@.dialog == registration@.origin().advanced()
                &&& registration@.username == username@
                &&& registration@.password == password@
                &&& registration@.contact.len() == 16
                &&& all_alphanumeric(registration@.contact)
                &&& registration@.round == Round::First
                &&& transaction@.request == first_request(registration@.origin())
                &&& transaction@.channel == old(self)@.next_channel
                &&& final(self)@ == old(self)@.with_routes(
                    old(self)@.routes.insert(
                        request_key(transaction@.request),
                        transaction@.channel,
                    ),
                    (old(self)@.next_channel + 1) as u64,
                )
            },
    {
        let contact = random_alphanumeric(16);
        let dialog = self.dialog();
        Registration::begin(self, dialog, username, password, contact)
    }
}

impl Registration {
    /// Starts a registration on `dialog`: the first REGISTER is registered
    /// on `connection`, and its transaction holds it for transmission.
    /// Fails exactly where the connection has no channel left.
    pub fn begin(
        connection: &mut Connection,
        dialog: Dialog,
        username: &str,
        password: &str,
        contact: String,
    ) -> (started: Result<(Registration, ClientTransaction), SendError>)
        requires
            old(connection)@.wf(),
        ensures
            final(connection)@.wf(),
            old(connection)@.next_channel == u64::MAX <==> started is Err,
            started is Err ==> final(connection)@ == old(connection)@,
            started matches Ok((registration, transaction)) ==> {
                &&& registration@ == (RegistrationView {
                    dialog: dialog@.advanced(),
                    username: username@,
                    password: password@,
                    contact: contact@,
                    round: Round::First,
                })
                &&& transaction@.request == first_request(dialog@)
                &&& transaction@.channel == old(connection)@.next_channel
                &&& final(connection)@ == old(connection)@.with_routes(
                    old(connection)@.routes.insert(
                        request_key(first_request(dialog@)),
                        transaction@.channel,
                    ),
                    (old(connection)@.next_channel + 1) as u64,
                )
            },
    {
        let mut dialog = dialog;
        let builder = dialog.request(Method::Register);
        match builder.send(connection, Vec::new()) {
            Ok(transaction) => Ok(
                (
                    Registration {
                        dialog,
                        username: username.to_owned(),
                        password: password.to_owned(),
                        contact,
                        round: Round::First,
                    },
                    transaction,
                ),
            ),
            Err(error) => Err(error),
        }
    }

    /// Goes on after the final response to the request that is out. See
    /// `verdict` for what the response means. Where it is a challenge, the
    /// second REGISTER is built on the same dialog, so that the Call-ID
    /// stays and CSeq moves on by one, and is registered on `connection`.
    pub fn advance(self, connection: &mut Connection, response: &Response) -> (progress: Progress)
        requires
            old(connection)@.wf(),
        ensures
            final(connection)@.wf(),
            match verdict(self@.round, response@) {
                Verdict::Registered => progress is Registered && final(connection)@ == old(
                    connection,
                )@,
                Verdict::Failed(error) => final(connection)@ == old(connection)@ && (
                progress matches Progress::Failed(e) && e@ == error),
                Verdict::Challenged(challenge) => if old(connection)@.next_channel == u64::MAX {
                    final(connection)@ == old(connection)@ && (
                    progress matches Progress::Failed(e) && e@ == RegisterErrorView::Send(
                        SendError::ChannelsExhausted,
                    ))
                } else {
                    progress matches Progress::Pending(registration, transaction) && {
                        &&& registration@ == (RegistrationView {
                            dialog: self@.dialog.advanced(),
                            round: Round::Second,
                            ..self@
                        })
                        &&& transaction@.request == second_request(
                            self@.dialog,
                            self@.username,
                            self@.password,
                            self@.contact,
                            challenge,
                        )
                        &&& transaction@.channel == old(connection)@.next_channel
                        &&& final(connection)@ == old(connection)@.with_routes(
                            old(connection)@.routes.insert(
                                request_key(transaction@.request),
                                transaction@.channel,
                            ),
                            (old(connection)@.next_channel + 1) as u64,
                        )
                    }
                },
            },
    {
        if response.status_code.is_successful() {
            return Progress::Registered;
        }
        let second = match self.round {
            Round::Second => true,
            Round::First => false,
        };
        if second || response.status_code.code != 401 {
            return Progress::Failed(RegisterError::Rejected(response.status_code.clone()));
        }
        let challenge = match read_challenge(response) {
            Ok(challenge) => challenge,
            Err(error) => {
                return Progress::Failed(error);
            },
        };
        let mut dialog = self.dialog;
        let builder = dialog.request(Method::Register);
        let builder = authorize(
            builder,
            dialog.send_by(),
            self.username.as_str(),
            self.password.as_str(),
            self.contact.as_str(),
            &challenge,
        );
        match builder.send(connection, Vec::new()) {
            Ok(transaction) => Progress::Pending(
                Registration {
                    dialog,
                    username: self.username,
                    password: self.password,
                    contact: self.contact,
                    round: Round::Second,
                },
                transaction,
            ),
            Err(error) => Progress::Failed(RegisterError::Send(error)),
        }
    }
}

/// The second round continues the dialog of the first: its request carries
/// the same Call-ID and the next sequence number, the Contact header for
/// the contact user at the send-by host with a validity of 6000 seconds,
/// and the Authorization header that answers the challenge.
pub proof fn lemma_second_round_continues_dialog(
    dialog: DialogView,
    username: Seq<char>,
    password: Seq<char>,
    contact: Seq<char>,
    challenge: ChallengeView,
)
    requires
        dialog.seq < u32::MAX,
    ensures
        ({
            let first = first_request(dialog);
            let second = second_request(dialog.advanced(), username, password, contact, challenge);
            &&& header_value(first.headers, HeaderKind::CallId) == Some(dialog.call_id)
            &&& header_value(second.headers, HeaderKind::CallId) == Some(dialog.call_id)
            &&& header_value(first.headers, HeaderKind::CSeq) == Some(
                cseq_text(dialog.seq, Method::Register.spec_name()),
            )
            &&& header_value(second.headers, HeaderKind::CSeq) == Some(
                cseq_text((dialog.seq + 1) as u32, Method::Register.spec_name()),
            )
            &&& header_value(first.headers, HeaderKind::Authorization) is None
            &&& header_value(second.headers, HeaderKind::Contact) == Some(
                contact_text(contact, dialog.send_by, "WS"@, "6000"@),
            )
            &&& header_value(second.headers, HeaderKind::Authorization) == Some(
                authorization_text(
                    username,
                    challenge.realm,
                    challenge.nonce,
                    Seq::empty(),
                    digest_response(username, password, challenge),
                    algorithm_name(challenge.algorithm),
                    challenge.opaque,
                ),
            )
        }),
{
    lemma_known_names();
    reveal_with_fuel(header_position, 9);
}

/// The digest response follows the usual formula without quality of
/// protection: with `H` the hash of the challenge's algorithm, or of MD5
/// where the challenge names none, it is
/// `H(H(username:realm:password) : nonce : H(REGISTER:))`.
pub proof fn lemma_digest_formula(username: Seq<char>, password: Seq<char>, challenge: ChallengeView)
    ensures
        ({
            let algorithm = challenge.digest_algorithm().spec_name();
            let ha1 = hash_hex(
                algorithm,
                username + ":"@ + challenge.realm + ":"@ + password,
            );
            let ha2 = hash_hex(algorithm, "REGISTER:"@);
            digest_response(username, password, challenge) == hash_hex(
                algorithm,
                ha1 + ":"@ + challenge.nonce + ":"@ + ha2,
            )
        }),
        challenge.algorithm is None ==> challenge.digest_algorithm().spec_name() == "MD5"@,
{
    reveal_strlit("REGISTER");
    reveal_strlit("REGISTER:");
    reveal_strlit(":");
    assert(colon(Method::Register.spec_name(), Seq::empty()) =~= "REGISTER:"@);
}

/// The Contact header of a registration names the contact user at the
/// send-by host, reached over WebSocket, and asks for 6000 seconds.
pub proof fn lemma_contact_asks_for_6000_seconds(contact: Seq<char>, send_by: Seq<char>)
    ensures
        contact_header(contact, send_by).value == "<sip:"@ + contact + "@"@ + host_text(send_by)
            + ";transport=WS>;expires=6000"@,
{
    reveal_strlit(";transport=WS>;expires=6000");
    reveal_strlit(";transport=");
    reveal_strlit(">;expires=");
    reveal_strlit("WS");
    reveal_strlit("6000");
    let head = "<sip:"@ + contact + "@"@ + host_text(send_by);
    assert(head + ";transport="@ + "WS"@ + ">;expires="@ + "6000"@ =~= head
        + ";transport=WS>;expires=6000"@);
}

} // verus!
