//! A delivery to the push endpoint, step by step.
//!
//! A delivery is two requests to the same URL, one after the other. The
//! first, the probe, carries no credentials and is there to be refused: the
//! refusal brings the challenge. The second carries the answer to that
//! challenge and is the one that the handset acts on. Nothing is retried,
//! and nothing is remembered from one delivery to the next.
//!
//! The requests themselves are made by the caller. The two states of a
//! delivery say which request is due, and take what came back:
//!
//! 1. [`PushMessenger::send`] gives an [`Unauthenticated`] delivery; the
//!    caller performs [`Unauthenticated::probe`].
//! 2. [`Unauthenticated::authenticate`] takes the `WWW-Authenticate` header
//!    of the response and gives an [`Authenticated`] delivery; the caller
//!    performs [`Authenticated::request`].
//! 3. [`Authenticated::finish`] takes status and body of the response and
//!    gives the result of the delivery.
//!
//! A request that fails below HTTP ends the delivery with
//! [`transport_failure`].

use vstd::prelude::*;
use crate::errors::PolyRestError;
use crate::push::digest::{
    authorization, build_auth_header, build_auth_header_with_cnonce, names_digest_scheme,
    negotiate, parsed_challenge, readable, AnswerContext, AnswerContextView,
};
use crate::push::wire::{encode, wire_document};
use crate::push::{MessageLevel, Notification, PushMessenger, PushType};

verus! {

/// A `POST` request, as the caller is to perform it.
#[derive(Clone, Debug)]
pub struct PushRequest {
    pub url: String,
    pub content_type: String,
    /// The value of the `Authorization` header, where the request has one.
    pub authorization: Option<String>,
    pub body: String,
}

/// The mathematical value of a [`PushRequest`].
pub struct PushRequestView {
    pub url: Seq<char>,
    pub content_type: Seq<char>,
    pub authorization: Option<Seq<char>>,
    pub body: Seq<char>,
}

impl View for PushRequest {
    type V = PushRequestView;

    open spec fn view(&self) -> PushRequestView {
        PushRequestView {
            url: self.url@,
            content_type: self.content_type@,
            authorization: match self.authorization {
                Some(value) => Some(value@),
                None => None,
            },
            body: self.body@,
        }
    }
}

/// A delivery before the handset has sent its challenge.
#[derive(Clone, Debug)]
pub struct Unauthenticated {
    /// The URL of the push endpoint.
    pub endpoint: String,
    pub username: String,
    pub password: String,
    pub kind: PushType,
    /// The wire document.
    pub body: String,
    /// Whether the carrier is to accept a certificate that it cannot
    /// verify.
    pub insecure: bool,
    /// How many seconds each of the two requests may take; `None` leaves
    /// it to the carrier. A request that takes longer ends the delivery
    /// with [`transport_failure`].
    pub timeout: Option<u64>,
}

/// A delivery for which the challenge has been answered.
#[derive(Clone, Debug)]
pub struct Authenticated {
    /// The request that carries the answer.
    pub request: PushRequest,
}

/// The URL of the push endpoint of the handset at `url`.
pub open spec fn push_endpoint(url: Seq<char>) -> Seq<char> {
    url + "/push"@
}

/// The probe: the wire document, sent without credentials as a form.
pub open spec fn probe_request(endpoint: Seq<char>, body: Seq<char>) -> PushRequestView {
    PushRequestView {
        url: endpoint,
        content_type: PushType::HTML.content_type(),
        authorization: None,
        body,
    }
}

/// The request that the handset acts on: the same URL and the same wire
/// document as the probe, with the answer to the challenge and the content
/// type of the kind.
pub open spec fn authenticated_request(
    endpoint: Seq<char>,
    kind: PushType,
    body: Seq<char>,
    answer: Seq<char>,
) -> PushRequestView {
    PushRequestView {
        url: endpoint,
        content_type: kind.content_type(),
        authorization: Some(answer),
        body,
    }
}

/// A status in the 2xx range.
pub open spec fn accepted(status: u16) -> bool {
    200 <= status < 300
}

impl PushMessenger {
    /// Creates a messenger for the handset at `url`, without a limit on
    /// the time that a request may take.
    pub fn new(username: String, password: String, url: String, insecure: bool) -> (messenger:
        PushMessenger)
        ensures
            messenger.username == username,
            messenger.password == password,
            messenger.url == url,
            messenger.insecure == insecure,
            messenger.timeout is None,
    {
        PushMessenger { username, password, url, insecure, timeout: None }
    }

    /// The same messenger with `seconds` as the time that each request of
    /// a delivery may take, or with no limit for `None`.
    pub fn with_timeout(self, seconds: Option<u64>) -> (messenger: PushMessenger)
        ensures
            messenger == (PushMessenger { timeout: seconds, ..self }),
    {
        PushMessenger {
            username: self.username,
            password: self.password,
            url: self.url,
            insecure: self.insecure,
            timeout: seconds,
        }
    }

    /// Begins the delivery of one message: `message_body` becomes the text
    /// of a wire document at priority `level`, to be read as `cmd_type`.
    /// Encoding does not fail, so a delivery always begins.
    pub fn send(&self, level: MessageLevel, message_body: &str, cmd_type: PushType) -> (delivery:
        Result<Unauthenticated, PolyRestError>)
        ensures
            delivery is Ok,
            delivery->Ok_0.endpoint@ == push_endpoint(self.url@),
            delivery->Ok_0.username@ == self.username@,
            delivery->Ok_0.password@ == self.password@,
            delivery->Ok_0.kind == cmd_type,
            delivery->Ok_0.body@ == wire_document(level, message_body@),
            delivery->Ok_0.insecure == self.insecure,
            delivery->Ok_0.timeout == self.timeout,
    {
        let notification = Notification {
            priority: level,
            body_type: cmd_type,
            text: String::from_str(message_body),
        };
        let body = match encode(&notification) {
            Ok(body) => body,
            Err(e) => {
                return Err(e);
            },
        };
        let mut endpoint = self.url.clone();
        endpoint.append("/push");
        Ok(
            Unauthenticated {
                endpoint,
                username: self.username.clone(),
                password: self.password.clone(),
                kind: cmd_type,
                body,
                insecure: self.insecure,
                timeout: self.timeout,
            },
        )
    }
}

impl Unauthenticated {
    /// What an answer to the handset's challenge is computed over: the
    /// messenger's credentials, `POST`, the endpoint's URL and the bytes
    /// of the wire document.
    pub open spec fn answer_context(&self) -> AnswerContextView {
        AnswerContextView {
            username: self.username@,
            password: self.password@,
            method: "POST"@,
            uri: self.endpoint@,
            body: vstd::utf8::encode_utf8(self.body@),
        }
    }

    /// The request that is due in this state.
    pub fn probe(&self) -> (request: PushRequest)
        ensures
            request@ == probe_request(self.endpoint@, self.body@),
    {
        PushRequest {
            url: self.endpoint.clone(),
            content_type: PushType::HTML.header_value(),
            authorization: None,
            body: self.body.clone(),
        }
    }

    /// Moves on with an answer to the challenge in hand.
    pub fn answered(self, answer: String) -> (next: Authenticated)
        ensures
            next.request@ == authenticated_request(
                self.endpoint@,
                self.kind,
                self.body@,
                answer@,
            ),
    {
        Authenticated {
            request: PushRequest {
                url: self.endpoint,
                content_type: self.kind.header_value(),
                authorization: Some(answer),
                body: self.body,
            },
        }
    }

    /// Takes the `WWW-Authenticate` header of the probe's response, or
    /// `None` where the response had none, and answers the challenge with
    /// a client nonce drawn at random.
    ///
    /// The delivery moves on exactly where the header can be read; a
    /// challenge that was read can always be answered, and its count is
    /// 0, so the answer bears the count 1. Without a header it ends with
    /// [`PolyRestError::MissingChallengeError`], else with
    /// [`PolyRestError::ChallengeParseError`]; no second request is due
    /// then. Where it moves on, the request is the one that
    /// [`Unauthenticated::authenticate_with_cnonce`] gives for the nonce
    /// that was drawn: the answer is to the challenge as it was read, with
    /// the count 0, for this delivery's credentials, URL and document.
    pub fn authenticate(self, www_authenticate: Option<&str>) -> (next: Result<
        Authenticated,
        PolyRestError,
    >)
        ensures
            next is Ok <==> readable(www_authenticate),
            next is Ok ==> parsed_challenge(www_authenticate.unwrap()@).unwrap().nc == 0,
            next is Ok ==> exists|drawn: Seq<char>|
                next->Ok_0.request@ == authenticated_request(
                    self.endpoint@,
                    self.kind,
                    self.body@,
                    #[trigger] authorization(
                        parsed_challenge(www_authenticate.unwrap()@).unwrap(),
                        self.answer_context(),
                        drawn,
                    ),
                ),
            next is Ok ==> next->Ok_0.request.authorization is Some && names_digest_scheme(
                next->Ok_0.request.authorization->Some_0@,
            ),
            next is Err ==> next->Err_0 == refusal(www_authenticate),
    {
        let challenge = match negotiate(www_authenticate) {
            Ok(challenge) => challenge,
            Err(e) => {
                return Err(e);
            },
        };
        let context = AnswerContext {
            username: self.username.as_str(),
            password: self.password.as_str(),
            method: "POST",
            uri: self.endpoint.as_str(),
            body: self.body.as_str().as_bytes(),
        };
        let answer = match build_auth_header(&challenge, &context) {
            Ok(answer) => answer,
            Err(e) => {
                return Err(e);
            },
        };
        proof {
            assert(context@ == self.answer_context());
            let drawn = choose|drawn: Seq<char>|
                answer@ == authorization(challenge@, context@, drawn);
            assert(answer@ == authorization(
                parsed_challenge(www_authenticate.unwrap()@).unwrap(),
                self.answer_context(),
                drawn,
            ));
        }
        Ok(self.answered(answer))
    }

    /// As [`Unauthenticated::authenticate`], with the client nonce given.
    /// The whole request is then fixed by the arguments.
    pub fn authenticate_with_cnonce(self, www_authenticate: Option<&str>, cnonce: &str) -> (next:
        Result<Authenticated, PolyRestError>)
        ensures
            match next {
                Ok(state) => readable(www_authenticate) && parsed_challenge(
                    www_authenticate.unwrap()@,
                ).unwrap().nc == 0 && state.request@
                    == authenticated_request(
                    self.endpoint@,
                    self.kind,
                    self.body@,
                    authorization(
                        parsed_challenge(www_authenticate.unwrap()@).unwrap(),
                        self.answer_context(),
                        cnonce@,
                    ),
                ),
                Err(e) => !readable(www_authenticate) && e == refusal(www_authenticate),
            },
    {
        let challenge = match negotiate(www_authenticate) {
            Ok(challenge) => challenge,
            Err(e) => {
                return Err(e);
            },
        };
        let context = AnswerContext {
            username: self.username.as_str(),
            password: self.password.as_str(),
            method: "POST",
            uri: self.endpoint.as_str(),
            body: self.body.as_str().as_bytes(),
        };
        let answer = match build_auth_header_with_cnonce(&challenge, &context, cnonce) {
            Ok(answer) => answer,
            Err(e) => {
                return Err(e);
            },
        };
        Ok(self.answered(answer))
    }
}

/// The error with which a delivery ends where the header of the probe's
/// response cannot be read.
pub open spec fn refusal(www_authenticate: Option<&str>) -> PolyRestError {
    if www_authenticate is None {
        PolyRestError::MissingChallengeError
    } else {
        PolyRestError::ChallengeParseError
    }
}

impl Authenticated {
    /// The request that is due in this state.
    pub fn request(&self) -> (request: PushRequest)
        ensures
            request@ == self.request@,
    {
        PushRequest {
            url: self.request.url.clone(),
            content_type: self.request.content_type.clone(),
            authorization: match &self.request.authorization {
                Some(value) => Some(value.clone()),
                None => None,
            },
            body: self.request.body.clone(),
        }
    }

    /// Takes status and body of the response to the authenticated
    /// request. With a status in the 2xx range the delivery succeeds and
    /// gives the body as it came; with any other it ends with
    /// [`PolyRestError::DeviceRejectedError`], which holds both.
    pub fn finish(self, status: u16, body: String) -> (outcome: Result<String, PolyRestError>)
        ensures
            match outcome {
                Ok(text) => accepted(status) && text == body,
                Err(e) => !accepted(status) && e == (PolyRestError::DeviceRejectedError {
                    status,
                    body,
                }),
            },
    {
        if 200 <= status && status < 300 {
            Ok(body)
        } else {
            Err(PolyRestError::DeviceRejectedError { status, body })
        }
    }
}

/// The error with which a delivery ends when a request, the probe or the
/// authenticated one, fails below HTTP. `reason` is the carrier's account of
/// it.
pub fn transport_failure(reason: String) -> (error: PolyRestError)
    ensures
        error == PolyRestError::TransportError(reason),
{
    PolyRestError::TransportError(reason)
}

/// The kind of a message decides the content type of the authenticated
/// request and nothing else: URL, answer and wire document are the same for
/// both kinds.
pub proof fn kind_sets_only_content_type(
    endpoint: Seq<char>,
    body: Seq<char>,
    answer: Seq<char>,
    first: PushType,
    second: PushType,
)
    ensures
        authenticated_request(endpoint, first, body, answer).content_type == first.content_type(),
        authenticated_request(endpoint, first, body, answer) == (PushRequestView {
            content_type: first.content_type(),
            ..authenticated_request(endpoint, second, body, answer)
        }),
{
}

/// The two kinds ask for different content types, so the handset can tell
/// them apart.
pub proof fn kinds_differ_in_content_type()
    ensures
        PushType::HTML.content_type() != PushType::Command.content_type(),
{
    reveal_strlit("application/x-www-form-urlencoded");
    reveal_strlit("application/x-com-polycom-spipx");
    assert(PushType::HTML.content_type()[14] != PushType::Command.content_type()[14]);
}

/// The probe and the authenticated request of a delivery go to the same URL
/// and carry the same wire document.
pub proof fn probe_carries_the_document(
    endpoint: Seq<char>,
    body: Seq<char>,
    answer: Seq<char>,
    kind: PushType,
)
    ensures
        probe_request(endpoint, body).url == authenticated_request(
            endpoint,
            kind,
            body,
            answer,
        ).url,
        probe_request(endpoint, body).body == authenticated_request(
            endpoint,
            kind,
            body,
            answer,
        ).body,
        probe_request(endpoint, body).authorization is None,
{
}

} // verus!
