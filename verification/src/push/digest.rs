//! Digest authentication as the push endpoint asks for it.
//!
//! The handset answers the first request of every delivery with status 401
//! and a `WWW-Authenticate` header. That header is read into a
//! [`DigestChallenge`], and the challenge is answered with the value of an
//! `Authorization` header. Reading and answering are the work of the
//! `digest_auth` crate; this module decides what is handed to it and what
//! becomes of its answers. A challenge is never kept: every delivery
//! reads a fresh one, whose count is 0, so the answer of a delivery always
//! bears the count 1.

use vstd::prelude::*;
use vstd::utf8::is_ascii_chars;
use digest_auth::{Algorithm, AlgorithmType, AuthContext, Charset, Qop, WwwAuthenticateHeader};
use crate::errors::PolyRestError;

verus! {

/// A quality of protection that a challenge offers.
#[derive(Clone, Copy, Debug, PartialEq, Eq, Structural)]
pub enum Protection {
    /// `auth`: the answer covers method and URI.
    Auth,
    /// `auth-int`: the answer covers the body too.
    AuthInt,
}

/// The hash function of a challenge.
#[derive(Clone, Copy, Debug, PartialEq, Eq, Structural)]
pub enum HashKind {
    Md5,
    Sha256,
    Sha512Trunc256,
}

/// The `algorithm` of a challenge: a hash function, and whether the
/// `-sess` variant of it is asked for.
#[derive(Clone, Copy, Debug, PartialEq, Eq, Structural)]
pub struct DigestAlgorithm {
    pub kind: HashKind,
    pub session: bool,
}

impl DigestAlgorithm {
    /// The algorithm as headers spell it.
    pub open spec fn spelling(self) -> Seq<char> {
        let kind = match self.kind {
            HashKind::Md5 => "MD5"@,
            HashKind::Sha256 => "SHA-256"@,
            HashKind::Sha512Trunc256 => "SHA-512-256"@,
        };
        if self.session {
            kind + "-sess"@
        } else {
            kind
        }
    }

    /// Returns [`DigestAlgorithm::spelling`] as a string.
    pub fn to_string(&self) -> (text: String)
        ensures
            text@ == self.spelling(),
    {
        let mut text = match self.kind {
            HashKind::Md5 => String::from_str("MD5"),
            HashKind::Sha256 => String::from_str("SHA-256"),
            HashKind::Sha512Trunc256 => String::from_str("SHA-512-256"),
        };
        if self.session {
            text.append("-sess");
        }
        text
    }
}

/// What a `WWW-Authenticate` header says, as far as an answer depends on it.
#[derive(Clone, Debug)]
pub struct DigestChallenge {
    pub realm: String,
    pub nonce: String,
    pub opaque: Option<String>,
    /// The offered qualities of protection; `None` where the header names
    /// none.
    pub qop: Option<Vec<Protection>>,
    pub algorithm: DigestAlgorithm,
    pub userhash: bool,
    /// How many answers the challenge has had. It is 0 for a challenge
    /// that was just read; an answer bears the count after this one.
    pub nc: u32,
}

/// The mathematical value of a [`DigestChallenge`].
pub struct ChallengeView {
    pub realm: Seq<char>,
    pub nonce: Seq<char>,
    pub opaque: Option<Seq<char>>,
    pub qop: Option<Seq<Protection>>,
    pub algorithm: DigestAlgorithm,
    pub userhash: bool,
    pub nc: u32,
}

impl View for DigestChallenge {
    type V = ChallengeView;

    open spec fn view(&self) -> ChallengeView {
        ChallengeView {
            realm: self.realm@,
            nonce: self.nonce@,
            opaque: match self.opaque {
                Some(text) => Some(text@),
                None => None,
            },
            qop: match self.qop {
                Some(offered) => Some(offered@),
                None => None,
            },
            algorithm: self.algorithm,
            userhash: self.userhash,
            nc: self.nc,
        }
    }
}

/// What goes into an answer besides the challenge.
pub struct AnswerContext<'a> {
    pub username: &'a str,
    pub password: &'a str,
    /// The request method, in upper case.
    pub method: &'a str,
    pub uri: &'a str,
    /// The request body, as the bytes that are sent; it counts only
    /// under `auth-int`.
    pub body: &'a [u8],
}

/// The mathematical value of an [`AnswerContext`].
pub struct AnswerContextView {
    pub username: Seq<char>,
    pub password: Seq<char>,
    pub method: Seq<char>,
    pub uri: Seq<char>,
    pub body: Seq<u8>,
}

impl<'a> View for AnswerContext<'a> {
    type V = AnswerContextView;

    open spec fn view(&self) -> AnswerContextView {
        AnswerContextView {
            username: self.username@,
            password: self.password@,
            method: self.method@,
            uri: self.uri@,
            body: self.body@,
        }
    }
}

/// What [`digest_auth::parse`] reads from a header value: the challenge,
/// or `None` where it reports an error.
pub uninterp spec fn parsed_challenge(header: Seq<char>) -> Option<ChallengeView>;

/// The header value with which `digest_auth` answers a challenge, for the
/// given context and client nonce. The answer bears the count after the
/// challenge's.
pub uninterp spec fn authorization(
    challenge: ChallengeView,
    context: AnswerContextView,
    cnonce: Seq<char>,
) -> Seq<char>;

#[verifier::external_type_specification]
#[verifier::external_body]
pub struct ExDigestError(digest_auth::Error);

/// Calls [`digest_auth::parse`] and copies the fields of its result.
/// Claimed of it: its outcome is a function of the header value alone; a
/// challenge that it reads has the count 0; and a list of offers that it
/// reads is never empty. The parser slices the value by character counts,
/// so it is only handed ASCII.
#[verifier::external_body]
fn parse_header(header: &str) -> (parsed: Result<DigestChallenge, digest_auth::Error>)
    requires
        is_ascii_chars(header@),
    ensures
        match parsed {
            Ok(challenge) => parsed_challenge(header@) == Some(challenge@) && challenge.nc == 0
                && answerable(challenge@),
            Err(_) => parsed_challenge(header@) is None,
        },
{
    digest_auth::parse(header).map(|p| DigestChallenge {
        realm: p.realm, nonce: p.nonce, opaque: p.opaque, userhash: p.userhash, nc: p.nc,
        qop: p.qop.map(|offered| offered.iter().map(|q| match q {
            Qop::AUTH => Protection::Auth,
            Qop::AUTH_INT => Protection::AuthInt,
        }).collect()),
        algorithm: DigestAlgorithm { session: p.algorithm.sess, kind: match p.algorithm.algo {
            AlgorithmType::MD5 => HashKind::Md5,
            AlgorithmType::SHA2_256 => HashKind::Sha256,
            AlgorithmType::SHA2_512_256 => HashKind::Sha512Trunc256,
        } },
    })
}

/// The context that holds the given values.
pub open spec fn context_of(
    username: Seq<char>,
    password: Seq<char>,
    method: Seq<char>,
    uri: Seq<char>,
    body: Seq<u8>,
) -> AnswerContextView {
    AnswerContextView { username, password, method, uri, body }
}

/// A header value that begins with the scheme `Digest` and a space.
pub open spec fn names_digest_scheme(value: Seq<char>) -> bool {
    value.len() >= 7 && value.subrange(0, 7) == seq!['D', 'i', 'g', 'e', 's', 't', ' ']
}

/// A challenge can be answered unless it offers a list of qualities of
/// protection that is empty, or its count cannot go up.
pub open spec fn answerable(challenge: ChallengeView) -> bool {
    &&& challenge.nc < u32::MAX
    &&& match challenge.qop {
        Some(offered) => offered.len() > 0,
        None => true,
    }
}

/// Calls [`digest_auth::WwwAuthenticateHeader::respond`] on a header built
/// from the fields of `challenge`, and returns the answer as a header
/// value. With `cnonce` the client nonce is the given one; without it the
/// crate draws one at random and goes on as if it had been given. The call
/// raises the count by one, so the count must be able to go up.
/// Claimed of it: it succeeds unless the challenge offers an empty list of
/// qualities of protection; every answer names the `Digest` scheme first;
/// and the answer is a function of the arguments and the client nonce
/// that was given or drawn.
#[verifier::external_body]
fn respond(
    challenge: &DigestChallenge,
    username: &str,
    password: &str,
    method: &str,
    uri: &str,
    body: &[u8],
    cnonce: Option<&str>,
) -> (answer: Result<String, digest_auth::Error>)
    requires
        challenge.nc < u32::MAX,
    ensures
        answer is Ok <==> answerable(challenge@),
        answer is Ok ==> names_digest_scheme(answer->Ok_0@),
        answer is Ok && cnonce is Some ==> answer->Ok_0@ == authorization(
            challenge@,
            context_of(username@, password@, method@, uri@, body@),
            cnonce->Some_0@,
        ),
        answer is Ok && cnonce is None ==> exists|drawn: Seq<char>|
            answer->Ok_0@ == authorization(
                challenge@,
                context_of(username@, password@, method@, uri@, body@),
                drawn,
            ),
{
    let DigestChallenge { realm, nonce, opaque, userhash, qop, algorithm, nc } = challenge.clone();
    let mut prompt = WwwAuthenticateHeader {
        domain: None, stale: false, charset: Charset::ASCII, nc, realm, nonce, opaque, userhash,
        algorithm: Algorithm::new(match algorithm.kind {
            HashKind::Md5 => AlgorithmType::MD5, HashKind::Sha256 => AlgorithmType::SHA2_256,
            HashKind::Sha512Trunc256 => AlgorithmType::SHA2_512_256,
        }, algorithm.session),
        qop: qop.map(|offered| offered.iter().map(|q| match q {
            Protection::Auth => Qop::AUTH, Protection::AuthInt => Qop::AUTH_INT,
        }).collect()),
    };
    let mut secrets = AuthContext::new_with_method(username, password, uri, Some(body), method.into());
    secrets.cnonce = cnonce.map(Into::into);
    Ok(prompt.respond(&secrets)?.to_string())
}

/// Reads the `WWW-Authenticate` header of a probe response.
///
/// Without a header the handset is in no state to go on:
/// [`PolyRestError::MissingChallengeError`]. A header that is not ASCII, or
/// that `digest_auth` cannot read, is a
/// [`PolyRestError::ChallengeParseError`]. Otherwise the result is the
/// challenge that `digest_auth` read, with the count 0; such a challenge
/// can always be answered.
pub fn negotiate(www_authenticate: Option<&str>) -> (challenge: Result<
    DigestChallenge,
    PolyRestError,
>)
    ensures
        match challenge {
            Ok(read) => readable(www_authenticate) && parsed_challenge(www_authenticate.unwrap()@)
                == Some(read@) && read.nc == 0 && answerable(read@),
            Err(e) => !readable(www_authenticate) && e == (if www_authenticate is None {
                PolyRestError::MissingChallengeError
            } else {
                PolyRestError::ChallengeParseError
            }),
        },
{
    match www_authenticate {
        None => Err(PolyRestError::MissingChallengeError),
        Some(header) => {
            if !header.is_ascii() {
                return Err(PolyRestError::ChallengeParseError);
            }
            match parse_header(header) {
                Ok(read) => Ok(read),
                Err(_) => Err(PolyRestError::ChallengeParseError),
            }
        },
    }
}

/// A header is there, is ASCII, and `digest_auth` reads a challenge
/// from it.
pub open spec fn readable(www_authenticate: Option<&str>) -> bool {
    match www_authenticate {
        Some(header) => is_ascii_chars(header@) && parsed_challenge(header@) is Some,
        None => false,
    }
}

/// Answers a challenge with a client nonce drawn at random, as every
/// delivery does. An answer is owed for every challenge that meets
/// [`answerable`], and for no other. Which nonce is drawn is open; the
/// answer is the one that [`build_auth_header_with_cnonce`] gives for it.
pub fn build_auth_header(challenge: &DigestChallenge, context: &AnswerContext) -> (header: Result<
    String,
    PolyRestError,
>)
    ensures
        header is Ok <==> answerable(challenge@),
        header is Ok ==> names_digest_scheme(header->Ok_0@),
        header is Ok ==> exists|drawn: Seq<char>|
            header->Ok_0@ == authorization(challenge@, context@, drawn),
        header is Err ==> header->Err_0 == PolyRestError::ChallengeParseError,
{
    if challenge.nc == u32::MAX {
        return Err(PolyRestError::ChallengeParseError);
    }
    let answer = respond(
        challenge,
        context.username,
        context.password,
        context.method,
        context.uri,
        context.body,
        None,
    );
    proof {
        let given = context_of(
            context.username@,
            context.password@,
            context.method@,
            context.uri@,
            context.body@,
        );
        assert(given == context@);
        if answer is Ok {
            let drawn = choose|drawn: Seq<char>|
                answer->Ok_0@ == authorization(challenge@, given, drawn);
            assert(answer->Ok_0@ == authorization(challenge@, context@, drawn));
        }
    }
    accept_answer(answer)
}

/// Answers a challenge with the given client nonce. The value is then
/// fixed by the arguments: it is [`authorization`].
pub fn build_auth_header_with_cnonce(
    challenge: &DigestChallenge,
    context: &AnswerContext,
    cnonce: &str,
) -> (header: Result<String, PolyRestError>)
    ensures
        match header {
            Ok(value) => answerable(challenge@) && names_digest_scheme(value@) && value@
                == authorization(challenge@, context@, cnonce@),
            Err(e) => !answerable(challenge@) && e == PolyRestError::ChallengeParseError,
        },
{
    if challenge.nc == u32::MAX {
        return Err(PolyRestError::ChallengeParseError);
    }
    accept_answer(
        respond(
            challenge,
            context.username,
            context.password,
            context.method,
            context.uri,
            context.body,
            Some(cnonce),
        ),
    )
}

/// Passes an answer on, or reports that the challenge could not be
/// answered.
fn accept_answer(answer: Result<String, digest_auth::Error>) -> (header: Result<
    String,
    PolyRestError,
>)
    ensures
        match header {
            Ok(value) => answer is Ok && value == answer->Ok_0,
            Err(e) => answer is Err && e == PolyRestError::ChallengeParseError,
        },
{
    match answer {
        Ok(value) => Ok(value),
        Err(_) => Err(PolyRestError::ChallengeParseError),
    }
}

} // verus!
