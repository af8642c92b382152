//! The management REST interface of a handset.
//!
//! The interface answers requests that carry Basic credentials with a JSON
//! object that wraps the data asked for. This module lays the requests
//! out and judges the status of what comes back; making the requests and
//! unwrapping the JSON is the caller's part.

use vstd::prelude::*;
use crate::errors::PolyRestError;

pub mod mgmt;

verus! {

/// What is shared by all requests to the management interface of one
/// handset.
#[derive(Clone, Debug)]
pub struct PolyRest {
    pub username: String,
    pub password: String,
    /// The base URL of the handset, without a trailing slash.
    pub url: String,
    /// Whether the carrier is to accept a certificate that it cannot
    /// verify.
    pub insecure: bool,
}

/// The method of a management request.
#[derive(Clone, Copy, Debug, PartialEq, Eq, Structural)]
pub enum RestMethod {
    Get,
    Post,
}

/// A management request, as the caller is to perform it. Every request
/// carries the credentials as Basic authentication.
#[derive(Clone, Debug)]
pub struct RestRequest {
    pub method: RestMethod,
    pub url: String,
    pub username: String,
    pub password: String,
    /// The JSON body of a `POST`, sent as `application/json`.
    pub body: Option<String>,
    /// Whether the carrier is to accept a certificate that it cannot
    /// verify.
    pub insecure: bool,
}

/// The mathematical value of a [`RestRequest`].
pub struct RestRequestView {
    pub method: RestMethod,
    pub url: Seq<char>,
    pub username: Seq<char>,
    pub password: Seq<char>,
    pub body: Option<Seq<char>>,
    pub insecure: bool,
}

impl View for RestRequest {
    type V = RestRequestView;

    open spec fn view(&self) -> RestRequestView {
        RestRequestView {
            method: self.method,
            url: self.url@,
            username: self.username@,
            password: self.password@,
            body: match self.body {
                Some(text) => Some(text@),
                None => None,
            },
            insecure: self.insecure,
        }
    }
}

/// A status that the management interface means as a refusal: a client or
/// server error.
pub open spec fn refused(status: u16) -> bool {
    400 <= status < 600
}

impl PolyRest {
    /// Creates a handler for the handset at `url`.
    pub fn new(username: String, password: String, url: String, insecure: bool) -> (handler:
        PolyRest)
        ensures
            handler.username == username,
            handler.password == password,
            handler.url == url,
            handler.insecure == insecure,
    {
        PolyRest { username, password, url, insecure }
    }

    /// A `GET` of `path` with the handler's credentials.
    pub fn raw_get(&self, path: String) -> (request: RestRequest)
        ensures
            request@ == (RestRequestView {
                method: RestMethod::Get,
                url: path@,
                username: self.username@,
                password: self.password@,
                body: None,
                insecure: self.insecure,
            }),
    {
        RestRequest {
            method: RestMethod::Get,
            url: path,
            username: self.username.clone(),
            password: self.password.clone(),
            body: None,
            insecure: self.insecure,
        }
    }

    /// A `POST` of the JSON document `body` to `path` with the handler's
    /// credentials.
    pub fn raw_post(&self, path: String, body: String) -> (request: RestRequest)
        ensures
            request@ == (RestRequestView {
                method: RestMethod::Post,
                url: path@,
                username: self.username@,
                password: self.password@,
                body: Some(body@),
                insecure: self.insecure,
            }),
    {
        RestRequest {
            method: RestMethod::Post,
            url: path,
            username: self.username.clone(),
            password: self.password.clone(),
            body: Some(body),
            insecure: self.insecure,
        }
    }

    /// The URL of the resource at `path`, which starts with a slash.
    pub fn resource(&self, path: &str) -> (url: String)
        ensures
            url@ == self.url@ + path@,
    {
        let mut url = self.url.clone();
        url.append(path);
        url
    }

    /// Judges the response to a management request: the body as it came,
    /// unless the status is a client or server error.
    pub fn accept(status: u16, body: String) -> (outcome: Result<String, PolyRestError>)
        ensures
            match outcome {
                Ok(text) => !refused(status) && text == body,
                Err(e) => refused(status) && e == (PolyRestError::DeviceRejectedError {
                    status,
                    body,
                }),
            },
    {
        if 400 <= status && status < 600 {
            Err(PolyRestError::DeviceRejectedError { status, body })
        } else {
            Ok(body)
        }
    }
}

} // verus!
