//! Following redirects.
//!
//! A `RedirectLoop` holds the request being sent and the number of hops
//! followed so far. The caller sends its request down the rest of the chain
//! and hands each response head to `on_response`, which says whether to
//! return that response, send a rewritten request, or give up.

use vstd::prelude::*;
use crate::url::{join, joined_url};

verus! {

/// How many redirects are followed by default.
pub const DEFAULT_REDIRECT_ATTEMPTS: u8 = 3;

/// An HTTP request method.
#[derive(Clone, Copy, Debug, PartialEq, Eq, Structural)]
pub enum Method {
    Get,
    Head,
    Post,
    Put,
    Delete,
    Connect,
    Options,
    Trace,
    Patch,
    /// Any other method; a redirect that keeps the method keeps it as it was.
    Other,
}

/// What the redirect policy reads and rewrites of a request.
#[derive(Debug)]
pub struct RequestHead {
    pub method: Method,
    pub url: String,
    /// Whether the request carries a body.
    pub with_body: bool,
}

/// What the redirect policy reads of a response.
#[derive(Debug)]
pub struct ResponseHead {
    pub status: u16,
    /// The last value of the `Location` header, if any.
    pub location: Option<String>,
}

/// What to do with a response.
#[derive(Debug)]
pub enum Decision {
    /// Hand this response back up the chain.
    Done,
    /// Send this request down the rest of the chain instead.
    Follow(RequestHead),
    /// The response redirects again but the hop limit has been reached.
    TooManyRedirects,
    /// The `Location` header cannot be resolved to a URL.
    BadLocation,
}

/// The redirect middleware: follows at most `attempts` redirects.
#[derive(Clone, Copy, Debug)]
pub struct Redirect {
    pub attempts: u8,
}

/// A redirect dispatch in progress.
#[derive(Debug)]
pub struct RedirectLoop {
    pub policy: Redirect,
    /// Redirects followed so far.
    pub hops: u8,
    /// The request to send next.
    pub request: RequestHead,
}

/// The statuses that redirect: 301, 302, 303, 307 and 308.
pub open spec fn is_redirect_status(status: u16) -> bool {
    status == 301 || status == 302 || status == 303 || status == 307 || status == 308
}

/// Whether a followed request is downgraded to a bodiless GET: always after
/// 303, and after 301 or 302 unless the method was GET or HEAD.
pub open spec fn downgrades(status: u16, method: Method) -> bool {
    status == 303 || ((status == 301 || status == 302) && !(method is Get || method is Head))
}

/// Whether `response` asks to be followed.
pub open spec fn redirects(response: ResponseHead) -> bool {
    is_redirect_status(response.status) && response.location is Some
}

/// The `Location` of a response, empty where there is none.
pub open spec fn location_of(response: ResponseHead) -> Seq<char> {
    match response.location {
        Some(l) => l@,
        None => Seq::empty(),
    }
}

/// `d` is what `policy` decides for `response` to `current` after `hops`
/// redirects, where `resolved` is the `Location` resolved against the URL of
/// `current`.
pub open spec fn decided(
    policy: Redirect,
    hops: u8,
    current: RequestHead,
    response: ResponseHead,
    resolved: Option<Seq<char>>,
    d: Decision,
) -> bool {
    if !redirects(response) {
        d is Done
    } else if hops >= policy.attempts {
        d is TooManyRedirects
    } else {
        match resolved {
            None => d is BadLocation,
            Some(u) => match d {
                Decision::Follow(next) => {
                    &&& next.url@ == u
                    &&& next.method == (if downgrades(response.status, current.method) {
                        Method::Get
                    } else {
                        current.method
                    })
                    &&& next.with_body == (current.with_body && !downgrades(
                        response.status,
                        current.method,
                    ))
                },
                _ => false,
            },
        }
    }
}

/// Whether `status` redirects.
pub fn is_redirect(status: u16) -> (r: bool)
    ensures
        r == is_redirect_status(status),
{
    status == 301 || status == 302 || status == 303 || status == 307 || status == 308
}

impl Redirect {
    /// A policy that follows at most `attempts` redirects.
    pub fn new(attempts: u8) -> (r: Redirect)
        ensures
            r.attempts == attempts,
    {
        Redirect { attempts }
    }

    /// Decides on `response` to `current` after `hops` redirects, given the
    /// `Location` already resolved against the URL of `current`.
    pub fn decide(
        &self,
        hops: u8,
        current: &RequestHead,
        response: &ResponseHead,
        resolved: Option<String>,
    ) -> (d: Decision)
        ensures
            decided(*self, hops, *current, *response, crate::url::opt_view(resolved), d),
    {
        if !is_redirect(response.status) || response.location.is_none() {
            return Decision::Done;
        }
        if hops >= self.attempts {
            return Decision::TooManyRedirects;
        }
        match resolved {
            None => Decision::BadLocation,
            Some(url) => {
                let down = response.status == 303 || ((response.status == 301 || response.status
                    == 302) && !(current.method == Method::Get || current.method == Method::Head));
                let method = if down {
                    Method::Get
                } else {
                    current.method
                };
                Decision::Follow(RequestHead { method, url, with_body: current.with_body && !down })
            },
        }
    }

    /// Starts a dispatch of `request` with no redirect followed yet.
    pub fn begin(&self, request: RequestHead) -> (r: RedirectLoop)
        ensures
            r.policy == *self,
            r.hops == 0,
            r.request == request,
    {
        RedirectLoop { policy: *self, hops: 0, request }
    }
}

impl Default for Redirect {
    fn default() -> (r: Redirect)
        ensures
            r.attempts == DEFAULT_REDIRECT_ATTEMPTS,
    {
        Redirect { attempts: DEFAULT_REDIRECT_ATTEMPTS }
    }
}

impl RequestHead {
    /// A copy of this request head.
    pub fn duplicate(&self) -> (r: RequestHead)
        ensures
            r == *self,
    {
        RequestHead { method: self.method, url: self.url.clone(), with_body: self.with_body }
    }
}

impl RedirectLoop {
    /// The hop count never passes the policy's limit.
    pub open spec fn wf(&self) -> bool {
        self.hops <= self.policy.attempts
    }

    /// Takes in the response to the current request. On `Follow` the hop
    /// count goes up by one and the rewritten request becomes current; on
    /// anything else the loop is left as it was.
    pub fn on_response(&mut self, response: &ResponseHead) -> (d: Decision)
        requires
            old(self).wf(),
        ensures
            final(self).wf(),
            final(self).policy == old(self).policy,
            decided(
                old(self).policy,
                old(self).hops,
                old(self).request,
                *response,
                joined_url(old(self).request.url@, location_of(*response)),
                d,
            ),
            match d {
                Decision::Follow(next) => final(self).hops == old(self).hops + 1
                    && final(self).request == next,
                _ => *final(self) == *old(self),
            },
    {
        let resolved = match &response.location {
            Some(loc) => {
                if is_redirect(response.status) && self.hops < self.policy.attempts {
                    join(self.request.url.as_str(), loc.as_str())
                } else {
                    None
                }
            },
            None => None,
        };
        let d = self.policy.decide(self.hops, &self.request, response, resolved);
        match &d {
            Decision::Follow(next) => {
                self.hops = self.hops + 1;
                self.request = next.duplicate();
            },
            _ => {},
        }
        d
    }
}

} // verus!
