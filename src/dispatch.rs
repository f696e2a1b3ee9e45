use vstd::prelude::*;

use crate::account::{accepts, host_of, parse_resource, unsupported, user_of, QueryError};
use crate::documents::{
    build_actor, build_redirect, build_webfinger, ActorDocument, RedirectTarget, WebFingerDocument,
};
use crate::identity::Directory;
use crate::negotiate::{accept_view, intent_for, negotiate, NegotiatedIntent, PathShape};

verus! {

/// A request that discovery serves, by path.
#[derive(Clone, Debug)]
pub enum Route {
    /// `/.well-known/webfinger`, with its `resource` parameter if given.
    WebFinger { resource: Option<String> },
    /// `/users/{name}`
    User { name: String },
    /// `/{name}`
    Profile { name: String },
}

/// Why a request could not be answered with a document.
#[derive(Clone, Copy, Debug, PartialEq, Eq, Structural)]
pub enum Failure {
    BadQuery(QueryError),
    NotFound,
}

/// The answer to one request.
#[derive(Clone, Debug)]
pub enum Response {
    WebFinger(WebFingerDocument),
    Actor(ActorDocument),
    Redirect(RedirectTarget),
    Error(Failure),
}

impl Route {
    pub open spec fn shape_of(&self) -> PathShape {
        match self {
            Route::WebFinger { .. } => PathShape::WebFinger,
            Route::User { .. } => PathShape::User,
            Route::Profile { .. } => PathShape::Profile,
        }
    }

    /// The kind of path this request is for.
    pub fn shape(&self) -> (r: PathShape)
        ensures
            r == self.shape_of(),
    {
        match self {
            Route::WebFinger { .. } => PathShape::WebFinger,
            Route::User { .. } => PathShape::User,
            Route::Profile { .. } => PathShape::Profile,
        }
    }
}

pub open spec fn status_of(r: Response) -> u16 {
    match r {
        Response::WebFinger(_) => 200,
        Response::Actor(_) => 200,
        Response::Redirect(_) => 303,
        Response::Error(Failure::BadQuery(_)) => 400,
        Response::Error(Failure::NotFound) => 404,
    }
}

impl Response {
    /// The HTTP status that carries this response.
    pub fn status(&self) -> (r: u16)
        ensures
            r == status_of(*self),
    {
        match self {
            Response::WebFinger(_) => 200,
            Response::Actor(_) => 200,
            Response::Redirect(_) => 303,
            Response::Error(Failure::BadQuery(_)) => 400,
            Response::Error(Failure::NotFound) => 404,
        }
    }
}

impl Failure {
    /// A short text that explains the failure to the client.
    pub fn message(&self) -> (r: &'static str)
        ensures
            r@ == match *self {
                Failure::BadQuery(QueryError::MissingResource) => "missing resource parameter"@,
                Failure::BadQuery(QueryError::UnsupportedScheme) => "unsupported resource scheme"@,
                Failure::BadQuery(QueryError::MalformedAccount) => "malformed account"@,
                Failure::NotFound => "not found"@,
            },
    {
        match self {
            Failure::BadQuery(QueryError::MissingResource) => "missing resource parameter",
            Failure::BadQuery(QueryError::UnsupportedScheme) => "unsupported resource scheme",
            Failure::BadQuery(QueryError::MalformedAccount) => "malformed account",
            Failure::NotFound => "not found",
        }
    }
}

/// The query error for a `resource` value that is not accepted.
pub open spec fn query_failure(raw: Seq<char>) -> QueryError {
    if unsupported(raw) {
        QueryError::UnsupportedScheme
    } else {
        QueryError::MalformedAccount
    }
}

/// `r` answers a request for the user `name` of `dir` with `intent`.
pub open spec fn answers_user(
    dir: Directory,
    name: Seq<char>,
    intent: NegotiatedIntent,
    r: Response,
) -> bool {
    if !dir.finds(name) {
        r == Response::Error(Failure::NotFound)
    } else if intent == NegotiatedIntent::ActivityPubActor {
        r matches Response::Actor(d) && d.describes(dir.record_for(name))
    } else {
        r matches Response::Redirect(t) && t.describes(dir.record_for(name))
    }
}

/// `r` answers a WebFinger query for `resource` against `dir`.
pub open spec fn answers_webfinger(
    dir: Directory,
    resource: Option<Seq<char>>,
    r: Response,
) -> bool {
    match resource {
        None => r == Response::Error(Failure::BadQuery(QueryError::MissingResource)),
        Some(raw) => if !accepts(raw) {
            r == Response::Error(Failure::BadQuery(query_failure(raw)))
        } else if dir.finds_account(user_of(raw), host_of(raw)) {
            r matches Response::WebFinger(doc) && doc.describes(dir.record_for(user_of(raw)), raw)
        } else {
            r == Response::Error(Failure::NotFound)
        },
    }
}

/// Answers a request for the user `name` once its intent is known; the
/// user and profile paths share it.
pub fn respond_user(dir: &Directory, name: &str, intent: NegotiatedIntent) -> (r: Response)
    ensures
        answers_user(*dir, name@, intent, r),
{
    match dir.resolve(name) {
        Err(_) => Response::Error(Failure::NotFound),
        Ok(record) => match intent {
            NegotiatedIntent::ActivityPubActor => Response::Actor(build_actor(record)),
            _ => Response::Redirect(build_redirect(record)),
        },
    }
}

/// Answers a WebFinger query.
pub fn respond_webfinger(dir: &Directory, resource: Option<&str>) -> (r: Response)
    ensures
        answers_webfinger(
            *dir,
            match resource {
                Some(s) => Some(s@),
                None => None,
            },
            r,
        ),
{
    match parse_resource(resource) {
        Err(e) => Response::Error(Failure::BadQuery(e)),
        Ok(account) => match dir.resolve_account(&account) {
            Err(_) => Response::Error(Failure::NotFound),
            Ok(record) => Response::WebFinger(build_webfinger(record, &account)),
        },
    }
}

/// Answers one request against `dir`, given its `Accept` header if any.
pub fn handle(dir: &Directory, route: &Route, accept: Option<&str>) -> (r: Response)
    ensures
        match *route {
            Route::WebFinger { resource } => answers_webfinger(
                *dir,
                match resource {
                    Some(s) => Some(s@),
                    None => None,
                },
                r,
            ),
            Route::User { name } => answers_user(
                *dir,
                name@,
                intent_for(PathShape::User, accept_view(accept)),
                r,
            ),
            Route::Profile { name } => answers_user(
                *dir,
                name@,
                intent_for(PathShape::Profile, accept_view(accept)),
                r,
            ),
        },
{
    let intent = negotiate(route.shape(), accept);
    match route {
        Route::WebFinger { resource } => match resource {
            Some(raw) => respond_webfinger(dir, Some(raw.as_str())),
            None => respond_webfinger(dir, None),
        },
        Route::User { name } => respond_user(dir, name.as_str(), intent),
        Route::Profile { name } => respond_user(dir, name.as_str(), intent),
    }
}

} // verus!
