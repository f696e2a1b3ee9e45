use vstd::prelude::*;

use crate::text::str_eq;

verus! {

/// The media type of ActivityPub documents.
pub const ACTIVITY_JSON: &'static str = "application/activity+json";

/// The kinds of path that discovery serves.
#[derive(Clone, Copy, Debug, PartialEq, Eq, Structural)]
pub enum PathShape {
    /// `/.well-known/webfinger`
    WebFinger,
    /// `/users/{username}`
    User,
    /// `/{username}`
    Profile,
}

/// Which response a request asks for.
#[derive(Clone, Copy, Debug, PartialEq, Eq, Structural)]
pub enum NegotiatedIntent {
    WebFinger,
    ActivityPubActor,
    ProfileRedirect,
}

pub open spec fn accept_view(accept: Option<&str>) -> Option<Seq<char>> {
    match accept {
        Some(a) => Some(a@),
        None => None,
    }
}

/// The intent for a path and an `Accept` value: a user path asks for the
/// actor document only when the header is exactly the ActivityPub media type.
pub open spec fn intent_for(path: PathShape, accept: Option<Seq<char>>) -> NegotiatedIntent {
    match path {
        PathShape::WebFinger => NegotiatedIntent::WebFinger,
        PathShape::User => if accept == Some(ACTIVITY_JSON@) {
            NegotiatedIntent::ActivityPubActor
        } else {
            NegotiatedIntent::ProfileRedirect
        },
        PathShape::Profile => NegotiatedIntent::ProfileRedirect,
    }
}

/// Decides which response a request for `path` with the given `Accept`
/// header gets.
pub fn negotiate(path: PathShape, accept: Option<&str>) -> (r: NegotiatedIntent)
    ensures
        r == intent_for(path, accept_view(accept)),
{
    match path {
        PathShape::WebFinger => NegotiatedIntent::WebFinger,
        PathShape::User => match accept {
            Some(a) => if str_eq(a, ACTIVITY_JSON) {
                NegotiatedIntent::ActivityPubActor
            } else {
                NegotiatedIntent::ProfileRedirect
            },
            None => NegotiatedIntent::ProfileRedirect,
        },
        PathShape::Profile => NegotiatedIntent::ProfileRedirect,
    }
}

/// The intent depends on the path and the `Accept` value alone: the same
/// two always give the same intent.
pub proof fn lemma_negotiate_deterministic(
    path: PathShape,
    accept: Option<Seq<char>>,
    same_path: PathShape,
    same_accept: Option<Seq<char>>,
)
    requires
        path == same_path,
        accept == same_accept,
    ensures
        intent_for(path, accept) == intent_for(same_path, same_accept),
{
}

} // verus!
