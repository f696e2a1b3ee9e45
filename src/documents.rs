use vstd::prelude::*;

use crate::account::{acct_prefix, AccountReference};
use crate::identity::IdentityRecord;
use crate::negotiate::ACTIVITY_JSON;

verus! {

/// The link relation of a WebFinger link to the actor itself.
pub const REL_SELF: &'static str = "self";

/// The link relation of a WebFinger link to a human-readable profile.
pub const REL_PROFILE_PAGE: &'static str = "http://webfinger.net/rel/profile-page";

/// The media type of a profile page.
pub const HTML: &'static str = "text/html";

/// The ActivityPub object type of a local identity.
pub const PERSON: &'static str = "Person";

/// One link of a JSON Resource Descriptor.
#[derive(Clone, Debug)]
pub struct Link {
    pub rel: String,
    pub media_type: String,
    pub href: String,
}

/// A WebFinger JSON Resource Descriptor.
#[derive(Clone, Debug)]
pub struct WebFingerDocument {
    pub subject: String,
    pub links: Vec<Link>,
}

/// An ActivityPub actor document.
#[derive(Clone, Debug)]
pub struct ActorDocument {
    pub id: String,
    pub actor_type: String,
    pub preferred_username: String,
    pub name: String,
}

/// Where a browser is sent to read a profile.
#[derive(Clone, Debug)]
pub struct RedirectTarget {
    pub location: String,
}

impl WebFingerDocument {
    /// The descriptor of `record` for the account whose text is `subject`:
    /// a `self` link to the actor, then a link to the profile page.
    pub open spec fn describes(&self, record: IdentityRecord, subject: Seq<char>) -> bool {
        &&& self.subject@ == subject
        &&& self.links@.len() == 2
        &&& self.links@[0].rel@ == REL_SELF@
        &&& self.links@[0].media_type@ == ACTIVITY_JSON@
        &&& self.links@[0].href@ == record.actor_id@
        &&& self.links@[1].rel@ == REL_PROFILE_PAGE@
        &&& self.links@[1].media_type@ == HTML@
        &&& self.links@[1].href@ == record.profile_url@
    }
}

impl ActorDocument {
    /// The actor document of `record`.
    pub open spec fn describes(&self, record: IdentityRecord) -> bool {
        &&& self.id@ == record.actor_id@
        &&& self.actor_type@ == PERSON@
        &&& self.preferred_username@ == record.username@
        &&& self.name@ == record.display_name@
    }
}

impl RedirectTarget {
    /// The redirect to the profile of `record`.
    pub open spec fn describes(&self, record: IdentityRecord) -> bool {
        self.location@ == record.profile_url@
    }
}

/// The WebFinger descriptor of `record`, as reached through `account`.
pub fn build_webfinger(record: &IdentityRecord, account: &AccountReference) -> (r:
    WebFingerDocument)
    ensures
        r.describes(*record, account.text()),
{
    let mut subject = String::from_str("acct:");
    subject.append(account.username.as_str());
    subject.append("@");
    subject.append(account.host.as_str());
    proof {
        reveal_strlit("acct:");
        reveal_strlit("@");
        assert("acct:"@ == acct_prefix());
        assert("@"@ == seq!['@']);
        assert(subject@ == account.text());
    }
    let mut links: Vec<Link> = Vec::new();
    links.push(
        Link {
            rel: String::from_str(REL_SELF),
            media_type: String::from_str(ACTIVITY_JSON),
            href: record.actor_id.clone(),
        },
    );
    links.push(
        Link {
            rel: String::from_str(REL_PROFILE_PAGE),
            media_type: String::from_str(HTML),
            href: record.profile_url.clone(),
        },
    );
    let r = WebFingerDocument { subject, links };
    assert(r.links@[0].rel@ == REL_SELF@);
    assert(r.links@[1].href@ == record.profile_url@);
    r
}

/// The ActivityPub actor document of `record`.
pub fn build_actor(record: &IdentityRecord) -> (r: ActorDocument)
    ensures
        r.describes(*record),
{
    ActorDocument {
        id: record.actor_id.clone(),
        actor_type: String::from_str(PERSON),
        preferred_username: record.username.clone(),
        name: record.display_name.clone(),
    }
}

/// The profile page that a browser asking for `record` is sent to.
pub fn build_redirect(record: &IdentityRecord) -> (r: RedirectTarget)
    ensures
        r.describes(*record),
{
    RedirectTarget { location: record.profile_url.clone() }
}

} // verus!
