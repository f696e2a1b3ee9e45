use vstd::prelude::*;

use crate::text::{contains_char, position_of};

verus! {

/// The URI schemes that a discovery query may name.
#[derive(Clone, Copy, Debug, PartialEq, Eq, Structural)]
pub enum Scheme {
    Acct,
}

/// An `acct:username@host` reference, taken apart.
#[derive(Clone, Debug)]
pub struct AccountReference {
    pub scheme: Scheme,
    pub username: String,
    pub host: String,
}

/// Why a `resource` query value was rejected.
#[derive(Clone, Copy, Debug, PartialEq, Eq, Structural)]
pub enum QueryError {
    MissingResource,
    UnsupportedScheme,
    MalformedAccount,
}

/// The characters `acct:`.
pub open spec fn acct_prefix() -> Seq<char> {
    seq!['a', 'c', 'c', 't', ':']
}

pub open spec fn has_acct_prefix(s: Seq<char>) -> bool {
    s.len() >= 5 && s.subrange(0, 5) == acct_prefix()
}

/// `s` names some scheme: it holds a `:`.
pub open spec fn has_scheme(s: Seq<char>) -> bool {
    exists|i: int| 0 <= i < s.len() && s[i] == ':'
}

pub open spec fn no_at(s: Seq<char>) -> bool {
    forall|k: int| 0 <= k < s.len() ==> s[k] != '@'
}

/// `a` is `user@host` with both parts non-empty and free of `@`.
pub open spec fn is_account(a: Seq<char>) -> bool {
    exists|i: int|
        #![trigger a[i]]
        0 < i < a.len() - 1 && a[i] == '@' && forall|k: int|
            0 <= k < a.len() && k != i ==> a[k] != '@'
}

/// Where the only `@` of the account `a` stands.
pub open spec fn at_position(a: Seq<char>) -> int
    recommends
        is_account(a),
{
    choose|i: int|
        #![trigger a[i]]
        0 < i < a.len() - 1 && a[i] == '@' && forall|k: int|
            0 <= k < a.len() && k != i ==> a[k] != '@'
}

/// The username that the reference `s` names.
pub open spec fn user_of(s: Seq<char>) -> Seq<char> {
    after_prefix(s).subrange(0, at_position(after_prefix(s)))
}

/// The host that the reference `s` names.
pub open spec fn host_of(s: Seq<char>) -> Seq<char> {
    after_prefix(s).subrange(at_position(after_prefix(s)) + 1, after_prefix(s).len() as int)
}

/// The text of the reference with the given parts.
pub open spec fn account_text(user: Seq<char>, host: Seq<char>) -> Seq<char> {
    acct_prefix() + user + seq!['@'] + host
}

/// What follows the `acct:` of `s`.
pub open spec fn after_prefix(s: Seq<char>) -> Seq<char> {
    s.subrange(5, s.len() as int)
}

/// `s` is a well-formed `acct:` reference.
pub open spec fn accepts(s: Seq<char>) -> bool {
    has_acct_prefix(s) && is_account(after_prefix(s))
}

/// `s` names a scheme other than `acct`, or none at all while being
/// otherwise a well-formed `user@host`.
pub open spec fn unsupported(s: Seq<char>) -> bool {
    !has_acct_prefix(s) && (has_scheme(s) || is_account(s))
}

impl AccountReference {
    pub open spec fn wf(&self) -> bool {
        &&& self.username@.len() > 0
        &&& no_at(self.username@)
        &&& self.host@.len() > 0
        &&& no_at(self.host@)
    }

    pub open spec fn text(&self) -> Seq<char> {
        account_text(self.username@, self.host@)
    }
}

/// Splits `a` at its only `@` into two non-empty parts, or returns `None`
/// where `a` is no such `user@host`.
pub fn split_account(a: &str) -> (r: Option<(String, String)>)
    ensures
        r is Some <==> is_account(a@),
        r matches Some((u, h)) ==> {
            &&& a@ == u@ + seq!['@'] + h@
            &&& u@.len() > 0 && no_at(u@)
            &&& h@.len() > 0 && no_at(h@)
        },
{
    let n = a.unicode_len();
    let first = position_of(a, 0, '@');
    match first {
        None => {
            assert(!is_account(a@)) by {
                if is_account(a@) {
                    let i = choose|i: int|
                        #![trigger a@[i]]
                        0 < i < a@.len() - 1 && a@[i] == '@' && forall|k: int|
                            0 <= k < a@.len() && k != i ==> a@[k] != '@';
                    assert(a@[i] == '@');
                }
            }
            None
        },
        Some(i) => {
            if i == 0 || i + 1 == n || contains_char(a, i + 1, '@') {
                assert(!is_account(a@)) by {
                    if is_account(a@) {
                        let j = choose|j: int|
                            #![trigger a@[j]]
                            0 < j < a@.len() - 1 && a@[j] == '@' && forall|k: int|
                                0 <= k < a@.len() && k != j ==> a@[k] != '@';
                        assert(a@[j] == '@');
                        assert(j == i);
                        if i + 1 < n {
                            let k = choose|k: int| i + 1 <= k < n && a@[k] == '@';
                            assert(a@[k] == '@');
                        }
                    }
                }
                None
            } else {
                let u = a.substring_char(0, i).to_string();
                let h = a.substring_char(i + 1, n).to_string();
                assert(a@[i as int] == '@');
                assert(is_account(a@));
                assert(a@ == u@ + seq!['@'] + h@);
                Some((u, h))
            }
        },
    }
}

/// Whether `s` starts with `acct:`.
fn starts_with_acct(s: &str) -> (r: bool)
    ensures
        r == has_acct_prefix(s@),
{
    if s.unicode_len() < 5 {
        return false;
    }
    let ok = s.get_char(0) == 'a' && s.get_char(1) == 'c' && s.get_char(2) == 'c'
        && s.get_char(3) == 't' && s.get_char(4) == ':';
    assert(ok ==> s@.subrange(0, 5) == acct_prefix());
    assert(s@.subrange(0, 5) == acct_prefix() ==> s@.subrange(0, 5)[0] == 'a'
        && s@.subrange(0, 5)[1] == 'c' && s@.subrange(0, 5)[2] == 'c'
        && s@.subrange(0, 5)[3] == 't' && s@.subrange(0, 5)[4] == ':');
    ok
}

/// Parses a WebFinger `resource` value of the form `acct:username@host`.
///
/// A value that names another scheme, or none while being a plain
/// `user@host`, is `UnsupportedScheme`; any other value that is no
/// `acct:` reference with one `@` between non-empty parts is
/// `MalformedAccount`.
pub fn parse(raw: &str) -> (r: Result<AccountReference, QueryError>)
    ensures
        r is Ok <==> accepts(raw@),
        r matches Ok(a) ==> a.wf() && a.scheme == Scheme::Acct && raw@ == a.text(),
        r matches Ok(a) ==> a.username@ == user_of(raw@) && a.host@ == host_of(raw@),
        r == Err::<AccountReference, QueryError>(QueryError::UnsupportedScheme) <==> unsupported(raw@),
        r == Err::<AccountReference, QueryError>(QueryError::MalformedAccount) <==> !accepts(raw@)
            && !unsupported(raw@),
{
    let n = raw.unicode_len();
    if starts_with_acct(raw) {
        let rest = raw.substring_char(5, n);
        match split_account(rest) {
            Some((username, host)) => {
                let a = AccountReference { scheme: Scheme::Acct, username, host };
                assert(raw@ == raw@.subrange(0, 5) + rest@);
                assert(raw@ == a.text());
                proof {
                    let p = at_position(rest@);
                    let i = a.username@.len() as int;
                    assert(rest@[i] == '@');
                    assert(rest@[p] == '@');
                    assert(p == i);
                    assert(rest@ == after_prefix(raw@));
                    assert(a.username@ == rest@.subrange(0, i));
                    assert(a.host@ == rest@.subrange(i + 1, rest@.len() as int));
                }
                Ok(a)
            },
            None => Err(QueryError::MalformedAccount),
        }
    } else if contains_char(raw, 0, ':') {
        Err(QueryError::UnsupportedScheme)
    } else {
        assert(!has_scheme(raw@));
        match split_account(raw) {
            Some(_) => Err(QueryError::UnsupportedScheme),
            None => Err(QueryError::MalformedAccount),
        }
    }
}

/// Parses the `resource` parameter of a discovery query, which may be
/// absent.
pub fn parse_resource(resource: Option<&str>) -> (r: Result<AccountReference, QueryError>)
    ensures
        resource is None ==> r == Err::<AccountReference, QueryError>(
            QueryError::MissingResource,
        ),
        resource matches Some(raw) ==> {
            &&& r is Ok <==> accepts(raw@)
            &&& r matches Ok(a) ==> a.wf() && a.scheme == Scheme::Acct && raw@ == a.text()
            &&& r matches Ok(a) ==> a.username@ == user_of(raw@) && a.host@ == host_of(raw@)
            &&& r == Err::<AccountReference, QueryError>(QueryError::UnsupportedScheme)
                <==> unsupported(raw@)
            &&& r == Err::<AccountReference, QueryError>(QueryError::MalformedAccount)
                <==> !accepts(raw@) && !unsupported(raw@)
        },
{
    match resource {
        Some(raw) => parse(raw),
        None => Err(QueryError::MissingResource),
    }
}

/// Every `acct:user@host` with a non-empty `user` and `host`, neither
/// holding `@`, is accepted, and the only parts whose text it is are
/// `user` and `host` themselves.
pub proof fn lemma_parse_round_trip(user: Seq<char>, host: Seq<char>)
    requires
        user.len() > 0,
        no_at(user),
        host.len() > 0,
        no_at(host),
    ensures
        accepts(account_text(user, host)),
        forall|a: AccountReference|
            #![trigger a.text()]
            a.wf() && a.text() == account_text(user, host) ==> a.username@ == user
                && a.host@ == host,
{
    let t = account_text(user, host);
    let rest = user + seq!['@'] + host;
    assert(t.subrange(0, 5) == acct_prefix());
    assert(after_prefix(t) == rest);
    let i = user.len() as int;
    assert(rest[i] == '@');
    assert forall|k: int| 0 <= k < rest.len() && k != i implies rest[k] != '@' by {
        if k < i {
            assert(rest[k] == user[k]);
        } else {
            assert(rest[k] == host[k - i - 1]);
        }
    }
    assert(is_account(rest));
    assert forall|a: AccountReference|
        #![trigger a.text()]
        a.wf() && a.text() == t implies a.username@ == user && a.host@ == host by {
        let u2 = a.username@;
        let h2 = a.host@;
        let j = u2.len() as int;
        assert(t[5 + j] == '@');
        assert(t[5 + i] == '@');
        if j < i {
            assert(t[5 + j] == user[j]);
        } else if i < j {
            assert(t[5 + i] == u2[i]);
        }
        assert(j == i);
        assert(u2 == t.subrange(5, 5 + i));
        assert(user == t.subrange(5, 5 + i));
        assert(h2 == t.subrange(6 + i, t.len() as int));
        assert(host == t.subrange(6 + i, t.len() as int));
    }
}

/// A value that names no scheme other than `acct`, and whose account part
/// (what follows `acct:`, or the whole value) splits at its last `@` into an
/// empty username or an empty host, or holds no `@` at all, is rejected as
/// `MalformedAccount`.
pub proof fn lemma_parse_malformed(s: Seq<char>, user: Seq<char>, host: Seq<char>)
    requires
        !has_scheme(s) || has_acct_prefix(s),
        no_at(if has_acct_prefix(s) { after_prefix(s) } else { s }) || {
            &&& (if has_acct_prefix(s) { after_prefix(s) } else { s }) == user + seq!['@'] + host
            &&& no_at(host)
            &&& user.len() == 0 || host.len() == 0
        },
    ensures
        !accepts(s),
        !unsupported(s),
{
    let part = if has_acct_prefix(s) { after_prefix(s) } else { s };
    if is_account(part) {
        let i = choose|i: int|
            #![trigger part[i]]
            0 < i < part.len() - 1 && part[i] == '@' && forall|k: int|
                0 <= k < part.len() && k != i ==> part[k] != '@';
        assert(part[i] == '@');
        if !no_at(part) {
            let j = user.len() as int;
            assert(part[j] == '@');
            if j < i {
                assert(part[i] == host[i - j - 1]);
            }
            assert(j == i);
            assert(part.len() == user.len() + 1 + host.len());
        }
    }
}

/// A value that names a scheme other than `acct` is rejected as
/// `UnsupportedScheme`.
pub proof fn lemma_parse_foreign_scheme(s: Seq<char>)
    requires
        has_scheme(s),
        !has_acct_prefix(s),
    ensures
        unsupported(s),
        !accepts(s),
{
}

} // verus!
