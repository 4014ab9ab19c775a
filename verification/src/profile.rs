//! OAuth credentials of a profile, as far as the commands read them.

use vstd::prelude::*;

use crate::views;

verus! {

/// Parsed credentials, over the type of their text.
#[derive(Debug, PartialEq, Eq)]
pub struct OauthCredsOf<T> {
    /// The account's address, where the login recorded one.
    pub email: Option<T>,
    /// When the access token expires, in milliseconds since the epoch.
    pub expires_at_ms: Option<i64>,
}

/// The credentials of running code.
pub type OauthCreds = OauthCredsOf<String>;

impl<T: View> View for OauthCredsOf<T> {
    type V = OauthCredsOf<T::V>;

    open spec fn view(&self) -> OauthCredsOf<T::V> {
        OauthCredsOf { email: views::opt(self.email), expires_at_ms: self.expires_at_ms }
    }
}

/// Two logins are known to be of different accounts. A login without an address proves
/// nothing, so two of them are no mismatch.
pub open spec fn cross_account<T>(incoming: Option<T>, existing: Option<T>) -> bool {
    incoming is Some && existing is Some && incoming != existing
}

/// Whether two logins are known to be of different accounts.
pub fn is_cross_account(incoming: &Option<String>, existing: &Option<String>) -> (res: bool)
    ensures
        res == cross_account(views::opt(*incoming), views::opt(*existing)),
        res <==> (incoming is Some && existing is Some && incoming->0@ != existing->0@),
{
    match (incoming, existing) {
        (Some(a), Some(b)) => !(*a == *b),
        _ => false,
    }
}

impl<T> OauthCredsOf<T> {
    /// The token expires within `within_secs` of `now_ms`.
    pub open spec fn expired(self, within_secs: int, now_ms: int) -> bool {
        self.expires_at_ms matches Some(at) && at <= now_ms + within_secs * 1000
    }

    /// The whole seconds until the token expires, if it is to expire later than `now_ms`.
    pub open spec fn seconds_left(self, now_ms: int) -> Option<u64> {
        match self.expires_at_ms {
            Some(at) => if at > now_ms {
                Some(((at - now_ms) / 1000) as u64)
            } else {
                None
            },
            None => None,
        }
    }

    /// Whether the token expires within `within_secs` of `now_ms`.
    pub fn is_expired(&self, within_secs: u64, now_ms: i64) -> (res: bool)
        ensures
            res == self.expired(within_secs as int, now_ms as int),
            match self.expires_at_ms {
                Some(at) => res <==> at - now_ms <= within_secs * 1000,
                None => !res,
            },
    {
        match self.expires_at_ms {
            Some(at) => at as i128 <= now_ms as i128 + within_secs as i128 * 1000,
            None => false,
        }
    }

    /// The whole seconds until the token expires, if it is to expire later than `now_ms`.
    pub fn expires_in(&self, now_ms: i64) -> (res: Option<u64>)
        ensures
            res == self.seconds_left(now_ms as int),
            match (self.expires_at_ms, res) {
                (Some(at), Some(secs)) => at > now_ms && secs * 1000 <= at - now_ms < (secs + 1)
                    * 1000,
                (Some(at), None) => at <= now_ms,
                (None, r) => r is None,
            },
    {
        match self.expires_at_ms {
            Some(at) => if at > now_ms {
                Some(((at as i128 - now_ms as i128) / 1000) as u64)
            } else {
                None
            },
            None => None,
        }
    }
}

/// Two logins are known to be of different accounts exactly where both carry an address and
/// the addresses differ; a login without one is never known to be of another account.
pub proof fn law_only_two_addresses_prove_two_accounts<T>(a: T, b: T, any: Option<T>)
    ensures
        cross_account(Some(a), Some(b)) <==> a != b,
        !cross_account(None, any),
        !cross_account(any, None),
{
}

/// Expiry is anchored at the instant at which the token expires: the token is expired within
/// some seconds of a time exactly where that instant comes no later than so many seconds
/// after it. A token without such an instant never expires.
pub proof fn law_expiry_is_anchored<T>(creds: OauthCredsOf<T>, at: i64, within: int, now: int)
    ensures
        creds.expires_at_ms == Some(at) ==> (creds.expired(within, now) <==> at - now <= 1000
            * within),
        creds.expires_at_ms is None ==> !creds.expired(within, now),
{
}

/// What is expired stays expired: at every later time, and for every longer notice.
pub proof fn law_expiry_is_monotone<T>(
    creds: OauthCredsOf<T>,
    within: int,
    now: int,
    longer: int,
    later: int,
)
    requires
        creds.expired(within, now),
        within <= longer,
        now <= later,
    ensures
        creds.expired(longer, later),
{
}

/// The seconds that are left are the whole seconds up to the expiry: there are some exactly
/// as long as the token is not expired, and the expiry falls into the second after them.
pub proof fn law_seconds_left_lead_to_the_expiry<T>(creds: OauthCredsOf<T>, at: i64, now: i64)
    requires
        creds.expires_at_ms == Some(at),
    ensures
        creds.seconds_left(now as int) is Some <==> now < at,
        creds.seconds_left(now as int) is Some <==> !creds.expired(0, now as int),
        creds.seconds_left(now as int) matches Some(secs) ==> now + 1000 * secs <= at < now + 1000
            * (secs + 1),
{
}

/// Without an instant of expiry no seconds are counted.
pub proof fn law_no_seconds_without_an_expiry<T>(creds: OauthCredsOf<T>, now: int)
    requires
        creds.expires_at_ms is None,
    ensures
        creds.seconds_left(now) is None,
{
}

/// Credentials are seen whole: the address, if any, by its view, and the instant of expiry.
pub proof fn law_credentials_are_seen_whole<T: View>(creds: OauthCredsOf<T>)
    ensures
        creds@.email is Some <==> creds.email is Some,
        creds.email matches Some(email) ==> creds@.email == Some(email@),
        creds@.expires_at_ms == creds.expires_at_ms,
{
}

} // verus!
