//! Names of keychain entries.

use vstd::prelude::*;

use crate::error::{Error, ErrorOf};
use crate::text;
use crate::tool;
use crate::views;

verus! {

/// The account under which a profile's credentials are kept.
pub open spec fn account_of(name: Seq<char>) -> Seq<char> {
    tool::brand_name() + " Code-credentials-"@ + name
}

/// The account under which a profile's credentials are kept.
pub fn profile_account(name: &str) -> (res: String)
    ensures
        res@ == account_of(name@),
{
    text::join3(&tool::brand(), " Code-credentials-", name)
}

/// Different profiles are kept under different accounts.
pub proof fn law_accounts_are_distinct(a: Seq<char>, b: Seq<char>)
    ensures
        account_of(a) == account_of(b) ==> a == b,
{
    let n = (tool::brand_name() + " Code-credentials-"@).len() as int;
    assert(account_of(a).skip(n) =~= a);
    assert(account_of(b).skip(n) =~= b);
}

/// The outcome of a write, told by what a read gave back afterwards (`None` where it
/// failed): the write held if that is exactly what was written.
pub fn verify_write(account: &str, written: &Vec<u8>, read_back: &Option<Vec<u8>>) -> (res: Result<
    (),
    Error,
>)
    ensures
        match res {
            Ok(_) => views::opt(*read_back) == Some(written@),
            Err(e) => views::opt(*read_back) != Some(written@) && e@ == ErrorOf::Keychain(
                "write verification failed for "@ + account@,
            ),
        },
{
    let held: bool = match read_back {
        Some(b) => views::same_bytes(b, written),
        None => false,
    };
    if held {
        Ok(())
    } else {
        let mut message: String = "write verification failed for ".to_owned();
        message.append(account);
        Err(ErrorOf::Keychain(message))
    }
}

/// The account of a profile is one prefix for all profiles, and then the profile's name.
pub proof fn law_account_ends_with_the_name(name: Seq<char>)
    ensures
        account_of(name) == account_of(Seq::empty()) + name,
        account_of(Seq::empty()) == tool::brand_name() + " Code-credentials-"@,
{
    assert(account_of(name) =~= account_of(Seq::empty()) + name);
    assert(account_of(Seq::empty()) =~= tool::brand_name() + " Code-credentials-"@);
}

} // verus!
