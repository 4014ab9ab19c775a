//! Names of profiles, which become names of directories.

use vstd::prelude::*;

use crate::error::{Error, ErrorOf};
use crate::text;

verus! {

/// A profile may have this name: it is one visible path component.
pub open spec fn valid_name(name: Seq<char>) -> bool {
    &&& name.len() > 0
    &&& name[0] != '.'
    &&& !name.contains('/')
}

/// The error for a name that no profile may have.
pub open spec fn invalid_name(name: Seq<char>) -> ErrorOf<Seq<char>> {
    ErrorOf::InvalidArgument("invalid profile name `"@ + name + "`"@)
}

/// Accepts exactly the names that a profile may have.
pub fn validate_profile_name(name: &str) -> (res: Result<(), Error>)
    ensures
        match res {
            Ok(_) => valid_name(name@),
            Err(e) => !valid_name(name@) && e@ == invalid_name(name@),
        },
        res is Ok <==> (name@.len() > 0 && name@[0] != '.' && forall|i: int|
            0 <= i < name@.len() ==> name@[i] != '/'),
{
    let chars: Vec<char> = text::chars_of(name);
    let mut ok: bool = chars.len() > 0 && chars[0] != '.';
    for i in 0..chars.len()
        invariant
            chars@ == name@,
            ok == (name@.len() > 0 && name@[0] != '.' && forall|k: int|
                0 <= k < i ==> name@[k] != '/'),
    {
        if chars[i] == '/' {
            ok = false;
        }
    }
    assert(name@.contains('/') <==> exists|k: int| 0 <= k < name@.len() && name@[k] == '/');
    if ok {
        Ok(())
    } else {
        Err(ErrorOf::InvalidArgument(text::join3("invalid profile name `", name, "`")))
    }
}

/// A valid name names an entry of its directory and nothing outside it: it is not the
/// directory itself, not its parent, and no path of several components.
pub proof fn law_valid_name_stays_inside(name: Seq<char>)
    requires
        valid_name(name),
    ensures
        name != "."@,
        name != ".."@,
        forall|i: int| 0 <= i < name.len() ==> name[i] != '/',
{
    reveal_strlit(".");
    reveal_strlit("..");
    assert(forall|i: int| 0 <= i < name.len() && name[i] == '/' ==> name.contains('/'));
}

/// A name is valid exactly where it is not empty, does not begin with a dot and holds no
/// slash: what is valid in front of a text without slashes makes a valid name with it.
pub proof fn law_name_is_one_visible_component(name: Seq<char>, rest: Seq<char>)
    ensures
        valid_name(name) <==> (name.len() > 0 && name[0] != '.' && forall|i: int|
            0 <= i < name.len() ==> name[i] != '/'),
        valid_name(name) && !rest.contains('/') ==> valid_name(name + rest),
        rest.contains('/') ==> !valid_name(name + rest),
        !valid_name("."@ + rest),
        !valid_name(Seq::empty()),
{
    reveal_strlit(".");
    assert(name.contains('/') <==> exists|k: int| 0 <= k < name.len() && name[k] == '/');
    assert(("."@ + rest)[0] == '.');
    let whole = name + rest;
    if rest.contains('/') {
        let k = choose|k: int| 0 <= k < rest.len() && rest[k] == '/';
        assert(whole[name.len() + k] == '/');
    }
    if whole.contains('/') {
        let k = choose|k: int| 0 <= k < whole.len() && whole[k] == '/';
        if k < name.len() {
            assert(name[k] == '/');
        } else {
            assert(rest[k - name.len()] == '/');
        }
    }
}

/// The refusal of a name quotes it.
pub proof fn law_refusal_quotes_the_name(name: Seq<char>)
    ensures
        invalid_name(name) == ErrorOf::InvalidArgument("invalid profile name `"@ + name + "`"@),
{
}

} // verus!
