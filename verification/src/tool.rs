//! The CLI whose logins `cs` switches.

use vstd::prelude::*;

use crate::text;

verus! {

/// The name of this package: the CLI's command, and what is done with it.
pub const PACKAGE: &'static str = "claude_switch";

/// The command that starts the CLI.
pub open spec fn command_name() -> Seq<char> {
    PACKAGE@.subrange(0, 6)
}

/// The CLI's name in running text.
pub open spec fn brand_name() -> Seq<char> {
    "C"@ + PACKAGE@.subrange(1, 6)
}

/// The command that starts the CLI.
pub fn command() -> (res: &'static str)
    ensures
        res@ == command_name(),
{
    proof {
        reveal_strlit("claude_switch");
    }
    PACKAGE.substring_char(0, 6)
}

/// The CLI's name in running text.
pub fn brand() -> (res: String)
    ensures
        res@ == brand_name(),
{
    proof {
        reveal_strlit("claude_switch");
    }
    text::join2("C", PACKAGE.substring_char(1, 6))
}

/// The package is named by the command and `_switch`, and the CLI's name in running text is
/// the command with a capital letter.
pub proof fn law_names_go_together()
    ensures
        PACKAGE@ == command_name() + "_switch"@,
        brand_name().len() == command_name().len(),
        brand_name()[0] == 'C',
        brand_name().skip(1) == command_name().skip(1),
{
    reveal_strlit("claude_switch");
    reveal_strlit("_switch");
    reveal_strlit("C");
    assert(PACKAGE@ =~= command_name() + "_switch"@);
    assert(brand_name().skip(1) =~= command_name().skip(1));
}

} // verus!
