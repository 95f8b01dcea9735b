//! The options that answer at once, before any window is described.

use vstd::prelude::*;
use vstd::string::StringSliceAdditionalSpecFns;

use crate::bytes::bytes_equal;
use super::types::{ImmediateAction, ImmediateOptions};

verus! {

/// The arguments as the bytes of their text.
pub open spec fn argument_bytes(args: Seq<&str>) -> Seq<Seq<u8>> {
    args.map_values(|a: &str| a.spec_bytes())
}

/// The action a short option group asks for by its first letter: `-x` ends
/// the scan with none, `-h` asks for the help and `-V` for the version.
pub open spec fn short_action(a: Seq<u8>) -> Option<Option<ImmediateAction>> {
    if a.len() >= 2 && a[0] == 45u8 && a[1] == 120u8 {
        Some(None)
    } else if a.len() >= 2 && a[0] == 45u8 && a[1] == 104u8 {
        Some(Some(ImmediateAction::Help))
    } else if a.len() >= 2 && a[0] == 45u8 && a[1] == 86u8 {
        Some(Some(ImmediateAction::Version))
    } else {
        None
    }
}

/// The action a whole long option asks for.
pub open spec fn long_action(a: Seq<u8>) -> Option<ImmediateAction> {
    if a == "--help".spec_bytes() {
        Some(ImmediateAction::Help)
    } else if a == "--version".spec_bytes() {
        Some(ImmediateAction::Version)
    } else if a == "--color-table".spec_bytes() {
        Some(ImmediateAction::ColorTable)
    } else {
        None
    }
}

/// Scans the arguments from `i` on. The scan stops at `--`, at `--execute`
/// and at `-x`, whose following arguments belong to a command; it stops too
/// at the first action. `disable` says whether `--disable-server` was seen.
pub open spec fn immediate_from(args: Seq<Seq<u8>>, i: int, disable: bool) -> ImmediateOptions
    decreases args.len() - i,
{
    if i < 0 || i >= args.len() {
        ImmediateOptions { action: None, disable_server: disable }
    } else {
        let a = args[i];
        if a == "--".spec_bytes() || a == "--execute".spec_bytes() {
            ImmediateOptions { action: None, disable_server: disable }
        } else if short_action(a) is Some {
            ImmediateOptions { action: short_action(a)->0, disable_server: disable }
        } else if long_action(a) is Some {
            ImmediateOptions { action: long_action(a), disable_server: disable }
        } else {
            immediate_from(args, i + 1, disable || a == "--disable-server".spec_bytes())
        }
    }
}

/// Parses the options handled before window and tab launch specifications.
pub fn parse_immediate(args: &[&str]) -> (options: ImmediateOptions)
    ensures
        options == immediate_from(argument_bytes(args@), 0, false),
{
    let ghost all = argument_bytes(args@);
    let mut disable_server = false;
    let mut i: usize = 0;
    while i < args.len()
        invariant
            all == argument_bytes(args@),
            i <= args@.len(),
            immediate_from(all, i as int, disable_server) == immediate_from(all, 0, false),
        decreases args@.len() - i,
    {
        let argument = args[i].as_bytes();
        assert(all[i as int] == argument@);
        if bytes_equal(argument, "--".as_bytes()) || bytes_equal(argument, "--execute".as_bytes()) {
            return ImmediateOptions { action: None, disable_server };
        }
        if argument.len() >= 2 && argument[0] == 45u8 {
            if argument[1] == 120u8 {
                return ImmediateOptions { action: None, disable_server };
            } else if argument[1] == 104u8 {
                return ImmediateOptions { action: Some(ImmediateAction::Help), disable_server };
            } else if argument[1] == 86u8 {
                return ImmediateOptions { action: Some(ImmediateAction::Version), disable_server };
            }
        }
        if bytes_equal(argument, "--help".as_bytes()) {
            return ImmediateOptions { action: Some(ImmediateAction::Help), disable_server };
        } else if bytes_equal(argument, "--version".as_bytes()) {
            return ImmediateOptions { action: Some(ImmediateAction::Version), disable_server };
        } else if bytes_equal(argument, "--color-table".as_bytes()) {
            return ImmediateOptions { action: Some(ImmediateAction::ColorTable), disable_server };
        }
        if bytes_equal(argument, "--disable-server".as_bytes()) {
            disable_server = true;
        }
        i = i + 1;
    }
    ImmediateOptions { action: None, disable_server }
}

} // verus!
