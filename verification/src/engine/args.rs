//! Command-line arguments.
//!
//! The arguments come in pairs, a flag and its value: `--scene` or `-s`,
//! `--mount` or `-n`, `--mount-path` or `-m`. A flag given twice counts the
//! last time. Whatever stands where a value is expected is taken as the
//! value, even if it looks like a flag.

use vstd::prelude::*;
use crate::engine::{EngineArgs, EngineArgsView, EngineError};
use crate::text::{framed, str_eq};

verus! {

/// The flags the engine knows.
#[derive(Debug, Clone, Copy, PartialEq, Eq, Structural)]
pub enum EngineFlag {
    Scene,
    MountPath,
    SearchMountName,
}

/// The flag that `arg` spells, if it spells one.
pub open spec fn flag_of(arg: Seq<char>) -> Option<EngineFlag> {
    if arg == "--scene"@ || arg == "-s"@ {
        Some(EngineFlag::Scene)
    } else if arg == "--mount"@ || arg == "-n"@ {
        Some(EngineFlag::SearchMountName)
    } else if arg == "--mount-path"@ || arg == "-m"@ {
        Some(EngineFlag::MountPath)
    } else {
        None
    }
}

/// `k` is the first place of `args` where a flag is expected and something
/// else stands.
pub open spec fn is_first_bad(args: Seq<Seq<char>>, k: int) -> bool {
    &&& 0 <= k < args.len()
    &&& k % 2 == 0
    &&& flag_of(args[k]) is None
    &&& forall|j: int| 0 <= j < k && j % 2 == 0 ==> flag_of(#[trigger] args[j]) is Some
}

/// Every place of `args` where a flag is expected holds one.
pub open spec fn all_flags_known(args: Seq<Seq<char>>) -> bool {
    forall|j: int| 0 <= j < args.len() && j % 2 == 0 ==> flag_of(#[trigger] args[j]) is Some
}

/// The value that the first `pairs` pairs of `args` give to `flag`: that of
/// the last pair that names it, if any does.
pub open spec fn value_of(args: Seq<Seq<char>>, flag: EngineFlag, pairs: nat) -> Option<Seq<char>>
    decreases pairs,
{
    if pairs == 0 {
        None
    } else if flag_of(args[2 * pairs - 2]) == Some(flag) {
        Some(args[2 * pairs - 1])
    } else {
        value_of(args, flag, (pairs - 1) as nat)
    }
}

/// What the first `pairs` pairs of `args` ask for.
pub open spec fn asked(args: Seq<Seq<char>>, pairs: nat) -> EngineArgsView {
    EngineArgsView {
        mount_path: value_of(args, EngineFlag::MountPath, pairs),
        search_mount_name: value_of(args, EngineFlag::SearchMountName, pairs),
        scene: value_of(args, EngineFlag::Scene, pairs),
    }
}

/// The message for an argument that is no flag.
pub open spec fn unrecognized(arg: Seq<char>) -> Seq<char> {
    "Unrecognized flag: `"@ + arg + "`."@
}

/// The texts of a list of strings.
pub open spec fn texts(args: Seq<String>) -> Seq<Seq<char>> {
    args.map_values(|s: String| s@)
}

/// The outcome of parsing `args`: the first argument that stands where a
/// flag is expected and is none is reported; failing that, a flag left
/// without its value; failing that, what the pairs ask for.
pub open spec fn parsed(args: Seq<Seq<char>>, r: Result<EngineArgs, EngineError>) -> bool {
    match r {
        Ok(out) => all_flags_known(args) && args.len() % 2 == 0 && out@ == asked(
            args,
            (args.len() / 2) as nat,
        ),
        Err(EngineError::IgniteBadArg(msg)) => exists|k: int| #[trigger]
            is_first_bad(args, k) && msg@ == unrecognized(args[k]),
        Err(EngineError::IgniteLeftOverArg) => all_flags_known(args) && args.len() % 2 == 1,
        Err(_) => false,
    }
}

/// Reads the flag that `arg` spells.
pub fn read_flag(arg: &str) -> (r: Option<EngineFlag>)
    ensures
        r == flag_of(arg@),
{
    if str_eq(arg, "--scene") || str_eq(arg, "-s") {
        Some(EngineFlag::Scene)
    } else if str_eq(arg, "--mount") || str_eq(arg, "-n") {
        Some(EngineFlag::SearchMountName)
    } else if str_eq(arg, "--mount-path") || str_eq(arg, "-m") {
        Some(EngineFlag::MountPath)
    } else {
        None
    }
}

/// Parses the command line, without the program's name.
pub fn parse_arguments(args: &[String]) -> (r: Result<EngineArgs, EngineError>)
    ensures
        parsed(texts(args@), r),
{
    let ghost all = texts(args@);
    let mut output = EngineArgs::default();
    let mut previous_carried_flag: Option<EngineFlag> = None;
    let mut i: usize = 0;
    while i < args.len()
        invariant
            i <= args.len(),
            all == texts(args@),
            all.len() == args@.len(),
            forall|j: int| 0 <= j < i && j % 2 == 0 ==> flag_of(#[trigger] all[j]) is Some,
            previous_carried_flag is Some <==> i % 2 == 1,
            previous_carried_flag is Some ==> previous_carried_flag == flag_of(all[i - 1]),
            output@ == asked(all, (i / 2) as nat),
        decreases args.len() - i,
    {
        let arg = &args[i];
        assert(all[i as int] == arg@);
        match previous_carried_flag {
            Some(flag) => {
                match flag {
                    EngineFlag::Scene => {
                        output.scene = Some(arg.clone());
                    },
                    EngineFlag::MountPath => {
                        output.mount_path = Some(arg.clone());
                    },
                    EngineFlag::SearchMountName => {
                        output.search_mount_name = Some(arg.clone());
                    },
                }
                previous_carried_flag = None;
                assert(((i + 1) / 2) as nat == (i / 2) as nat + 1);
                assert(2 * ((i + 1) / 2) - 2 == i - 1);
            },
            None => {
                match read_flag(arg.as_str()) {
                    Some(flag) => {
                        previous_carried_flag = Some(flag);
                        assert(((i + 1) / 2) as nat == (i / 2) as nat);
                    },
                    None => {
                        assert(is_first_bad(all, i as int));
                        return Err(EngineError::IgniteBadArg(framed("Unrecognized flag: `", arg.as_str(), "`.")));
                    },
                }
            },
        }
        i += 1;
    }
    if previous_carried_flag.is_some() {
        return Err(EngineError::IgniteLeftOverArg);
    }
    Ok(output)
}

} // verus!
