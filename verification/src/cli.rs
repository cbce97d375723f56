//! The command-line flags of the workbench: `--config <PATH>` and
//! `--log-level <LEVEL>`, each read as the word that follows the flag.
use crate::text::str_eq;
use vstd::prelude::*;

verus! {

/// The views of the arguments.
pub open spec fn arg_views(args: Seq<String>) -> Seq<Seq<char>> {
    args.map_values(|a: String| a@)
}

/// The word after the first occurrence of `flag`; `None` where the flag does
/// not occur, or occurs first as the last word.
pub open spec fn flag_value_spec(args: Seq<Seq<char>>, flag: Seq<char>) -> Option<Seq<char>>
    decreases args.len(),
{
    if args.len() == 0 {
        None
    } else if args[0] == flag {
        if args.len() > 1 {
            Some(args[1])
        } else {
            None
        }
    } else {
        flag_value_spec(args.drop_first(), flag)
    }
}

/// The word that follows the first `flag` among the arguments.
pub fn flag_value(args: &Vec<String>, flag: &str) -> (r: Option<String>)
    ensures
        r matches Some(v) ==> flag_value_spec(arg_views(args@), flag@) == Some(v@),
        r is None ==> flag_value_spec(arg_views(args@), flag@) is None,
{
    let ghost all = arg_views(args@);
    let mut i: usize = 0;
    assert(all.subrange(0, all.len() as int) =~= all);
    while i < args.len()
        invariant
            i <= args.len(),
            all == arg_views(args@),
            flag_value_spec(all, flag@) == flag_value_spec(all.subrange(i as int, all.len() as int), flag@),
        decreases args.len() - i,
    {
        let ghost rest = all.subrange(i as int, all.len() as int);
        assert(rest[0] == args@[i as int]@);
        if str_eq(args[i].as_str(), flag) {
            if i + 1 < args.len() {
                assert(rest[1] == args@[i + 1]@);
                return Some(args[i + 1].clone());
            }
            return None;
        }
        assert(rest.drop_first() =~= all.subrange(i + 1, all.len() as int));
        i = i + 1;
    }
    assert(all.subrange(i as int, all.len() as int) =~= Seq::<Seq<char>>::empty());
    None
}

/// The path given with `--config`, if any.
pub fn parse_config_path(args: &Vec<String>) -> (r: Option<String>)
    ensures
        r matches Some(v) ==> flag_value_spec(arg_views(args@), "--config"@) == Some(v@),
        r is None ==> flag_value_spec(arg_views(args@), "--config"@) is None,
{
    flag_value(args, "--config")
}

/// The level given with `--log-level`, if any.
pub fn parse_log_level(args: &Vec<String>) -> (r: Option<String>)
    ensures
        r matches Some(v) ==> flag_value_spec(arg_views(args@), "--log-level"@) == Some(v@),
        r is None ==> flag_value_spec(arg_views(args@), "--log-level"@) is None,
{
    flag_value(args, "--log-level")
}

} // verus!
