//! The command line of the launcher.

use crate::error::JvmError;
use vstd::prelude::*;

verus! {

/// What the command line asks for.
#[derive(Debug, PartialEq, Eq)]
pub struct LaunchContext {
    /// The folder that classes are loaded from, relative to the current
    /// directory.
    pub class_path: String,
    /// The class whose `main` method runs, with dots between the parts of
    /// its name.
    pub main_class: String,
}

/// The request that the arguments of the program stand for. One argument
/// is the main class, with the class path `.`. Three arguments are an
/// option, the class path and the main class. Any other number of arguments
/// is an error.
pub open spec fn spec_launch_params(args: Seq<String>) -> Result<(Seq<char>, Seq<char>), JvmError> {
    if args.len() == 1 {
        Ok((seq!['.'], args[0]@))
    } else if args.len() == 3 {
        Ok((args[1]@, args[2]@))
    } else {
        Err(JvmError::InvalidArguments)
    }
}

/// Reads the arguments of the program, without the name of the program.
pub fn parse_launch_params(args: &[String]) -> (res: Result<LaunchContext, JvmError>)
    ensures
        match spec_launch_params(args@) {
            Ok((class_path, main_class)) => {
                &&& res is Ok
                &&& res->Ok_0.class_path@ == class_path
                &&& res->Ok_0.main_class@ == main_class
            },
            Err(e) => res is Err && res->Err_0 == e,
        },
{
    if args.len() == 1 {
        proof {
            reveal_strlit(".");
            assert("."@ =~= seq!['.']);
        }
        return Ok(
            LaunchContext { class_path: String::from_str("."), main_class: args[0].clone() },
        );
    }
    if args.len() == 3 {
        return Ok(LaunchContext { class_path: args[1].clone(), main_class: args[2].clone() });
    }
    Err(JvmError::InvalidArguments)
}

} // verus!
