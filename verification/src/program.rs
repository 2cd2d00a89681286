//! The identity under which a program reports itself.

use vstd::prelude::*;

verus! {

/// The path of the executed program: the target of the link where the
/// invocation went through one, else the invocation path itself.
pub open spec fn resolved_path(invoked: Seq<char>, link_target: Option<Seq<char>>) -> Seq<char> {
    match link_target {
        Some(target) => target,
        None => invoked,
    }
}

/// The file path of the executed program.
///
/// `args` is the process's argument list, whose first entry is the path the
/// program was invoked by. `link_target` is what reading that path as a
/// symbolic link gave, `None` where it is no link or could not be read: the
/// invocation path then stands as it is.
pub fn exec_path(args: &Vec<String>, link_target: Option<String>) -> (path: String)
    requires
        args@.len() > 0,
    ensures
        path@ == resolved_path(
            args@[0]@,
            match link_target {
                Some(target) => Some(target@),
                None => None,
            },
        ),
{
    match link_target {
        Some(target) => target,
        None => args[0].clone(),
    }
}

} // verus!
