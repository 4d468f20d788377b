//! The top-level session object: carries the construction arguments and
//! builds bridge handles from them.
use vstd::prelude::*;

use crate::adb::Adb;
use crate::error::AdbError;

verus! {

/// Arguments for a session: an optional explicit path to the bridge
/// executable.
#[derive(Clone, Debug, PartialEq)]
pub struct Args {
    /// Explicit path of the bridge executable; `None` to search the
    /// environment's search path instead.
    pub adb_path: Option<String>,
}

/// A session factory: holds the arguments and hands out bridge handles.
#[derive(Clone)]
pub struct DarkInstruments {
    /// The session's construction arguments.
    pub args: Args,
}

impl DarkInstruments {
    /// Wraps the arguments.
    pub fn new(args: Args) -> (r: Self)
        ensures
            r.args == args,
    {
        DarkInstruments { args }
    }

    /// Builds a bridge handle scoped to `target` using the session's
    /// executable path; the construction is [`Adb::new`].
    pub fn adb(&self, target: Option<String>) -> (r: Result<Adb, AdbError>)
        ensures
            r matches Ok(adb) ==> {
                &&& adb.spec_target() == (match target {
                    Some(t) => Some(t@),
                    None => None::<Seq<char>>,
                })
                &&& (self.args.adb_path matches Some(p) ==> adb.spec_path() == p@)
            },
            r matches Err(e) ==> {
                &&& (e is TargetNotOnline ==> target is Some)
                &&& (e is NoExclusiveTargetOnline ==> target is None)
            },
    {
        let path_copy: Option<String> = match &self.args.adb_path {
            Some(p) => Some(p.clone()),
            None => None,
        };
        Adb::new(path_copy, target)
    }
}

} // verus!
