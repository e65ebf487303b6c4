use vstd::prelude::*;

verus! {

/// Name of the optional configuration file read from the working directory.
pub const CONFIG_FILE: &'static str = "wachit.json";

/// Usage line shown when the arguments cannot be understood.
pub const ERR_MESSAGE: &'static str = "wacht [wachit options] [target file]";

/// Source-file suffixes watched for each executable kind, separated by spaces.
pub const PY_EXTS: &'static str = ".py";

pub const NODE_EXTS: &'static str = ".js .jsx .ts .tsx";

pub const GOLANG_EXTS: &'static str = ".go";

pub const CARGO_EXTS: &'static str = ".rs";

} // verus!
