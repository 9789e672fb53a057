//! Which log records are kept.
use vstd::prelude::*;

use crate::text::starts_with_text;

verus! {

/// Prefix of the module paths of the model client, whose records are dropped.
pub const MODEL_CLIENT_MODULES: &'static str = "rig::";

/// Whether a record from the module at `module` is kept: records of the
/// model client are dropped, since it logs every request it makes.
pub open spec fn keeps_record(module: Option<Seq<char>>) -> bool {
    match module {
        Some(p) => !(MODEL_CLIENT_MODULES@.len() <= p.len() && p.take(MODEL_CLIENT_MODULES@.len() as int)
            == MODEL_CLIENT_MODULES@),
        None => true,
    }
}

/// Whether a record is written to the log file.
pub fn file_filter(module: Option<&str>) -> (r: bool)
    ensures
        r == keeps_record(
            match module {
                Some(p) => Some(p@),
                None => None,
            },
        ),
{
    match module {
        Some(p) => !starts_with_text(p, MODEL_CLIENT_MODULES),
        None => true,
    }
}

/// Whether a record is shown on standard error.
pub fn stderr_filter(module: Option<&str>) -> (r: bool)
    ensures
        r == keeps_record(
            match module {
                Some(p) => Some(p@),
                None => None,
            },
        ),
{
    match module {
        Some(p) => !starts_with_text(p, MODEL_CLIENT_MODULES),
        None => true,
    }
}

} // verus!
