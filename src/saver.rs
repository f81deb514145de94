//! Saving computed data.
//!
//! A saver context (a file format, a plot style) decides how a value is
//! written; the value's type says whether it can be written in that context.
use vstd::prelude::*;

verus! {

/// Data that can be written to `file_path` in the saver context `TContext`,
/// failing with `TError`.
pub trait Savable<TContext, TError> {
    fn save(&self, file_path: &str, context: &TContext) -> Result<(), TError>;
}

/// Writes `data` to `file_path` with the saver `saver`.
pub fn save<TData, TSaver, TError>(data: &TData, file_path: &str, saver: &TSaver) -> Result<(), TError>
    where
        TData: Savable<TSaver, TError>,
{
    data.save(file_path, saver)
}

} // verus!
