//! Projection of RPM package metadata into a flat, schema-stable record.
//!
//! The metadata of a package archive, once parsed, is mapped field by field
//! onto a record of named, typed values. The mapping, the decoders it uses
//! for dependency relations and file entries, and the way the command that
//! offers it to a host shell answers a call are verified.

pub mod command;
pub mod decode;
pub mod flags;
pub mod metadata;
pub mod permissions;
pub mod projection;
pub mod record;
pub mod text;
pub mod time;

pub use command::FromRpm;

use vstd::prelude::*;

verus! {

/// The plugin: the commands that this crate offers to a host shell.
#[derive(Clone, Copy, Debug, PartialEq, Eq)]
pub struct RpmPlugin;

impl RpmPlugin {
    /// The version of the plugin.
    pub fn version(&self) -> (v: String)
        ensures
            v@ == "0.3.0"@,
    {
        String::from_str("0.3.0")
    }

    /// The commands of the plugin: `from rpm` and no other.
    pub fn commands(&self) -> (list: Vec<FromRpm>)
        ensures
            list@ == seq![FromRpm],
    {
        let mut list: Vec<FromRpm> = Vec::new();
        list.push(FromRpm);
        assert(list@ =~= seq![FromRpm]);
        list
    }
}

} // verus!
