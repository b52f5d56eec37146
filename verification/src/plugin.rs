//! The plugin under which a host registers the relay.

use crate::command::Command;
use vstd::prelude::*;

verus! {

/// The relay as a plugin of its host.
#[derive(Clone, Copy, Debug, Default, PartialEq, Eq)]
pub struct MongoPlugin;

impl MongoPlugin {
    /// The name under which the host registers the plugin.
    pub open spec fn registered_name() -> Seq<char> {
        "mongo"@
    }

    /// The name under which the host registers the plugin.
    pub fn name(&self) -> (r: &'static str)
        ensures
            r@ == MongoPlugin::registered_name(),
    {
        "mongo"
    }

    /// The command that a message to the plugin invokes: `None` where the
    /// plugin has no command of that name, and the message is not its to
    /// answer.
    pub fn command(&self, name: &str) -> (r: Option<Command>)
        ensures
            r == Command::named(name@),
    {
        Command::from_name(name)
    }
}

} // verus!
