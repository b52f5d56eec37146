//! The commands that the relay answers, and the names they are invoked by.

use crate::text::same_text;
use vstd::prelude::*;

verus! {

/// A command of the relay.
#[derive(Clone, Copy, Debug, PartialEq, Eq, Structural)]
pub enum Command {
    /// Open a connection to a server and select a database.
    ConnectDbServer,
    /// Hand an open database back to the caller.
    AccessDb,
    /// Collect every document that matches a filter.
    Find,
    /// Fetch the first document that matches a filter, if there is one.
    FindOne,
    /// Insert one document.
    InsertOne,
    /// Insert a batch of documents.
    InsertMany,
    /// Run an aggregation pipeline and collect what it yields.
    Aggregate,
}

impl Command {
    /// The name by which the command is invoked.
    pub open spec fn wire_name(self) -> Seq<char> {
        match self {
            Command::ConnectDbServer => "connectDBServer"@,
            Command::AccessDb => "accessDB"@,
            Command::Find => "find"@,
            Command::FindOne => "findOne"@,
            Command::InsertOne => "insertOne"@,
            Command::InsertMany => "insertMany"@,
            Command::Aggregate => "aggregate"@,
        }
    }

    /// The command that `name` invokes, if it invokes one.
    pub open spec fn named(name: Seq<char>) -> Option<Command> {
        if name == Command::ConnectDbServer.wire_name() {
            Some(Command::ConnectDbServer)
        } else if name == Command::AccessDb.wire_name() {
            Some(Command::AccessDb)
        } else if name == Command::Find.wire_name() {
            Some(Command::Find)
        } else if name == Command::FindOne.wire_name() {
            Some(Command::FindOne)
        } else if name == Command::InsertOne.wire_name() {
            Some(Command::InsertOne)
        } else if name == Command::InsertMany.wire_name() {
            Some(Command::InsertMany)
        } else if name == Command::Aggregate.wire_name() {
            Some(Command::Aggregate)
        } else {
            None
        }
    }

    /// The name by which the command is invoked.
    pub fn name(self) -> (r: &'static str)
        ensures
            r@ == self.wire_name(),
    {
        match self {
            Command::ConnectDbServer => "connectDBServer",
            Command::AccessDb => "accessDB",
            Command::Find => "find",
            Command::FindOne => "findOne",
            Command::InsertOne => "insertOne",
            Command::InsertMany => "insertMany",
            Command::Aggregate => "aggregate",
        }
    }

    /// The command that `name` invokes: `None` for any other text. Names are
    /// matched exactly, letter case included.
    pub fn from_name(name: &str) -> (r: Option<Command>)
        ensures
            r == Command::named(name@),
            r matches Some(command) ==> command.wire_name() == name@,
            r is None ==> forall|command: Command| command.wire_name() != name@,
    {
        if same_text(name, "connectDBServer") {
            Some(Command::ConnectDbServer)
        } else if same_text(name, "accessDB") {
            Some(Command::AccessDb)
        } else if same_text(name, "find") {
            Some(Command::Find)
        } else if same_text(name, "findOne") {
            Some(Command::FindOne)
        } else if same_text(name, "insertOne") {
            Some(Command::InsertOne)
        } else if same_text(name, "insertMany") {
            Some(Command::InsertMany)
        } else if same_text(name, "aggregate") {
            Some(Command::Aggregate)
        } else {
            None
        }
    }
}

/// Every command is found again by its own name: no two commands share one.
pub proof fn command_is_found_by_its_name(command: Command)
    ensures
        Command::named(command.wire_name()) == Some(command),
{
    reveal_strlit("connectDBServer");
    reveal_strlit("accessDB");
    reveal_strlit("find");
    reveal_strlit("findOne");
    reveal_strlit("insertOne");
    reveal_strlit("insertMany");
    reveal_strlit("aggregate");
    assert("connectDBServer"@.len() == 15 && "accessDB"@.len() == 8 && "find"@.len() == 4);
    assert("findOne"@.len() == 7 && "insertOne"@.len() == 9 && "insertMany"@.len() == 10);
    assert("aggregate"@.len() == 9 && "insertOne"@[0] != "aggregate"@[0]);
}

} // verus!
