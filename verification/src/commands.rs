//! The command layer the conversational front end calls into: four
//! operations over meters, each reporting failures as plain text. The
//! uniqueness of meter names is enforced here by check-then-insert; two
//! concurrent callers could both pass the check, so it is best effort,
//! not a guarantee.

use vstd::prelude::*;
use vstd::string::*;

use crate::engine::DbError;
use crate::ops::Operations;
use crate::structs::Meter;

verus! {

/// The message reported when a meter name is already taken.
pub open spec fn spec_already_exists_message(name: Seq<char>) -> Seq<char> {
    "Meter with name "@ + name + " already exists"@
}

/// The message reported when the storage engine refuses the insert.
pub open spec fn spec_add_failed_message(e: DbError) -> Seq<char> {
    "Couldn't add meter to the database: "@ + e.spec_message()
}

/// The uniqueness gate of check-then-insert: given the outcome of the
/// existence check, it refuses a taken name with the message that names
/// the duplicate, and lets an absent name pass — a refusal exactly when
/// the name existed at check time.
pub fn duplicate_gate(exists: bool, name: &str) -> (r: Option<String>)
    ensures
        (r is Some) <==> exists,
        exists ==> (r matches Some(m) && m@ == spec_already_exists_message(name@)),
{
    if exists {
        let mut m = String::from_str("Meter with name ");
        m.append(name);
        m.append(" already exists");
        Some(m)
    } else {
        None
    }
}

/// The outcome mapping of the guarded insert: success exactly when the
/// repository accepted the row; a refusal is reported under the
/// add-failed message naming the engine's error.
pub fn insert_report(r: Result<(), DbError>) -> (out: Result<(), String>)
    ensures
        out is Ok <==> r is Ok,
        r matches Err(e) ==> (out matches Err(m) && m@ == spec_add_failed_message(e)),
{
    match r {
        Ok(_) => Ok(()),
        Err(e) => {
            let mut m = String::from_str("Couldn't add meter to the database: ");
            let em = e.message();
            m.append(em.as_str());
            Err(m)
        },
    }
}

/// The outcome mapping of a plain pass-through: success exactly when
/// the repository succeeded; a repository error is reported under its
/// own message, unchanged.
pub fn plain_report(r: Result<(), DbError>) -> (out: Result<(), String>)
    ensures
        out is Ok <==> r is Ok,
        r matches Err(e) ==> (out matches Err(m) && m@ == e.spec_message()),
{
    match r {
        Ok(_) => Ok(()),
        Err(e) => Err(e.message()),
    }
}

/// The outcome mapping of a listing: the fetched meters are handed on
/// unchanged; a repository error is reported under its own message.
pub fn list_report(r: Result<Vec<Meter>, DbError>) -> (out: Result<Vec<Meter>, String>)
    ensures
        r matches Ok(ms) ==> (out matches Ok(out_ms) && out_ms == ms),
        r matches Err(e) ==> (out matches Err(m) && m@ == e.spec_message()),
{
    match r {
        Ok(ms) => Ok(ms),
        Err(e) => Err(e.message()),
    }
}

/// The front end's handle on storage: a repository, reached only
/// through these four operations.
pub struct Commands {
    ops: Operations,
}

impl Commands {
    /// Opens the command layer over a fresh in-memory database.
    pub fn in_memory() -> (r: Result<Commands, String>)
        ensures
            r matches Err(m) ==> m@ == DbError::ConnectionError.spec_message(),
    {
        match Operations::in_memory() {
            Ok(ops) => Ok(Commands { ops }),
            Err(e) => Err(e.message()),
        }
    }

    /// The owned connection, for the schema bootstrap at process start.
    pub fn get_connection(&self) -> &rusqlite::Connection {
        self.ops.get_connection()
    }

    /// Adds a meter under `name` unless one already carries that name.
    /// A taken name is a normal "already exists" result, not a storage
    /// error; the check and the insert are not atomic.
    pub fn add_meter(&self, name: &str) -> (r: Result<(), String>)
        ensures
            r matches Err(m) ==> (m@ == DbError::SqlExecutionError.spec_message() || m@
                == DbError::HydrationError.spec_message() || m@ == spec_already_exists_message(
                name@,
            ) || m@ == spec_add_failed_message(DbError::SqlExecutionError)),
    {
        let meter_exists = match self.ops.exists_by_name::<Meter>(name.to_owned()) {
            Ok(exists) => exists,
            Err(e) => {
                return Err(e.message());
            },
        };
        match duplicate_gate(meter_exists, name) {
            Some(m) => Err(m),
            None => insert_report(self.ops.insert(Meter::new(name))),
        }
    }

    /// Deletes the meter row with the given identifier.
    pub fn delete_meter(&self, id: u32) -> (r: Result<(), String>)
        ensures
            r matches Err(m) ==> m@ == DbError::SqlExecutionError.spec_message(),
    {
        plain_report(self.ops.delete_by_id::<Meter>(id))
    }

    /// Lists every meter, in the engine's result order.
    pub fn list_meters(&self) -> (r: Result<Vec<Meter>, String>)
        ensures
            r matches Err(m) ==> (m@ == DbError::SqlExecutionError.spec_message() || m@
                == DbError::HydrationError.spec_message()),
    {
        list_report(self.ops.get_all::<Meter>())
    }
}

} // verus!
