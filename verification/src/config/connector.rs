use vstd::prelude::*;
use crate::collections::names::text_eq;
use crate::object::{Object, ObjectInner};
use crate::path::error::{Error, ErrorKind, ErrorView};
use crate::value::value::Value;

verus! {

/// The kinds of database that a connector can talk to.
#[derive(Debug, Copy, Clone, PartialEq, Eq, Structural)]
pub enum Database {
    MySQL,
    PostgreSQL,
    MongoDB,
    SQLite,
}

/// The database that a name stands for.
pub open spec fn database_named(name: Seq<char>) -> Option<Database> {
    if name == "mysql"@ {
        Some(Database::MySQL)
    } else if name == "postgres"@ {
        Some(Database::PostgreSQL)
    } else if name == "mongo"@ {
        Some(Database::MongoDB)
    } else if name == "sqlite"@ {
        Some(Database::SQLite)
    } else {
        None
    }
}

/// The error for an object that names no database.
pub open spec fn no_database(message: Seq<char>) -> ErrorView {
    ErrorView { kind: ErrorKind::TypeError, message, path: None }
}

impl Database {
    /// The database that an object names: the object holds an enum variant
    /// whose name is that of a database.
    pub fn try_from_object(value: &Object) -> (result: Result<Database, Error>)
        ensures
            match value.inner {
                ObjectInner::Teon(Value::EnumVariant(name)) => match database_named(name@) {
                    Some(database) => result == Ok::<Database, Error>(database),
                    None => result matches Err(error) && error@ == no_database(
                        "invalid database name"@,
                    ),
                },
                _ => result matches Err(error) && error@ == no_database(
                    "object is not enum variant"@,
                ),
            },
    {
        let name = match value.as_teon() {
            Some(Value::EnumVariant(name)) => name.as_str(),
            _ => {
                return Err(Error::new(ErrorKind::TypeError, "object is not enum variant"));
            },
        };
        if text_eq(name, "mysql") {
            Ok(Database::MySQL)
        } else if text_eq(name, "postgres") {
            Ok(Database::PostgreSQL)
        } else if text_eq(name, "mongo") {
            Ok(Database::MongoDB)
        } else if text_eq(name, "sqlite") {
            Ok(Database::SQLite)
        } else {
            Err(Error::new(ErrorKind::TypeError, "invalid database name"))
        }
    }
}

} // verus!
