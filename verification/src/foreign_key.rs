//! What a foreign key does when the row it refers to changes.

use vstd::prelude::*;
use crate::error::{CatalogField, SchemaError};
use crate::text::str_eq;

verus! {

/// The action of a foreign key on update or on delete.
#[derive(Clone, Copy, Debug, PartialEq, Eq, Structural)]
pub enum ForeignKeyAction {
    NoAction,
    Restrict,
    SetNull,
    SetDefault,
    Cascade,
}

impl Default for ForeignKeyAction {
    fn default() -> (r: ForeignKeyAction)
        ensures
            r == ForeignKeyAction::NoAction,
    {
        ForeignKeyAction::NoAction
    }
}

/// The action that a catalog marker stands for.
pub open spec fn foreign_key_action_of(action: Seq<char>) -> Option<ForeignKeyAction> {
    if action == "NO ACTION"@ {
        Some(ForeignKeyAction::NoAction)
    } else if action == "RESTRICT"@ {
        Some(ForeignKeyAction::Restrict)
    } else if action == "SET NULL"@ {
        Some(ForeignKeyAction::SetNull)
    } else if action == "SET DEFAULT"@ {
        Some(ForeignKeyAction::SetDefault)
    } else if action == "CASCADE"@ {
        Some(ForeignKeyAction::Cascade)
    } else {
        None
    }
}

impl ForeignKeyAction {
    /// The action of a catalog marker; a marker outside the closed set is a
    /// malformed sentinel.
    pub fn parse(action: &str) -> (r: Result<ForeignKeyAction, SchemaError>)
        ensures
            r == (match foreign_key_action_of(action@) {
                Some(a) => Ok::<ForeignKeyAction, SchemaError>(a),
                None => Err(SchemaError::MalformedSentinel(CatalogField::ReferentialAction)),
            }),
    {
        if str_eq(action, "NO ACTION") {
            Ok(ForeignKeyAction::NoAction)
        } else if str_eq(action, "RESTRICT") {
            Ok(ForeignKeyAction::Restrict)
        } else if str_eq(action, "SET NULL") {
            Ok(ForeignKeyAction::SetNull)
        } else if str_eq(action, "SET DEFAULT") {
            Ok(ForeignKeyAction::SetDefault)
        } else if str_eq(action, "CASCADE") {
            Ok(ForeignKeyAction::Cascade)
        } else {
            Err(SchemaError::MalformedSentinel(CatalogField::ReferentialAction))
        }
    }
}

} // verus!
