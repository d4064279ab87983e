//! Columns as column definitions.

use vstd::prelude::*;
use vstd::string::*;
use crate::mysql::def::column::{ColumnInfo, ColumnInfoView};
use crate::mysql::writer::types::type_text;
use crate::statement::table::{
    column_def_auto_increment, column_def_custom, column_def_extra, column_def_model,
    column_def_new, column_def_not_null, ColumnDefModel,
};

verus! {

/// `DEFAULT ` and the expression where the column has a default.
pub open spec fn default_clause(default: Option<Seq<char>>) -> Seq<Seq<char>> {
    match default {
        Some(e) => seq!["DEFAULT "@ + e],
        None => Seq::empty(),
    }
}

/// `ON UPDATE CURRENT_TIMESTAMP` where the column is set on update.
pub open spec fn on_update_clause(on_update: bool) -> Seq<Seq<char>> {
    if on_update {
        seq!["ON UPDATE CURRENT_TIMESTAMP"@]
    } else {
        Seq::empty()
    }
}

/// The generation expression where the column is generated.
pub open spec fn generation_clause(expression: Option<Seq<char>>) -> Seq<Seq<char>> {
    match expression {
        Some(e) => seq!["GENERATED ALWAYS AS ("@ + e + ")"@],
        None => Seq::empty(),
    }
}

/// The clauses that are written behind the modifiers the builder knows,
/// in this order: default, on update, generation.
pub open spec fn extra_clauses(c: ColumnInfoView) -> Seq<Seq<char>> {
    default_clause(c.default) + on_update_clause(c.extra.on_update_current_timestamp)
        + generation_clause(c.expression)
}

/// The parts with single spaces between them.
pub open spec fn joined(parts: Seq<Seq<char>>) -> Seq<char>
    decreases parts.len(),
{
    if parts.len() == 0 {
        Seq::empty()
    } else if parts.len() == 1 {
        parts[0]
    } else {
        joined(parts.drop_last()) + seq![' '] + parts.last()
    }
}

/// The extra text of a column: its extra clauses joined by spaces, or
/// none where it has no such clause.
pub open spec fn extra_text(c: ColumnInfoView) -> Option<Seq<char>> {
    if extra_clauses(c).len() == 0 {
        None
    } else {
        Some(joined(extra_clauses(c)))
    }
}

/// The column definition that a column is written as: its name, the text
/// of its type, `NOT NULL` unless it can hold null, the auto-increment
/// flag, and its extra text.
pub open spec fn column_def_of(c: ColumnInfoView) -> ColumnDefModel {
    ColumnDefModel {
        name: c.name,
        custom_type: Some(type_text(c.col_type)),
        nullable: if c.null {
            None
        } else {
            Some(false)
        },
        auto_increment: c.extra.auto_increment,
        extra: extra_text(c),
    }
}

fn append_clause(out: &mut String, count: &mut usize, Ghost(parts): Ghost<Seq<Seq<char>>>, clause: &str)
    requires
        *old(count) == parts.len(),
        *old(count) < 3,
        parts.len() > 0 ==> old(out)@ == joined(parts),
        parts.len() == 0 ==> old(out)@.len() == 0,
    ensures
        *final(count) == *old(count) + 1,
        final(out)@ == joined(parts.push(clause@)),
{
    proof {
        reveal_strlit(" ");
    }
    if *count > 0 {
        out.append(" ");
    }
    out.append(clause);
    *count = *count + 1;
    proof {
        let next = parts.push(clause@);
        assert(next.drop_last() =~= parts);
        assert(" "@ =~= seq![' ']);
        if parts.len() == 0 {
            assert(out@ =~= clause@);
        } else {
            assert(out@ =~= joined(parts) + seq![' '] + clause@);
        }
    }
}

impl ColumnInfo {
    /// The column definition of this column.
    pub fn write(&self) -> (c: sea_query::ColumnDef)
        ensures
            column_def_model(c) == column_def_of(self@),
    {
        let mut c = column_def_new(self.name.as_str());
        let ty = self.col_type.write_text();
        column_def_custom(&mut c, ty.as_str());
        if !self.null {
            column_def_not_null(&mut c);
        }
        if self.extra.auto_increment {
            column_def_auto_increment(&mut c);
        }
        let mut extras = String::new();
        let mut count: usize = 0;
        let ghost mut parts: Seq<Seq<char>> = Seq::empty();
        match &self.default {
            Some(d) => {
                let clause = String::from_str("DEFAULT ").concat(d.expr.as_str());
                append_clause(&mut extras, &mut count, Ghost(parts), clause.as_str());
                proof {
                    parts = parts.push(clause@);
                }
            },
            None => {},
        }
        assert(parts =~= default_clause(self@.default));
        if self.extra.on_update_current_timestamp {
            append_clause(&mut extras, &mut count, Ghost(parts), "ON UPDATE CURRENT_TIMESTAMP");
            proof {
                parts = parts.push("ON UPDATE CURRENT_TIMESTAMP"@);
            }
        }
        assert(parts =~= default_clause(self@.default) + on_update_clause(
            self@.extra.on_update_current_timestamp,
        ));
        match &self.expression {
            Some(e) => {
                let clause = String::from_str("GENERATED ALWAYS AS (").concat(e.as_str()).concat(
                    ")",
                );
                append_clause(&mut extras, &mut count, Ghost(parts), clause.as_str());
                proof {
                    parts = parts.push(clause@);
                }
            },
            None => {},
        }
        assert(parts =~= extra_clauses(self@));
        if count > 0 {
            column_def_extra(&mut c, extras.as_str());
        }
        c
    }
}

} // verus!
