//! The error taxonomy: loader failures and the fatal failures of entity
//! resolution. Lookup misses are not errors; they are `None` results.

use vstd::prelude::*;

use crate::text::dec_rep;
use crate::text::to_dec;

verus! {

/// A failure of the table loader.
#[derive(Debug, PartialEq, Eq)]
pub enum DbError {
    /// The named source could not be resolved to any text.
    MissingSource(String),
    /// The source has no header line.
    EmptyTable,
}

/// The model of a [`DbError`].
pub ghost enum DbErrorView {
    MissingSource(Seq<char>),
    EmptyTable,
}

impl View for DbError {
    type V = DbErrorView;

    open spec fn view(&self) -> DbErrorView {
        match self {
            DbError::MissingSource(name) => DbErrorView::MissingSource(name@),
            DbError::EmptyTable => DbErrorView::EmptyTable,
        }
    }
}

/// The text [`DbError::message`] yields.
pub open spec fn db_error_message(e: DbErrorView) -> Seq<char> {
    match e {
        DbErrorView::MissingSource(name) => "Missing source for table: "@ + name,
        DbErrorView::EmptyTable => "Table has no columns"@,
    }
}

impl DbError {
    /// A human-readable account of the failure.
    pub fn message(&self) -> (r: String)
        ensures
            r@ == db_error_message(self@),
    {
        match self {
            DbError::MissingSource(name) => {
                let mut s = String::from_str("Missing source for table: ");
                s.append(name.as_str());
                s
            },
            DbError::EmptyTable => String::from_str("Table has no columns"),
        }
    }
}

/// A fatal failure of entity resolution: the whole lookup is abandoned and
/// no partial entity is ever produced.
#[derive(Debug, PartialEq, Eq)]
pub enum Fatal {
    /// The store's source could not be loaded.
    Source(DbError),
    /// A field the conversion requires is absent or unparsable.
    ConversionFailure(String),
    /// A foreign key names an id absent from the related table.
    RelatedEntityNotFound { id: u128, table: String },
}

/// The model of a [`Fatal`].
pub ghost enum FatalView {
    Source(DbErrorView),
    ConversionFailure(Seq<char>),
    RelatedEntityNotFound { id: u128, table: Seq<char> },
}

impl View for Fatal {
    type V = FatalView;

    open spec fn view(&self) -> FatalView {
        match self {
            Fatal::Source(e) => FatalView::Source(e@),
            Fatal::ConversionFailure(field) => FatalView::ConversionFailure(field@),
            Fatal::RelatedEntityNotFound { id, table } => FatalView::RelatedEntityNotFound {
                id: *id,
                table: table@,
            },
        }
    }
}

/// The text [`Fatal::message`] yields: it names the missing field, or the
/// id and table of a failed foreign-key hop.
pub open spec fn fatal_message(e: FatalView) -> Seq<char> {
    match e {
        FatalView::Source(d) => db_error_message(d),
        FatalView::ConversionFailure(field) => "Can't convert! Missing or invalid field: "@
            + field,
        FatalView::RelatedEntityNotFound { id, table } => "Entity with id:"@ + dec_rep(
            id as nat,
        ) + " is not found in table "@ + table + "!"@,
    }
}

impl Fatal {
    /// A human-readable account of the failure.
    pub fn message(&self) -> (r: String)
        ensures
            r@ == fatal_message(self@),
    {
        match self {
            Fatal::Source(e) => e.message(),
            Fatal::ConversionFailure(field) => {
                let mut s = String::from_str("Can't convert! Missing or invalid field: ");
                s.append(field.as_str());
                s
            },
            Fatal::RelatedEntityNotFound { id, table } => {
                let mut s = String::from_str("Entity with id:");
                let id_text = to_dec(*id);
                s.append(id_text.as_str());
                s.append(" is not found in table ");
                s.append(table.as_str());
                s.append("!");
                s
            },
        }
    }
}

} // verus!
