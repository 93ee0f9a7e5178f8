//! Synchronized access and the entity resolver.
//!
//! Each store a resolver uses is wrapped in a lock so that one caller's
//! refresh-and-scan completes before another caller's begins on the same
//! store instance. Distinct instances never share a lock. On top of that
//! sits the generic lookup: refresh, scan for one attribute-equality
//! match, and convert the hit into a typed entity.

use vstd::prelude::*;
use vstd::rwlock::RwLock;
use vstd::rwlock::RwLockPredicate;

use crate::db::find_by_spec;
use crate::db::FlatTable;
use crate::db::Searchable;
use crate::db::SourceView;
use crate::errors::DbError;
use crate::errors::Fatal;
use crate::errors::FatalView;
use crate::provider::StoreProvider;
use crate::record::Record;

verus! {

/// The lock invariant of a synchronized store: the table inside stays
/// bound to one source, keeps its name, and stays well formed.
pub ghost struct TablePred {
    pub src: SourceView,
    pub name: Seq<char>,
}

impl RwLockPredicate<FlatTable> for TablePred {
    open spec fn inv(self, t: FlatTable) -> bool {
        &&& t.src() == self.src
        &&& t.name() == self.name
        &&& t.wf()
    }
}

/// A flat table behind a lock: refresh-and-scan is atomic with respect to
/// concurrent callers on the same store instance.
pub struct SyncTable {
    lock: RwLock<FlatTable, TablePred>,
}

impl SyncTable {
    /// The source the guarded table is bound to.
    pub closed spec fn src(&self) -> SourceView {
        self.lock.pred().src
    }

    /// The name of the guarded table.
    pub closed spec fn name(&self) -> Seq<char> {
        self.lock.pred().name
    }

    /// Guard a table with a fresh lock.
    pub fn new(table: FlatTable) -> (r: SyncTable)
        requires
            table.wf(),
        ensures
            r.src() == table.src(),
            r.name() == table.name(),
    {
        let ghost pred = TablePred { src: table.src(), name: table.name() };
        SyncTable { lock: RwLock::new(table, Ghost(pred)) }
    }

    /// The name of the guarded table, read under the lock.
    pub fn table_name(&self) -> (n: String)
        ensures
            n@ == self.name(),
    {
        let handle = self.lock.acquire_read();
        let n = String::from_str(handle.borrow().get_table_name());
        handle.release_read();
        n
    }

    /// Atomically refresh the guarded table and scan it for the first
    /// record whose `attr` field equals `value`.
    pub fn find_by(&self, provider: &StoreProvider, attr: &str, value: &str) -> (r: Result<
        Option<Record>,
        DbError,
    >)
        ensures
            (match r {
                Ok(found) => (match (found, find_by_spec(provider@, self.src(), attr@, value@)) {
                    (None, Ok(fo)) => fo is None,
                    (Some(rec), Ok(fo)) => fo == Some(rec@),
                    _ => false,
                }),
                Err(e) => find_by_spec(provider@, self.src(), attr@, value@) == Err::<
                    Option<Map<Seq<char>, Seq<char>>>,
                    crate::errors::DbErrorView,
                >(e@),
            }),
    {
        let (mut table, handle) = self.lock.acquire_write();
        let r = table.find_by(provider, attr, value);
        handle.release_write(table);
        r
    }
}

/// Open the store for a table name: the sole construction entry point
/// nested resolutions use.
pub fn get_table_instance(db_name: &str) -> (r: SyncTable)
    ensures
        r.src() == SourceView::Named(db_name@),
        r.name() == db_name@,
{
    SyncTable::new(FlatTable::new(String::from_str(db_name)))
}

/// Conversion of a found record into a typed entity, supplied per entity
/// kind. Reading a missing field, a failed numeric parse, or a missed
/// foreign-key hop is fatal: no partial entity is ever produced.
pub trait ToStruct: View + Sized {
    /// What converting a record yields under a given provider.
    spec fn convert_spec(r: Map<Seq<char>, Seq<char>>, p: Map<Seq<char>, Seq<char>>) -> Result<
        Self::V,
        FatalView,
    >;

    /// Convert one record, resolving foreign keys through the provider.
    fn convert(data: &Record, provider: &StoreProvider) -> (res: Result<Self, Fatal>)
        ensures
            (match res {
                Ok(s) => Self::convert_spec(data@, provider@) == Ok::<Self::V, FatalView>(s@),
                Err(f) => Self::convert_spec(data@, provider@) == Err::<Self::V, FatalView>(f@),
            }),
    ;
}

/// What a full get-by-attribute resolution yields: the converted first
/// match, nothing on a miss, or the fatal failure.
pub open spec fn get_by_attr_spec<S: ToStruct>(
    p: Map<Seq<char>, Seq<char>>,
    src: SourceView,
    attr: Seq<char>,
    value: Seq<char>,
) -> Result<Option<S::V>, FatalView> {
    match find_by_spec(p, src, attr, value) {
        Err(e) => Err(FatalView::Source(e)),
        Ok(None) => Ok(None),
        Ok(Some(rec)) => match S::convert_spec(rec, p) {
            Ok(m) => Ok(Some(m)),
            Err(f) => Err(f),
        },
    }
}

/// A lookup for a value absent from every record of the table yields an
/// empty result, for any entity kind: never a fatal failure.
pub proof fn lemma_get_by_attr_absent<S: ToStruct>(
    p: Map<Seq<char>, Seq<char>>,
    src: SourceView,
    attr: Seq<char>,
    value: Seq<char>,
    recs: Seq<Map<Seq<char>, Seq<char>>>,
)
    requires
        crate::db::source_records(p, src) == Ok::<
            Seq<Map<Seq<char>, Seq<char>>>,
            crate::errors::DbErrorView,
        >(recs),
        forall|i: int|
            0 <= i < recs.len() ==> !crate::db::record_matches(#[trigger] recs[i], attr, value),
    ensures
        get_by_attr_spec::<S>(p, src, attr, value) == Ok::<Option<S::V>, FatalView>(None),
{
    crate::db::lemma_find_first_none(recs, attr, value);
}

/// A type whose values are looked up in a synchronized store and built by
/// a per-entity conversion: the entity-agnostic resolver.
pub trait ModelAble<S: ToStruct> {
    /// Acquire the store, refresh and scan it, and convert any hit; a miss
    /// is an ordinary empty result, never an error.
    fn get_by_attr(db: &SyncTable, provider: &StoreProvider, attr: &str, value: &str) -> (r:
        Result<Option<S>, Fatal>)
        ensures
            (match r {
                Ok(None) => get_by_attr_spec::<S>(provider@, db.src(), attr@, value@) == Ok::<
                    Option<S::V>,
                    FatalView,
                >(None),
                Ok(Some(s)) => get_by_attr_spec::<S>(provider@, db.src(), attr@, value@) == Ok::<
                    Option<S::V>,
                    FatalView,
                >(Some(s@)),
                Err(f) => get_by_attr_spec::<S>(provider@, db.src(), attr@, value@) == Err::<
                    Option<S::V>,
                    FatalView,
                >(f@),
            }),
    ;
}

} // verus!
