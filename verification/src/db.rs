//! The table loader and the flat-table record store.
//!
//! A source is plain text: its first non-blank line is the comma-separated
//! header of trimmed column names, and every following line is a row of
//! trimmed values paired positionally with the header. A row shorter than
//! the header simply lacks the trailing fields; a longer one has its extra
//! values dropped.

use vstd::prelude::*;

use crate::errors::DbError;
use crate::errors::DbErrorView;
use crate::provider::StoreProvider;
use crate::record::assoc_map;
use crate::record::Record;
use crate::text::lines;
use crate::text::lines_spec;
use crate::text::split;
use crate::text::split_spec;
use crate::text::trim;
use crate::text::trim_spec;

verus! {

/// The trimmed comma-separated fields of one line.
pub open spec fn fields_spec(l: Seq<char>) -> Seq<Seq<char>> {
    split_spec(l, ',').map_values(|f: Seq<char>| trim_spec(f))
}

/// The index of the header: the first line that is not blank.
pub open spec fn header_index(ls: Seq<Seq<char>>) -> Option<int>
    decreases ls.len(),
{
    if ls.len() == 0 {
        None
    } else if trim_spec(ls[0]).len() > 0 {
        Some(0int)
    } else {
        match header_index(ls.drop_first()) {
            Some(i) => Some(i + 1),
            None => None,
        }
    }
}

proof fn lemma_header_index_at(ls: Seq<Seq<char>>, i: int)
    requires
        0 <= i <= ls.len(),
        forall|k: int| 0 <= k < i ==> trim_spec(#[trigger] ls[k]).len() == 0,
        i < ls.len() ==> trim_spec(ls[i]).len() > 0,
    ensures
        i < ls.len() ==> header_index(ls) == Some(i),
        i == ls.len() ==> header_index(ls) is None,
    decreases i,
{
    if ls.len() == 0 {
    } else if i == 0 {
    } else {
        lemma_header_index_at(ls.drop_first(), i - 1);
    }
}

/// The column names of a source, when it has a header line.
pub open spec fn columns_spec(text: Seq<char>) -> Option<Seq<Seq<char>>> {
    let ls = lines_spec(text);
    match header_index(ls) {
        Some(h) => Some(fields_spec(ls[h])),
        None => None,
    }
}

/// The rows of a source: the trimmed fields of every line after the header.
pub open spec fn rows_spec(text: Seq<char>) -> Seq<Seq<Seq<char>>> {
    let ls = lines_spec(text);
    match header_index(ls) {
        Some(h) => ls.subrange(h + 1, ls.len() as int).map_values(|l: Seq<char>| fields_spec(l)),
        None => Seq::empty(),
    }
}

/// One row zipped positionally against the column names: a value without a
/// column is dropped, a column without a value stays absent.
pub open spec fn row_record(cols: Seq<Seq<char>>, vals: Seq<Seq<char>>) -> Map<
    Seq<char>,
    Seq<char>,
> {
    let m = if cols.len() <= vals.len() {
        cols.len()
    } else {
        vals.len()
    };
    assoc_map(Seq::new(m as nat, |i: int| (cols[i], vals[i])))
}

/// The records a source denotes, or nothing when it has no header.
pub open spec fn table_spec(text: Seq<char>) -> Option<Seq<Map<Seq<char>, Seq<char>>>> {
    match columns_spec(text) {
        Some(cols) => Some(
            rows_spec(text).map_values(|vals: Seq<Seq<char>>| row_record(cols, vals)),
        ),
        None => None,
    }
}

/// Split one line on commas and trim each field.
fn split_fields(line: &str) -> (r: Vec<String>)
    ensures
        r.deep_view() == fields_spec(line@),
{
    let parts = split(line, ',');
    let mut r: Vec<String> = Vec::new();
    let mut i: usize = 0;
    while i < parts.len()
        invariant
            i <= parts@.len(),
            parts.deep_view() == split_spec(line@, ','),
            r.deep_view().len() == i,
            forall|k: int| 0 <= k < i ==> r.deep_view()[k] == trim_spec(parts.deep_view()[k]),
        decreases parts@.len() - i,
    {
        let ghost prev = r.deep_view();
        let t = trim(parts[i].as_str());
        r.push(t);
        proof {
            assert(r.deep_view() =~= prev.push(trim_spec(parts.deep_view()[i as int])));
        }
        i = i + 1;
    }
    proof {
        assert(r.deep_view() =~= fields_spec(line@));
    }
    r
}

/// The trimmed column names from the header line of `content`.
pub fn get_column_names(content: &str) -> (r: Result<Vec<String>, DbError>)
    ensures
        match r {
            Ok(cols) => columns_spec(content@) == Some(cols.deep_view()),
            Err(e) => columns_spec(content@) is None && e@ == DbErrorView::EmptyTable,
        },
{
    let ls = lines(content);
    let mut i: usize = 0;
    while i < ls.len()
        invariant
            i <= ls@.len(),
            ls.deep_view() == lines_spec(content@),
            forall|k: int|
                0 <= k < i ==> trim_spec(#[trigger] ls.deep_view()[k]).len() == 0,
        ensures
            i <= ls@.len(),
            ls.deep_view() == lines_spec(content@),
            forall|k: int|
                0 <= k < i ==> trim_spec(#[trigger] ls.deep_view()[k]).len() == 0,
            i < ls@.len() ==> trim_spec(ls.deep_view()[i as int]).len() > 0,
        decreases ls@.len() - i,
    {
        let t = trim(ls[i].as_str());
        if t.as_str().unicode_len() > 0 {
            break ;
        }
        i = i + 1;
    }
    proof {
        lemma_header_index_at(ls.deep_view(), i as int);
    }
    if i < ls.len() {
        Ok(split_fields(ls[i].as_str()))
    } else {
        Err(DbError::EmptyTable)
    }
}

/// The trimmed fields of every line after the header.
pub fn get_records(content: &str) -> (r: Vec<Vec<String>>)
    ensures
        r.deep_view() == rows_spec(content@),
{
    let ls = lines(content);
    let mut i: usize = 0;
    while i < ls.len()
        invariant
            i <= ls@.len(),
            ls.deep_view() == lines_spec(content@),
            forall|k: int|
                0 <= k < i ==> trim_spec(#[trigger] ls.deep_view()[k]).len() == 0,
        ensures
            i <= ls@.len(),
            ls.deep_view() == lines_spec(content@),
            forall|k: int|
                0 <= k < i ==> trim_spec(#[trigger] ls.deep_view()[k]).len() == 0,
            i < ls@.len() ==> trim_spec(ls.deep_view()[i as int]).len() > 0,
        decreases ls@.len() - i,
    {
        let t = trim(ls[i].as_str());
        if t.as_str().unicode_len() > 0 {
            break ;
        }
        i = i + 1;
    }
    proof {
        lemma_header_index_at(ls.deep_view(), i as int);
    }
    let mut rows: Vec<Vec<String>> = Vec::new();
    if i == ls.len() {
        proof {
            assert(rows.deep_view() =~= rows_spec(content@));
        }
        return rows;
    }
    let ghost h = i as int;
    let mut j: usize = i + 1;
    while j < ls.len()
        invariant
            h + 1 <= j <= ls@.len(),
            ls.deep_view() == lines_spec(content@),
            rows.deep_view().len() == j - h - 1,
            forall|k: int|
                0 <= k < j - h - 1 ==> #[trigger] rows.deep_view()[k] == fields_spec(
                    lines_spec(content@)[h + 1 + k],
                ),
        decreases ls@.len() - j,
    {
        let ghost prev = rows.deep_view();
        let row = split_fields(ls[j].as_str());
        proof {
            assert(row.deep_view() == fields_spec(lines_spec(content@)[j as int]));
        }
        rows.push(row);
        proof {
            assert(rows.deep_view() =~= prev.push(fields_spec(lines_spec(content@)[j as int])));
        }
        j = j + 1;
    }
    proof {
        let tail = lines_spec(content@).subrange(h + 1, lines_spec(content@).len() as int);
        assert(rows.deep_view() =~= tail.map_values(|l: Seq<char>| fields_spec(l)));
        assert(rows.deep_view() =~= rows_spec(content@));
    }
    rows
}

/// Build one record per row by positional pairing with the column names.
pub fn create_flat_table(columns: Vec<String>, rows: Vec<Vec<String>>) -> (r: Vec<Record>)
    ensures
        r.deep_view() == rows.deep_view().map_values(
            |vals: Seq<Seq<char>>| row_record(columns.deep_view(), vals),
        ),
{
    let mut objects: Vec<Record> = Vec::new();
    let mut i: usize = 0;
    while i < rows.len()
        invariant
            i <= rows@.len(),
            objects.deep_view().len() == i,
            forall|k: int|
                0 <= k < i ==> objects.deep_view()[k] == row_record(
                    columns.deep_view(),
                    #[trigger] rows.deep_view()[k],
                ),
        decreases rows@.len() - i,
    {
        let row = &rows[i];
        let m: usize = if columns.len() <= row.len() {
            columns.len()
        } else {
            row.len()
        };
        let ghost pairs = Seq::new(
            m as nat,
            |k: int| (columns.deep_view()[k], rows.deep_view()[i as int][k]),
        );
        let mut row_object = Record::new();
        let mut k: usize = 0;
        while k < m
            invariant
                k <= m,
                m <= columns@.len(),
                m <= row@.len(),
                row == rows@[i as int],
                i < rows@.len(),
                pairs == Seq::new(
                    m as nat,
                    |k: int| (columns.deep_view()[k], rows.deep_view()[i as int][k]),
                ),
                row_object@ == assoc_map(pairs.subrange(0, k as int)),
            decreases m - k,
        {
            let ghost before = pairs.subrange(0, k as int);
            row_object.insert(columns[k].as_str(), row[k].as_str());
            proof {
                assert(pairs.subrange(0, k + 1).drop_last() =~= before);
                assert(pairs.subrange(0, k + 1).last() == (
                    columns.deep_view()[k as int],
                    rows.deep_view()[i as int][k as int],
                ));
            }
            k = k + 1;
        }
        let ghost prev = objects.deep_view();
        objects.push(row_object);
        proof {
            assert(pairs.subrange(0, m as int) =~= pairs);
            assert(objects.deep_view() =~= prev.push(
                row_record(columns.deep_view(), rows.deep_view()[i as int]),
            ));
        }
        i = i + 1;
    }
    proof {
        assert(objects.deep_view() =~= rows.deep_view().map_values(
            |vals: Seq<Seq<char>>| row_record(columns.deep_view(), vals),
        ));
    }
    objects
}

/// Parse literal text into records.
pub fn read_from_string(content: &str) -> (r: Result<Vec<Record>, DbError>)
    ensures
        match r {
            Ok(recs) => table_spec(content@) == Some(recs.deep_view()),
            Err(e) => table_spec(content@) is None && e@ == DbErrorView::EmptyTable,
        },
{
    let columns = match get_column_names(content) {
        Ok(cols) => cols,
        Err(e) => {
            return Err(e);
        },
    };
    let rows = get_records(content);
    Ok(create_flat_table(columns, rows))
}

/// Load the records of a named table through the provider.
pub fn read(provider: &StoreProvider, table_name: &str) -> (r: Result<Vec<Record>, DbError>)
    ensures
        match r {
            Ok(recs) => named_records(provider@, table_name@) == Ok::<
                Seq<Map<Seq<char>, Seq<char>>>,
                DbErrorView,
            >(recs.deep_view()),
            Err(e) => named_records(provider@, table_name@) == Err::<
                Seq<Map<Seq<char>, Seq<char>>>,
                DbErrorView,
            >(e@),
        },
{
    match provider.lookup(table_name) {
        Some(text) => read_from_string(text.as_str()),
        None => Err(DbError::MissingSource(String::from_str(table_name))),
    }
}

/// What loading the named table yields: its parsed records, or the loader
/// failure.
pub open spec fn named_records(p: Map<Seq<char>, Seq<char>>, name: Seq<char>) -> Result<
    Seq<Map<Seq<char>, Seq<char>>>,
    DbErrorView,
> {
    if p.contains_key(name) {
        match table_spec(p[name]) {
            Some(recs) => Ok(recs),
            None => Err(DbErrorView::EmptyTable),
        }
    } else {
        Err(DbErrorView::MissingSource(name))
    }
}

/// What a store is bound to for its whole lifetime: a named source the
/// provider resolves, or a literal text blob.
pub ghost enum SourceView {
    Named(Seq<char>),
    Literal(Seq<char>),
}

/// What refreshing from a source yields under a given provider.
pub open spec fn source_records(p: Map<Seq<char>, Seq<char>>, src: SourceView) -> Result<
    Seq<Map<Seq<char>, Seq<char>>>,
    DbErrorView,
> {
    match src {
        SourceView::Named(name) => named_records(p, name),
        SourceView::Literal(text) => match table_spec(text) {
            Some(recs) => Ok(recs),
            None => Err(DbErrorView::EmptyTable),
        },
    }
}

/// Whether the record binds `attr` to exactly `value`.
pub open spec fn record_matches(r: Map<Seq<char>, Seq<char>>, attr: Seq<char>, value: Seq<char>) -> bool {
    r.contains_key(attr) && r[attr] == value
}

/// The first record, in file order, whose `attr` field equals `value`.
pub open spec fn find_first(
    recs: Seq<Map<Seq<char>, Seq<char>>>,
    attr: Seq<char>,
    value: Seq<char>,
) -> Option<Map<Seq<char>, Seq<char>>>
    decreases recs.len(),
{
    if recs.len() == 0 {
        None
    } else if record_matches(recs[0], attr, value) {
        Some(recs[0])
    } else {
        find_first(recs.drop_first(), attr, value)
    }
}

/// What a refresh-then-scan yields: the first matching record of the
/// freshly loaded snapshot, or the loader failure.
pub open spec fn find_by_spec(
    p: Map<Seq<char>, Seq<char>>,
    src: SourceView,
    attr: Seq<char>,
    value: Seq<char>,
) -> Result<Option<Map<Seq<char>, Seq<char>>>, DbErrorView> {
    match source_records(p, src) {
        Ok(recs) => Ok(find_first(recs, attr, value)),
        Err(e) => Err(e),
    }
}

pub proof fn lemma_find_first_at(
    recs: Seq<Map<Seq<char>, Seq<char>>>,
    attr: Seq<char>,
    value: Seq<char>,
    i: int,
)
    requires
        0 <= i < recs.len(),
        record_matches(recs[i], attr, value),
        forall|k: int| 0 <= k < i ==> !record_matches(#[trigger] recs[k], attr, value),
    ensures
        find_first(recs, attr, value) == Some(recs[i]),
    decreases i,
{
    if i > 0 {
        lemma_find_first_at(recs.drop_first(), attr, value, i - 1);
    }
}

pub proof fn lemma_find_first_none(
    recs: Seq<Map<Seq<char>, Seq<char>>>,
    attr: Seq<char>,
    value: Seq<char>,
)
    requires
        forall|k: int| 0 <= k < recs.len() ==> !record_matches(#[trigger] recs[k], attr, value),
    ensures
        find_first(recs, attr, value) is None,
    decreases recs.len(),
{
    if recs.len() > 0 {
        lemma_find_first_none(recs.drop_first(), attr, value);
    }
}

/// For any record sequence, `find_first` yields the first record, in
/// order, whose attribute equals the queried value, and nothing exactly
/// when no record matches.
pub proof fn lemma_find_first_is_first_match(
    recs: Seq<Map<Seq<char>, Seq<char>>>,
    attr: Seq<char>,
    value: Seq<char>,
)
    ensures
        match find_first(recs, attr, value) {
            Some(r) => exists|i: int|
                {
                    &&& 0 <= i < recs.len()
                    &&& #[trigger] recs[i] == r
                    &&& record_matches(recs[i], attr, value)
                    &&& forall|j: int| 0 <= j < i ==> !record_matches(#[trigger] recs[j], attr, value)
                },
            None => forall|i: int|
                0 <= i < recs.len() ==> !record_matches(#[trigger] recs[i], attr, value),
        },
    decreases recs.len(),
{
    if recs.len() == 0 {
    } else if record_matches(recs[0], attr, value) {
        assert({
            &&& 0 <= 0 < recs.len()
            &&& recs[0int] == recs[0int]
            &&& record_matches(recs[0int], attr, value)
            &&& forall|j: int| 0 <= j < 0 ==> !record_matches(#[trigger] recs[j], attr, value)
        });
    } else {
        let d = recs.drop_first();
        lemma_find_first_is_first_match(d, attr, value);
        match find_first(recs, attr, value) {
            Some(r) => {
                let i = choose|i: int|
                    {
                        &&& 0 <= i < d.len()
                        &&& #[trigger] d[i] == r
                        &&& record_matches(d[i], attr, value)
                        &&& forall|j: int| 0 <= j < i ==> !record_matches(#[trigger] d[j], attr, value)
                    };
                assert(recs[i + 1] == d[i]);
                assert forall|j: int| 0 <= j < i + 1 implies !record_matches(
                    #[trigger] recs[j],
                    attr,
                    value,
                ) by {
                    if j > 0 {
                        assert(recs[j] == d[j - 1]);
                    }
                }
                assert({
                    &&& 0 <= i + 1 < recs.len()
                    &&& recs[i + 1] == r
                    &&& record_matches(recs[i + 1], attr, value)
                    &&& forall|j: int|
                        0 <= j < i + 1 ==> !record_matches(#[trigger] recs[j], attr, value)
                });
            },
            None => {
                assert forall|i: int| 0 <= i < recs.len() implies !record_matches(
                    #[trigger] recs[i],
                    attr,
                    value,
                ) by {
                    if i > 0 {
                        assert(recs[i] == d[i - 1]);
                    }
                }
            },
        }
    }
}

/// Refresh is idempotent on an unchanged source: the record set a
/// refresh installs is a function of the provider and the source alone,
/// so repeated refreshes yield identical record sets.
pub proof fn lemma_refresh_idempotent(
    p: Map<Seq<char>, Seq<char>>,
    src: SourceView,
    r1: Seq<Map<Seq<char>, Seq<char>>>,
    r2: Seq<Map<Seq<char>, Seq<char>>>,
)
    requires
        source_records(p, src) == Ok::<Seq<Map<Seq<char>, Seq<char>>>, DbErrorView>(r1),
        source_records(p, src) == Ok::<Seq<Map<Seq<char>, Seq<char>>>, DbErrorView>(r2),
    ensures
        r1 == r2,
{
}

/// A store that refreshes by re-reading text: the loader's side of
/// `find_by`, shared by every flat table.
pub trait Searchable: Sized {
    /// The source this store is bound to.
    spec fn src(&self) -> SourceView;

    /// The name the store answers to when a resolver opens a related table.
    spec fn name(&self) -> Seq<char>;

    /// The store's internal consistency.
    spec fn wf(&self) -> bool;

    /// Refresh the store, then return the first record whose `attr` field
    /// equals `value`, or nothing when no record matches.
    fn find_by(&mut self, provider: &StoreProvider, attr: &str, value: &str) -> (r: Result<
        Option<Record>,
        DbError,
    >)
        ensures
            final(self).src() == old(self).src(),
            final(self).name() == old(self).name(),
            old(self).wf() ==> final(self).wf(),
            (match r {
                Ok(found) => (match (found, find_by_spec(
                    provider@,
                    old(self).src(),
                    attr@,
                    value@,
                )) {
                    (None, Ok(fo)) => fo is None,
                    (Some(rec), Ok(fo)) => fo == Some(rec@),
                    _ => false,
                }),
                Err(e) => find_by_spec(provider@, old(self).src(), attr@, value@) == Err::<
                    Option<Map<Seq<char>, Seq<char>>>,
                    DbErrorView,
                >(e@),
            }),
    ;

    /// The identifier used when a resolver needs to open a different store
    /// for a related table.
    fn get_table_name(&self) -> (n: &str)
        ensures
            n@ == self.name(),
    ;
}

enum SourceKind {
    Named,
    Literal,
}

/// A record store bound to one source, caching the records of its most
/// recent refresh.
pub struct FlatTable {
    pub table_name: String,
    pub items: Vec<Record>,
    source: SourceKind,
    raw: String,
}

impl FlatTable {
    /// The records cached by the most recent refresh.
    pub closed spec fn records(&self) -> Seq<Map<Seq<char>, Seq<char>>> {
        self.items.deep_view()
    }

    /// Bind a store to a named source; records stay empty until the first
    /// refresh.
    pub fn new(table_name: String) -> (r: FlatTable)
        ensures
            r.src() == SourceView::Named(table_name@),
            r.name() == table_name@,
            r.wf(),
            r.records().len() == 0,
    {
        FlatTable {
            table_name,
            items: Vec::new(),
            source: SourceKind::Named,
            raw: String::new(),
        }
    }

    /// Bind a store to a literal source and parse it immediately.
    pub fn new_from_string(contents: String) -> (r: Result<FlatTable, DbError>)
        ensures
            match r {
                Ok(t) => {
                    &&& t.src() == SourceView::Literal(contents@)
                    &&& t.name() == "from_string"@
                    &&& t.wf()
                    &&& table_spec(contents@) == Some(t.records())
                },
                Err(e) => table_spec(contents@) is None && e@ == DbErrorView::EmptyTable,
            },
    {
        let items = match read_from_string(contents.as_str()) {
            Ok(items) => items,
            Err(e) => {
                return Err(e);
            },
        };
        Ok(
            FlatTable {
                table_name: String::from_str("from_string"),
                items,
                source: SourceKind::Literal,
                raw: contents,
            },
        )
    }

    /// Re-invoke the loader against the bound source and atomically replace
    /// the cached records; always a full reload, never incremental.
    pub fn refresh(&mut self, provider: &StoreProvider) -> (r: Result<(), DbError>)
        ensures
            final(self).src() == old(self).src(),
            final(self).name() == old(self).name(),
            old(self).wf() ==> final(self).wf(),
            (match r {
                Ok(()) => {
                    &&& final(self).wf()
                    &&& source_records(provider@, old(self).src()) == Ok::<
                        Seq<Map<Seq<char>, Seq<char>>>,
                        DbErrorView,
                    >(final(self).records())
                },
                Err(e) => {
                    &&& source_records(provider@, old(self).src()) == Err::<
                        Seq<Map<Seq<char>, Seq<char>>>,
                        DbErrorView,
                    >(e@)
                    &&& final(self).records() == old(self).records()
                },
            }),
    {
        let loaded = match self.source {
            SourceKind::Named => read(provider, self.table_name.as_str()),
            SourceKind::Literal => read_from_string(self.raw.as_str()),
        };
        match loaded {
            Ok(items) => {
                self.items = items;
                Ok(())
            },
            Err(e) => Err(e),
        }
    }
}

impl Searchable for FlatTable {
    closed spec fn src(&self) -> SourceView {
        match self.source {
            SourceKind::Named => SourceView::Named(self.table_name@),
            SourceKind::Literal => SourceView::Literal(self.raw@),
        }
    }

    closed spec fn name(&self) -> Seq<char> {
        self.table_name@
    }

    closed spec fn wf(&self) -> bool {
        self.source is Literal ==> table_spec(self.raw@) == Some(self.items.deep_view())
    }

    #[verifier::loop_isolation(false)]
    fn find_by(&mut self, provider: &StoreProvider, attr: &str, value: &str) -> (r: Result<
        Option<Record>,
        DbError,
    >) {
        match self.refresh(provider) {
            Ok(()) => (),
            Err(e) => {
                return Err(e);
            },
        }
        let ghost recs = self.items.deep_view();
        let ghost snapshot = *self;
        let mut i: usize = 0;
        while i < self.items.len()
            invariant
                *self == snapshot,
                recs == self.items.deep_view(),
                i <= self.items@.len(),
                forall|k: int|
                    0 <= k < i ==> !record_matches(#[trigger] recs[k], attr@, value@),
            decreases self.items@.len() - i,
        {
            let matched = match self.items[i].get(attr) {
                Some(v) => crate::text::str_eq(v.as_str(), value),
                None => false,
            };
            if matched {
                proof {
                    lemma_find_first_at(recs, attr@, value@, i as int);
                }
                return Ok(Some(self.items[i].clone()));
            }
            proof {
                assert(!record_matches(recs[i as int], attr@, value@));
            }
            i = i + 1;
        }
        proof {
            lemma_find_first_none(recs, attr@, value@);
        }
        Ok(None)
    }

    fn get_table_name(&self) -> (n: &str) {
        self.table_name.as_str()
    }
}

} // verus!
