//! Lookup facade for consumers, and their record conversion.

use vstd::prelude::*;

use crate::db::SourceView;
use crate::errors::Fatal;
use crate::errors::FatalView;
use crate::provider::StoreProvider;
use crate::record::Record;
use crate::store::get_by_attr_spec;
use crate::store::get_table_instance;
use crate::store::ModelAble;
use crate::store::SyncTable;
use crate::store::ToStruct;
use crate::text::dec_rep;
use crate::text::parse_u128;
use crate::text::parse_uint_spec;
use crate::text::to_dec;

use super::fetch_subscriber_spec;
use super::Consumer;
use super::ConsumerView;

verus! {

/// A lookup facade over the consumers table.
pub struct ConsumerList<D> {
    db: D,
    pub consumers: Vec<Consumer>,
}

pub type FlatConsumerList = ConsumerList<SyncTable>;

impl FlatConsumerList {
    /// The source of the facade's store.
    pub closed spec fn src(&self) -> SourceView {
        self.db.src()
    }

    /// Bind the facade to a synchronized store.
    pub fn new(db: SyncTable) -> (r: Self)
        ensures
            r.src() == db.src(),
    {
        ConsumerList { db, consumers: Vec::new() }
    }

    /// Look a consumer up by its id.
    pub fn get_by_id(&self, provider: &StoreProvider, id: u128) -> (r: Result<
        Option<Consumer>,
        Fatal,
    >)
        ensures
            (match r {
                Ok(None) => get_by_attr_spec::<Consumer>(
                    provider@,
                    self.src(),
                    "id"@,
                    dec_rep(id as nat),
                ) == Ok::<Option<ConsumerView>, FatalView>(None),
                Ok(Some(c)) => get_by_attr_spec::<Consumer>(
                    provider@,
                    self.src(),
                    "id"@,
                    dec_rep(id as nat),
                ) == Ok::<Option<ConsumerView>, FatalView>(Some(c@)),
                Err(f) => get_by_attr_spec::<Consumer>(
                    provider@,
                    self.src(),
                    "id"@,
                    dec_rep(id as nat),
                ) == Err::<Option<ConsumerView>, FatalView>(f@),
            }),
    {
        let value = to_dec(id);
        Self::get_by_attr(&self.db, provider, "id", value.as_str())
    }

    /// Look a consumer up by its access token: how a caller is authorized.
    pub fn get_by_access_token(&self, provider: &StoreProvider, access_token: &str) -> (r: Result<
        Option<Consumer>,
        Fatal,
    >)
        ensures
            (match r {
                Ok(None) => get_by_attr_spec::<Consumer>(
                    provider@,
                    self.src(),
                    "access_token"@,
                    access_token@,
                ) == Ok::<Option<ConsumerView>, FatalView>(None),
                Ok(Some(c)) => get_by_attr_spec::<Consumer>(
                    provider@,
                    self.src(),
                    "access_token"@,
                    access_token@,
                ) == Ok::<Option<ConsumerView>, FatalView>(Some(c@)),
                Err(f) => get_by_attr_spec::<Consumer>(
                    provider@,
                    self.src(),
                    "access_token"@,
                    access_token@,
                ) == Err::<Option<ConsumerView>, FatalView>(f@),
            }),
    {
        Self::get_by_attr(&self.db, provider, "access_token", access_token)
    }
}

impl ModelAble<Consumer> for FlatConsumerList {
    fn get_by_attr(db: &SyncTable, provider: &StoreProvider, attr: &str, value: &str) -> (r:
        Result<Option<Consumer>, Fatal>) {
        match db.find_by(provider, attr, value) {
            Err(e) => Err(Fatal::Source(e)),
            Ok(None) => Ok(None),
            Ok(Some(rec)) => match Consumer::convert(&rec, provider) {
                Ok(c) => Ok(Some(c)),
                Err(f) => Err(f),
            },
        }
    }
}

/// What converting a record into a [`Consumer`] yields: the `subscriber`
/// field is a foreign key, resolved against a freshly opened subscribers
/// store.
pub open spec fn consumer_convert_spec(
    r: Map<Seq<char>, Seq<char>>,
    p: Map<Seq<char>, Seq<char>>,
) -> Result<ConsumerView, FatalView> {
    if !r.contains_key("id"@) {
        Err(FatalView::ConversionFailure("id"@))
    } else if !r.contains_key("access_token"@) {
        Err(FatalView::ConversionFailure("access_token"@))
    } else if !r.contains_key("subscriber"@) {
        Err(FatalView::ConversionFailure("subscriber"@))
    } else {
        match parse_uint_spec(r["id"@], u128::MAX as nat) {
            None => Err(FatalView::ConversionFailure("id"@)),
            Some(id) => match parse_uint_spec(r["subscriber"@], u128::MAX as nat) {
                None => Err(FatalView::ConversionFailure("subscriber"@)),
                Some(sid) => match fetch_subscriber_spec(
                    p,
                    SourceView::Named("subscribers"@),
                    "subscribers"@,
                    sid as u128,
                ) {
                    Ok(subscriber) => Ok(
                        ConsumerView { id: id as u128, access_token: r["access_token"@], subscriber },
                    ),
                    Err(f) => Err(f),
                },
            },
        }
    }
}

/// When the queried value is present in exactly one record and the
/// lookup yields an entity, that entity's `id` equals the record's own
/// `id` field.
pub proof fn lemma_unique_match_id(
    p: Map<Seq<char>, Seq<char>>,
    src: SourceView,
    attr: Seq<char>,
    value: Seq<char>,
    recs: Seq<Map<Seq<char>, Seq<char>>>,
    i: int,
    c: ConsumerView,
)
    requires
        crate::db::source_records(p, src) == Ok::<
            Seq<Map<Seq<char>, Seq<char>>>,
            crate::errors::DbErrorView,
        >(recs),
        0 <= i < recs.len(),
        crate::db::record_matches(recs[i], attr, value),
        forall|j: int|
            0 <= j < recs.len() && j != i ==> !crate::db::record_matches(
                #[trigger] recs[j],
                attr,
                value,
            ),
        get_by_attr_spec::<Consumer>(p, src, attr, value) == Ok::<
            Option<ConsumerView>,
            FatalView,
        >(Some(c)),
    ensures
        parse_uint_spec(recs[i]["id"@], u128::MAX as nat) == Some(c.id as nat),
{
    crate::db::lemma_find_first_at(recs, attr, value, i);
}

/// A special case of [`lemma_unique_match_id`]: when the lookup key is
/// the id itself and exactly one record carries it, the entity that
/// comes back carries the queried id.
pub proof fn lemma_get_by_id_yields_that_id(
    p: Map<Seq<char>, Seq<char>>,
    src: SourceView,
    id: u128,
    recs: Seq<Map<Seq<char>, Seq<char>>>,
    i: int,
    c: ConsumerView,
)
    requires
        crate::db::source_records(p, src) == Ok::<
            Seq<Map<Seq<char>, Seq<char>>>,
            crate::errors::DbErrorView,
        >(recs),
        0 <= i < recs.len(),
        crate::db::record_matches(recs[i], "id"@, dec_rep(id as nat)),
        forall|j: int|
            0 <= j < recs.len() && j != i ==> !crate::db::record_matches(
                #[trigger] recs[j],
                "id"@,
                dec_rep(id as nat),
            ),
        get_by_attr_spec::<Consumer>(p, src, "id"@, dec_rep(id as nat)) == Ok::<
            Option<ConsumerView>,
            FatalView,
        >(Some(c)),
    ensures
        c.id == id,
{
    lemma_unique_match_id(p, src, "id"@, dec_rep(id as nat), recs, i, c);
    crate::text::lemma_dec_rep_val(id as nat);
}

/// A found record that lacks a field the conversion requires fails
/// fatally: the lookup yields no entity at all, partial or otherwise.
pub proof fn lemma_missing_field_is_fatal(
    p: Map<Seq<char>, Seq<char>>,
    src: SourceView,
    attr: Seq<char>,
    value: Seq<char>,
    rec: Map<Seq<char>, Seq<char>>,
)
    requires
        crate::db::find_by_spec(p, src, attr, value) == Ok::<
            Option<Map<Seq<char>, Seq<char>>>,
            crate::errors::DbErrorView,
        >(Some(rec)),
        !(rec.contains_key("id"@) && rec.contains_key("access_token"@) && rec.contains_key(
            "subscriber"@,
        )),
    ensures
        get_by_attr_spec::<Consumer>(p, src, attr, value) is Err,
{
}

impl ToStruct for Consumer {
    open spec fn convert_spec(r: Map<Seq<char>, Seq<char>>, p: Map<Seq<char>, Seq<char>>) -> Result<
        ConsumerView,
        FatalView,
    > {
        consumer_convert_spec(r, p)
    }

    fn convert(data: &Record, provider: &StoreProvider) -> (res: Result<Self, Fatal>) {
        let id_s = match data.get("id") {
            Some(v) => v,
            None => {
                return Err(Fatal::ConversionFailure(String::from_str("id")));
            },
        };
        let access_token = match data.get("access_token") {
            Some(v) => v,
            None => {
                return Err(Fatal::ConversionFailure(String::from_str("access_token")));
            },
        };
        let subscriber_s = match data.get("subscriber") {
            Some(v) => v,
            None => {
                return Err(Fatal::ConversionFailure(String::from_str("subscriber")));
            },
        };
        let id = match parse_u128(id_s.as_str()) {
            Some(v) => v,
            None => {
                return Err(Fatal::ConversionFailure(String::from_str("id")));
            },
        };
        let sid = match parse_u128(subscriber_s.as_str()) {
            Some(v) => v,
            None => {
                return Err(Fatal::ConversionFailure(String::from_str("subscriber")));
            },
        };
        match Consumer::fetch_subscriber(get_table_instance("subscribers"), provider, sid) {
            Ok(subscriber) => Ok(Consumer { id, access_token, subscriber }),
            Err(f) => Err(f),
        }
    }
}

} // verus!
