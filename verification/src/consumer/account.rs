//! A consumer account reduced to its quota: the shape the credit
//! arithmetic works against.

use vstd::prelude::*;

use crate::errors::Fatal;
use crate::errors::FatalView;
use crate::provider::StoreProvider;
use crate::record::attr_or;
use crate::record::Record;
use crate::store::get_by_attr_spec;
use crate::store::ModelAble;
use crate::store::SyncTable;
use crate::store::ToStruct;
use crate::text::digits_val;
use crate::text::lemma_small_digit_literals;
use crate::text::parse_u128;
use crate::text::parse_u32;
use crate::text::parse_uint_spec;

verus! {

/// A consumer account: an access token with a spendable quota.
#[derive(Debug)]
pub struct Consumer {
    pub id: u32,
    pub quota: u128,
    pub access_token: String,
}

/// The model of an account [`Consumer`].
pub ghost struct ConsumerView {
    pub id: u32,
    pub quota: u128,
    pub access_token: Seq<char>,
}

impl View for Consumer {
    type V = ConsumerView;

    open spec fn view(&self) -> ConsumerView {
        ConsumerView { id: self.id, quota: self.quota, access_token: self.access_token@ }
    }
}

/// What converting a record into an account [`Consumer`] yields: every
/// field is required, and id and quota must parse to their widths.
pub open spec fn account_convert_spec(
    r: Map<Seq<char>, Seq<char>>,
    p: Map<Seq<char>, Seq<char>>,
) -> Result<ConsumerView, FatalView> {
    if !r.contains_key("id"@) {
        Err(FatalView::ConversionFailure("id"@))
    } else if !r.contains_key("quota"@) {
        Err(FatalView::ConversionFailure("quota"@))
    } else if !r.contains_key("access_token"@) {
        Err(FatalView::ConversionFailure("access_token"@))
    } else {
        match parse_uint_spec(r["id"@], u32::MAX as nat) {
            None => Err(FatalView::ConversionFailure("id"@)),
            Some(id) => match parse_uint_spec(r["quota"@], u128::MAX as nat) {
                None => Err(FatalView::ConversionFailure("quota"@)),
                Some(quota) => Ok(
                    ConsumerView {
                        id: id as u32,
                        quota: quota as u128,
                        access_token: r["access_token"@],
                    },
                ),
            },
        }
    }
}

impl ToStruct for Consumer {
    open spec fn convert_spec(r: Map<Seq<char>, Seq<char>>, p: Map<Seq<char>, Seq<char>>) -> Result<
        ConsumerView,
        FatalView,
    > {
        account_convert_spec(r, p)
    }

    fn convert(data: &Record, provider: &StoreProvider) -> (res: Result<Self, Fatal>) {
        let id_s = match data.get("id") {
            Some(v) => v,
            None => {
                return Err(Fatal::ConversionFailure(String::from_str("id")));
            },
        };
        let quota_s = match data.get("quota") {
            Some(v) => v,
            None => {
                return Err(Fatal::ConversionFailure(String::from_str("quota")));
            },
        };
        let access_token = match data.get("access_token") {
            Some(v) => v,
            None => {
                return Err(Fatal::ConversionFailure(String::from_str("access_token")));
            },
        };
        let id = match parse_u32(id_s.as_str()) {
            Some(v) => v,
            None => {
                return Err(Fatal::ConversionFailure(String::from_str("id")));
            },
        };
        let quota = match parse_u128(quota_s.as_str()) {
            Some(v) => v,
            None => {
                return Err(Fatal::ConversionFailure(String::from_str("quota")));
            },
        };
        Ok(Consumer { id, quota, access_token })
    }
}

impl ModelAble<Consumer> for Consumer {
    fn get_by_attr(db: &SyncTable, provider: &StoreProvider, attr: &str, value: &str) -> (r:
        Result<Option<Consumer>, Fatal>) {
        match db.find_by(provider, attr, value) {
            Err(e) => Err(Fatal::Source(e)),
            Ok(None) => Ok(None),
            Ok(Some(rec)) => match Consumer::convert(&rec, provider) {
                Ok(c) => Ok(Some(c)),
                Err(f) => Err(f),
            },
        }
    }
}

impl Consumer {
    /// Build an account from explicit attributes, with defaults for
    /// whatever is absent.
    pub fn new(attr: &Record) -> (r: Consumer)
        requires
            attr@.contains_key("id"@) ==> parse_uint_spec(attr@["id"@], u32::MAX as nat)
                is Some,
            attr@.contains_key("quota"@) ==> parse_uint_spec(attr@["quota"@], u128::MAX as nat)
                is Some,
        ensures
            r.id == digits_val(attr_or(attr@, "id"@, "1"@)) as u32,
            r.quota == digits_val(attr_or(attr@, "quota"@, "10"@)) as u128,
            r.access_token@ == attr_or(attr@, "access_token"@, "A-B-C"@),
    {
        proof {
            lemma_small_digit_literals();
        }
        let id: u32 = match attr.get("id") {
            Some(v) => match parse_u32(v.as_str()) {
                Some(n) => n,
                None => {
                    proof {
                        assert(false);
                    }
                    0
                },
            },
            None => 1,
        };
        let quota: u128 = match attr.get("quota") {
            Some(v) => match parse_u128(v.as_str()) {
                Some(n) => n,
                None => {
                    proof {
                        assert(false);
                    }
                    0
                },
            },
            None => 10,
        };
        let access_token: String = match attr.get("access_token") {
            Some(v) => v,
            None => String::from_str("A-B-C"),
        };
        Consumer { id, quota, access_token }
    }

    /// Spend `amount` of the quota: refused, leaving the quota unchanged,
    /// when less than `amount` is left.
    pub fn decrease_quota(&mut self, amount: u128) -> (r: Option<()>)
        ensures
            match r {
                Some(_) => amount <= old(self).quota && final(self).quota == old(self).quota
                    - amount,
                None => amount > old(self).quota && final(self).quota == old(self).quota,
            },
            final(self).id == old(self).id,
            final(self).access_token == old(self).access_token,
    {
        if amount > self.quota {
            return None;
        }
        self.quota = self.quota - amount;
        Some(())
    }

    /// Grant `amount` more quota: refused only when the sum would not fit.
    pub fn add_quota(&mut self, amount: u128) -> (r: Option<()>)
        ensures
            match r {
                Some(_) => old(self).quota + amount <= u128::MAX && final(self).quota == old(
                    self,
                ).quota + amount,
                None => old(self).quota + amount > u128::MAX && final(self).quota == old(
                    self,
                ).quota,
            },
            final(self).id == old(self).id,
            final(self).access_token == old(self).access_token,
    {
        if amount > u128::MAX - self.quota {
            return None;
        }
        self.quota = self.quota + amount;
        Some(())
    }
}

} // verus!
