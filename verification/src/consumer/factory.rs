//! Construction of consumer accounts from attribute maps.

use vstd::prelude::*;

use crate::record::attr_or;
use crate::record::Record;
use crate::text::digits_val;
use crate::text::parse_uint_spec;

use super::account::Consumer;

verus! {

/// Build a consumer account from explicit attributes, with defaults for
/// whatever is absent.
pub fn create_consumer(attr: &Record) -> (r: Consumer)
    requires
        attr@.contains_key("id"@) ==> parse_uint_spec(attr@["id"@], u32::MAX as nat) is Some,
        attr@.contains_key("quota"@) ==> parse_uint_spec(attr@["quota"@], u128::MAX as nat)
            is Some,
    ensures
        r.id == digits_val(attr_or(attr@, "id"@, "1"@)) as u32,
        r.quota == digits_val(attr_or(attr@, "quota"@, "10"@)) as u128,
        r.access_token@ == attr_or(attr@, "access_token"@, "A-B-C"@),
{
    Consumer::new(attr)
}

} // verus!
