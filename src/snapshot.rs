use vstd::prelude::*;

use crate::namemap::NameMap;
use crate::territory::{Territory, TerritoryView};

verus! {

/// All territories of one poll, keyed by name, with the instant (seconds since
/// the Unix epoch) at which they were stored and the instant until which the
/// upstream declared them valid.
pub struct Snapshot {
    pub territories: NameMap<Territory>,
    pub stored_at: i64,
    pub expires: i128,
}

impl Snapshot {
    pub open spec fn wf(&self) -> bool {
        self.territories.wf()
    }

    /// The snapshot held before the first poll: no territories, stored and
    /// expiring at `now`.
    pub fn empty(now: i64) -> (r: Snapshot)
        ensures
            r.wf(),
            r.territories@ == Map::<Seq<char>, TerritoryView>::empty(),
            r.stored_at == now,
            r.expires == now as int,
    {
        Snapshot { territories: NameMap::new(), stored_at: now, expires: now as i128 }
    }

    /// A snapshot of `territories` stored at `now` and valid for `ttl` seconds.
    pub fn new(territories: NameMap<Territory>, now: i64, ttl: i128) -> (r: Snapshot)
        requires
            territories.wf(),
            -(u64::MAX as int) <= ttl <= u64::MAX,
        ensures
            r.wf(),
            r.territories == territories,
            r.stored_at == now,
            r.expires == now + ttl,
    {
        Snapshot { territories, stored_at: now, expires: now as i128 + ttl }
    }
}

} // verus!
