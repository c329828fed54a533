//! The cache of the server: schedules per mode with the time they were
//! fetched, and the weapon list; and the rule for when a schedule is stale.

use vstd::prelude::*;
use std::collections::HashMap;
use crate::schedule::{Mode, ScheduleInfo, mode_key};
use crate::time::DateTimeParts;
use crate::weapon::WeaponInfo;

verus! {

broadcast use vstd::std_specs::hash::group_hash_axioms;

/// The block of an hour: the last position in `UPD8_H` whose hour is not
/// before it, or -1 when there is none.
pub open spec fn block_of(hour: int) -> int {
    if hour <= 22 {
        (22 - hour) / 2
    } else {
        -1
    }
}

/// The block found after looking at the first `i` hours of `UPD8_H`.
spec fn block_upto(hour: int, i: int) -> int {
    if i == 0 || hour > 22 {
        -1
    } else if block_of(hour) < i {
        block_of(hour)
    } else {
        i - 1
    }
}

/// The two times fall into different blocks.
pub open spec fn another_block(now: DateTimeParts, last: DateTimeParts) -> bool {
    block_of(now.hour as int) != block_of(last.hour as int)
}

/// A schedule fetched at `last` is stale at `now`: another block, or an
/// earlier day of the month.
pub open spec fn is_stale(now: DateTimeParts, last: DateTimeParts) -> bool {
    another_block(now, last) || last.day < now.day
}

/// The cache could not give a schedule for the mode.
#[derive(Debug, Clone, Copy, PartialEq, Eq)]
pub struct CacheError;

/// The cached schedules and weapon list.
pub struct AppCache {
    /// The schedule of each mode, filed under the mode's number.
    pub schedule: HashMap<u64, Vec<ScheduleInfo>>,
    /// When the schedule of each mode was fetched.
    pub schedule_fetched: HashMap<u64, Option<DateTimeParts>>,
    pub weapons: Option<Vec<WeaponInfo>>,
}

impl AppCache {
    /// The hours (UTC) at which the schedule blocks are counted, latest first.
    pub const UPD8_H: [i16; 12] = [22, 20, 18, 16, 14, 12, 10, 8, 6, 4, 2, 0];

    /// A schedule of the mode has to be fetched at `now`: none is cached, or
    /// its fetch time is unknown, or it is stale.
    pub open spec fn needs_fetch_spec(&self, mode: Mode, now: DateTimeParts) -> bool {
        let k = mode_key(mode);
        if self.schedule@.contains_key(k) && self.schedule_fetched@.contains_key(k)
            && self.schedule_fetched@[k] is Some {
            is_stale(now, self.schedule_fetched@[k]->0)
        } else {
            true
        }
    }

    /// An empty cache.
    pub fn new() -> (c: Self)
        ensures
            c.schedule@ == Map::<u64, Vec<ScheduleInfo>>::empty(),
            c.schedule_fetched@ == Map::<u64, Option<DateTimeParts>>::empty(),
            c.weapons is None,
    {
        AppCache {
            schedule: HashMap::with_capacity(2),
            schedule_fetched: HashMap::with_capacity(2),
            weapons: None,
        }
    }

    /// The block of a time.
    pub fn calc_block(dt: DateTimeParts) -> (block: i16)
        ensures
            block == block_of(dt.hour as int),
    {
        let mut block: i16 = -1;
        let mut i: usize = 0;
        while i < 12
            invariant
                i <= 12,
                block == block_upto(dt.hour as int, i as int),
            decreases 12 - i,
        {
            let hour = Self::UPD8_H[i];
            assert(hour == 22 - 2 * i);
            if dt.hour <= hour as u32 {
                block = i as i16;
            }
            i = i + 1;
        }
        block
    }

    /// The two times fall into different blocks.
    pub fn is_another_block(now: DateTimeParts, last: DateTimeParts) -> (res: bool)
        ensures
            res == another_block(now, last),
    {
        let now_block = Self::calc_block(now);
        let last_block = Self::calc_block(last);
        now_block != last_block
    }

    /// A schedule fetched at `last` is stale at `now`.
    pub fn is_stale(now: DateTimeParts, last: DateTimeParts) -> (res: bool)
        ensures
            res == is_stale(now, last),
    {
        let is_diff_block = Self::is_another_block(now, last);
        let is_yesterday = last.day < now.day;
        is_diff_block || is_yesterday
    }

    /// A schedule of the mode has to be fetched at `now`.
    pub fn needs_fetch(&self, mode: Mode, now: DateTimeParts) -> (res: bool)
        ensures
            res == self.needs_fetch_spec(mode, now),
    {
        let k = mode.key();
        match (self.schedule_fetched.get(&k), self.schedule.contains_key(&k)) {
            (Some(Some(last)), true) => Self::is_stale(now, *last),
            _ => true,
        }
    }

    /// Stores a fetched schedule of the mode where one was due at `now`
    /// (`fetched` is the result of the fetch, `None` where it failed), then
    /// gives the cached schedule of the mode.
    pub fn fetch_schedule(
        &mut self,
        mode: Mode,
        now: DateTimeParts,
        fetched: Option<Vec<ScheduleInfo>>,
    ) -> (res: Result<&Vec<ScheduleInfo>, CacheError>)
        ensures
            ({
                let k = mode_key(mode);
                if old(self).needs_fetch_spec(mode, now) && fetched is Some {
                    &&& final(self).schedule@ == old(self).schedule@.insert(k, fetched->0)
                    &&& final(self).schedule_fetched@ == old(self).schedule_fetched@.insert(k, Some(now))
                } else {
                    &&& final(self).schedule@ == old(self).schedule@
                    &&& final(self).schedule_fetched@ == old(self).schedule_fetched@
                }
            }),
            final(self).weapons == old(self).weapons,
            match res {
                Ok(list) => final(self).schedule@.contains_key(mode_key(mode))
                    && *list == final(self).schedule@[mode_key(mode)],
                Err(_) => !final(self).schedule@.contains_key(mode_key(mode)),
            },
    {
        let k = mode.key();
        if self.needs_fetch(mode, now) {
            match fetched {
                Some(list) => {
                    self.schedule.insert(k, list);
                    self.schedule_fetched.insert(k, Some(now));
                },
                None => {},
            }
        }
        match self.schedule.get(&k) {
            Some(list) => Ok(list),
            None => Err(CacheError),
        }
    }

    /// The weapon list has not been fetched yet.
    pub fn weapons_missing(&self) -> (res: bool)
        ensures
            res == self.weapons is None,
    {
        self.weapons.is_none()
    }

    /// Stores the fetched weapon list where none is cached yet (`fetched` is
    /// the result of the fetch, `None` where it failed), then gives the cached list.
    pub fn get_weapons(&mut self, fetched: Option<Vec<WeaponInfo>>) -> (res: &Option<Vec<WeaponInfo>>)
        ensures
            final(self).weapons == (if old(self).weapons is None { fetched } else { old(self).weapons }),
            final(self).schedule@ == old(self).schedule@,
            final(self).schedule_fetched@ == old(self).schedule_fetched@,
            *res == final(self).weapons,
    {
        if self.weapons.is_none() {
            match fetched {
                Some(raw) => {
                    self.weapons = Some(raw);
                },
                None => {},
            }
        }
        &self.weapons
    }
}

/// The block of an hour is the last position in `UPD8_H` whose hour is not
/// before it; hour 23 is after all of them and has block -1.
pub proof fn lemma_block_is_last_update_hour(hour: u32)
    requires
        hour < 24,
    ensures
        -1 <= block_of(hour as int) <= 11,
        block_of(hour as int) == -1 <==> hour == 23,
        block_of(hour as int) >= 0 ==> hour <= AppCache::UPD8_H[block_of(hour as int)],
        forall|j: int| block_of(hour as int) < j < 12 ==> hour > #[trigger] AppCache::UPD8_H[j],
{
    assert forall|j: int| 0 <= j < 12 implies #[trigger] AppCache::UPD8_H[j] == 22 - 2 * j by {}
}

/// Two times of the same hour are in the same block, and being in another
/// block does not depend on the order of the two times.
pub proof fn lemma_another_block_symmetric(a: DateTimeParts, b: DateTimeParts)
    ensures
        another_block(a, b) == another_block(b, a),
        a.hour == b.hour ==> !another_block(a, b),
        !is_stale(a, a),
{
}

/// A cache without a schedule of a mode, or without the time it was
/// fetched, fetches it, whatever the time.
pub proof fn lemma_empty_cache_fetches(c: AppCache, mode: Mode, now: DateTimeParts)
    requires
        !c.schedule@.contains_key(mode_key(mode)) || !c.schedule_fetched@.contains_key(mode_key(mode))
            || c.schedule_fetched@[mode_key(mode)] is None,
    ensures
        c.needs_fetch_spec(mode, now),
{
}

/// No update hour of `UPD8_H` lies between the two hours: each update hour
/// is either not before both or before both.
pub open spec fn no_update_between(a: int, b: int) -> bool {
    forall|j: int| 0 <= j < 12 ==> ((a <= #[trigger] AppCache::UPD8_H[j]) == (b <= AppCache::UPD8_H[j]))
}

proof fn lemma_update_hours()
    ensures
        forall|j: int| 0 <= j < 12 ==> #[trigger] AppCache::UPD8_H[j] == 22 - 2 * j,
{
    assert forall|j: int| 0 <= j < 12 implies #[trigger] AppCache::UPD8_H[j] == 22 - 2 * j by {}
}

proof fn lemma_side(h: int, j: int)
    requires
        h >= 0,
        0 <= j < 12,
    ensures
        (h <= AppCache::UPD8_H[j]) == (j <= block_of(h)),
{
    lemma_update_hours();
}

proof fn lemma_same_block_iff_no_update_between(a: int, b: int)
    requires
        a >= 0,
        b >= 0,
    ensures
        (block_of(a) == block_of(b)) <==> no_update_between(a, b),
{
    if block_of(a) != block_of(b) {
        let j = if block_of(a) < block_of(b) { block_of(b) } else { block_of(a) };
        lemma_side(a, j);
        lemma_side(b, j);
        assert((a <= AppCache::UPD8_H[j]) != (b <= AppCache::UPD8_H[j]));
    } else {
        assert forall|j: int| 0 <= j < 12 implies ((a <= #[trigger] AppCache::UPD8_H[j]) == (b
            <= AppCache::UPD8_H[j])) by {
            lemma_side(a, j);
            lemma_side(b, j);
        }
    }
}

/// Two times are in different blocks exactly when an update hour lies
/// between their hours; a schedule fetched at `last` is stale at `now`
/// exactly when that is so or `last` is on an earlier day of the month.
pub proof fn lemma_block_and_staleness(now: DateTimeParts, last: DateTimeParts)
    ensures
        another_block(now, last) <==> !no_update_between(last.hour as int, now.hour as int),
        is_stale(now, last) <==> (!no_update_between(last.hour as int, now.hour as int) || last.day
            < now.day),
{
    lemma_same_block_iff_no_update_between(last.hour as int, now.hour as int);
}

/// When the cached schedule of a mode was fetched at `last`, it is fetched
/// again at `now` exactly when an update hour lies between the hours of the
/// two times, or `last` is on an earlier day of the month than `now`.
pub proof fn lemma_refresh_rule(c: AppCache, mode: Mode, now: DateTimeParts, last: DateTimeParts)
    requires
        c.schedule@.contains_key(mode_key(mode)),
        c.schedule_fetched@.contains_key(mode_key(mode)),
        c.schedule_fetched@[mode_key(mode)] == Some(last),
    ensures
        last.day < now.day ==> c.needs_fetch_spec(mode, now),
        !no_update_between(last.hour as int, now.hour as int) ==> c.needs_fetch_spec(mode, now),
        no_update_between(last.hour as int, now.hour as int) && now.day <= last.day ==> !c.needs_fetch_spec(
            mode,
            now,
        ),
{
    lemma_same_block_iff_no_update_between(last.hour as int, now.hour as int);
}

/// After a schedule of a mode is stored at `now`, it is not fetched again at
/// `now`, it is the one the cache gives, and the other mode is as it was.
pub proof fn lemma_store_then_fresh(
    before: AppCache,
    after: AppCache,
    mode: Mode,
    now: DateTimeParts,
    list: Vec<ScheduleInfo>,
)
    requires
        after.schedule@ == before.schedule@.insert(mode_key(mode), list),
        after.schedule_fetched@ == before.schedule_fetched@.insert(mode_key(mode), Some(now)),
    ensures
        !after.needs_fetch_spec(mode, now),
        after.schedule@[mode_key(mode)] == list,
        forall|other: Mode, t: DateTimeParts| other != mode ==> #[trigger] after.needs_fetch_spec(other, t)
            == before.needs_fetch_spec(other, t),
{
    assert forall|other: Mode, t: DateTimeParts| other != mode implies #[trigger] after.needs_fetch_spec(
        other,
        t,
    ) == before.needs_fetch_spec(other, t) by {
        assert(mode_key(other) != mode_key(mode));
    }
}

} // verus!
