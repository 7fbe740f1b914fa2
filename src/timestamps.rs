//! Creation and modification instants of an entity, in microseconds since
//! the Unix epoch (UTC).

use vstd::prelude::*;
use crate::outside::now_micros;

verus! {

/// When an entity was created and last changed.
#[derive(Clone, Copy, Debug, PartialEq, Eq, Structural)]
pub struct CreateUp {
    created_at: i64,
    updated_at: i64,
}

impl CreateUp {
    pub closed spec fn spec_created_at(&self) -> i64 {
        self.created_at
    }

    pub closed spec fn spec_updated_at(&self) -> i64 {
        self.updated_at
    }

    /// Both instants set to the current time.
    pub fn new() -> (r: CreateUp)
        ensures
            r.spec_created_at() == r.spec_updated_at(),
    {
        CreateUp::starting_at(now_micros())
    }

    /// Both instants set to `now`.
    pub fn starting_at(now: i64) -> (r: CreateUp)
        ensures
            r.spec_created_at() == now,
            r.spec_updated_at() == now,
    {
        CreateUp { created_at: now, updated_at: now }
    }

    /// The instants as given.
    pub fn with_dates(created_at: i64, updated_at: i64) -> (r: CreateUp)
        ensures
            r.spec_created_at() == created_at,
            r.spec_updated_at() == updated_at,
    {
        CreateUp { created_at, updated_at }
    }

    /// Created, and last changed, at `created_at`.
    pub fn with_created_at(created_at: i64) -> (r: CreateUp)
        ensures
            r.spec_created_at() == created_at,
            r.spec_updated_at() == created_at,
    {
        CreateUp { created_at, updated_at: created_at }
    }

    /// When the entity was created.
    pub fn created_at(&self) -> (r: i64)
        ensures
            r == self.spec_created_at(),
    {
        self.created_at
    }

    /// When the entity last changed.
    pub fn updated_at(&self) -> (r: i64)
        ensures
            r == self.spec_updated_at(),
    {
        self.updated_at
    }

    /// Records a change at `now`.
    pub fn touch(&mut self, now: i64)
        ensures
            final(self).spec_created_at() == old(self).spec_created_at(),
            final(self).spec_updated_at() == now,
    {
        self.updated_at = now;
    }

    /// Records a change at the current time.
    pub fn update(&mut self)
        ensures
            final(self).spec_created_at() == old(self).spec_created_at(),
    {
        self.touch(now_micros());
    }

    /// Replaces both instants.
    pub fn set_dates(&mut self, created_at: i64, updated_at: i64)
        ensures
            final(self).spec_created_at() == created_at,
            final(self).spec_updated_at() == updated_at,
    {
        self.created_at = created_at;
        self.updated_at = updated_at;
    }
}

} // verus!
