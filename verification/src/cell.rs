//! The currency cell: the slot that owns the platform context.
use vstd::prelude::*;
use takeable_option::Takeable;
use crate::platform::PlatformContext;

verus! {

/// `Takeable` of the crate `takeable_option`: a slot for one value, which may
/// be empty. Nothing inside it is visible here; what it holds goes by `held`.
#[verifier::external_type_specification]
#[verifier::external_body]
#[verifier::reject_recursive_types(T)]
pub struct ExTakeable<T>(Takeable<T>);

/// What a slot holds: a context, or nothing.
pub uninterp spec fn held(slot: Takeable<PlatformContext>) -> Option<PlatformContext>;

/// `Takeable::new`: the slot it returns holds the value given.
#[verifier::external_body]
fn slot_new(ctx: PlatformContext) -> (slot: Takeable<PlatformContext>)
    ensures
        held(slot) == Some(ctx),
{
    Takeable::new(ctx)
}

/// `Takeable::take`: on a slot that holds a value, returns that value and
/// leaves the slot empty. On an empty slot it panics, hence the `requires`.
#[verifier::external_body]
fn slot_take(slot: &mut Takeable<PlatformContext>) -> (ctx: PlatformContext)
    requires
        held(*old(slot)) is Some,
    ensures
        held(*old(slot)) == Some(ctx),
        held(*final(slot)) is None,
{
    Takeable::take(slot)
}

/// `Takeable::insert`: puts the value into the slot and returns what the slot
/// held before.
#[verifier::external_body]
fn slot_insert(slot: &mut Takeable<PlatformContext>, ctx: PlatformContext) -> (previous: Option<
    PlatformContext,
>)
    ensures
        previous == held(*old(slot)),
        held(*final(slot)) == Some(ctx),
{
    Takeable::insert(slot, ctx)
}

/// `Deref::deref` of `Takeable`: a reference to the value in the slot. On an
/// empty slot it panics, hence the `requires`.
#[verifier::external_body]
fn slot_get(slot: &Takeable<PlatformContext>) -> (ctx: &PlatformContext)
    requires
        held(*slot) is Some,
    ensures
        held(*slot) == Some(*ctx),
{
    std::ops::Deref::deref(slot)
}

/// The container of the platform context. It holds a context at every moment
/// of its life: to take the context out uses the cell up and leaves a
/// `VacantCell`, which can be read by nobody and only be filled again.
pub struct CurrencyCell {
    slot: Takeable<PlatformContext>,
}

/// A currency cell whose context is out for a transition.
pub struct VacantCell {
    slot: Takeable<PlatformContext>,
}

impl View for CurrencyCell {
    type V = PlatformContext;

    closed spec fn view(&self) -> PlatformContext {
        held(self.slot)->0
    }
}

impl CurrencyCell {
    #[verifier::type_invariant]
    spec fn occupied(self) -> bool {
        held(self.slot) is Some
    }

    /// A cell that holds `ctx`.
    pub fn new(ctx: PlatformContext) -> (cell: CurrencyCell)
        ensures
            cell@ == ctx,
    {
        CurrencyCell { slot: slot_new(ctx) }
    }

    /// A read-only borrow of the context in the cell.
    pub fn borrow(&self) -> (ctx: &PlatformContext)
        ensures
            *ctx == self@,
    {
        proof {
            use_type_invariant(self);
        }
        slot_get(&self.slot)
    }

    /// Takes the context out of the cell, for as long as a transition lasts.
    pub fn take(self) -> (parts: (VacantCell, PlatformContext))
        ensures
            parts.1 == self@,
    {
        proof {
            use_type_invariant(&self);
        }
        let mut slot = self.slot;
        let ctx = slot_take(&mut slot);
        (VacantCell { slot }, ctx)
    }
}

impl VacantCell {
    #[verifier::type_invariant]
    spec fn vacant(self) -> bool {
        held(self.slot) is None
    }

    /// Fills the cell again, with `ctx`. Nothing is displaced: the cell was empty.
    pub fn insert(self, ctx: PlatformContext) -> (cell: CurrencyCell)
        ensures
            cell@ == ctx,
    {
        proof {
            use_type_invariant(&self);
        }
        let mut slot = self.slot;
        let displaced = slot_insert(&mut slot, ctx);
        assert(displaced is None);
        CurrencyCell { slot }
    }
}

} // verus!
