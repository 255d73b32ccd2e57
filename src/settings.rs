use vstd::prelude::*;

use crate::settings::physics_settings::SPRINTING_UUID;

pub mod physics_settings;

verus! {

/// One modifier of an attribute: an amount combined with the base value by its
/// operation (0 adds, 1 scales the sum of base and additions, 2 scales the running
/// result). The amount type is left open; the simulator uses single-precision numbers.
#[derive(Clone, Debug)]
pub struct PlayerAttributeModifier<A> {
    pub uuid: String,
    pub operation: u16,
    pub amount: A,
}

/// A base value and its modifiers, in the order they were added.
#[derive(Clone, Debug)]
pub struct PlayerAttribute<A> {
    pub value: A,
    pub modifiers: Vec<PlayerAttributeModifier<A>>,
}

/// The modifiers of `mods` whose uuid is not `uuid`, in their order.
pub open spec fn without_uuid<A>(mods: Seq<PlayerAttributeModifier<A>>, uuid: Seq<char>) -> Seq<
    PlayerAttributeModifier<A>,
>
    decreases mods.len(),
{
    if mods.len() == 0 {
        Seq::empty()
    } else {
        let before = without_uuid(mods.drop_last(), uuid);
        if mods.last().uuid@ == uuid {
            before
        } else {
            before.push(mods.last())
        }
    }
}

/// Whether some modifier of `mods` has the uuid `uuid`.
pub open spec fn has_uuid<A>(mods: Seq<PlayerAttributeModifier<A>>, uuid: Seq<char>) -> bool {
    exists|i: int| 0 <= i < mods.len() && (#[trigger] mods[i]).uuid@ == uuid
}

impl<A> PlayerAttribute<A> {
    /// A fresh attribute with base value `base` and no modifiers.
    pub fn create_attribute_value(base: A) -> (r: Self)
        ensures
            r.value == base,
            r.modifiers@.len() == 0,
    {
        PlayerAttribute { value: base, modifiers: Vec::new() }
    }

    /// The attribute with `modifier` appended after the others.
    pub fn add_attribute_modifier(attributes: Self, modifier: PlayerAttributeModifier<A>) -> (r: Self)
        ensures
            r.value == attributes.value,
            r.modifiers@ == attributes.modifiers@.push(modifier),
    {
        let mut attributes = attributes;
        attributes.modifiers.push(modifier);
        attributes
    }

    /// Whether the attribute holds a modifier with the given uuid.
    pub fn check_attribute_modifier(attributes: &Self, uuid: &str) -> (r: bool)
        ensures
            r == has_uuid(attributes.modifiers@, uuid@),
    {
        let key = uuid.to_owned();
        let mut i: usize = 0;
        while i < attributes.modifiers.len()
            invariant
                key@ == uuid@,
                i <= attributes.modifiers@.len(),
                forall|j: int| 0 <= j < i ==> (#[trigger] attributes.modifiers@[j]).uuid@ != uuid@,
            decreases attributes.modifiers@.len() - i,
        {
            if attributes.modifiers[i].uuid == key {
                return true;
            }
            i += 1;
        }
        false
    }

    /// The attribute without any of the modifiers that have the given uuid.
    pub fn delete_attribute_modifier(attributes: Self, uuid: &str) -> (r: Self)
        ensures
            r.value == attributes.value,
            r.modifiers@ == without_uuid(attributes.modifiers@, uuid@),
    {
        let key = uuid.to_owned();
        let ghost all = attributes.modifiers@;
        let ghost base = attributes.value;
        let mut attributes = attributes;
        let ghost mut k: int = 0;
        let mut i: usize = 0;
        while i < attributes.modifiers.len()
            invariant
                key@ == uuid@,
                attributes.value == base,
                0 <= k <= all.len(),
                i == without_uuid(all.take(k), uuid@).len(),
                attributes.modifiers@ == without_uuid(all.take(k), uuid@) + all.skip(k),
            decreases all.len() - k,
        {
            proof {
                assert(all.take(k + 1).drop_last() =~= all.take(k));
                assert(all.take(k + 1).last() == all[k]);
                assert(attributes.modifiers@[i as int] == all[k]);
            }
            if attributes.modifiers[i].uuid == key {
                attributes.modifiers.remove(i);
                proof {
                    assert(attributes.modifiers@ =~= without_uuid(all.take(k + 1), uuid@) + all.skip(k + 1));
                }
            } else {
                i += 1;
                proof {
                    assert(attributes.modifiers@ =~= without_uuid(all.take(k + 1), uuid@) + all.skip(k + 1));
                }
            }
            proof {
                k = k + 1;
            }
        }
        proof {
            assert(all.take(all.len() as int) =~= all);
        }
        attributes
    }
    /// The movement-speed attribute as sprinting leaves it: any earlier sprint modifier is
    /// dropped, and while sprinting a fresh one (operation 2, `amount`) goes last.
    pub fn with_sprinting(attributes: Self, sprinting: bool, amount: A) -> (r: Self)
        ensures
            r.value == attributes.value,
            !sprinting ==> r.modifiers@ == without_uuid(attributes.modifiers@, SPRINTING_UUID@),
            sprinting ==> {
                &&& r.modifiers@.len() > 0
                &&& r.modifiers@.drop_last() == without_uuid(attributes.modifiers@, SPRINTING_UUID@)
                &&& r.modifiers@.last().uuid@ == SPRINTING_UUID@
                &&& r.modifiers@.last().operation == 2
                &&& r.modifiers@.last().amount == amount
            },
    {
        let cleared = Self::delete_attribute_modifier(attributes, SPRINTING_UUID);
        if sprinting {
            let sprint = PlayerAttributeModifier { uuid: SPRINTING_UUID.to_owned(), operation: 2, amount };
            let r = Self::add_attribute_modifier(cleared, sprint);
            assert(r.modifiers@.drop_last() =~= cleared.modifiers@);
            r
        } else {
            cleared
        }
    }
}

/// The amounts of the modifiers of `mods` with the given operation, in their order.
pub open spec fn amounts_of<A>(mods: Seq<PlayerAttributeModifier<A>>, operation: u16) -> Seq<A>
    decreases mods.len(),
{
    if mods.len() == 0 {
        Seq::empty()
    } else {
        let before = amounts_of(mods.drop_last(), operation);
        if mods.last().operation == operation {
            before.push(mods.last().amount)
        } else {
            before
        }
    }
}

impl<A: Copy> PlayerAttribute<A> {
    /// The amounts that take part in the given operation, in the order their modifiers
    /// were added: the evaluation sums those of operations 0 and 1 and folds those of
    /// operation 2 one after the other.
    pub fn amounts_for(&self, operation: u16) -> (r: Vec<A>)
        ensures
            r@ == amounts_of(self.modifiers@, operation),
    {
        let mut r: Vec<A> = Vec::new();
        let mut i: usize = 0;
        while i < self.modifiers.len()
            invariant
                i <= self.modifiers@.len(),
                r@ == amounts_of(self.modifiers@.take(i as int), operation),
            decreases self.modifiers@.len() - i,
        {
            proof {
                assert(self.modifiers@.take(i + 1).drop_last() =~= self.modifiers@.take(i as int));
            }
            if self.modifiers[i].operation == operation {
                r.push(self.modifiers[i].amount);
            }
            i += 1;
        }
        assert(self.modifiers@.take(self.modifiers@.len() as int) =~= self.modifiers@);
        r
    }
}

/// A fresh attribute has no amounts in any operation.
pub proof fn lemma_fresh_attribute_has_no_amounts<A>(attribute: PlayerAttribute<A>, operation: u16)
    requires
        attribute.modifiers@.len() == 0,
    ensures
        amounts_of(attribute.modifiers@, operation).len() == 0,
{
}

/// Deleting a uuid that no modifier has leaves the modifiers as they are.
pub proof fn lemma_delete_absent<A>(mods: Seq<PlayerAttributeModifier<A>>, uuid: Seq<char>)
    requires
        !has_uuid(mods, uuid),
    ensures
        without_uuid(mods, uuid) == mods,
    decreases mods.len(),
{
    if mods.len() > 0 {
        assert(!has_uuid(mods.drop_last(), uuid)) by {
            if has_uuid(mods.drop_last(), uuid) {
                let i = choose|i: int| 0 <= i < mods.drop_last().len() && (#[trigger] mods.drop_last()[i]).uuid@ == uuid;
                assert(mods[i] == mods.drop_last()[i]);
            }
        }
        lemma_delete_absent(mods.drop_last(), uuid);
        assert(mods[mods.len() - 1] == mods.last());
        assert(mods.drop_last().push(mods.last()) =~= mods);
    }
}

/// Adding a modifier under a uuid that the attribute does not hold yet, then deleting
/// that uuid, gives back exactly the modifiers it had.
pub proof fn lemma_add_then_delete_restores<A>(attribute: PlayerAttribute<A>, modifier: PlayerAttributeModifier<A>)
    requires
        !has_uuid(attribute.modifiers@, modifier.uuid@),
    ensures
        without_uuid(attribute.modifiers@.push(modifier), modifier.uuid@) == attribute.modifiers@,
{
    let mods = attribute.modifiers@.push(modifier);
    assert(mods.drop_last() =~= attribute.modifiers@);
    lemma_delete_absent(attribute.modifiers@, modifier.uuid@);
}

} // verus!
