use vstd::prelude::*;

verus! {

/// What a concrete value type declares when it is registered.
pub struct ValueTypeInfo {
    /// The value traits that the type implements.
    pub traits: Vec<u32>,
    /// Whether the type's read representation is the value itself.
    pub transparent: bool,
}

/// What a value trait declares when it is registered.
pub struct ValueTraitInfo {
    /// Every trait that this trait requires, transitively.
    pub supertraits: Vec<u32>,
}

/// The registry of value types and value traits, keyed by their index.
pub struct TypeRegistry {
    pub types: Vec<ValueTypeInfo>,
    pub traits: Vec<ValueTraitInfo>,
}

/// Why a type or a trait could not be registered.
#[derive(Clone, Copy, Debug, PartialEq, Eq, Structural)]
pub enum RegistryError {
    /// A trait index that the registry does not hold.
    UnknownTrait(u32),
    /// A listed trait requires a trait that is not listed.
    MissingSupertrait(u32),
    /// The registry holds as many entries as an index can name.
    Full,
}

impl TypeRegistry {
    pub open spec fn is_type(&self, t: u32) -> bool {
        (t as int) < self.types@.len()
    }

    pub open spec fn is_trait(&self, k: u32) -> bool {
        (k as int) < self.traits@.len()
    }

    /// Concrete type `t` implements value trait `k`.
    pub open spec fn type_implements(&self, t: u32, k: u32) -> bool {
        self.is_type(t) && self.types@[t as int].traits@.contains(k)
    }

    /// Trait `a` implies trait `k`: every implementor of `a` implements `k`.
    pub open spec fn trait_implies(&self, a: u32, k: u32) -> bool {
        self.is_trait(a) && (a == k || self.traits@[a as int].supertraits@.contains(k))
    }

    /// A list of trait indices that names registered traits only and holds
    /// the supertraits of each of them.
    pub open spec fn closed_list(&self, ks: Seq<u32>) -> bool {
        &&& forall|i: int| 0 <= i < ks.len() ==> self.is_trait(#[trigger] ks[i])
        &&& forall|i: int, j: int|
            0 <= i < ks.len() && 0 <= j < self.traits@[ks[i] as int].supertraits@.len()
                ==> ks.contains(#[trigger] self.traits@[ks[i] as int].supertraits@[j])
    }

    /// Every entry names registered traits, and trait lists are closed under
    /// supertraits.
    pub open spec fn wf(&self) -> bool {
        &&& forall|t: int| 0 <= t < self.types@.len()
            ==> self.closed_list(#[trigger] self.types@[t].traits@)
        &&& forall|a: int| 0 <= a < self.traits@.len()
            ==> self.closed_list(#[trigger] self.traits@[a].supertraits@)
    }

    pub fn new() -> (r: TypeRegistry)
        ensures
            r.wf(),
            r.types@.len() == 0,
            r.traits@.len() == 0,
    {
        TypeRegistry { types: Vec::new(), traits: Vec::new() }
    }

    /// Registers a value trait that requires `supertraits` (all of them,
    /// transitively), and returns its index.
    pub fn register_trait(&mut self, supertraits: Vec<u32>) -> (r: Result<u32, RegistryError>)
        requires
            old(self).wf(),
        ensures
            final(self).wf(),
            final(self).types == old(self).types,
            match r {
                Ok(k) => {
                    &&& old(self).closed_list(supertraits@)
                    &&& k as int == old(self).traits@.len()
                    &&& final(self).traits@ == old(self).traits@.push(
                        (ValueTraitInfo { supertraits }),
                    )
                },
                Err(RegistryError::Full) => {
                    &&& old(self).traits@.len() >= u32::MAX
                    &&& *final(self) == *old(self)
                },
                Err(_) => {
                    &&& old(self).traits@.len() < u32::MAX
                    &&& !old(self).closed_list(supertraits@)
                    &&& *final(self) == *old(self)
                },
            },
    {
        if self.traits.len() >= u32::MAX as usize {
            return Err(RegistryError::Full);
        }
        match self.check_closed(&supertraits) {
            Err(e) => {
                return Err(e);
            },
            Ok(()) => {},
        }
        let k = self.traits.len() as u32;
        let ghost before = *self;
        self.traits.push(ValueTraitInfo { supertraits });
        proof {
            assert(self.traits@.drop_last() =~= before.traits@);
            lemma_closed_list_grows(before, *self, self.traits@[k as int].supertraits@);
            assert forall|a: int| 0 <= a < self.traits@.len() implies self.closed_list(
                #[trigger] self.traits@[a].supertraits@,
            ) by {
                lemma_closed_list_grows(before, *self, self.traits@[a].supertraits@);
            }
            assert forall|t: int| 0 <= t < self.types@.len() implies self.closed_list(
                #[trigger] self.types@[t].traits@,
            ) by {
                lemma_closed_list_grows(before, *self, self.types@[t].traits@);
            }
        }
        Ok(k)
    }

    /// Registers a concrete value type that implements `traits`, and returns
    /// its index.
    pub fn register_type(&mut self, traits: Vec<u32>, transparent: bool) -> (r: Result<
        u32,
        RegistryError,
    >)
        requires
            old(self).wf(),
        ensures
            final(self).wf(),
            final(self).traits == old(self).traits,
            match r {
                Ok(t) => {
                    &&& old(self).closed_list(traits@)
                    &&& t as int == old(self).types@.len()
                    &&& final(self).types@ == old(self).types@.push(
                        (ValueTypeInfo { traits, transparent }),
                    )
                },
                Err(RegistryError::Full) => {
                    &&& old(self).types@.len() >= u32::MAX
                    &&& *final(self) == *old(self)
                },
                Err(_) => {
                    &&& old(self).types@.len() < u32::MAX
                    &&& !old(self).closed_list(traits@)
                    &&& *final(self) == *old(self)
                },
            },
    {
        if self.types.len() >= u32::MAX as usize {
            return Err(RegistryError::Full);
        }
        match self.check_closed(&traits) {
            Err(e) => {
                return Err(e);
            },
            Ok(()) => {},
        }
        let t = self.types.len() as u32;
        let ghost before = *self;
        self.types.push(ValueTypeInfo { traits, transparent });
        proof {
            assert(self.types@.drop_last() =~= before.types@);
            assert forall|a: int| 0 <= a < self.traits@.len() implies self.closed_list(
                #[trigger] self.traits@[a].supertraits@,
            ) by {
                lemma_closed_list_grows(before, *self, self.traits@[a].supertraits@);
            }
            assert forall|u: int| 0 <= u < self.types@.len() implies self.closed_list(
                #[trigger] self.types@[u].traits@,
            ) by {
                lemma_closed_list_grows(before, *self, self.types@[u].traits@);
            }
        }
        Ok(t)
    }

    /// Whether `t` is a registered concrete type.
    pub fn has_type(&self, t: u32) -> (r: bool)
        ensures
            r == self.is_type(t),
    {
        (t as usize) < self.types.len()
    }

    /// Whether `t` is a registered type whose representation is transparent.
    pub fn is_transparent(&self, t: u32) -> (r: bool)
        ensures
            r == (self.is_type(t) && self.types@[t as int].transparent),
    {
        (t as usize) < self.types.len() && self.types[t as usize].transparent
    }

    /// Whether concrete type `t` implements value trait `k`.
    pub fn implements(&self, t: u32, k: u32) -> (r: bool)
        ensures
            r == self.type_implements(t, k),
    {
        (t as usize) < self.types.len() && contains_u32(&self.types[t as usize].traits, k)
    }

    /// Whether trait `a` implies trait `k`.
    pub fn implies(&self, a: u32, k: u32) -> (r: bool)
        ensures
            r == self.trait_implies(a, k),
    {
        (a as usize) < self.traits.len() && (a == k || contains_u32(
            &self.traits[a as usize].supertraits,
            k,
        ))
    }

    /// Tests that each of `ks` is a registered trait and that the list holds
    /// the supertraits of each of them.
    pub fn check_closed(&self, ks: &Vec<u32>) -> (r: Result<(), RegistryError>)
        ensures
            r is Ok <==> self.closed_list(ks@),
            !(r matches Err(RegistryError::Full)),
    {
        let mut i: usize = 0;
        while i < ks.len()
            invariant
                0 <= i <= ks@.len(),
                forall|p: int| 0 <= p < i ==> self.is_trait(#[trigger] ks@[p]),
            decreases ks@.len() - i,
        {
            if ks[i] as usize >= self.traits.len() {
                return Err(RegistryError::UnknownTrait(ks[i]));
            }
            i = i + 1;
        }
        let mut i: usize = 0;
        while i < ks.len()
            invariant
                0 <= i <= ks@.len(),
                forall|p: int| 0 <= p < ks@.len() ==> self.is_trait(#[trigger] ks@[p]),
                forall|p: int, q: int|
                    0 <= p < i && 0 <= q < self.traits@[ks@[p] as int].supertraits@.len()
                        ==> ks@.contains(#[trigger] self.traits@[ks@[p] as int].supertraits@[q]),
            decreases ks@.len() - i,
        {
            let supers = &self.traits[ks[i] as usize].supertraits;
            let mut j: usize = 0;
            while j < supers.len()
                invariant
                    0 <= i < ks@.len(),
                    0 <= j <= supers@.len(),
                    *supers == self.traits@[ks@[i as int] as int].supertraits,
                    forall|q: int| 0 <= q < j ==> ks@.contains(#[trigger] supers@[q]),
                decreases supers@.len() - j,
            {
                let s = supers[j];
                if !contains_u32(ks, s) {
                    return Err(RegistryError::MissingSupertrait(s));
                }
                j = j + 1;
            }
            i = i + 1;
        }
        Ok(())
    }
}

/// Whether `ks` holds `k`.
pub fn contains_u32(ks: &Vec<u32>, k: u32) -> (r: bool)
    ensures
        r == ks@.contains(k),
{
    let mut i: usize = 0;
    while i < ks.len()
        invariant
            0 <= i <= ks@.len(),
            forall|p: int| 0 <= p < i ==> ks@[p] != k,
        decreases ks@.len() - i,
    {
        if ks[i] == k {
            return true;
        }
        i = i + 1;
    }
    false
}


/// A closed list stays closed when entries are appended to the trait table.
proof fn lemma_closed_list_grows(small: TypeRegistry, big: TypeRegistry, ks: Seq<u32>)
    requires
        small.traits@.len() <= big.traits@.len(),
        forall|a: int| 0 <= a < small.traits@.len() ==> big.traits@[a] == small.traits@[a],
        small.closed_list(ks),
    ensures
        big.closed_list(ks),
{
    assert forall|i: int, j: int|
        0 <= i < ks.len() && 0 <= j < big.traits@[ks[i] as int].supertraits@.len() implies ks.contains(
        #[trigger] big.traits@[ks[i] as int].supertraits@[j],
    ) by {
        assert(small.is_trait(ks[i]));
        assert(big.traits@[ks[i] as int] == small.traits@[ks[i] as int]);
        assert(ks.contains(small.traits@[ks[i] as int].supertraits@[j]));
    }
}

/// In a well-formed registry, a type that implements trait `a` implements
/// every trait that `a` implies.
pub proof fn lemma_implements_through(reg: TypeRegistry, t: u32, a: u32, k: u32)
    requires
        reg.wf(),
        reg.type_implements(t, a),
        reg.trait_implies(a, k),
    ensures
        reg.type_implements(t, k),
{
    if a != k {
        let ks = reg.types@[t as int].traits@;
        assert(reg.closed_list(ks));
        let i = choose|i: int| 0 <= i < ks.len() && ks[i] == a;
        let sup = reg.traits@[a as int].supertraits@;
        let j = choose|j: int| 0 <= j < sup.len() && sup[j] == k;
        assert(ks.contains(reg.traits@[ks[i] as int].supertraits@[j]));
    }
}

} // verus!
