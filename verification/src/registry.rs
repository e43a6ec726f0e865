use vstd::prelude::*;
use std::marker::PhantomData;

verus! {

/// A type with finitely many values, each with a place in a fixed order.
pub trait Enumerated: Copy {
    /// How many values the type has.
    spec fn count() -> nat;

    /// The place of a value in the order, counted from zero.
    spec fn index_spec(&self) -> nat;

    /// The place of a value in the order.
    fn index(&self) -> (i: usize)
        ensures
            i == self.index_spec(),
            i < Self::count(),
    ;

    /// Every value of the type, in order.
    fn all() -> (ids: Vec<Self>)
        ensures
            ids@.len() == Self::count(),
            forall|id: Self| #[trigger]
                id.index_spec() < Self::count() && ids@[id.index_spec() as int] == id,
            forall|i: int| 0 <= i < ids@.len() ==> (#[trigger] ids@[i]).index_spec() == i,
    ;
}

/// One value of `T` for every value of the key type `A`.
pub struct Registry<A: Enumerated, T> {
    values: Vec<T>,
    id_type: PhantomData<A>,
}

impl<A: Enumerated, T> View for Registry<A, T> {
    type V = Seq<T>;

    closed spec fn view(&self) -> Seq<T> {
        self.values@
    }
}

impl<A: Enumerated, T> Registry<A, T> {
    #[verifier::type_invariant]
    spec fn complete(self) -> bool {
        self.values@.len() == A::count()
    }

    /// Builds the registry by asking `create_function` for the value of
    /// each key, in the order of the keys.
    pub fn new<F: Fn(A) -> T>(create_function: F) -> (registry: Self)
        requires
            forall|id: A| call_requires(create_function, (id,)),
        ensures
            registry@.len() == A::count(),
            forall|id: A| #[trigger]
                call_ensures(create_function, (id,), registry@[id.index_spec() as int]),
    {
        let ids = A::all();
        let mut values: Vec<T> = Vec::new();
        let mut k: usize = 0;
        while k < ids.len()
            invariant
                k <= ids.len(),
                values@.len() == k,
                forall|id: A| call_requires(create_function, (id,)),
                forall|j: int| 0 <= j < k ==> call_ensures(create_function, (ids@[j],), values@[j]),
            decreases ids.len() - k,
        {
            let value = create_function(ids[k]);
            values.push(value);
            k += 1;
        }
        assert forall|id: A| #[trigger]
            call_ensures(create_function, (id,), values@[id.index_spec() as int]) by {
            assert(ids@[id.index_spec() as int] == id);
        }
        Registry { values, id_type: PhantomData }
    }

    /// Builds the registry from the values of all keys, in the order of the
    /// keys. There must be exactly one value for each key.
    pub fn from_values(values: Vec<T>) -> (registry: Option<Self>)
        ensures
            registry is Some <==> values@.len() == A::count(),
            registry matches Some(r) ==> r@ == values@,
    {
        let ids = A::all();
        if values.len() == ids.len() {
            Some(Registry { values, id_type: PhantomData })
        } else {
            None
        }
    }

    /// The value of key `id`.
    pub fn get(&self, id: A) -> (value: &T)
        ensures
            self@.len() == A::count(),
            *value == self@[id.index_spec() as int],
    {
        proof {
            use_type_invariant(self);
        }
        &self.values[id.index()]
    }

    /// The value of key `id`, to be changed in place.
    pub fn get_mut(&mut self, id: A) -> (value: &mut T)
        ensures
            old(self)@.len() == A::count(),
            *value == old(self)@[id.index_spec() as int],
            final(self)@ == old(self)@.update(id.index_spec() as int, *final(value)),
    {
        proof {
            use_type_invariant(&*self);
        }
        let i = id.index();
        &mut self.values[i]
    }
}

} // verus!
