use vstd::prelude::*;

verus! {

/// The shape of a type as far as handles are concerned.
pub enum TypeShape {
    /// A type that holds no handle: numbers, strings, paths, durations.
    Leaf,
    /// A plain value handle, which may be unresolved.
    Handle,
    /// A resolved handle.
    ResolvedHandle,
    /// A marker that holds no data, whatever its parameter.
    Phantom(Box<TypeShape>),
    /// A container or an owner of values of one type: an option, a vector,
    /// an array, a slice, a set, a box, a shared pointer, a lock, a cell, a
    /// reference.
    Wrap(Box<TypeShape>),
    /// A type over two: a map from keys to values, a result, or a pair. A
    /// longer tuple is a pair of its first component and the rest.
    Pair(Box<TypeShape>, Box<TypeShape>),
}

/// No unresolved handle can be reached through a value of shape `s`.
pub open spec fn fully_resolved(s: TypeShape) -> bool
    decreases s,
{
    match s {
        TypeShape::Leaf => true,
        TypeShape::Handle => false,
        TypeShape::ResolvedHandle => true,
        TypeShape::Phantom(_) => true,
        TypeShape::Wrap(a) => fully_resolved(*a),
        TypeShape::Pair(a, b) => fully_resolved(*a) && fully_resolved(*b),
    }
}

/// A plain value handle can be reached through a value of shape `s`.
pub open spec fn embeds_handle(s: TypeShape) -> bool
    decreases s,
{
    match s {
        TypeShape::Leaf => false,
        TypeShape::Handle => true,
        TypeShape::ResolvedHandle => false,
        TypeShape::Phantom(_) => false,
        TypeShape::Wrap(a) => embeds_handle(*a),
        TypeShape::Pair(a, b) => embeds_handle(*a) || embeds_handle(*b),
    }
}

/// Decides whether no unresolved handle can be reached through a value of
/// shape `s`.
pub fn is_fully_resolved(s: &TypeShape) -> (r: bool)
    ensures
        r == fully_resolved(*s),
    decreases s,
{
    match s {
        TypeShape::Leaf => true,
        TypeShape::Handle => false,
        TypeShape::ResolvedHandle => true,
        TypeShape::Phantom(_) => true,
        TypeShape::Wrap(a) => is_fully_resolved(a),
        TypeShape::Pair(a, b) => is_fully_resolved(a) && is_fully_resolved(b),
    }
}

/// A type is fully resolved exactly when no plain handle can be reached
/// through it, whatever containers stand around the handle.
pub proof fn lemma_resolved_iff_no_handle(s: TypeShape)
    ensures
        fully_resolved(s) <==> !embeds_handle(s),
    decreases s,
{
    match s {
        TypeShape::Wrap(a) => {
            lemma_resolved_iff_no_handle(*a);
        },
        TypeShape::Pair(a, b) => {
            lemma_resolved_iff_no_handle(*a);
            lemma_resolved_iff_no_handle(*b);
        },
        _ => {},
    }
}

/// Options, containers and owners of fully resolved types are fully
/// resolved, as are maps, results and tuples over two of them, and markers
/// over anything.
pub proof fn lemma_closure(a: TypeShape, b: TypeShape)
    requires
        fully_resolved(a),
        fully_resolved(b),
    ensures
        fully_resolved(TypeShape::Wrap(Box::new(a))),
        fully_resolved(TypeShape::Pair(Box::new(a), Box::new(b))),
        forall|any: TypeShape| #[trigger] fully_resolved(TypeShape::Phantom(Box::new(any))),
{
}

/// A type through which a plain handle can be reached is never fully
/// resolved, however deep the handle sits.
pub proof fn lemma_handle_never_resolved(s: TypeShape)
    requires
        embeds_handle(s),
    ensures
        !fully_resolved(s),
        !fully_resolved(TypeShape::Wrap(Box::new(s))),
        forall|o: TypeShape| #[trigger] fully_resolved(TypeShape::Pair(Box::new(s), Box::new(o)))
            == false,
        forall|o: TypeShape| #[trigger] fully_resolved(TypeShape::Pair(Box::new(o), Box::new(s)))
            == false,
{
    lemma_resolved_iff_no_handle(s);
}

} // verus!
