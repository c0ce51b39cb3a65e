//! Field elements of the compiler: constants, and variables allocated in the circuit whose
//! value may or may not be known.

use vstd::prelude::*;
use vstd::std_specs::cmp::{PartialEqIs, PartialEqSpec, PartialOrdIs, PartialOrdSpec};

verus! {

/// A variable allocated in the circuit: its index in the constraint system and, where it is
/// known, its value.
#[derive(Clone, Copy, Debug)]
pub struct FpGadget<F> {
    pub value: Option<F>,
    pub variable: u64,
}

/// A constant or allocated element in the field.
#[derive(Clone, Copy, Debug)]
pub enum FieldElement<F> {
    Constant(F),
    Allocated(FpGadget<F>),
}

/// Whether the relation holds of the known values of the two elements. Two constants compare
/// their values; two allocated elements compare their values where both are known. An allocated
/// element and a constant, in either order, compare the allocated element's value, where it is
/// known, to the constant (allocated first); where a value is not known the relation does not hold.
pub open spec fn known_relation<F>(a: FieldElement<F>, b: FieldElement<F>, rel: spec_fn(F, F) -> bool) -> bool {
    match (a, b) {
        (FieldElement::Constant(x), FieldElement::Constant(y)) => rel(x, y),
        (FieldElement::Allocated(g), FieldElement::Allocated(h)) => match (g.value, h.value) {
            (Some(x), Some(y)) => rel(x, y),
            (_, _) => false,
        },
        (FieldElement::Allocated(g), FieldElement::Constant(c)) | (FieldElement::Constant(c), FieldElement::Allocated(g)) => match g.value {
            Some(x) => rel(x, c),
            None => false,
        },
    }
}

/// Whether two elements are equal: two constants or a constant and a known allocated value are
/// equal where the values are; two allocated elements are equal where they are the same variable
/// with the same value.
pub open spec fn spec_eq<F: PartialEq>(a: FieldElement<F>, b: FieldElement<F>) -> bool {
    match (a, b) {
        (FieldElement::Constant(x), FieldElement::Constant(y)) => x.is_eq(&y),
        (FieldElement::Allocated(g), FieldElement::Allocated(h)) => g.variable == h.variable && match (g.value, h.value) {
            (Some(x), Some(y)) => x.is_eq(&y),
            (None, None) => true,
            (_, _) => false,
        },
        (FieldElement::Allocated(g), FieldElement::Constant(c)) | (FieldElement::Constant(c), FieldElement::Allocated(g)) => match g.value {
            Some(x) => x.is_eq(&c),
            None => false,
        },
    }
}

/// Compares two optional values as `Option`'s equality does, by the values' equality.
fn option_eq<F: PartialEq>(a: &Option<F>, b: &Option<F>) -> (r: bool)
    ensures
        F::obeys_eq_spec() ==> r == match (*a, *b) {
            (Some(x), Some(y)) => x.is_eq(&y),
            (None, None) => true,
            (_, _) => false,
        },
{
    match (a, b) {
        (Some(x), Some(y)) => x.eq(y),
        (None, None) => true,
        (_, _) => false,
    }
}

impl<F: PartialEq + PartialOrd> FieldElement<F> {
    /// Creates a constant element.
    pub fn new_constant(constant: F) -> (r: Self)
        ensures
            r == FieldElement::Constant(constant),
    {
        FieldElement::Constant(constant)
    }

    /// Returns whether the two elements are equal.
    pub fn eq(&self, other: &Self) -> (r: bool)
        ensures
            F::obeys_eq_spec() ==> r == spec_eq(*self, *other),
    {
        match (self, other) {
            (FieldElement::Constant(fe_1_constant), FieldElement::Constant(fe_2_constant)) => fe_1_constant.eq(fe_2_constant),
            (FieldElement::Allocated(fe_1_gadget), FieldElement::Allocated(fe_2_gadget)) => {
                fe_1_gadget.variable == fe_2_gadget.variable && option_eq(&fe_1_gadget.value, &fe_2_gadget.value)
            },
            (FieldElement::Allocated(fe_gadget), FieldElement::Constant(fe_constant))
            | (FieldElement::Constant(fe_constant), FieldElement::Allocated(fe_gadget)) => match &fe_gadget.value {
                Some(value) => value.eq(fe_constant),
                None => false,
            },
        }
    }

    /// Returns whether the first element is greater than or equal to the second.
    pub fn ge(&self, other: &Self) -> (r: bool)
        ensures
            F::obeys_partial_cmp_spec() ==> r == known_relation(*self, *other, |x: F, y: F| x.is_ge(&y)),
    {
        match (self, other) {
            (FieldElement::Constant(fe_1_constant), FieldElement::Constant(fe_2_constant)) => fe_1_constant.ge(fe_2_constant),
            (FieldElement::Allocated(fe_1_gadget), FieldElement::Allocated(fe_2_gadget)) => match (&fe_1_gadget.value, &fe_2_gadget.value) {
                (Some(value_1), Some(value_2)) => value_1.ge(value_2),
                (_, _) => false,
            },
            (FieldElement::Allocated(fe_gadget), FieldElement::Constant(fe_constant))
            | (FieldElement::Constant(fe_constant), FieldElement::Allocated(fe_gadget)) => match &fe_gadget.value {
                Some(value) => value.ge(fe_constant),
                None => false,
            },
        }
    }

    /// Returns whether the first element is greater than the second.
    pub fn gt(&self, other: &Self) -> (r: bool)
        ensures
            F::obeys_partial_cmp_spec() ==> r == known_relation(*self, *other, |x: F, y: F| x.is_gt(&y)),
    {
        match (self, other) {
            (FieldElement::Constant(fe_1_constant), FieldElement::Constant(fe_2_constant)) => fe_1_constant.gt(fe_2_constant),
            (FieldElement::Allocated(fe_1_gadget), FieldElement::Allocated(fe_2_gadget)) => match (&fe_1_gadget.value, &fe_2_gadget.value) {
                (Some(value_1), Some(value_2)) => value_1.gt(value_2),
                (_, _) => false,
            },
            (FieldElement::Allocated(fe_gadget), FieldElement::Constant(fe_constant))
            | (FieldElement::Constant(fe_constant), FieldElement::Allocated(fe_gadget)) => match &fe_gadget.value {
                Some(value) => value.gt(fe_constant),
                None => false,
            },
        }
    }

    /// Returns whether the first element is less than or equal to the second.
    pub fn le(&self, other: &Self) -> (r: bool)
        ensures
            F::obeys_partial_cmp_spec() ==> r == known_relation(*self, *other, |x: F, y: F| x.is_le(&y)),
    {
        match (self, other) {
            (FieldElement::Constant(fe_1_constant), FieldElement::Constant(fe_2_constant)) => fe_1_constant.le(fe_2_constant),
            (FieldElement::Allocated(fe_1_gadget), FieldElement::Allocated(fe_2_gadget)) => match (&fe_1_gadget.value, &fe_2_gadget.value) {
                (Some(value_1), Some(value_2)) => value_1.le(value_2),
                (_, _) => false,
            },
            (FieldElement::Allocated(fe_gadget), FieldElement::Constant(fe_constant))
            | (FieldElement::Constant(fe_constant), FieldElement::Allocated(fe_gadget)) => match &fe_gadget.value {
                Some(value) => value.le(fe_constant),
                None => false,
            },
        }
    }

    /// Returns whether the first element is less than the second.
    pub fn lt(&self, other: &Self) -> (r: bool)
        ensures
            F::obeys_partial_cmp_spec() ==> r == known_relation(*self, *other, |x: F, y: F| x.is_lt(&y)),
    {
        match (self, other) {
            (FieldElement::Constant(fe_1_constant), FieldElement::Constant(fe_2_constant)) => fe_1_constant.lt(fe_2_constant),
            (FieldElement::Allocated(fe_1_gadget), FieldElement::Allocated(fe_2_gadget)) => match (&fe_1_gadget.value, &fe_2_gadget.value) {
                (Some(value_1), Some(value_2)) => value_1.lt(value_2),
                (_, _) => false,
            },
            (FieldElement::Allocated(fe_gadget), FieldElement::Constant(fe_constant))
            | (FieldElement::Constant(fe_constant), FieldElement::Allocated(fe_gadget)) => match &fe_gadget.value {
                Some(value) => value.lt(fe_constant),
                None => false,
            },
        }
    }
}

} // verus!
