use leo_lang::compiler::field_element::{FieldElement, FpGadget};

fn allocated(value: Option<u64>, variable: u64) -> FieldElement<u64> {
    FieldElement::Allocated(FpGadget { value, variable })
}

#[test]
fn constants_compare_by_value() {
    let a = FieldElement::new_constant(3u64);
    let b = FieldElement::new_constant(5u64);
    assert!(a.lt(&b) && a.le(&b) && !a.gt(&b) && !a.ge(&b) && !a.eq(&b));
    assert!(a.eq(&FieldElement::new_constant(3u64)));
}

#[test]
fn allocated_elements_compare_by_known_values() {
    assert!(allocated(Some(2), 0).lt(&allocated(Some(4), 1)));
    assert!(!allocated(None, 0).lt(&allocated(Some(4), 1)));
    assert!(!allocated(None, 0).ge(&allocated(Some(4), 1)));
    // Equal allocated elements are the same variable with the same value.
    assert!(allocated(Some(2), 0).eq(&allocated(Some(2), 0)));
    assert!(!allocated(Some(2), 0).eq(&allocated(Some(2), 1)));
    assert!(allocated(None, 3).eq(&allocated(None, 3)));
}

#[test]
fn mixed_elements_compare_the_allocated_value_first() {
    let constant = FieldElement::new_constant(5u64);
    let variable = allocated(Some(2), 0);
    assert!(variable.lt(&constant));
    // With the constant first, the comparison is still that of the allocated value to the constant.
    assert!(constant.lt(&variable));
    assert!(constant.eq(&allocated(Some(5), 9)));
    assert!(!constant.eq(&allocated(None, 9)));
}
