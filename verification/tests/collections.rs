use gers::collections::{ArrayIterator, I32Array, OutOfBounds, U8Array};

#[test]
fn get_reads_elements_at_non_negative_indices() {
    let mut array = I32Array::new();
    array.add(10);
    array.add(20);
    array.add(30);
    assert_eq!(array.get(0), Ok(10));
    assert_eq!(array.get(1), Ok(20));
    assert_eq!(array.get(2), Ok(30));
}

#[test]
fn get_outside_range_reports_index_and_size() {
    let mut array = I32Array::new();
    array.add(10);
    array.add(20);
    assert_eq!(array.get(2), Err(OutOfBounds { index: 2, size: 2 }));
    assert_eq!(array.get(-3), Err(OutOfBounds { index: -3, size: 2 }));
    assert_eq!(array.get(i32::MIN), Err(OutOfBounds { index: i32::MIN, size: 2 }));
}

#[test]
fn negative_index_is_subtracted_from_length() {
    let mut array = U8Array::new();
    array.add(7);
    assert_eq!(array.get(0), Ok(7));
    assert_eq!(array.get(-1), Err(OutOfBounds { index: -1, size: 1 }));
    assert!(array.in_bounds(-1));
    assert!(!array.in_bounds(-2));
    assert!(!array.in_bounds(1));
}

#[test]
fn iterate_empty_is_done() {
    let array = U8Array::new();
    assert_eq!(array.iterate(None), ArrayIterator::Done);
}

#[test]
fn iterate_three_elements_in_order() {
    let mut array = U8Array::new();
    array.add(1);
    array.add(2);
    array.add(3);
    assert_eq!(array.iterate(None), ArrayIterator::Index(0));
    assert_eq!(array.iterate(Some(0)), ArrayIterator::Index(1));
    assert_eq!(array.iterate(Some(1)), ArrayIterator::Index(2));
    assert_eq!(array.iterate(Some(2)), ArrayIterator::Done);
    assert_eq!(array.iterator_value(1), Ok(2));
}

#[test]
fn out_of_bounds_message() {
    let e = OutOfBounds { index: -4, size: 3 };
    assert_eq!(e.to_string(), "Index out of bounds. Index -4, array size is 3.");
}

#[test]
fn add_then_get_first() {
    let mut array = I32Array::new();
    array.add(42);
    assert_eq!(array.get(0), Ok(42));
    assert_eq!(array.len(), 1);
}

#[test]
fn insert_places_at_offset() {
    let mut array = I32Array::from_vec(vec![1, 3]);
    array.insert(1, 2);
    array.insert(3, 4);
    array.insert(0, 0);
    assert_eq!(array.as_slice(), &[0, 1, 2, 3, 4]);
    assert_eq!(array.into_vec(), vec![0, 1, 2, 3, 4]);
}

#[test]
fn remove_at_reports_unaddressable_indices() {
    let mut array = I32Array::from_vec(vec![1, 2, 3]);
    assert_eq!(array.remove_at(1), Ok(2));
    assert_eq!(array.as_slice(), &[1, 3]);
    assert_eq!(array.remove_at(2), Err(OutOfBounds { index: 2, size: 2 }));
    assert_eq!(array.remove_at(-3), Err(OutOfBounds { index: -3, size: 2 }));
    assert_eq!(array.remove_at(-1), Err(OutOfBounds { index: -1, size: 2 }));
    assert_eq!(array.as_slice(), &[1, 3]);
    array.clear();
    assert_eq!(array.len(), 0);
    assert_eq!(array.remove_at(0), Err(OutOfBounds { index: 0, size: 0 }));
}

#[test]
fn iterate_from_unusual_cursors() {
    let array = U8Array::from_vec(vec![1, 2, 3]);
    assert_eq!(array.iterate(Some(-5)), ArrayIterator::Index(-4));
    assert_eq!(array.iterate(Some(-1)), ArrayIterator::Index(0));
    assert_eq!(array.iterate(Some(7)), ArrayIterator::Done);
    assert_eq!(array.iterate(Some(i32::MAX)), ArrayIterator::Done);
    assert_eq!(U8Array::new().iterate(Some(-1)), ArrayIterator::Done);
    assert_eq!(U8Array::new().iterate(Some(-2)), ArrayIterator::Index(-1));
}

#[test]
fn class_declaration_lists_the_methods() {
    let script = U8Array::script("U8Array");
    assert_eq!(
        script,
        "foreign class U8Array is Sequence {\n  construct new() {}\n\n  foreign get(index)\n  foreign add(value)\n  foreign insert(index, value)\n  foreign removeAt(index)\n  foreign clear()\n  foreign iterate(iterator)\n  foreign iteratorValue(iterator)\n}\n"
    );
    let scripts = gers::collections::register_collections();
    assert_eq!(scripts.len(), 8);
    assert_eq!(scripts[0], script);
    for (script, name) in scripts.iter().zip([
        "U8Array", "U16Array", "U32Array", "I8Array", "I16Array", "I32Array", "F32Array", "F64Array",
    ]) {
        assert!(script.starts_with(&format!("foreign class {} is Sequence", name)));
    }
    assert_eq!(gers::collections::COLLECTIONS_MODULE, "gers.collections");
}

#[test]
fn arrays_of_floats() {
    let mut array = gers::collections::ScriptArray::<f64>::new();
    array.add(1.5);
    array.add(-2.25);
    assert_eq!(array.get(1), Ok(-2.25));
    assert_eq!(array.iterate(Some(0)), ArrayIterator::Index(1));
}

#[test]
fn mutable_slice_writes_through() {
    let mut array = I32Array::from_vec(vec![1, 2, 3]);
    array.as_slice_mut()[1] = 20;
    assert_eq!(array.get(1), Ok(20));
    assert_eq!(array.as_slice(), &[1, 20, 3]);
}

#[test]
fn walk_visits_every_element_once() {
    let array = U8Array::from_vec(vec![5, 6, 7, 8]);
    let mut seen = vec![];
    let mut cursor = None;
    loop {
        match array.iterate(cursor) {
            ArrayIterator::Index(k) => {
                seen.push((k, array.iterator_value(k)));
                cursor = Some(k);
            }
            ArrayIterator::Done => break,
        }
    }
    assert_eq!(seen, vec![(0, Ok(5)), (1, Ok(6)), (2, Ok(7)), (3, Ok(8))]);
    assert_eq!(array.as_slice(), &[5, 6, 7, 8]);
}
