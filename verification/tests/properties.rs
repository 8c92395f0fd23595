use static_heap_array::RunOutOfCapacity;
use static_heap_array::StaticHeapArray;

#[test]
fn capacity_is_constant_across_operations() {
    let mut c: StaticHeapArray<i32> = StaticHeapArray::new(3);
    assert_eq!(3, c.get_cap());
    c.push(10).unwrap();
    assert_eq!(3, c.get_cap());
    let _ = c.get(0);
    let _ = c.get_ref(0);
    assert_eq!(3, c.get_cap());
    *c.get_mut(0).unwrap() = 11;
    assert_eq!(3, c.get_cap());
    c.push(20).unwrap();
    c.push(30).unwrap();
    assert_eq!(3, c.get_cap());
    assert!(c.push(40).is_err());
    assert_eq!(3, c.get_cap());
}

#[test]
fn length_grows_by_one_per_successful_push() {
    let mut c: StaticHeapArray<i32> = StaticHeapArray::new(2);
    assert_eq!(0, c.get_size());
    c.push(7).unwrap();
    assert_eq!(1, c.get_size());
    let _ = c.get(0);
    let _ = c.get_ref(0);
    let _ = c.is_full();
    let _ = c.is_out_of_index(0);
    assert_eq!(1, c.get_size());
    *c.get_mut(0).unwrap() = 8;
    assert_eq!(1, c.get_size());
    c.push(9).unwrap();
    assert_eq!(2, c.get_size());
    assert!(c.push(10).is_err());
    assert_eq!(2, c.get_size());
}

#[test]
fn push_at_capacity_fails_and_changes_nothing() {
    let mut c: StaticHeapArray<i32> = StaticHeapArray::from([1, 2]);
    assert_eq!(c.get_cap(), c.get_size());
    assert_eq!(RunOutOfCapacity {}, c.push(3).unwrap_err());
    assert_eq!(2, c.get_size());
    assert_eq!(2, c.get_cap());
    assert_eq!(Some(1), c.get(0));
    assert_eq!(Some(2), c.get(1));
}

#[test]
fn push_into_zero_capacity_fails() {
    let mut c: StaticHeapArray<i32> = StaticHeapArray::new(0);
    assert_eq!(RunOutOfCapacity {}, c.push(1).unwrap_err());
    assert_eq!(0, c.get_size());
    assert!(c.is_full());
}

#[test]
fn pushed_value_is_read_back_at_the_old_length() {
    let mut c: StaticHeapArray<i32> = StaticHeapArray::new(4);
    c.push(5).unwrap();
    c.push(6).unwrap();
    let k = c.get_size();
    assert_eq!(2, k);
    c.push(77).unwrap();
    assert_eq!(k + 1, c.get_size());
    assert_eq!(&77, c.get_ref(k).unwrap());
}

#[test]
fn reads_agree_on_what_is_out_of_range() {
    let mut c: StaticHeapArray<i32> = StaticHeapArray::new(3);
    c.push(1).unwrap();
    c.push(2).unwrap();
    for i in 0..2 {
        assert!(!c.is_out_of_index(i));
        assert!(c.get(i).is_some());
        assert!(c.get_ref(i).is_some());
        assert!(c.get_mut(i).is_some());
    }
    for i in 2..6 {
        assert!(c.is_out_of_index(i));
        assert!(c.get(i).is_none());
        assert!(c.get_ref(i).is_none());
        assert!(c.get_mut(i).is_none());
    }
}

#[test]
fn writing_one_slot_leaves_the_others_alone() {
    let mut c: StaticHeapArray<i32> = StaticHeapArray::from([1, 2, 3, 4, 5]);
    *c.get_mut(2).unwrap() = 99;
    assert_eq!(Some(1), c.get(0));
    assert_eq!(Some(2), c.get(1));
    assert_eq!(Some(99), c.get(2));
    assert_eq!(Some(4), c.get(3));
    assert_eq!(Some(5), c.get(4));
    assert_eq!(5, c.get_size());
}

#[test]
fn iteration_yields_the_whole_prefix_then_ends() {
    let c: StaticHeapArray<i32> = StaticHeapArray::from([1, 2, 3, 4, 5]);
    let mut it = c.iter();
    for i in 0..5 {
        let v = it.next().unwrap();
        assert_eq!(c.get_ref(i).unwrap(), &v);
    }
    assert!(it.next().is_none());
}

#[test]
fn iteration_of_empty_container_ends_at_once() {
    let c: StaticHeapArray<i32> = StaticHeapArray::new(4);
    let mut it = c.iter();
    assert!(it.next().is_none());
}

#[test]
fn exhausted_iterator_stays_exhausted() {
    let c: StaticHeapArray<i32> = StaticHeapArray::from([1, 2]);
    let mut it = c.iter();
    assert!(it.next().is_some());
    assert!(it.next().is_some());
    assert!(it.next().is_none());
    assert!(it.next().is_none());
    assert!(it.next().is_none());
}

#[test]
fn from_fills_to_capacity_in_order() {
    let c: StaticHeapArray<i32> = StaticHeapArray::from([4, 9, 16]);
    assert_eq!(3, c.get_cap());
    assert_eq!(3, c.get_size());
    assert!(c.is_full());
    assert_eq!(&4, c.get_ref(0).unwrap());
    assert_eq!(&9, c.get_ref(1).unwrap());
    assert_eq!(&16, c.get_ref(2).unwrap());
}

#[test]
fn from_an_empty_array_is_empty_and_full() {
    let c: StaticHeapArray<i32> = StaticHeapArray::from([]);
    assert_eq!(0, c.get_cap());
    assert_eq!(0, c.get_size());
    assert!(c.is_full());
}
