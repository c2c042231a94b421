use unioncollections::layout::{Type1, Type2, Type3, TypeUnion};
use unioncollections::unionvec::{AlignError, UnionVec};

#[test]
fn test_unionvec_change_to() {
    let mut union_vec = UnionVec::<String, (String, u64)>::new();
    union_vec.push(String::from("test"));
    assert_eq!(union_vec.pop(), Some(String::from("test")));

    let mut union_vec = union_vec.change_to::<Type2>();
    union_vec.push(10);

    assert_eq!(union_vec.len(), 1);
    assert_eq!(union_vec.pop(), Some(10));
}

#[test]
fn test_union_vec_map() {
    let mut union_vec = UnionVec::<&str, (&str, u64)>::new();

    for s in vec!["10", "20", "30", "40"] {
        union_vec.push(s);
    }

    let mut union_vec = union_vec.map::<Type2, _>(|s| s.parse().unwrap());

    assert_eq!(union_vec.len(), 4);
    assert_eq!(union_vec.pop(), Some(40));
}

#[test]
fn test_union_vec_filter_map() {
    let mut union_vec = UnionVec::<&str, (&str, u64)>::new();

    for s in vec!["10", "20", "30", "40e"] {
        union_vec.push(s);
    }

    let union_vec = union_vec.filter_map::<Type2, _>(|s| s.parse().ok());

    // the last parse failed, so there are only 3 items in the vec.
    assert_eq!(union_vec.len(), 3);

    // the capacity is still 4!
    assert_eq!(union_vec.capacity(), 4);
}

#[test]
fn test_union_vec_into_vec() {
    let mut union_vec = UnionVec::<&str, (&str, i64)>::new();

    for s in vec!["10", "20", "30", "40"] {
        union_vec.push(s);
    }

    let union_vec = union_vec.filter_map::<Type2, _>(|s| s.parse().ok());

    let v = union_vec.into_vec().unwrap();
    assert_eq!(v.capacity(), 8);
    assert_eq!(v, vec![10, 20, 30, 40]);
}

#[test]
fn test_union_vec_map_into_vec() {
    let union_vec: UnionVec<&str, (&str, i32)> = UnionVec::from_iter(vec!["10", "20", "30", "40"]);

    assert_eq!(union_vec.capacity(), 4);
    let v = union_vec
        .flat_map_into_vec::<Type2, _>(|s| s.parse().ok())
        .unwrap();

    assert_eq!(v.capacity(), 16);
    assert_eq!(v, vec![10, 20, 30, 40]);
}

#[test]
fn new_allocates_no_slots() {
    let v = UnionVec::<u32, (u32, u64)>::new();
    assert_eq!(v.len(), 0);
    assert_eq!(v.capacity(), 0);
}

#[test]
fn with_capacity_holds_exactly_that_many_without_growing() {
    let mut v = UnionVec::<String, (String, u32)>::with_capacity(10);
    assert_eq!(v.len(), 0);
    assert_eq!(v.capacity(), 10);
    for i in 0..10 {
        v.push(format!("{}", i));
        assert_eq!(v.capacity(), 10);
    }
    v.push(String::from("eleven"));
    assert_eq!(v.capacity(), 20);
    assert_eq!(v.len(), 11);
}

#[test]
fn push_grows_by_doubling_after_the_first_slots() {
    let mut v = UnionVec::<u64, (u64, u32)>::new();
    let mut caps = Vec::new();
    for i in 0..9u64 {
        v.push(i);
        caps.push(v.capacity());
    }
    assert_eq!(caps, vec![4, 4, 4, 4, 8, 8, 8, 8, 16]);
}

#[test]
fn push_of_byte_slots_starts_with_eight() {
    let mut v = UnionVec::<u8, (u8, bool)>::new();
    v.push(1);
    assert_eq!(v.capacity(), 8);
}

#[test]
fn push_of_large_slots_starts_with_one() {
    let mut v = UnionVec::<[u8; 2000], ([u8; 2000], u8)>::new();
    v.push([0; 2000]);
    assert_eq!(v.capacity(), 1);
    v.push([1; 2000]);
    assert_eq!(v.capacity(), 2);
}

#[test]
fn zero_sized_slots_have_unbounded_capacity() {
    let mut v = UnionVec::<(), ((), ())>::new();
    assert_eq!(v.capacity(), usize::MAX);
    v.push(());
    assert_eq!(v.capacity(), usize::MAX);
    assert_eq!(v.len(), 1);
}

#[test]
fn pop_undoes_push() {
    let mut v = UnionVec::<u32, (u32, u8)>::new();
    v.push(1);
    v.push(2);
    v.push(7);
    assert_eq!(v.pop(), Some(7));
    assert_eq!(v.iter(), &[1, 2]);
    assert_eq!(v.pop(), Some(2));
    assert_eq!(v.pop(), Some(1));
    assert_eq!(v.pop(), None);
    assert_eq!(v.len(), 0);
}

#[test]
fn change_to_keeps_slots_and_drops_elements() {
    let mut v = UnionVec::<u8, (u8, u64)>::with_capacity(6);
    v.push(1);
    v.push(2);
    let w = v.change_to::<Type2>();
    assert_eq!(w.len(), 0);
    assert_eq!(w.capacity(), 6);
    let back = w.change_to::<Type1>();
    assert_eq!(back.capacity(), 6);
}

#[test]
fn map_keeps_order_and_slots() {
    let v = UnionVec::<u8, (u8, u64)>::from_iter(vec![1, 2, 3]);
    let w = v.map::<Type2, _>(|x| (x as u64) * 100);
    assert_eq!(w.capacity(), 3);
    assert_eq!(w.iter(), &[100, 200, 300]);
}

#[test]
fn filter_map_keeps_order_and_slots() {
    let v = UnionVec::<i32, (i32, u32)>::from_iter(vec![-1, 5, -7, 9, 0]);
    let w = v.filter_map::<Type2, _>(|x| if x >= 0 { Some(x as u32) } else { None });
    assert_eq!(w.iter(), &[5, 9, 0]);
    assert_eq!(w.capacity(), 5);
}

#[test]
fn into_vec_of_misaligned_member_is_refused() {
    let v = UnionVec::<u64, (u8, u8)>::from_iter(vec![1, 2]);
    assert_eq!(v.into_vec(), Err(AlignError));
}

#[test]
fn map_into_vec_within_one_member_type() {
    let v = UnionVec::<u8, (u8, u8)>::from_iter(vec![1, 2]);
    let r = v.map_into_vec::<Type2, _>(|x| x + 1);
    assert_eq!(r, Ok(vec![2, 3]));
}

#[test]
fn map_into_vec_rereads_the_slot_bytes() {
    // slots of 8 bytes, reread as 2-byte elements: 4 slots give 16 elements
    let v = UnionVec::<u64, (u64, u16)>::from_iter(vec![1, 2, 3, 4]);
    let r = v.map_into_vec::<Type2, _>(|x| (x * 3) as u16).unwrap();
    assert_eq!(r, vec![3, 6, 9, 12]);
    assert_eq!(r.capacity(), 16);
}

#[test]
fn map_into_vec_agrees_with_map_then_into_vec() {
    let a = UnionVec::<u8, (u8, u32)>::from_iter(vec![4, 5, 6]);
    let b = UnionVec::<u8, (u8, u32)>::from_iter(vec![4, 5, 6]);
    let direct = a.map_into_vec::<Type2, _>(|x| x as u32 + 1).unwrap();
    let via_map = b.map::<Type2, _>(|x| x as u32 + 1).into_vec().unwrap();
    assert_eq!(direct, via_map);
}

#[test]
fn flat_map_into_vec_agrees_with_filter_map_then_into_vec() {
    let items = vec!["1", "x", "3"];
    let a = UnionVec::<&str, (&str, u64)>::from_iter(items.clone());
    let b = UnionVec::<&str, (&str, u64)>::from_iter(items);
    let direct = a.flat_map_into_vec::<Type2, _>(|s| s.parse().ok()).unwrap();
    let via = b.filter_map::<Type2, _>(|s| s.parse().ok()).into_vec().unwrap();
    assert_eq!(direct, via);
    assert_eq!(direct, vec![1, 3]);
}

#[test]
fn into_vec_rereads_capacity_in_bytes() {
    // slots of 16 bytes reread as 8-byte elements: 3 slots give 6 elements
    let v = UnionVec::<u64, (u64, [u64; 2])>::from_iter(vec![7, 8, 9]);
    let out = v.into_vec().unwrap();
    assert_eq!(out, vec![7, 8, 9]);
    assert_eq!(out.capacity(), 6);
}

#[test]
fn drain_removes_a_range() {
    let mut v = UnionVec::<u32, (u32, u8)>::from_iter(vec![0, 1, 2, 3, 4, 5]);
    let removed = v.drain(1..4);
    assert_eq!(removed, vec![1, 2, 3]);
    assert_eq!(v.iter(), &[0, 4, 5]);
    assert_eq!(v.capacity(), 6);
    let all = v.drain(0..3);
    assert_eq!(all, vec![0, 4, 5]);
    assert_eq!(v.len(), 0);
}

#[test]
fn iter_mut_changes_in_place() {
    let mut v = UnionVec::<u32, (u32, u8)>::from_iter(vec![1, 2, 3]);
    for x in v.iter_mut() {
        *x *= 10;
    }
    assert_eq!(v.iter(), &[10, 20, 30]);
    assert_eq!(v.into_data(), vec![10, 20, 30]);
}

#[test]
fn slot_layout_of_pairs_and_triples() {
    assert_eq!(<(&str, u64) as TypeUnion>::slot_size(), 16);
    assert_eq!(<(u8, u16) as TypeUnion>::slot_size(), 2);
    assert_eq!(<(u8, u16) as TypeUnion>::slot_align(), 2);
    assert_eq!(<([u8; 3], u16) as TypeUnion>::slot_size(), 4);
    assert_eq!(<([u8; 5], u32, u16) as TypeUnion>::slot_size(), 8);
    assert_eq!(<((), ()) as TypeUnion>::slot_size(), 0);
}

#[test]
fn into_data_reserves_the_slot_count() {
    let v = UnionVec::<u32, (u32, u64)>::with_capacity(10);
    let data = v.into_data();
    assert_eq!(data.len(), 0);
    assert_eq!(data.capacity(), 10);
}

#[test]
fn with_capacity_reserves_room() {
    let mut v = UnionVec::<u32, (u32, u64)>::with_capacity(10);
    for i in 0..10 {
        v.push(i);
    }
    assert_eq!(v.capacity(), 10);
    let data = v.into_data();
    assert_eq!(data, (0..10).collect::<Vec<u32>>());
    assert_eq!(data.capacity(), 10);
}

#[test]
fn default_is_new() {
    let v: UnionVec<u32, (u32, u64)> = Default::default();
    assert_eq!(v.len(), 0);
    assert_eq!(v.capacity(), 0);
}

#[test]
fn clone_keeps_elements_with_a_slot_count_of_their_number() {
    let mut v = UnionVec::<String, (String, u8)>::with_capacity(3);
    v.push(String::from("a"));
    v.push(String::from("b"));
    let w = v.clone();
    assert_eq!(v.capacity(), 3);
    assert_eq!(w.capacity(), 2);
    assert_eq!(w.iter(), &[String::from("a"), String::from("b")]);
    assert_eq!(v.iter(), w.iter());
}

#[test]
fn into_vec_undoes_from_iter() {
    let items = vec![String::from("x"), String::from("y"), String::from("z")];
    let v = UnionVec::<String, (String, u16)>::from_iter(items.clone());
    assert_eq!(v.into_vec(), Ok(items));
    let nums = vec![3u16, 1, 4];
    let v = UnionVec::<u16, (String, u16)>::from_iter(nums.clone());
    assert_eq!(v.into_vec(), Ok(nums));
}

#[test]
fn map_twice_equals_map_by_composition() {
    let a = UnionVec::<u8, (u8, u16, u32)>::from_iter(vec![1, 2, 3]);
    let b = UnionVec::<u8, (u8, u16, u32)>::from_iter(vec![1, 2, 3]);
    let f = |x: u8| x as u16 * 10;
    let g = |y: u16| y as u32 + 1;
    let twice = a.map::<Type2, _>(f).map::<Type3, _>(g);
    let once = b.map::<Type3, _>(|x| g(f(x)));
    assert_eq!(twice.iter(), once.iter());
    assert_eq!(twice.iter(), &[11, 21, 31]);
    assert_eq!(twice.capacity(), once.capacity());
}

#[test]
fn pop_after_push_restores_the_vector() {
    let mut v = UnionVec::<u32, (u32, u8)>::from_iter(vec![5, 6]);
    v.push(9);
    assert_eq!(v.pop(), Some(9));
    assert_eq!(v.iter(), &[5, 6]);
    assert_eq!(v.len(), 2);
}
