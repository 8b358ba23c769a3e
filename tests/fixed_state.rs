use sector::states::{Fixed};
use sector::Sector;

#[derive(Debug, PartialEq)]
struct ZeroSizedType;

#[derive(Debug)]
struct DropCounter<'a> {
    counter: &'a std::cell::Cell<i32>,
}

impl Drop for DropCounter<'_> {
    fn drop(&mut self) {
        self.counter.set(self.counter.get() + 1);
    }
}

#[test]
fn fixed_test_push_and_get() {
    let mut sector: Sector<Fixed, i32> = Sector::with_capacity(3);

    sector.push(10);
    sector.push(20);
    sector.push(30);
    assert!(!sector.push(40)); // Should return false because there is no capacity left

    assert_eq!(sector.get(0), Some(&10));
    assert_eq!(sector.get(1), Some(&20));
    assert_eq!(sector.get(2), Some(&30));
    assert_eq!(sector.get(3), None);
    assert_eq!(sector.get(4), None);
}

#[test]
fn fixed_test_push_and_get_zst() {
    let mut sector: Sector<Fixed, ZeroSizedType> = Sector::with_capacity(2);

    for _ in 0..2 {
        sector.push(ZeroSizedType);
    }

    // Does not work because the cap for ZSTs is a pretty large number
    assert_eq!(sector.get(0), Some(&ZeroSizedType));
    assert_eq!(sector.get(1), Some(&ZeroSizedType));
    assert_eq!(sector.get(2), None);
    assert_eq!(sector.get(3), None);
}

#[test]
fn fixed_test_pop() {
    let mut sector: Sector<Fixed, i32> = Sector::with_capacity(3);

    sector.push(10);
    sector.push(20);
    sector.push(30);

    assert_eq!(sector.pop(), Some(30));
    assert_eq!(sector.pop(), Some(20));
    assert_eq!(sector.pop(), Some(10));
    assert_eq!(sector.pop(), None);
    assert_eq!(sector.pop(), None);
    assert_eq!(sector.pop(), None);
}

#[test]
fn fixed_test_pop_zst() {
    let mut sector: Sector<Fixed, ZeroSizedType> = Sector::with_capacity(3);

    for _ in 0..3 {
        sector.push(ZeroSizedType);
    }

    assert_eq!(sector.pop(), Some(ZeroSizedType));
    assert_eq!(sector.pop(), Some(ZeroSizedType));
    assert_eq!(sector.pop(), Some(ZeroSizedType));
    assert_eq!(sector.pop(), None);
    assert_eq!(sector.pop(), None);
    assert_eq!(sector.pop(), None);
}

#[test]
fn fixed_test_insert() {
    let mut sector: Sector<Fixed, i32> = Sector::with_capacity(3);

    sector.push(10);
    sector.push(30);
    sector.insert(1, 20);
    assert!(!sector.insert(1, 20)); // Should return false because there is no capacity left
    assert_eq!(sector.get(0), Some(&10));
    assert_eq!(sector.get(1), Some(&20));
    assert_eq!(sector.get(2), Some(&30));
}

#[test]
fn fixed_test_insert_zst() {
    let mut sector: Sector<Fixed, ZeroSizedType> = Sector::with_capacity(3);

    for _ in 0..2 {
        sector.push(ZeroSizedType);
    }
    sector.insert(1, ZeroSizedType);
    assert_eq!(sector.get(0), Some(&ZeroSizedType));
    assert_eq!(sector.get(1), Some(&ZeroSizedType));
    assert_eq!(sector.get(2), Some(&ZeroSizedType));
}

#[test]
fn fixed_test_remove() {
    let mut sector: Sector<Fixed, i32> = Sector::with_capacity(3);

    sector.push(10);
    sector.push(20);
    sector.push(30);

    assert_eq!(sector.remove(1), 20);
    assert_eq!(sector.get(0), Some(&10));
    assert_eq!(sector.get(1), Some(&30));
    assert_eq!(sector.get(2), None);
    assert_eq!(sector.get(2), None);
}

#[test]
fn fixed_test_remove_zst() {
    let mut sector: Sector<Fixed, ZeroSizedType> = Sector::with_capacity(3);

    for _ in 0..3 {
        sector.push(ZeroSizedType);
    }

    assert_eq!(sector.remove(1), ZeroSizedType);
    assert_eq!(sector.get(0), Some(&ZeroSizedType));
    assert_eq!(sector.get(1), Some(&ZeroSizedType));
    assert_eq!(sector.get(2), None);
    assert_eq!(sector.get(3), None);
}

#[test]
fn fixed_test_remove_on_emtpy() {
    let mut sector: Sector<Fixed, i32> = Sector::with_capacity(3);

    sector.push(10);
    sector.push(20);
    sector.push(30);

    assert_eq!(sector.remove(1), 20);
    assert_eq!(sector.get(0), Some(&10));
    assert_eq!(sector.get(1), Some(&30));
    assert_eq!(sector.get(2), None);
}

#[test]
fn fixed_test_remove_on_emtpy_zst() {
    let mut sector: Sector<Fixed, ZeroSizedType> = Sector::with_capacity(3);

    for _ in 0..3 {
        sector.push(ZeroSizedType);
    }

    assert_eq!(sector.remove(1), ZeroSizedType);
    assert_eq!(sector.get(0), Some(&ZeroSizedType));
    assert_eq!(sector.get(1), Some(&ZeroSizedType));
    assert_eq!(sector.get(2), None);
}

#[test]
fn fixed_test_get_mut() {
    let mut sector: Sector<Fixed, i32> = Sector::with_capacity(3);

    sector.push(10);
    sector.push(20);
    sector.push(30);

    if let Some(value) = sector.get_mut(1) {
        *value = 25;
    }

    assert_eq!(sector.get(1), Some(&25));
}

#[test]
fn fixed_test_grow_behavior() {
    let mut sector: Sector<Fixed, i32> = Sector::with_capacity(100);

    for i in 0..100 {
        assert!(sector.push(i));
    }

    assert_eq!(sector.len(), 100);
    assert!(sector.capacity() == 100);
}

#[test]
fn fixed_test_grow_behavior_zst() {
    let mut sector: Sector<Fixed, ZeroSizedType> = Sector::with_capacity(100);

    for _ in 0..100 {
        assert!(sector.push(ZeroSizedType));
    }

    assert_eq!(sector.len(), 100);
    assert!(sector.capacity() == !0);
}

#[test]
fn fixed_test_empty_behavior() {
    let mut sector: Sector<Fixed, i32> = Sector::new();

    assert_eq!(sector.pop(), None);
    assert_eq!(sector.get(0), None);
}

#[test]
fn fixed_test_empty_behavior_zst() {
    let mut sector: Sector<Fixed, ZeroSizedType> = Sector::new();

    assert_eq!(sector.pop(), None);
    assert_eq!(sector.get(0), None);
}

#[test]
fn fixed_test_out_of_bounds_access() {
    let mut sector: Sector<Fixed, i32> = Sector::with_capacity(1);

    sector.push(10);

    assert_eq!(sector.get(1), None);
    assert_eq!(sector.get_mut(1), None);
}

#[test]
fn fixed_test_out_of_bounds_access_zst() {
    let mut sector: Sector<Fixed, ZeroSizedType> = Sector::with_capacity(1);

    sector.push(ZeroSizedType);

    assert_eq!(sector.get(1), None);
    assert_eq!(sector.get_mut(1), None);
}

#[test]
fn fixed_test_deref() {
    let mut sector: Sector<Fixed, i32> = Sector::with_capacity(5);
    sector.push(10);
    sector.push(20);
    sector.push(30);
    sector.push(40);
    sector.push(-10);

    let derefed_sec = &*sector;

    assert_eq!(derefed_sec.get(0), Some(&10));
    assert_eq!(derefed_sec.get(1), Some(&20));
    assert_eq!(derefed_sec.get(2), Some(&30));
    assert_eq!(derefed_sec.get(4), Some(&-10));
    assert_eq!(derefed_sec.get(5), None);
}

#[test]
fn fixed_test_deref_zst() {
    let mut sector: Sector<Fixed, ZeroSizedType> = Sector::with_capacity(5);

    for _ in 0..5 {
        sector.push(ZeroSizedType);
    }
    let derefed_sec = &*sector;

    assert_eq!(derefed_sec.get(0), Some(&ZeroSizedType));
    assert_eq!(derefed_sec.get(1), Some(&ZeroSizedType));
    assert_eq!(derefed_sec.get(2), Some(&ZeroSizedType));
    assert_eq!(derefed_sec.get(4), Some(&ZeroSizedType));
    assert_eq!(derefed_sec.get(5), None);
}

#[test]
fn fixed_test_deref_mut() {
    let mut sector: Sector<Fixed, i32> = Sector::with_capacity(5);
    sector.push(10);
    sector.push(20);
    sector.push(30);
    sector.push(40);
    sector.push(-10);

    let derefed_sec = &mut *sector;

    derefed_sec[0] = 100;
    derefed_sec[1] = 200;
    derefed_sec[4] = -100;

    assert_eq!(derefed_sec.get(0), Some(&100));
    assert_eq!(derefed_sec.get(1), Some(&200));
    assert_eq!(derefed_sec.get(2), Some(&30));
    assert_eq!(derefed_sec.get(4), Some(&-100));
    assert_eq!(derefed_sec.get(5), None);

    assert_eq!(sector.get(0), Some(&100));
    assert_eq!(sector.get(1), Some(&200));
}

#[test]
fn fixed_test_deref_mut_zero_sized() {
    let mut sector: Sector<Fixed, ZeroSizedType> = Sector::with_capacity(5);
    for _ in 0..5 {
        sector.push(ZeroSizedType);
    }

    let derefed_sec = &mut *sector;

    // We can't really update ZSTs...
    assert_eq!(derefed_sec.get(0), Some(&ZeroSizedType));
    assert_eq!(derefed_sec.get(1), Some(&ZeroSizedType));
    assert_eq!(derefed_sec.get(2), Some(&ZeroSizedType));
    assert_eq!(derefed_sec.get(4), Some(&ZeroSizedType));
    assert_eq!(derefed_sec.get(5), None);
}

#[test]
fn fixed_test_into_iter_next() {
    let mut sector: Sector<Fixed, i32> = Sector::with_capacity(6);
    sector.push(1000);
    sector.push(20528);
    sector.push(3522);
    sector.push(529388);
    sector.push(-81893);
    sector.push(-238146);
    assert!(!sector.push(-35892281));

    let mut iter_sec = sector.into_iter();

    assert_eq!(iter_sec.next(), Some(1000));
    assert_eq!(iter_sec.next(), Some(20528));
    assert_eq!(iter_sec.next(), Some(3522));
    assert_eq!(iter_sec.next(), Some(529388));
    assert_eq!(iter_sec.next(), Some(-81893));
    assert_eq!(iter_sec.next(), Some(-238146));
    assert_eq!(iter_sec.next(), None);
    assert_eq!(iter_sec.next(), None);
    assert_eq!(iter_sec.next(), None);
}

#[test]
fn fixed_test_into_iter_next_zst() {
    let mut sector: Sector<Fixed, ZeroSizedType> = Sector::with_capacity(6);
    for _ in 0..6 {
        sector.push(ZeroSizedType);
    }

    let mut iter_sec = sector.into_iter();

    assert_eq!(iter_sec.next(), Some(ZeroSizedType));
    assert_eq!(iter_sec.next(), Some(ZeroSizedType));
    assert_eq!(iter_sec.next(), Some(ZeroSizedType));
    assert_eq!(iter_sec.next(), Some(ZeroSizedType));
    assert_eq!(iter_sec.next(), Some(ZeroSizedType));
    assert_eq!(iter_sec.next(), Some(ZeroSizedType));
    assert_eq!(iter_sec.next(), None);
    assert_eq!(iter_sec.next(), None);
    assert_eq!(iter_sec.next(), None);
    assert_eq!(iter_sec.next(), None);
}

#[test]
fn fixed_test_into_iter_back() {
    let mut sector: Sector<Fixed, i32> = Sector::with_capacity(6);
    sector.push(1000);
    sector.push(20528);
    sector.push(3522);
    sector.push(529388);
    sector.push(-81893);
    sector.push(-238146);

    let mut iter_sec = sector.into_iter();

    assert_eq!(iter_sec.next_back(), Some(-238146));
    assert_eq!(iter_sec.next_back(), Some(-81893));
    assert_eq!(iter_sec.next_back(), Some(529388));
    assert_eq!(iter_sec.next_back(), Some(3522));
    assert_eq!(iter_sec.next_back(), Some(20528));
    assert_eq!(iter_sec.next_back(), Some(1000));
    assert_eq!(iter_sec.next(), None);
    assert_eq!(iter_sec.next(), None);
    assert_eq!(iter_sec.next(), None);
    assert_eq!(iter_sec.next(), None);
}

#[test]
fn fixed_test_into_iter_back_zst() {
    let mut sector: Sector<Fixed, ZeroSizedType> = Sector::with_capacity(6);

    for _ in 0..6 {
        sector.push(ZeroSizedType);
    }

    let mut iter_sec = sector.into_iter();

    assert_eq!(iter_sec.next_back(), Some(ZeroSizedType));
    assert_eq!(iter_sec.next_back(), Some(ZeroSizedType));
    assert_eq!(iter_sec.next_back(), Some(ZeroSizedType));
    assert_eq!(iter_sec.next_back(), Some(ZeroSizedType));
    assert_eq!(iter_sec.next_back(), Some(ZeroSizedType));
    assert_eq!(iter_sec.next_back(), Some(ZeroSizedType));
    assert_eq!(iter_sec.next_back(), None);
    assert_eq!(iter_sec.next_back(), None);
    assert_eq!(iter_sec.next_back(), None);
    assert_eq!(iter_sec.next_back(), None);
}

#[test]
fn fixed_test_drain_next() {
    let mut sector: Sector<Fixed, i32> = Sector::with_capacity(3);

    sector.push(1);
    sector.push(2);
    sector.push(3);

    let mut drain_iter = sector.drain();

    assert_eq!(drain_iter.next(), Some(1));
    assert_eq!(drain_iter.next(), Some(2));
    assert_eq!(drain_iter.next(), Some(3));
    assert_eq!(drain_iter.next(), None);
}

#[test]
fn fixed_test_drain_lifetime() {
    let mut sector: Sector<Fixed, i32> = Sector::with_capacity(3);

    sector.push(1);
    sector.push(2);
    sector.push(3);

    let mut drain_iter = sector.drain();

    assert_eq!(drain_iter.next(), Some(1));
    assert_eq!(drain_iter.next(), Some(2));
    assert_eq!(drain_iter.next(), Some(3));
    assert_eq!(drain_iter.next(), None);
}

#[test]
fn fixed_test_drain_next_zst() {
    let mut sector: Sector<Fixed, ZeroSizedType> = Sector::with_capacity(3);

    for _ in 0..3 {
        sector.push(ZeroSizedType);
    }

    let mut drain_iter = sector.drain();

    assert_eq!(drain_iter.next(), Some(ZeroSizedType));
    assert_eq!(drain_iter.next(), Some(ZeroSizedType));
    assert_eq!(drain_iter.next(), Some(ZeroSizedType));
    assert_eq!(drain_iter.next(), None);
}

#[test]
fn fixed_test_drain_next_back() {
    let mut sector: Sector<Fixed, i32> = Sector::with_capacity(3);

    sector.push(10);
    sector.push(20);
    sector.push(30);

    let mut drain_iter = sector.drain();

    assert_eq!(drain_iter.next_back(), Some(30));
    assert_eq!(drain_iter.next_back(), Some(20));
    assert_eq!(drain_iter.next_back(), Some(10));
    assert_eq!(drain_iter.next_back(), None);
}

#[test]
fn fixed_test_drain_next_back_zst() {
    let mut sector: Sector<Fixed, ZeroSizedType> = Sector::with_capacity(3);

    for _ in 0..3 {
        sector.push(ZeroSizedType);
    }

    let mut drain_iter = sector.drain();

    assert_eq!(drain_iter.next_back(), Some(ZeroSizedType));
    assert_eq!(drain_iter.next_back(), Some(ZeroSizedType));
    assert_eq!(drain_iter.next_back(), Some(ZeroSizedType));
    assert_eq!(drain_iter.next_back(), None);
}

#[test]
fn fixed_test_drain_mixed() {
    let mut sector: Sector<Fixed, i32> = Sector::with_capacity(4);

    sector.push(100);
    sector.push(200);
    sector.push(300);
    sector.push(400);

    let mut drain_iter = sector.drain();

    assert_eq!(drain_iter.next(), Some(100));
    assert_eq!(drain_iter.next_back(), Some(400));
    assert_eq!(drain_iter.next(), Some(200));
    assert_eq!(drain_iter.next_back(), Some(300));
    assert_eq!(drain_iter.next(), None);
    assert_eq!(drain_iter.next_back(), None);
}

#[test]
fn fixed_test_drain_size_hint() {
    let mut sector: Sector<Fixed, i32> = Sector::with_capacity(5);

    for i in 0..5 {
        sector.push(i);
    }

    let mut drain_iter = sector.drain();
    let (lower, upper) = drain_iter.size_hint();
    assert_eq!(lower, 5);
    assert_eq!(upper, Some(5));

    drain_iter.next();
    let (lower, upper) = drain_iter.size_hint();
    assert_eq!(lower, 4);
    assert_eq!(upper, Some(4));
}

#[test]
fn fixed_test_drain_drop() {
    let counter = core::cell::Cell::new(0);
    {
        let mut sector: Sector<Fixed, DropCounter> = Sector::with_capacity(5);
        for _ in 0..5 {
            sector.push(DropCounter { counter: &counter });
        }
        {
            let mut drain_iter = sector.drain();
            assert!(drain_iter.next().is_some());
            assert!(drain_iter.next().is_some());
        }
    }
    assert_eq!(counter.get(), 5);
}

#[test]
fn fixed_test_behaviour_grow() {
    let mut sector: Sector<Fixed, i32> = Sector::with_capacity(19);
    assert_eq!(sector.capacity(), 19);

    assert!(sector.push(1));
    assert_eq!(sector.capacity(), 19);

    assert!(sector.push(2));
    assert_eq!(sector.capacity(), 19);

    assert!(sector.push(3));
    assert_eq!(sector.capacity(), 19);

    assert!(sector.push(4));
    assert_eq!(sector.capacity(), 19);

    assert!(sector.push(5));
    assert_eq!(sector.capacity(), 19);

    assert!(sector.push(6));
    assert_eq!(sector.capacity(), 19);

    assert!(sector.push(7));
    assert_eq!(sector.capacity(), 19);

    assert!(sector.push(8));
    assert_eq!(sector.capacity(), 19);

    assert!(sector.push(9));
    assert_eq!(sector.capacity(), 19);

    for _ in 0..10 {
        assert!(sector.push(10));
    }
    assert_eq!(sector.capacity(), 19);
}

#[test]
fn fixed_test_behaviour_shrink() {
    let mut sector: Sector<Fixed, i32> = Sector::with_capacity(1000);
    assert_eq!(sector.capacity(), 1000);

    for _ in 0..100 {
        assert!(sector.push(1));
    }

    for _ in 0..100 {
        assert!(sector.push(2));
    }

    for _ in 0..100 {
        assert!(sector.push(3));
    }

    for _ in 0..100 {
        assert!(sector.push(4));
    }

    for _ in 0..100 {
        assert!(sector.push(5));
    }

    for _ in 0..100 {
        assert!(sector.push(6));
    }

    for _ in 0..100 {
        assert!(sector.push(7));
    }

    for _ in 0..100 {
        assert!(sector.push(8));
    }

    for _ in 0..100 {
        assert!(sector.push(9));
    }

    for _ in 0..100 {
        assert!(sector.push(10));
    }

    assert_eq!(sector.capacity(), 1000);

    sector.pop();
    sector.pop();
    sector.pop();
    sector.pop();
    sector.pop();

    for _ in 0..994 {
        sector.pop();
    }
    assert_eq!(sector.capacity(), 1000);

    sector.pop();
    assert_eq!(sector.capacity(), 1000);
    assert_eq!(sector.len(), 0)
}
