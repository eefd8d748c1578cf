use generator_utils::iter::GenIter;
use generator_utils::{Generator, GeneratorExt, GeneratorState, PinGeneratorExt, VecGen};

fn counting(n: u32) -> VecGen<u32, ()> {
    VecGen::new((0..n).collect(), ())
}

fn drain<G: Generator>(g: &mut G) -> (Vec<G::Yield>, G::Return) {
    let mut out = Vec::new();
    loop {
        match g.resume() {
            GeneratorState::Yielded(y) => out.push(y),
            GeneratorState::Complete(r) => return (out, r),
        }
    }
}

#[test]
fn generator_mapped() {
    let mapped = counting(5).mapped(|gen| gen.map(|x: u32| x * 2));

    let mut iter = GenIter::new(mapped);

    for n in (0..5).map(|n| n * 2) {
        assert_eq!(iter.next(), Some(n));
    }
    assert!(iter.next().is_none());

    assert!(iter.next().is_none())
}

#[test]
fn iter_movable_generator() {
    let mut iter = GenIter::new(counting(5));

    for n in 0..5 {
        let i = iter.next().unwrap();
        assert!(n == i);
    }
    assert!(iter.next().is_none());

    // No panic when next() is called after the generator has completed.
    assert!(iter.next().is_none());
}

#[test]
fn iter_static_generator() {
    let x = 10;
    let r = &x;
    let mut iter = GenIter::pinned(Box::new(VecGen::new((0..5u32).map(|i| i * *r).collect(), ())));

    for n in (0..5).map(|n| n * 10) {
        let i = iter.next().unwrap();
        assert!(n == i);
    }
    assert!(iter.next().is_none());

    // No panic when next() is called after the generator has completed.
    assert!(iter.next().is_none())
}

#[test]
fn iter_over_vec() {
    let mut vec = vec![1, 2, 3, 4, 5];
    let v: Vec<&mut i32> = vec.iter_mut().collect();
    let mut iterable = GenIter::new(VecGen::new(v, ()));

    let mut count = 0;
    while iterable.next().is_some() {
        count += 1;
    }
    assert!(count == 5);
}

#[test]
fn ergo_pin() {
    fn foo<T: Default>(v: &mut Vec<T>) -> GenIter<VecGen<&mut T, ()>> {
        v.insert(0, Default::default());
        GenIter::new(VecGen::new(v.iter_mut().collect(), ()))
    }

    let mut v = vec![1, 2, 3, 4, 5, 6, 7];

    {
        let mut iter = foo(&mut v);

        for n in 0..=7 {
            let x = iter.next().unwrap();
            assert_eq!(*x, n);
        }
        assert!(iter.next().is_none());

        assert!(iter.next().is_none());
    }

    assert!(v.len() == 8);
}

#[test]
fn exhausted_adapter_never_resumes_again() {
    let mut g = counting(2);
    {
        let mut iter = g.iter();
        assert_eq!(iter.next(), Some(0));
        assert_eq!(iter.next(), Some(1));
        assert_eq!(iter.next(), None);
        assert_eq!(iter.next(), None);
        assert_eq!(iter.next(), None);
    }
    assert_eq!(g.resumes(), 3);
}

#[test]
fn empty_generator_is_exhausted_at_once() {
    let mut iter = GenIter::new(VecGen::<u32, ()>::new(Vec::new(), ()));
    assert_eq!(iter.next(), None);
    assert_eq!(iter.next(), None);
}

#[test]
fn map_keeps_order_and_result() {
    let mut m = VecGen::new(vec![1u32, 2, 3], 7u8).map(|x: u32| x * 10);
    assert_eq!(drain(&mut m), (vec![10, 20, 30], 7u8));
}

#[test]
fn map_on_nothing_yields_nothing() {
    let mut m = VecGen::new(Vec::<u32>::new(), 'z').map(|x: u32| x + 1);
    assert_eq!(drain(&mut m), (vec![], 'z'));
}

#[test]
fn filter_selects_even_values() {
    let mut g = VecGen::new(vec![1u32, 2, 3, 4, 5], ());
    {
        let mut f = g.by_ref().filter(|x: &u32| *x % 2 == 0);
        assert_eq!(drain(&mut f), (vec![2, 4], ()));
    }
    // Five values examined, plus the completion.
    assert_eq!(g.resumes(), 6);
}

#[test]
fn filter_rejecting_everything_completes() {
    let mut f = VecGen::new(vec![1u32, 3, 5], 9i64).filter(|x: &u32| *x % 2 == 0);
    assert_eq!(drain(&mut f), (vec![], 9i64));
}

#[test]
fn take_zero_never_resumes() {
    let mut g = counting(5);
    {
        let mut t = (&mut g).take(0);
        assert!(matches!(t.resume(), GeneratorState::Complete(())));
        assert!(matches!(t.resume(), GeneratorState::Complete(())));
    }
    assert_eq!(g.resumes(), 0);
}

#[test]
fn take_three_of_five() {
    let mut g = counting(5);
    {
        let mut t = (&mut g).take(3);
        assert_eq!(drain(&mut t), (vec![0, 1, 2], ()));
        assert!(matches!(t.resume(), GeneratorState::Complete(())));
    }
    assert_eq!(g.resumes(), 3);
}

#[test]
fn take_more_than_available() {
    let mut t = counting(2).take(usize::MAX);
    assert_eq!(drain(&mut t), (vec![0, 1], ()));
    assert!(matches!(t.resume(), GeneratorState::Complete(())));
}

#[test]
fn take_while_stops_at_first_rejected() {
    let mut g = VecGen::new(vec![1u32, 2, 3, 4, 1], ());
    {
        let mut t = (&mut g).take_while(|x: &u32| *x < 4);
        assert_eq!(drain(&mut t), (vec![1, 2, 3], ()));
        assert!(matches!(t.resume(), GeneratorState::Complete(())));
    }
    // The rejected 4 was examined; the trailing 1 never was.
    assert_eq!(g.resumes(), 4);
}

#[test]
fn take_while_through_inner_completion() {
    let mut g = counting(3);
    {
        let mut t = (&mut g).take_while(|_: &u32| true);
        assert_eq!(drain(&mut t), (vec![0, 1, 2], ()));
        assert!(matches!(t.resume(), GeneratorState::Complete(())));
    }
    assert_eq!(g.resumes(), 4);
}

#[test]
fn fold_sums_values() {
    assert_eq!(counting(5).fold(0u32, |acc: u32, y: u32| acc + y), 10);
}

#[test]
fn fold_ret_keeps_result() {
    let g = VecGen::new(vec![2u64, 3, 4], "done");
    assert_eq!(g.fold_ret(1u64, |acc: u64, y: u64| acc * y), (24, "done"));
}

#[test]
fn fold_over_nothing_is_init() {
    assert_eq!(counting(0).fold(42u32, |acc: u32, y: u32| acc + y), 42);
}

#[test]
fn combinators_chain() {
    let g = counting(10)
        .filter(|x: &u32| *x % 3 != 0)
        .map(|x: u32| x * x)
        .take_while(|x: &u32| *x < 50)
        .take(3);
    let mut iter = g.into_iter();
    assert_eq!(iter.next(), Some(1));
    assert_eq!(iter.next(), Some(4));
    assert_eq!(iter.next(), Some(16));
    assert_eq!(iter.next(), None);
}
