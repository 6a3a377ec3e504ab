use staticvec::{StaticVecDrain, StaticVecIntoIter, StaticVecIterConst, StaticVecIterMut};

#[test]
fn iter_const_front_to_back() {
    let data = [1, 2, 3];
    let mut it: StaticVecIterConst<i32, 4> = StaticVecIterConst::new(&data);
    assert_eq!(it.len(), 3);
    assert_eq!(it.next(), Some(&1));
    assert_eq!(it.next(), Some(&2));
    assert_eq!(it.next(), Some(&3));
    assert_eq!(it.next(), None);
    assert_eq!(it.next(), None);
    assert!(it.is_empty());
}

#[test]
fn iter_const_both_ends_meet() {
    let data = [1, 2, 3, 4, 5];
    let mut it: StaticVecIterConst<i32, 5> = StaticVecIterConst::new(&data);
    assert_eq!(it.next_back(), Some(&5));
    assert_eq!(it.next(), Some(&1));
    assert_eq!(it.as_slice(), &[2, 3, 4]);
    assert_eq!(it.size_hint(), (3, Some(3)));
    assert_eq!(it.next_back(), Some(&4));
    assert_eq!(it.next_back(), Some(&3));
    assert_eq!(it.next(), Some(&2));
    assert_eq!(it.next(), None);
    assert_eq!(it.next_back(), None);
    assert_eq!(it.size_hint(), (0, Some(0)));
    assert_eq!(it.as_slice(), &[] as &[i32]);
}

#[test]
fn iter_const_clone_is_independent() {
    let data = [7, 8];
    let mut it: StaticVecIterConst<i32, 2> = StaticVecIterConst::new(&data);
    assert_eq!(it.next(), Some(&7));
    let mut copy = it.clone();
    assert_eq!(copy.next(), Some(&8));
    assert_eq!(copy.next(), None);
    assert_eq!(it.len(), 1);
    assert_eq!(it.next(), Some(&8));
}

#[test]
fn iter_const_text() {
    let data = [1, 2, 3];
    let mut it: StaticVecIterConst<i32, 3> = StaticVecIterConst::new(&data);
    assert_eq!(
        it.bounds_to_string(),
        "Current value of element at `start`: 1\nCurrent value of element at `end`: 3"
    );
    it.next();
    assert_eq!(
        it.bounds_to_string(),
        "Current value of element at `start`: 2\nCurrent value of element at `end`: 3"
    );
    assert_eq!(it.debug_string(), "StaticVecIterConst([2, 3])");
}

#[test]
fn iter_const_empty() {
    let data: [u8; 0] = [];
    let mut it: StaticVecIterConst<u8, 0> = StaticVecIterConst::new(&data);
    assert!(it.is_empty());
    assert_eq!(it.len(), 0);
    assert_eq!(it.next(), None);
    assert_eq!(it.next_back(), None);
    assert_eq!(it.debug_string(), "StaticVecIterConst([])");
}

#[test]
fn iter_mut_writes_reach_the_data() {
    let mut data = vec![1, 2, 3, 4];
    {
        let mut it: StaticVecIterMut<i32, 4> = StaticVecIterMut::new(data.as_mut_slice());
        assert_eq!(it.len(), 4);
        if let Some(x) = it.next() {
            *x = 10;
        }
        if let Some(x) = it.next_back() {
            *x = 40;
        }
        assert_eq!(it.as_slice(), &[2, 3]);
        assert_eq!(it.size_hint(), (2, Some(2)));
        if let Some(x) = it.next() {
            *x += 18;
        }
        if let Some(x) = it.next_back() {
            *x = 30;
        }
        assert!(it.next().is_none());
        assert!(it.next_back().is_none());
        assert!(it.is_empty());
    }
    assert_eq!(data, vec![10, 20, 30, 40]);
}

#[test]
fn iter_mut_text() {
    let mut data = [5u8, 6, 7];
    let mut it: StaticVecIterMut<u8, 8> = StaticVecIterMut::new(&mut data);
    assert_eq!(
        it.bounds_to_string(),
        "Current value of element at `start`: 5\nCurrent value of element at `end`: 7"
    );
    it.next_back();
    assert_eq!(it.debug_string(), "StaticVecIterMut([5, 6])");
}

#[test]
fn into_iter_moves_items_out() {
    let items = vec![String::from("a"), String::from("b"), String::from("c")];
    let mut it: StaticVecIntoIter<String, 3> = StaticVecIntoIter::new(items);
    assert_eq!(it.len(), 3);
    assert_eq!(it.next_back(), Some(String::from("c")));
    assert_eq!(it.as_slice(), &[String::from("a"), String::from("b")]);
    assert_eq!(
        it.bounds_to_string(),
        "Current value of element at `start`: \"a\"\nCurrent value of element at `end`: \"b\""
    );
    assert_eq!(it.debug_string(), "StaticVecIntoIter([\"a\", \"b\"])");
    assert_eq!(it.next(), Some(String::from("a")));
    assert_eq!(it.size_hint(), (1, Some(1)));
    assert_eq!(it.next(), Some(String::from("b")));
    assert_eq!(it.next(), None);
    assert_eq!(it.next_back(), None);
    assert!(it.is_empty());
}

#[test]
fn drain_closes_the_gap() {
    let mut vec = vec![0, 1, 2, 3, 4, 5];
    {
        let mut drain: StaticVecDrain<i32, 8> = StaticVecDrain::new(&mut vec, 1, 4);
        assert_eq!(drain.len(), 3);
        assert_eq!(drain.as_slice(), &[1, 2, 3]);
        assert_eq!(
            drain.bounds_to_string(),
            "Current value of element at `start`: 1\nCurrent value of element at `end`: 3"
        );
        assert_eq!(drain.debug_string(), "StaticVecDrain([1, 2, 3])");
        assert_eq!(drain.next(), Some(1));
        assert_eq!(drain.next_back(), Some(3));
        assert_eq!(drain.size_hint(), (1, Some(1)));
    }
    assert_eq!(vec, vec![0, 4, 5]);
}

#[test]
fn drain_everything_and_nothing() {
    let mut vec = vec![9, 8, 7];
    {
        let mut drain: StaticVecDrain<i32, 3> = StaticVecDrain::new(&mut vec, 0, 3);
        assert_eq!(drain.next_back(), Some(7));
        assert_eq!(drain.next_back(), Some(8));
        assert_eq!(drain.next_back(), Some(9));
        assert_eq!(drain.next_back(), None);
        assert!(drain.is_empty());
    }
    assert!(vec.is_empty());
    let mut vec = vec![1, 2];
    {
        let mut drain: StaticVecDrain<i32, 2> = StaticVecDrain::new(&mut vec, 1, 1);
        assert!(drain.is_empty());
        assert_eq!(drain.next(), None);
    }
    assert_eq!(vec, vec![1, 2]);
}

#[test]
fn every_item_once_from_both_ends() {
    let data = [1, 2, 3, 4, 5, 6];
    let mut it: StaticVecIterConst<i32, 6> = StaticVecIterConst::new(&data);
    let mut front = Vec::new();
    let mut back = Vec::new();
    let mut turn = true;
    loop {
        let item = if turn { it.next() } else { it.next_back() };
        match item {
            Some(x) if turn => front.push(*x),
            Some(x) => back.push(*x),
            None => break,
        }
        turn = !turn;
    }
    assert_eq!(front, vec![1, 2, 3]);
    assert_eq!(back, vec![6, 5, 4]);
}

#[test]
fn iter_const_run_calls() {
    let data = [1, 2, 3, 4, 5];
    let mut it: StaticVecIterConst<i32, 5> = StaticVecIterConst::new(&data);
    let (front, back) = it.run_calls(&[true, false, true]);
    assert_eq!(front, vec![&1, &2]);
    assert_eq!(back, vec![&5]);
    assert_eq!(it.as_slice(), &[3, 4]);
    let (front, back) = it.run_calls(&[false, false, false, true]);
    assert_eq!(front, Vec::<&i32>::new());
    assert_eq!(back, vec![&4, &3]);
    assert!(it.is_empty());
}

#[test]
fn every_item_once_front_then_reversed_back() {
    let data = [1, 2, 3, 4, 5, 6, 7];
    let mut it: StaticVecIterConst<i32, 7> = StaticVecIterConst::new(&data);
    let (front, back) = it.run_calls(&[false, true, true, false, true, false, true, true, false]);
    assert_eq!(front.len() + back.len(), data.len());
    let mut all: Vec<i32> = front.into_iter().copied().collect();
    all.extend(back.into_iter().rev().copied());
    assert_eq!(all, data.to_vec());
}

#[test]
fn iter_mut_run_calls() {
    let mut data = [1, 2, 3, 4];
    {
        let mut it: StaticVecIterMut<i32, 4> = StaticVecIterMut::new(&mut data);
        let (front, back) = it.run_calls(&[false, true, false]);
        assert_eq!(front.len(), 1);
        assert_eq!(back.len(), 2);
        for r in front {
            *r *= 10;
        }
        for r in back {
            *r += 100;
        }
        assert_eq!(it.as_slice(), &[2]);
    }
    assert_eq!(data, [10, 2, 103, 104]);
}

#[test]
fn into_iter_and_drain_run_calls() {
    let mut it: StaticVecIntoIter<u8, 4> = StaticVecIntoIter::new(vec![1, 2, 3, 4]);
    assert_eq!(it.run_calls(&[false, true, false]), (vec![1], vec![4, 3]));
    assert_eq!(it.as_slice(), &[2]);
    let mut vec = vec![0, 1, 2, 3, 4];
    {
        let mut drain: StaticVecDrain<u8, 5> = StaticVecDrain::new(&mut vec, 1, 5);
        assert_eq!(drain.run_calls(&[true, true, false, true, true]), (vec![1, 2, 3], vec![4]));
        assert!(drain.is_empty());
    }
    assert_eq!(vec, vec![0]);
}

#[test]
fn end_items_of_each_iterator() {
    let data = [3, 1, 4, 1, 5];
    let mut it: StaticVecIterConst<i32, 5> = StaticVecIterConst::new(&data);
    assert_eq!(it.end_items(), (&3, &5));
    it.next_back();
    assert_eq!(it.end_items(), (&3, &1));
    let mut one = [9];
    let it_mut: StaticVecIterMut<i32, 1> = StaticVecIterMut::new(&mut one);
    assert_eq!(it_mut.end_items(), (&9, &9));
    let into: StaticVecIntoIter<char, 3> = StaticVecIntoIter::new(vec!['x', 'y', 'z']);
    assert_eq!(into.end_items(), (&'x', &'z'));
    let mut vec = vec![1, 2, 3, 4];
    let drain: StaticVecDrain<i32, 4> = StaticVecDrain::new(&mut vec, 1, 3);
    assert_eq!(drain.end_items(), (&2, &3));
}

#[test]
fn same_answers_as_slice_iter() {
    let data = [10, 20, 30, 40];
    let steps = [true, false, false, true, true, false];
    let (ours, theirs, ours_rest, theirs_rest) =
        staticvec::iterators::laws::law_matches_slice_iter::<i32, 4>(&data, &steps);
    let mut reference = data.iter();
    let mut expected = Vec::new();
    for step in steps {
        expected.push(if step { reference.next() } else { reference.next_back() });
    }
    assert_eq!(ours, expected);
    assert_eq!(theirs, expected);
    assert_eq!(ours, vec![Some(&10), Some(&40), Some(&30), Some(&20), None, None]);
    assert_eq!(ours_rest, reference.as_slice());
    assert_eq!(theirs_rest, &[] as &[i32]);
    let (_, _, part, _) = staticvec::iterators::laws::law_matches_slice_iter::<i32, 4>(&data, &[false]);
    assert_eq!(part, &[10, 20, 30]);
}
