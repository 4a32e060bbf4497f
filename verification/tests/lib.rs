use tap::{TapBooleanOps, TapOps, TapOptionOps, TapResultOps};

#[test]
fn filter_map() {
    let values: &[Result<i32, &str>] = &[Ok(3), Err("foo"), Err("bar"), Ok(8)];
    let _ = values.iter().filter_map(|result| {
        // It is especially useful in filter maps, allowing error information to
        // be logged/printed before the information is discarded.
        result
            .tap_err(|error| println!("Invalid entry: {}", error))
            .ok()
    });
}

#[test]
fn basic() {
    let mut foo = 5;

    // The `tap` extension can be used on all types
    if 10.tap(|v| foo += *v) > 0 {
        assert_eq!(foo, 15);
    }

    // Results have `tap_err` & `tap_ok` available.
    let _: Result<i32, i32> = Err(5).tap_err(|e| foo = *e);
    assert_eq!(foo, 5);

    // Options have `tap_some` & `tap_none` available.
    let _: Option<i32> = None.tap_none(|| foo = 10);
    assert_eq!(foo, 10);
}

#[test]
fn tap_returns_the_value() {
    let mut foo = 5;
    let out = 10.tap(|v| foo += *v);
    assert_eq!(out, 10);
    assert_eq!(foo, 15);
}

#[test]
fn tap_calls_the_closure_once() {
    let mut calls = 0;
    let out = String::from("abc").tap(|_| calls += 1);
    assert_eq!(out, "abc");
    assert_eq!(calls, 1);
}

#[test]
fn tap_keeps_what_the_closure_wrote() {
    let mut max = 0;
    let data: [u32; 5] = [2, 8, 3, 4, 0];
    assert_eq!(
        data.tap(|x| x.sort()).tap(|x| max += x.last().unwrap()),
        [0, 2, 3, 4, 8]
    );
    assert_eq!(max, 8);
}

#[test]
fn tap_sorts_a_vector_in_a_chain() {
    let mut old = vec![4u32, 9, 1, 17, 3];
    old.sort();
    let new = vec![4u32, 9, 1, 17, 3].tap(|data| data.sort());
    assert_eq!(old, new);
}

#[test]
fn tap_doubles_an_array() {
    let tapped = [1, 2, 3];
    let tapped = tapped.tap(|arr| {
        for elt in arr.iter_mut() {
            *elt *= 2;
        }
    });
    assert_eq!(tapped, [2, 4, 6]);
}

#[test]
fn tap_drops_what_the_closure_returns() {
    let out = 7u8.tap(|v| *v + 1);
    assert_eq!(out, 7);
}

#[test]
fn tap_true_on_false() {
    let mut foo = 0;
    let boolean = false;
    assert_eq!(boolean.tap_true(|| foo += 5), false);
    assert_eq!(foo, 0);
}

#[test]
fn tap_true_on_true() {
    let mut foo = 0;
    let boolean = true;
    assert_eq!(boolean.tap_true(|| foo += 5), true);
    assert_eq!(foo, 5);
}

#[test]
fn tap_false_on_false() {
    let mut foo = 0;
    let boolean = false;
    assert_eq!(boolean.tap_false(|| foo += 5), false);
    assert_eq!(foo, 5);
}

#[test]
fn tap_false_on_true() {
    let mut foo = 0;
    let boolean = true;
    assert_eq!(boolean.tap_false(|| foo += 5), true);
    assert_eq!(foo, 0);
}

#[test]
fn exactly_one_boolean_tap_fires() {
    for b in [false, true] {
        let mut on_true = 0;
        let mut on_false = 0;
        assert_eq!(b.tap_true(|| on_true += 1).tap_false(|| on_false += 1), b);
        assert_eq!(on_true + on_false, 1);
        assert_eq!(on_true == 1, b);
    }
}

#[test]
fn tap_ok_on_ok() {
    let mut foo = 0;
    let res: Result<u32, u32> = Ok(4);
    assert_eq!(res.tap_ok(|&mut v| foo += v), Ok(4));
    assert_eq!(foo, 4);
}

#[test]
fn tap_ok_on_err() {
    let mut foo = 0;
    let res: Result<u32, u32> = Err(4);
    assert_eq!(res.tap_ok(|&mut v| foo += v), Err(4));
    assert_eq!(foo, 0);
}

#[test]
fn tap_err_on_ok() {
    let mut foo = 0;
    let res: Result<u32, u32> = Ok(4);
    assert_eq!(res.tap_err(|&mut v| foo += v), Ok(4));
    assert_eq!(foo, 0);
}

#[test]
fn tap_err_on_err() {
    let mut foo = 0;
    let res: Result<u32, u32> = Err(4);
    assert_eq!(res.tap_err(|&mut v| foo += v), Err(4));
    assert_eq!(foo, 4);
}

#[test]
fn tap_err_returns_the_error_unchanged() {
    let mut foo = 0;
    let out: Result<i32, i32> = Err(5).tap_err(|e| foo = *e);
    assert_eq!(foo, 5);
    assert_eq!(out, Err(5));
}

#[test]
fn result_taps_keep_what_the_closure_wrote() {
    let ok: Result<u32, String> = Ok(4);
    assert_eq!(ok.tap_ok(|v| *v += 1), Ok(5));
    let err: Result<u32, String> = Err(String::from("no"));
    assert_eq!(err.tap_err(|e| e.push('!')), Err(String::from("no!")));
}

#[test]
fn exactly_one_result_tap_fires() {
    let values: [Result<u32, u32>; 2] = [Ok(1), Err(2)];
    for res in values {
        let mut on_ok = 0;
        let mut on_err = 0;
        let out = res.tap_ok(|_| on_ok += 1).tap_err(|_| on_err += 1);
        assert_eq!(out, res);
        assert_eq!(on_ok + on_err, 1);
        assert_eq!(on_ok == 1, res.is_ok());
    }
}

#[test]
fn tap_some_on_some() {
    let mut foo = 0;
    let res: Option<u32> = Some(4);
    assert_eq!(res.tap_some(|&mut v| foo += v), Some(4));
    assert_eq!(foo, 4);
}

#[test]
fn tap_some_on_none() {
    let mut foo = 0;
    let res: Option<u32> = None;
    assert_eq!(res.tap_some(|&mut v| foo += v), None);
    assert_eq!(foo, 0);
}

#[test]
fn tap_none_on_some() {
    let mut foo = 0;
    let res: Option<u32> = Some(4);
    assert_eq!(res.tap_none(|| foo += 5), Some(4));
    assert_eq!(foo, 0);
}

#[test]
fn tap_none_on_none() {
    let mut foo = 0;
    let res: Option<u32> = None;
    assert_eq!(res.tap_none(|| foo += 5), None);
    assert_eq!(foo, 5);
}

#[test]
fn tap_none_returns_none() {
    let mut foo = 0;
    let out: Option<i32> = None.tap_none(|| foo = 10);
    assert_eq!(foo, 10);
    assert_eq!(out, None);
}

#[test]
fn tap_some_keeps_what_the_closure_wrote() {
    let opt = Some(vec![3, 1, 2]);
    assert_eq!(opt.tap_some(|v| v.sort()), Some(vec![1, 2, 3]));
}

#[test]
fn exactly_one_option_tap_fires() {
    let values: [Option<u32>; 2] = [Some(1), None];
    for opt in values {
        let mut on_some = 0;
        let mut on_none = 0;
        let out = opt.tap_some(|_| on_some += 1).tap_none(|| on_none += 1);
        assert_eq!(out, opt);
        assert_eq!(on_some + on_none, 1);
        assert_eq!(on_some == 1, opt.is_some());
    }
}
