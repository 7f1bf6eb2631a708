//! Renderers by the swap chain or device that they draw in.

use crate::int_map::WordTable;
use vstd::prelude::*;

verus! {

/// Whether `after` and `result` are what comes of running `f` on the value under
/// `key`, which is `value` at first.
pub open spec fn ran<R, E, F: FnOnce(usize) -> (usize, Result<R, E>)>(
    before: Map<usize, usize>,
    key: usize,
    value: usize,
    f: F,
    after: Map<usize, usize>,
    result: Result<R, E>,
) -> bool {
    exists|made: (usize, Result<R, E>)| #[trigger]
        call_ensures(f, (value,), made) && after == before.insert(key, made.0) && result == made.1
}

/// Runs `f` on the value under `key`, which may change it. A missing value is
/// made by `init` first; where that fails, nothing changes. `on_created` runs
/// after a value was made.
pub fn with_map_entry<
    R,
    E,
    I: FnOnce() -> Result<usize, E>,
    C: FnOnce(),
    F: FnOnce(usize) -> (usize, Result<R, E>),
>(map: &mut WordTable, key: usize, init: I, on_created: Option<C>, f: F) -> (result: Result<R, E>)
    requires
        old(map)@.contains_key(key) ==> call_requires(f, (old(map)@[key],)),
        !old(map)@.contains_key(key) ==> call_requires(init, ()),
        !old(map)@.contains_key(key) ==> forall|value: usize| #[trigger]
            call_ensures(init, (), Ok::<usize, E>(value)) ==> call_requires(f, (value,)) && (
            on_created matches Some(on_created) ==> call_requires(on_created, ())),
    ensures
        old(map)@.contains_key(key) ==> ran(old(map)@, key, old(map)@[key], f, final(map)@, result),
        !old(map)@.contains_key(key) ==> exists|made: Result<usize, E>| #[trigger]
            call_ensures(init, (), made) && match made {
                Err(error) => result == Err::<R, E>(error) && final(map)@ == old(map)@,
                Ok(value) => {
                    &&& (on_created matches Some(on_created) ==> call_ensures(on_created, (), ()))
                    &&& ran(old(map)@, key, value, f, final(map)@, result)
                },
            },
{
    let ghost before = map@;
    let value: usize = match map.get(key) {
        Some(value) => value,
        None => {
            let made = init();
            assert(call_ensures(init, (), made));
            match made {
                Err(error) => {
                    return Err(error);
                },
                Ok(value) => {
                    let _replaced = map.insert(key, value);
                    if let Some(on_created) = on_created {
                        on_created();
                    }
                    value
                },
            }
        },
    };
    let made = f(value);
    assert(call_ensures(f, (value,), made));
    let _replaced = map.insert(key, made.0);
    assert(map@ =~= before.insert(key, made.0));
    made.1
}

/// What stands under a key is handed to the work, and what the work leaves is
/// what stands there afterwards. A missing value is made first; if that fails
/// the error is told and nothing changes. Other keys are untouched.
pub proof fn law_entry_is_worked_on<
    R,
    E,
    I: FnOnce() -> Result<usize, E>,
    C: FnOnce(),
    F: FnOnce(usize) -> (usize, Result<R, E>),
>(
    map: &mut WordTable,
    key: usize,
    init: I,
    on_created: Option<C>,
    f: F,
    result: Result<R, E>,
    other: usize,
)
    requires
        call_ensures(with_map_entry::<R, E, I, C, F>, (map, key, init, on_created, f), result),
        other != key,
    ensures
        final(map)@.get(other) == old(map)@.get(other),
        old(map)@.contains_key(key) ==> exists|made: (usize, Result<R, E>)| #[trigger]
            call_ensures(f, (old(map)@[key],), made) && final(map)@.get(key) == Some(made.0)
                && result == made.1,
        !old(map)@.contains_key(key) ==> exists|made: Result<usize, E>| #[trigger]
            call_ensures(init, (), made) && (made is Err ==> result is Err && result->Err_0
                == made->Err_0 && final(map)@ == old(map)@) && (made is Ok ==> (on_created is Some
                ==> call_ensures(on_created->0, (), ())) && exists|left: (usize, Result<R, E>)|
                #[trigger]
                call_ensures(f, (made->Ok_0,), left) && final(map)@.get(key) == Some(left.0)
                    && result == left.1),
{
    if old(map)@.contains_key(key) {
        let made = choose|made: (usize, Result<R, E>)| #[trigger]
            call_ensures(f, (old(map)@[key],), made) && final(map)@ == old(map)@.insert(
                key,
                made.0,
            ) && result == made.1;
        assert(call_ensures(f, (old(map)@[key],), made));
    } else {
        let made = choose|made: Result<usize, E>| #[trigger]
            call_ensures(init, (), made) && match made {
                Err(error) => result == Err::<R, E>(error) && final(map)@ == old(map)@,
                Ok(value) => {
                    &&& (on_created matches Some(on_created) ==> call_ensures(on_created, (), ()))
                    &&& ran(old(map)@, key, value, f, final(map)@, result)
                },
            };
        assert(call_ensures(init, (), made));
        if let Ok(value) = made {
            let left = choose|left: (usize, Result<R, E>)| #[trigger]
                call_ensures(f, (value,), left) && final(map)@ == old(map)@.insert(key, left.0)
                    && result == left.1;
            assert(call_ensures(f, (value,), left));
        }
    }
}

} // verus!
