use lazymut::LazyMut;

#[test]
fn fresh_cell_peeks_none() {
    let mut c: LazyMut<i32, _> = LazyMut::new(|| 3);
    assert_eq!(c.try_get(), None);
    assert_eq!(c.try_get_mut(), None);
}

#[test]
fn get_invokes_initializer_exactly_once() {
    let count = std::rc::Rc::new(std::cell::Cell::new(0u32));
    let seen = count.clone();
    let mut c = LazyMut::new(move || {
        seen.set(seen.get() + 1);
        7
    });
    assert_eq!(count.get(), 0);
    assert_eq!(c.get(), &mut 7);
    assert_eq!(count.get(), 1);
    assert_eq!(c.get(), &mut 7);
    assert_eq!(count.get(), 1);
}

#[test]
fn scenario_peek_get_peek_consume() {
    let mut c = LazyMut::new(|| 3);
    assert_eq!(c.try_get(), None);
    assert_eq!(c.get(), &mut 3);
    assert_eq!(c.try_get(), Some(&3));
    assert_eq!(c.try_get_mut(), Some(&mut 3));
    assert_eq!(c.into_inner(), Some(3));
}

#[test]
fn untouched_cell_consumes_to_none() {
    let invoked = std::rc::Rc::new(std::cell::Cell::new(false));
    let seen = invoked.clone();
    let c: LazyMut<i32, _> = LazyMut::new(move || {
        seen.set(true);
        3
    });
    assert_eq!(c.into_inner(), None);
    assert!(!invoked.get());
}

#[test]
fn scenario_untouched_cell() {
    let c = LazyMut::new(|| 3i32);
    assert_ne!(c.try_get(), Some(&3));
    assert_eq!(c.into_inner(), None);
}

#[test]
fn mutation_through_get_is_visible() {
    let mut c = LazyMut::new(|| vec![1]);
    assert_eq!(c.get(), &mut vec![1]);
    c.get().push(2);
    assert_eq!(c.try_get(), Some(&vec![1, 2]));
    assert_eq!(c.get(), &mut vec![1, 2]);
}

#[test]
fn mutation_through_try_get_mut_is_visible() {
    let mut c = LazyMut::new(|| vec![1]);
    c.get();
    c.try_get_mut().unwrap().push(2);
    assert_eq!(c.try_get(), Some(&vec![1, 2]));
    assert_eq!(c.into_inner(), Some(vec![1, 2]));
}

#[test]
fn mutation_survives_until_consumption() {
    let mut c = LazyMut::new(|| 3);
    *c.get() = 10;
    assert_eq!(c.try_get(), Some(&10));
    assert_eq!(c.into_inner(), Some(10));
}

#[test]
fn default_cell_is_already_initialized() {
    let mut c: LazyMut<i32> = LazyMut::default();
    assert_eq!(c.try_get(), Some(&0));
    assert_eq!(c.try_get_mut(), Some(&mut 0));
    assert_eq!(c.into_inner(), Some(0));
}

#[test]
fn default_cell_never_runs_an_initializer() {
    let c: LazyMut<String> = LazyMut::default();
    assert_eq!(c.try_get(), Some(&String::new()));
}

#[test]
fn debug_string_shows_placeholder_before_initialization() {
    let c: LazyMut<i32, _> = LazyMut::new(|| 3);
    assert_eq!(c.debug_string(), "LazyMut(<uninit>)");
}

#[test]
fn debug_string_shows_value_after_initialization() {
    let mut c = LazyMut::new(|| 3);
    c.get();
    assert_eq!(c.debug_string(), "LazyMut(3)");
    *c.get() = 42;
    assert_eq!(c.debug_string(), "LazyMut(42)");
}

#[test]
fn debug_string_never_triggers_initialization() {
    let invoked = std::rc::Rc::new(std::cell::Cell::new(false));
    let seen = invoked.clone();
    let c: LazyMut<i32, _> = LazyMut::new(move || {
        seen.set(true);
        3
    });
    assert_eq!(c.debug_string(), "LazyMut(<uninit>)");
    assert!(!invoked.get());
}

#[test]
fn state_get_or_init_consumes_the_initializer() {
    let mut s: lazymut::State<i32, _> = lazymut::State::Uninit(|| 3);
    assert_eq!(s.try_get(), None);
    assert_eq!(s.try_get_mut(), None);
    assert_eq!(s.get_or_init(), &mut 3);
    *s.get_or_init() = 4;
    assert_eq!(s.try_get(), Some(&4));
}

#[test]
fn function_pointer_initializer() {
    fn three() -> u64 {
        3
    }
    let mut c: LazyMut<u64> = LazyMut::new(three);
    assert_eq!(c.try_get(), None);
    assert_eq!(c.get(), &mut 3);
    assert_eq!(c.into_inner(), Some(3));
}
