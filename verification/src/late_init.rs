use vstd::prelude::*;

verus! {

/// A value that is set once, some time after the owner was created.
///
/// The first `init` stores its argument; every later `init` is ignored, as
/// with a once-cell.
pub struct LateInit<T> {
    value: Option<T>,
}

/// The contents of a cell after `init(x)`: a stored value stays, an empty
/// cell takes `x`.
pub open spec fn after_init<T>(state: Option<T>, x: T) -> Option<T> {
    match state {
        Some(v) => Some(v),
        None => Some(x),
    }
}

impl<T> View for LateInit<T> {
    type V = Option<T>;

    /// `None` while uninitialised, `Some(v)` once `v` was stored.
    closed spec fn view(&self) -> Option<T> {
        self.value
    }
}

impl<T> LateInit<T> {
    /// An uninitialised cell.
    pub fn new() -> (cell: Self)
        ensures
            cell@ == None::<T>,
    {
        LateInit { value: None }
    }

    /// Whether a value has been stored.
    pub fn is_initialized(&self) -> (b: bool)
        ensures
            b == self@.is_some(),
    {
        self.value.is_some()
    }

    /// Stores `x` unless a value is already stored.
    pub fn init(&mut self, x: T)
        ensures
            final(self)@ == after_init(old(self)@, x),
    {
        if self.value.is_none() {
            self.value = Some(x);
        }
    }

    /// The stored value; the cell must have been initialised.
    pub fn get(&self) -> (r: &T)
        requires
            self@.is_some(),
        ensures
            *r == self@.unwrap(),
    {
        match &self.value {
            Some(v) => v,
            None => vstd::pervasive::unreached(),
        }
    }

    /// Mutable access to the stored value; the cell must have been initialised.
    pub fn get_mut(&mut self) -> (r: &mut T)
        requires
            old(self)@.is_some(),
        ensures
            *r == old(self)@.unwrap(),
            final(self)@ == Some(*final(r)),
    {
        match self.value.as_mut() {
            Some(v) => v,
            None => vstd::pervasive::unreached(),
        }
    }
}

/// Initialising a fresh cell and reading it gives back the value stored.
pub proof fn lemma_read_after_init<T>(x: T)
    ensures
        after_init(None::<T>, x) == Some(x),
{
}

/// Only the first initialisation counts: initialising again changes nothing.
pub proof fn lemma_init_once<T>(state: Option<T>, x: T, y: T)
    ensures
        after_init(after_init(state, x), y) == after_init(state, x),
{
}

/// A cell initialised with 42 reads 42.
pub fn test_late_init() -> (r: i32)
    ensures
        r == 42,
{
    let mut x = LateInit::<i32>::new();
    x.init(42);
    *x.get()
}

/// A value written through `get_mut` is what the cell reads afterwards.
pub fn test_late_init_mutability() -> (r: i32)
    ensures
        r == 43,
{
    let mut x = LateInit::<i32>::new();
    x.init(42);
    *x.get_mut() = 43;
    *x.get()
}

} // verus!
