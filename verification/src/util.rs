//! Small helpers shared by the generators.

use vstd::prelude::*;
use crate::ast::{Attr, Param};

verus! {

/// Whether `attrs` carries an attribute of the given name.
pub open spec fn has_attr_named(attrs: Seq<Attr>, name: Seq<char>) -> bool {
    exists|i: int| 0 <= i < attrs.len() && attrs[i].name@ == name
}

/// Looks an attribute up by name.
pub fn has_attr(attrs: &Vec<Attr>, name: &str) -> (r: bool)
    ensures
        r == has_attr_named(attrs@, name@),
{
    let key: String = name.to_owned();
    let mut i: usize = 0;
    while i < attrs.len()
        invariant
            i <= attrs@.len(),
            key@ == name@,
            forall|j: int| 0 <= j < i ==> attrs@[j].name@ != name@,
        decreases attrs@.len() - i,
    {
        if attrs[i].name == key {
            assert(has_attr_named(attrs@, name@));
            return true;
        }
        i += 1;
    }
    false
}

/// Copies a vector of attributes, element by element, so that the copy
/// is known to hold the same values.
pub fn clone_attrs(v: &Vec<Attr>) -> (r: Vec<Attr>)
    ensures
        r@ == v@,
{
    let mut r: Vec<Attr> = Vec::new();
    let mut i: usize = 0;
    while i < v.len()
        invariant
            i <= v@.len(),
            r@ == v@.subrange(0, i as int),
        decreases v@.len() - i,
    {
        r.push(v[i].clone());
        proof {
            assert(v@.subrange(0, i as int).push(v@[i as int]) =~= v@.subrange(0, i as int + 1));
        }
        i += 1;
    }
    proof {
        assert(v@.subrange(0, v@.len() as int) =~= v@);
    }
    r
}

/// Copies a parameter list, element by element.
pub fn clone_params(v: &Vec<Param>) -> (r: Vec<Param>)
    ensures
        r@ == v@,
{
    let mut r: Vec<Param> = Vec::new();
    let mut i: usize = 0;
    while i < v.len()
        invariant
            i <= v@.len(),
            r@ == v@.subrange(0, i as int),
        decreases v@.len() - i,
    {
        r.push(v[i].clone());
        proof {
            assert(v@.subrange(0, i as int).push(v@[i as int]) =~= v@.subrange(0, i as int + 1));
        }
        i += 1;
    }
    proof {
        assert(v@.subrange(0, v@.len() as int) =~= v@);
    }
    r
}

/// Copies an optional text.
pub fn clone_opt_string(v: &Option<String>) -> (r: Option<String>)
    ensures
        r == *v,
{
    match v {
        Some(s) => Some(s.clone()),
        None => None,
    }
}

/// Run a producer on `true`, fall back to the type's default on
/// `false`.
pub trait BoolExt {
    /// The truth value the fallback decision is made on.
    spec fn truth(&self) -> bool;

    fn then_default<T: Default, F: FnOnce() -> T>(&self, f: F) -> (r: T)
        requires
            self.truth() ==> call_requires(f, ()),
        ensures
            self.truth() ==> call_ensures(f, (), r),
            !self.truth() ==> call_ensures(T::default, (), r),
    ;
}

impl BoolExt for bool {
    open spec fn truth(&self) -> bool {
        *self
    }

    fn then_default<T: Default, F: FnOnce() -> T>(&self, f: F) -> (r: T) {
        if *self {
            f()
        } else {
            T::default()
        }
    }
}

} // verus!
