//! Dynamically typed script values and the indexed store that holds them.

use vstd::prelude::*;

verus! {

/// A script value: integer, real number, or text.
///
/// Reals are held in fixed point, in thousandths, so that wait-timer
/// arithmetic is exact.
pub enum Value {
    Int(i32),
    Real(i64),
    Str(String),
}

/// The mathematical shape of a [`Value`]: text becomes a sequence of
/// characters.
pub enum ValueModel {
    Int(i32),
    Real(i64),
    Str(Seq<char>),
}

impl View for Value {
    type V = ValueModel;

    open spec fn view(&self) -> ValueModel {
        match self {
            Value::Int(i) => ValueModel::Int(*i),
            Value::Real(r) => ValueModel::Real(*r),
            Value::Str(s) => ValueModel::Str(s@),
        }
    }
}

impl Clone for Value {
    /// A clone denotes the same value.
    fn clone(&self) -> (r: Self)
        ensures
            r@ == self@,
    {
        match self {
            Value::Int(i) => Value::Int(*i),
            Value::Real(r) => Value::Real(*r),
            Value::Str(s) => Value::Str(s.clone()),
        }
    }
}

/// A fault that stops the owning virtual machine.
#[derive(Clone, Copy, PartialEq, Eq, Structural, Debug)]
pub enum VmError {
    /// A value-store or function-table access beyond bounds.
    IndexOutOfRange,
    /// A cross-module redirect named a module or entry that is not loaded.
    UnresolvedModule,
}

/// An indexed, append-mostly table of script values.
///
/// Entries are never freed individually; the whole store lives and dies with
/// its owning virtual machine. Overwriting one slot never disturbs another.
pub struct ValueStore {
    vals: Vec<Value>,
}

impl View for ValueStore {
    type V = Seq<ValueModel>;

    closed spec fn view(&self) -> Seq<ValueModel> {
        self.vals@.map_values(|v: Value| v@)
    }
}

impl ValueStore {
    /// An empty store.
    pub fn new() -> (r: ValueStore)
        ensures
            r@ == Seq::<ValueModel>::empty(),
    {
        let r = ValueStore { vals: Vec::new() };
        proof {
            assert(r@ =~= Seq::<ValueModel>::empty());
        }
        r
    }

    pub open spec fn len_spec(&self) -> nat {
        self@.len()
    }

    /// How many slots have been written.
    pub fn len(&self) -> (n: usize)
        ensures
            n == self.len_spec(),
    {
        self.vals.len()
    }

    /// Reads the value at `index`; an index that was never written is a
    /// recoverable error, not a crash.
    pub fn get(&self, index: usize) -> (r: Result<&Value, VmError>)
        ensures
            match r {
                Ok(v) => index < self@.len() && v@ == self@[index as int],
                Err(e) => index >= self@.len() && e == VmError::IndexOutOfRange,
            },
    {
        if index < self.vals.len() {
            Ok(&self.vals[index])
        } else {
            Err(VmError::IndexOutOfRange)
        }
    }

    /// Overwrites the slot at `index`; every other slot keeps its value.
    pub fn set(&mut self, index: usize, value: Value) -> (r: Result<(), VmError>)
        ensures
            match r {
                Ok(()) => index < old(self)@.len() && final(self)@ == old(self)@.update(
                    index as int,
                    value@,
                ),
                Err(e) => index >= old(self)@.len() && e == VmError::IndexOutOfRange && final(self)@
                    == old(self)@,
            },
    {
        if index < self.vals.len() {
            self.vals.set(index, value);
            proof {
                assert(self@ =~= old(self)@.update(index as int, value@));
            }
            Ok(())
        } else {
            Err(VmError::IndexOutOfRange)
        }
    }

    /// Appends a value and returns its index; indices are stable for the
    /// lifetime of the store.
    pub fn append(&mut self, value: Value) -> (index: usize)
        ensures
            final(self)@ == old(self)@.push(value@),
            index == old(self)@.len(),
    {
        let index = self.vals.len();
        self.vals.push(value);
        proof {
            assert(self@ =~= old(self)@.push(value@));
        }
        index
    }
}

} // verus!
