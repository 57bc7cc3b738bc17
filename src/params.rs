//! The parameter values of one plugin instance.
use vstd::prelude::*;
use crate::param::{Color, ParamInfo, ParamRef, ParamValue, ParamView, Position};

verus! {

/// The current value of each parameter of an instance, by position in the
/// plugin's table. String values are held in storage owned here.
#[derive(Debug)]
pub struct Params {
    values: Vec<ParamValue>,
}

impl View for Params {
    type V = Seq<ParamView>;

    closed spec fn view(&self) -> Seq<ParamView> {
        self.values@.map_values(|v: ParamValue| v@)
    }
}

impl Params {
    /// The defaults of a table, in its order.
    pub fn from_table(table: &[ParamInfo]) -> (r: Self)
        ensures
            r@.len() == table@.len(),
            forall|i: int| 0 <= i < table@.len() ==> r@[i] == #[trigger] table@[i].default@,
    {
        let mut values: Vec<ParamValue> = Vec::new();
        let mut i: usize = 0;
        while i < table.len()
            invariant
                i <= table@.len(),
                values@.len() == i,
                forall|j: int| 0 <= j < i ==> values@[j]@ == #[trigger] table@[j].default@,
            decreases table@.len() - i,
        {
            values.push(ParamValue::from_ref(table[i].default));
            i = i + 1;
        }
        let r = Params { values };
        assert forall|j: int| 0 <= j < table@.len() implies r@[j] == #[trigger] table@[j].default@ by {
            assert(r@[j] == r.values@[j]@);
        }
        r
    }

    pub fn len(&self) -> (r: usize)
        ensures
            r == self@.len(),
    {
        self.values.len()
    }

    /// The value at `index`; a string borrows the bytes held here.
    pub fn get(&self, index: usize) -> (r: ParamRef<'_>)
        requires
            index < self@.len(),
        ensures
            r@ == self@[index as int],
    {
        self.values[index].as_ref()
    }

    /// Replaces the value at `index` whole; string bytes are copied.
    pub fn set(&mut self, index: usize, value: ParamRef<'_>)
        requires
            index < old(self)@.len(),
        ensures
            final(self)@ == old(self)@.update(index as int, value@),
    {
        self.values[index] = ParamValue::from_ref(value);
        assert(self@ =~= old(self)@.update(index as int, value@));
    }

    /// The boolean at `index`, if there is one.
    pub fn get_bool(&self, index: usize) -> (r: Option<bool>)
        ensures
            r == (if index < self@.len() {
                match self@[index as int] {
                    ParamView::Bool(b) => Some(b),
                    _ => None,
                }
            } else {
                None
            }),
    {
        if index < self.values.len() {
            match self.values[index] {
                ParamValue::Bool(b) => Some(b),
                _ => None,
            }
        } else {
            None
        }
    }

    /// The double at `index`, as its bit pattern, if there is one.
    pub fn get_double(&self, index: usize) -> (r: Option<u64>)
        ensures
            r == (if index < self@.len() {
                match self@[index as int] {
                    ParamView::Double(d) => Some(d),
                    _ => None,
                }
            } else {
                None
            }),
    {
        if index < self.values.len() {
            match self.values[index] {
                ParamValue::Double(d) => Some(d),
                _ => None,
            }
        } else {
            None
        }
    }

    /// The color at `index`, if there is one.
    pub fn get_color(&self, index: usize) -> (r: Option<Color>)
        ensures
            r == (if index < self@.len() {
                match self@[index as int] {
                    ParamView::Color(c) => Some(c),
                    _ => None,
                }
            } else {
                None
            }),
    {
        if index < self.values.len() {
            match self.values[index] {
                ParamValue::Color(c) => Some(c),
                _ => None,
            }
        } else {
            None
        }
    }

    /// The position at `index`, if there is one.
    pub fn get_position(&self, index: usize) -> (r: Option<Position>)
        ensures
            r == (if index < self@.len() {
                match self@[index as int] {
                    ParamView::Position(p) => Some(p),
                    _ => None,
                }
            } else {
                None
            }),
    {
        if index < self.values.len() {
            match self.values[index] {
                ParamValue::Position(p) => Some(p),
                _ => None,
            }
        } else {
            None
        }
    }

    /// The string at `index`, with its terminating zero, if there is one.
    pub fn get_string(&self, index: usize) -> (r: Option<&[u8]>)
        ensures
            match r {
                Some(s) => index < self@.len() && self@[index as int] == ParamView::String(s@),
                None => index >= self@.len() || !(self@[index as int] is String),
            },
    {
        if index < self.values.len() {
            match &self.values[index] {
                ParamValue::String(s) => Some(s.as_slice()),
                _ => None,
            }
        } else {
            None
        }
    }
}

} // verus!
