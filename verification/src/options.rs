//! Structured option records, the already-parsed form in which the authoring
//! layer hands module options and task options to the compiler.

use vstd::prelude::*;

verus! {

/// A single option value.
#[derive(Clone, Debug, PartialEq, Eq)]
pub enum OptionValue {
    Bool(bool),
    Int(i64),
    Text(String),
}

/// The mathematical value of an [`OptionValue`].
pub enum OptionValueView {
    Bool(bool),
    Int(int),
    Text(Seq<char>),
}

impl View for OptionValue {
    type V = OptionValueView;

    open spec fn view(&self) -> OptionValueView {
        match self {
            OptionValue::Bool(b) => OptionValueView::Bool(*b),
            OptionValue::Int(n) => OptionValueView::Int(*n as int),
            OptionValue::Text(s) => OptionValueView::Text(s@),
        }
    }
}

/// One named option.
#[derive(Clone, Debug, PartialEq, Eq)]
pub struct OptionField {
    pub name: String,
    pub value: OptionValue,
}

/// The mathematical value of an [`OptionField`].
pub struct OptionFieldView {
    pub name: Seq<char>,
    pub value: OptionValueView,
}

impl View for OptionField {
    type V = OptionFieldView;

    open spec fn view(&self) -> OptionFieldView {
        OptionFieldView { name: self.name@, value: self.value@ }
    }
}

/// An ordered record of named options.
#[derive(Clone, Debug, PartialEq, Eq)]
pub struct OptionRecord {
    pub fields: Vec<OptionField>,
}

impl View for OptionRecord {
    type V = Seq<OptionFieldView>;

    open spec fn view(&self) -> Seq<OptionFieldView> {
        self.fields@.map_values(|f: OptionField| f@)
    }
}

/// The value of the first field named `name`, if any.
pub open spec fn lookup(fields: Seq<OptionFieldView>, name: Seq<char>) -> Option<OptionValueView>
    decreases fields.len(),
{
    if fields.len() == 0 {
        None
    } else if fields[0].name == name {
        Some(fields[0].value)
    } else {
        lookup(fields.drop_first(), name)
    }
}

impl OptionRecord {
    /// A record with no fields.
    pub fn new() -> (record: OptionRecord)
        ensures
            record@ == Seq::<OptionFieldView>::empty(),
    {
        let record = OptionRecord { fields: Vec::new() };
        proof {
            assert(record@ =~= Seq::<OptionFieldView>::empty());
        }
        record
    }

    /// Append the field `name = value`.
    pub fn push(&mut self, name: String, value: OptionValue)
        ensures
            final(self)@ == old(self)@.push(OptionFieldView { name: name@, value: value@ }),
    {
        let ghost oldf = self.fields@;
        self.fields.push(OptionField { name, value });
        proof {
            assert(self@ =~= old(self)@.push(self.fields@[oldf.len() as int]@));
        }
    }

    /// The value of the first field named `name`, if any.
    pub fn get(&self, name: &String) -> (found: Option<&OptionValue>)
        ensures
            match found {
                Some(v) => lookup(self@, name@) == Some(v@),
                None => lookup(self@, name@) is None,
            },
    {
        proof {
            assert(self@.skip(0) =~= self@);
        }
        self.get_from(name, 0)
    }

    /// The value of the first field named `name` at or after position `start`.
    fn get_from(&self, name: &String, start: usize) -> (found: Option<&OptionValue>)
        requires
            start <= self@.len(),
        ensures
            match found {
                Some(v) => lookup(self@.skip(start as int), name@) == Some(v@),
                None => lookup(self@.skip(start as int), name@) is None,
            },
        decreases self@.len() - start,
    {
        if start == self.fields.len() {
            proof {
                assert(self@.skip(start as int).len() == 0);
            }
            None
        } else if self.fields[start].name == *name {
            proof {
                assert(self@.skip(start as int)[0] == self@[start as int]);
            }
            Some(&self.fields[start].value)
        } else {
            let found = self.get_from(name, start + 1);
            proof {
                assert(self@.skip(start as int)[0] == self@[start as int]);
                assert(self@.skip(start as int).drop_first() =~= self@.skip(start as int + 1));
            }
            found
        }
    }
}

} // verus!
