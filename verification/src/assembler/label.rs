//! Labels and the table that resolves them.
//!
//! A label is an address, an `EQU` constant, or a rebindable `SET` constant.
//! Its value is optional only while it is being built; the assembler stores
//! only resolved labels.

use vstd::prelude::*;

verus! {

#[derive(Debug, Clone, Copy, PartialEq, Eq, Structural)]
pub struct Label {
    pub value: Option<u16>,
    pub is_addr: bool,
    pub is_eq: bool,
    pub is_set: bool,
}

impl Label {
    pub fn new_addr(val: Option<u16>) -> (l: Label)
        ensures
            l == (Label { value: val, is_addr: true, is_eq: false, is_set: false }),
    {
        Label { value: val, is_addr: true, is_eq: false, is_set: false }
    }

    pub fn new_equ(val: Option<u16>) -> (l: Label)
        ensures
            l == (Label { value: val, is_addr: false, is_eq: true, is_set: false }),
    {
        Label { value: val, is_addr: false, is_eq: true, is_set: false }
    }

    /// A synonym for [`Label::new_equ`].
    pub fn new_eq(val: Option<u16>) -> (l: Label)
        ensures
            l == (Label { value: val, is_addr: false, is_eq: true, is_set: false }),
    {
        Label::new_equ(val)
    }

    pub fn new_set(val: Option<u16>) -> (l: Label)
        ensures
            l == (Label { value: val, is_addr: false, is_eq: false, is_set: true }),
    {
        Label { value: val, is_addr: false, is_eq: false, is_set: true }
    }
}

/// The label table: a name-to-label association viewed as a map.  Keys are
/// the uppercased label names as bytes.
pub struct LabelTable {
    pub entries: Vec<(Vec<u8>, Label)>,
}

impl View for LabelTable {
    type V = Map<Seq<u8>, Label>;

    open spec fn view(&self) -> Map<Seq<u8>, Label> {
        Self::entries_map(self.entries@)
    }
}

impl LabelTable {
    /// The map an entry list denotes: later entries shadow earlier ones.
    pub open spec fn entries_map(entries: Seq<(Vec<u8>, Label)>) -> Map<Seq<u8>, Label>
        decreases entries.len(),
    {
        if entries.len() == 0 {
            Map::empty()
        } else {
            Self::entries_map(entries.drop_last()).insert(
                entries.last().0@,
                entries.last().1,
            )
        }
    }

    pub fn new() -> (t: LabelTable)
        ensures
            t@ == Map::<Seq<u8>, Label>::empty(),
    {
        let t = LabelTable { entries: Vec::new() };
        proof {
            assert(t@ =~= Map::<Seq<u8>, Label>::empty());
        }
        t
    }

    pub fn insert(&mut self, name: Vec<u8>, label: Label)
        ensures
            final(self)@ == old(self)@.insert(name@, label),
    {
        self.entries.push((name, label));
        proof {
            assert(self.entries@.drop_last() =~= old(self).entries@);
        }
    }

    pub fn get(&self, name: &[u8]) -> (r: Option<Label>)
        ensures
            r == if self@.dom().contains(name@) {
                Some(self@[name@])
            } else {
                None::<Label>
            },
    {
        let mut i = self.entries.len();
        proof {
            assert(self.entries@.subrange(0, self.entries@.len() as int) =~= self.entries@);
        }
        while i > 0
            invariant
                i <= self.entries.len(),
                Self::entries_map(self.entries@.subrange(0, i as int)).dom().contains(name@)
                    == self@.dom().contains(name@),
                Self::entries_map(self.entries@.subrange(0, i as int)).dom().contains(name@)
                    ==> Self::entries_map(self.entries@.subrange(0, i as int))[name@]
                    == self@[name@],
            decreases i,
        {
            proof {
                assert(self.entries@.subrange(0, i as int).drop_last() =~= self.entries@.subrange(
                    0,
                    i as int - 1,
                ));
                assert(self.entries@.subrange(0, i as int).last() == self.entries@[i as int - 1]);
            }
            i = i - 1;
            if crate::util::bytes_eq(self.entries[i].0.as_slice(), name) {
                return Some(self.entries[i].1);
            }
        }
        proof {
            assert(self.entries@.subrange(0, 0) =~= Seq::<(Vec<u8>, Label)>::empty());
        }
        None
    }

    pub fn contains_key(&self, name: &[u8]) -> (r: bool)
        ensures
            r == self@.dom().contains(name@),
    {
        self.get(name).is_some()
    }
}

} // verus!
