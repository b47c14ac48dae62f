//! An in-memory link store: a relation from short codes to records in which
//! no two records share a code.

use vstd::prelude::*;

use crate::model::{Link, LinkView};

verus! {

/// Why the store refused an operation. Each variant carries the store's own
/// account of the failure.
#[derive(Clone, Debug)]
pub enum StoreError {
    /// A record with the same code already exists.
    DuplicateCode(String),
    /// The backing engine could not be reached.
    Unavailable(String),
}

/// Some record of `s` has the code `code`.
pub open spec fn has_code(s: Seq<LinkView>, code: Seq<char>) -> bool {
    exists|i: int| 0 <= i < s.len() && (#[trigger] s[i]).link == code
}

/// No two records of `s` share a code.
pub open spec fn codes_unique(s: Seq<LinkView>) -> bool {
    forall|i: int, j: int|
        0 <= i < s.len() && 0 <= j < s.len() && (#[trigger] s[i]).link == (#[trigger] s[j]).link
            ==> i == j
}

/// The record of `s` whose code is `code`, if there is one.
pub open spec fn lookup(s: Seq<LinkView>, code: Seq<char>) -> Option<LinkView> {
    if has_code(s, code) {
        Some(s[choose|i: int| 0 <= i < s.len() && (#[trigger] s[i]).link == code])
    } else {
        None
    }
}

/// The records, in the order in which they were inserted.
pub struct LinkStore {
    links: Vec<Link>,
}

impl View for LinkStore {
    type V = Seq<LinkView>;

    closed spec fn view(&self) -> Seq<LinkView> {
        self.links@.map_values(|l: Link| l@)
    }
}

impl LinkStore {
    /// The store's invariant: codes are unique.
    pub open spec fn wf(&self) -> bool {
        codes_unique(self@)
    }

    /// An empty store.
    pub fn new() -> (r: LinkStore)
        ensures
            r.wf(),
            r@ == Seq::<LinkView>::empty(),
    {
        let r = LinkStore { links: Vec::new() };
        assert(r@ =~= Seq::<LinkView>::empty());
        r
    }

    /// How many records the store holds.
    pub fn len(&self) -> (r: usize)
        ensures
            r == self@.len(),
    {
        self.links.len()
    }

    /// The position of the record with code `code`, if any.
    fn position_of(&self, code: &String) -> (r: Option<usize>)
        ensures
            match r {
                Some(i) => i < self@.len() && self@[i as int].link == code@,
                None => !has_code(self@, code@),
            },
    {
        let mut i: usize = 0;
        while i < self.links.len()
            invariant
                i <= self.links@.len(),
                self@.len() == self.links@.len(),
                forall|j: int| 0 <= j < i ==> (#[trigger] self@[j]).link != code@,
            decreases self.links@.len() - i,
        {
            if self.links[i].link == *code {
                return Some(i);
            }
            i = i + 1;
        }
        None
    }

    /// The record with code `code`, or `None` where there is none.
    pub fn find_by_code(&self, code: &String) -> (r: Option<Link>)
        requires
            self.wf(),
        ensures
            match r {
                Some(l) => lookup(self@, code@) == Some(l@),
                None => lookup(self@, code@) is None,
            },
    {
        match self.position_of(code) {
            Some(i) => {
                let l = self.links[i].cloned();
                assert(has_code(self@, code@));
                Some(l)
            },
            None => None,
        }
    }

    /// Adds `record`, unless a record with its code is already stored; then
    /// the store is left as it was and the error carries that code.
    pub fn insert(&mut self, record: Link) -> (r: Result<(), StoreError>)
        requires
            old(self).wf(),
        ensures
            final(self).wf(),
            has_code(old(self)@, record@.link) ==> {
                &&& final(self)@ == old(self)@
                &&& r matches Err(StoreError::DuplicateCode(c)) && c@ == record@.link
            },
            !has_code(old(self)@, record@.link) ==> {
                &&& final(self)@ == old(self)@.push(record@)
                &&& r is Ok
            },
    {
        match self.position_of(&record.link) {
            Some(_) => Err(StoreError::DuplicateCode(record.link)),
            None => {
                let ghost before = self@;
                let ghost rv = record@;
                self.links.push(record);
                assert(self@ =~= before.push(rv));
                Ok(())
            },
        }
    }
}

} // verus!
