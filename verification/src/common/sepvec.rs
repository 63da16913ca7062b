//! A list that is written with a separator between its items.

use crate::common::text::{spec_join, ToText};
use vstd::prelude::*;

verus! {

/// A list of items and the separator to write between them.
#[derive(Debug, PartialEq, Eq, PartialOrd, Ord, Hash)]
pub struct SepVec<T>(pub Vec<T>, pub &'static str);

/// What a `SepVec` holds.
pub struct SepVecView<T> {
    pub items: Seq<T>,
    pub sep: Seq<char>,
}

impl<T: DeepView> DeepView for SepVec<T> {
    type V = SepVecView<T::V>;

    open spec fn deep_view(&self) -> SepVecView<T::V> {
        SepVecView { items: self.0.deep_view(), sep: self.1@ }
    }
}

impl ToText for String {
    open spec fn text(&self) -> Seq<char> {
        self@
    }

    fn to_text(&self) -> (s: String) {
        self.clone()
    }
}

/// The texts of the items, in order.
pub open spec fn spec_texts<T: ToText>(items: Seq<T>) -> Seq<Seq<char>> {
    Seq::new(items.len(), |i: int| items[i].text())
}

impl<T: ToText> ToText for SepVec<T> {
    /// The items' texts with the separator between neighbours; nothing for
    /// an empty list.
    open spec fn text(&self) -> Seq<char> {
        spec_join(spec_texts(self.0@), self.1@)
    }

    fn to_text(&self) -> (s: String) {
        let mut s = String::new();
        let mut i: usize = 0;
        while i < self.0.len()
            invariant
                i <= self.0.len(),
                s@ == spec_join(spec_texts(self.0@).take(i as int), self.1@),
            decreases self.0.len() - i,
        {
            proof {
                let now = spec_texts(self.0@).take(i + 1);
                assert(now.drop_last() =~= spec_texts(self.0@).take(i as int));
                assert(now.last() == self.0@[i as int].text());
            }
            if i > 0 {
                s.append(self.1);
            }
            let item = self.0[i].to_text();
            s.append(item.as_str());
            proof {
                if i == 0 {
                    assert(s@ =~= self.0@[0].text());
                }
            }
            i += 1;
        }
        assert(spec_texts(self.0@).take(self.0.len() as int) =~= spec_texts(self.0@));
        s
    }
}

} // verus!
