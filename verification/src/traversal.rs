//! Walking a chain: a cursor that hands out one shared record at a time.

use crate::record::chain_from;
use crate::record::CustomerPII;
use std::sync::Arc;
use vstd::prelude::*;

verus! {

/// `Clone::clone` of std on an `Arc`: another handle to the same record.
/// The record itself is not copied, so the new handle equals the old one.
#[verifier::external_body]
fn share(record: &Arc<CustomerPII>) -> (handle: Arc<CustomerPII>)
    ensures
        handle == *record,
{
    Arc::clone(record)
}

/// A single-pass cursor over a chain. `current` is the record that the next
/// pull yields; `None` once the chain is used up.
pub struct CustomerIterator {
    pub current: Option<Arc<CustomerPII>>,
}

impl CustomerIterator {
    /// The handles still to come, in the order in which they are yielded.
    pub open spec fn remaining(self) -> Seq<Arc<CustomerPII>> {
        match self.current {
            None => Seq::empty(),
            Some(node) => chain_from(node),
        }
    }

    /// The cursor as it stands after one pull.
    pub open spec fn advanced(self) -> CustomerIterator {
        match self.current {
            None => CustomerIterator { current: None },
            Some(node) => CustomerIterator { current: node.child },
        }
    }

    /// The cursor as it stands after `n` pulls.
    pub open spec fn pulled(self, n: nat) -> CustomerIterator
        decreases n,
    {
        if n == 0 {
            self
        } else {
            self.advanced().pulled((n - 1) as nat)
        }
    }

    /// Yields the current record and moves on to its successor. Once the
    /// chain is used up every pull gives `None`.
    pub fn next(&mut self) -> (item: Option<Arc<CustomerPII>>)
        ensures
            item == old(self).current,
            *final(self) == old(self).advanced(),
            item matches Some(node) ==> old(self).remaining() == seq![node] + final(self).remaining(),
            item is None ==> final(self).remaining() == old(self).remaining(),
    {
        match self.current.take() {
            None => None,
            Some(node) => {
                self.current = match &node.child {
                    None => None,
                    Some(next) => Some(share(next)),
                };
                Some(node)
            },
        }
    }

    /// Pulls until the chain is used up and returns what was yielded, in order.
    pub fn collect(self) -> (items: Vec<Arc<CustomerPII>>)
        ensures
            items@ == self.remaining(),
    {
        let ghost all = self.remaining();
        let mut cursor = self;
        let mut items: Vec<Arc<CustomerPII>> = Vec::new();
        loop
            invariant
                items@ + cursor.remaining() == all,
            ensures
                items@ == all,
            decreases cursor.remaining().len(),
        {
            match cursor.next() {
                None => {
                    break ;
                },
                Some(node) => {
                    items.push(node);
                },
            }
        }
        items
    }
}

impl CustomerPII {
    /// A fresh cursor that starts at this record.
    pub fn iter(self: Arc<Self>) -> (cursor: CustomerIterator)
        ensures
            cursor.current == Some(self),
            cursor.remaining() == chain_from(self),
    {
        CustomerIterator { current: Some(self) }
    }
}

} // verus!
