//! What holds of records and chains in general.

use crate::record::chain_from;
use crate::record::CustomerPII;
use crate::traversal::CustomerIterator;
use std::sync::Arc;
use vstd::prelude::*;
use vstd::std_specs::cmp::PartialEqSpec;

verus! {

/// Two records with the same identity are equal and hash alike, whatever
/// their names and successors are.
pub proof fn lemma_identity_decides(a: CustomerPII, b: CustomerPII)
    requires
        a.uuid@ == b.uuid@,
    ensures
        a.eq_spec(&b),
        b.eq_spec(&a),
        a.digest() == b.digest(),
{
}

/// Records with different identities are unequal, even with the same names.
pub proof fn lemma_distinct_identities_differ(a: CustomerPII, b: CustomerPII)
    requires
        a.uuid@ != b.uuid@,
    ensures
        !a.eq_spec(&b),
{
}

/// A chain starts with the record it is walked from, each record in it is
/// followed by its own successor, and the last one has none.
pub proof fn lemma_chain_follows_links(start: Arc<CustomerPII>)
    ensures
        chain_from(start).len() >= 1,
        chain_from(start)[0] == start,
        chain_from(start).last().child is None,
        forall|i: int|
            0 <= i < chain_from(start).len() - 1 ==> (#[trigger] chain_from(start)[i]).child
                == Some(chain_from(start)[i + 1]),
    decreases start,
{
    match start.child {
        None => {},
        Some(next) => {
            lemma_chain_follows_links(next);
            let rest = chain_from(next);
            let whole = chain_from(start);
            assert(whole == seq![start] + rest);
            assert forall|i: int| 0 <= i < whole.len() - 1 implies (#[trigger] whole[i]).child
                == Some(whole[i + 1]) by {
                if i > 0 {
                    assert(whole[i] == rest[i - 1]);
                    assert(whole[i + 1] == rest[i]);
                } else {
                    assert(whole[1] == rest[0]);
                }
            }
        },
    }
}

/// Attaching a child leaves both records as they were: what follows the new
/// record is exactly the chain that the child already headed, and the new
/// record carries the parent's names and identity.
pub proof fn lemma_attach_keeps_chains(
    parent: Arc<CustomerPII>,
    child: Arc<CustomerPII>,
    record: Arc<CustomerPII>,
)
    requires
        record.is_attachment(*parent, child),
    ensures
        chain_from(record) == seq![record] + chain_from(child),
        chain_from(record).skip(1) == chain_from(child),
        chain_from(record).len() == chain_from(child).len() + 1,
        (*record).eq_spec(&*parent),
        record.rendered() == parent.rendered(),
{
}

/// A cursor that is pulled `n` times has yielded the first `n` records of
/// what it had left, in order, and has the others left; pulled as often as
/// the chain is long, it is used up and stays so.
pub proof fn lemma_pulls_walk_in_order(cursor: CustomerIterator, n: nat)
    ensures
        n <= cursor.remaining().len() ==> cursor.pulled(n).remaining()
            == cursor.remaining().skip(n as int),
        n >= cursor.remaining().len() ==> cursor.pulled(n).current is None,
    decreases n,
{
    if n > 0 {
        lemma_pulls_walk_in_order(cursor.advanced(), (n - 1) as nat);
        match cursor.current {
            None => {},
            Some(node) => {
                let rest = cursor.advanced().remaining();
                assert(cursor.remaining() == seq![node] + rest);
                if n <= cursor.remaining().len() {
                    assert(cursor.remaining().skip(n as int) == rest.skip(n - 1));
                }
            },
        }
    } else {
        assert(cursor.remaining().skip(0) == cursor.remaining());
        if cursor.current is Some {
            lemma_chain_follows_links(cursor.current.unwrap());
        }
    }
}

} // verus!
