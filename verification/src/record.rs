//! The customer record and the chain it heads.

use std::collections::hash_map::DefaultHasher;
use std::hash::Hash;
use std::hash::Hasher;
use std::sync::Arc;
use vstd::prelude::*;
use vstd::std_specs::cmp::PartialEqSpecImpl;
use vstd::std_specs::hash::DefaultHasherAdditionalSpecFns;
use vstd::string::StringExecFns;
use vstd::utf8::encode_utf8;

verus! {

/// One customer in a chain. The record is never changed after it is made;
/// `child` is the shared handle to the record that follows it, if any.
pub struct CustomerPII {
    pub first_name: String,
    pub last_name: String,
    pub uuid: String,
    pub child: Option<Arc<CustomerPII>>,
}

/// The handles reachable from `start`, itself first, in link order. The
/// links only lead onward, so the sequence is finite.
pub open spec fn chain_from(start: Arc<CustomerPII>) -> Seq<Arc<CustomerPII>>
    decreases start,
{
    match start.child {
        None => seq![start],
        Some(next) => seq![start] + chain_from(next),
    }
}

impl CustomerPII {
    /// The text that `render` gives for this record.
    pub open spec fn rendered(self) -> Seq<char> {
        "Customer: "@ + self.first_name@ + " "@ + self.last_name@ + ", UUID: "@ + self.uuid@
    }

    /// Whether this record is `parent` with `child` attached: the parent's
    /// names and identity, followed by `child`.
    pub open spec fn is_attachment(self, parent: CustomerPII, child: Arc<CustomerPII>) -> bool {
        &&& self.first_name == parent.first_name
        &&& self.last_name == parent.last_name
        &&& self.uuid == parent.uuid
        &&& self.child == Some(child)
    }

    /// The value that `hash_value` gives for this record: the digest of the
    /// identity's bytes, written once into a fresh default hasher.
    pub open spec fn digest(self) -> u64 {
        DefaultHasher::spec_finish(seq![encode_utf8(self.uuid@)])
    }

    /// A shared record with the given names and identity and no successor.
    pub fn new(first_name: &str, last_name: &str, uuid: &str) -> (record: Arc<CustomerPII>)
        ensures
            record.first_name@ == first_name@,
            record.last_name@ == last_name@,
            record.uuid@ == uuid@,
            record.child is None,
    {
        Arc::new(
            CustomerPII {
                first_name: first_name.to_owned(),
                last_name: last_name.to_owned(),
                uuid: uuid.to_owned(),
                child: None,
            },
        )
    }

    /// A new shared record that copies the names and identity of `parent`
    /// and is followed by `child`. Neither argument is changed.
    pub fn with_child(parent: &Arc<CustomerPII>, child: Arc<CustomerPII>) -> (record: Arc<
        CustomerPII,
    >)
        ensures
            record.is_attachment(**parent, child),
            chain_from(record) == seq![record] + chain_from(child),
    {
        Arc::new(
            CustomerPII {
                first_name: parent.first_name.clone(),
                last_name: parent.last_name.clone(),
                uuid: parent.uuid.clone(),
                child: Some(child),
            },
        )
    }

    /// The record as one line of text.
    pub fn render(&self) -> (text: String)
        ensures
            text@ == self.rendered(),
    {
        let mut text = "Customer: ".to_owned();
        text.append(self.first_name.as_str());
        text.append(" ");
        text.append(self.last_name.as_str());
        text.append(", UUID: ");
        text.append(self.uuid.as_str());
        text
    }

    /// A hash of the record, computed from its identity alone.
    pub fn hash_value(&self) -> (value: u64)
        ensures
            value == self.digest(),
    {
        let mut state = DefaultHasher::new();
        state.write(self.uuid.as_str().as_bytes());
        state.finish()
    }
}

impl PartialEq for CustomerPII {
    fn eq(&self, other: &Self) -> (same: bool) {
        self.uuid == other.uuid
    }
}

impl PartialEqSpecImpl for CustomerPII {
    open spec fn obeys_eq_spec() -> bool {
        true
    }

    open spec fn eq_spec(&self, other: &Self) -> bool {
        self.uuid@ == other.uuid@
    }
}

impl Eq for CustomerPII {}

/// `Hash::hash` of std for `String`: feeds the text to `state`. Nothing is
/// claimed of what the hasher then holds.
pub assume_specification<H: Hasher>[ <String as Hash>::hash ](text: &String, state: &mut H);

impl Hash for CustomerPII {
    /// Only the identity is hashed, so equal records hash alike.
    fn hash<H: Hasher>(&self, state: &mut H) {
        self.uuid.hash(state);
    }
}

} // verus!
