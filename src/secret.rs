use vstd::prelude::*;

verus! {

/// A plaintext record that callers protect: a title, a description and the
/// secret value itself. Its text and byte framing are left to callers.
#[derive(Clone, Debug)]
pub struct Secret {
    pub title: String,
    pub description: String,
    pub value: String,
}

impl Secret {
    /// A record with the given fields.
    pub fn new(title: String, description: String, value: String) -> (r: Secret)
        ensures
            r.title@ == title@,
            r.description@ == description@,
            r.value@ == value@,
    {
        Secret { title, description, value }
    }
}

} // verus!
