use vstd::prelude::*;

verus! {

/// Canonical content address of a project or identity document.
///
/// The wider identity system is an external collaborator; all this library
/// reads of an identity is its canonical string form, which names the
/// identity's namespace in reference names and keys the seed cache. The
/// string is carried here as plain data.
#[derive(Clone, Debug)]
pub struct Identity {
    pub encoded: String,
}

impl View for Identity {
    type V = Seq<char>;

    open spec fn view(&self) -> Seq<char> {
        self.encoded@
    }
}

impl Identity {
    pub fn new(encoded: String) -> (r: Identity)
        ensures
            r@ == encoded@,
    {
        Identity { encoded }
    }

    /// Whether two identities name the same content address.
    pub fn same_as(&self, other: &Identity) -> (r: bool)
        ensures
            r == (self@ == other@),
    {
        self.encoded == other.encoded
    }
}

} // verus!
