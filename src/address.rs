use vstd::prelude::*;

use crate::error::RegistryError;

verus! {

/// Length in bytes of every key (employee hash, document hash) in the registry.
pub const KEY_LEN: usize = 32;

/// The namespace that separates the two kinds of record.
#[derive(Clone, Copy, Debug, PartialEq, Eq, Structural)]
pub enum Namespace {
    Employee,
    Proof,
}

impl Namespace {
    /// The seed bytes of the namespace: "employee" or "proof" in ASCII.
    pub open spec fn seed_spec(self) -> Seq<u8> {
        match self {
            Namespace::Employee => seq![101u8, 109u8, 112u8, 108u8, 111u8, 121u8, 101u8, 101u8],
            Namespace::Proof => seq![112u8, 114u8, 111u8, 111u8, 102u8],
        }
    }

    pub fn seed(&self) -> (r: Vec<u8>)
        ensures
            r@ == self.seed_spec(),
    {
        let r = match self {
            Namespace::Employee => vec![101u8, 109u8, 112u8, 108u8, 111u8, 121u8, 101u8, 101u8],
            Namespace::Proof => vec![112u8, 114u8, 111u8, 111u8, 102u8],
        };
        assert(r@ =~= self.seed_spec());
        r
    }
}

/// A storage address: a namespace and a 32-byte key.
#[derive(Clone, Copy, Debug, PartialEq, Eq)]
pub struct Address {
    pub namespace: Namespace,
    pub key: [u8; 32],
}

/// The address of the record with the given key in the given namespace.
pub open spec fn address_of(namespace: Namespace, key: [u8; 32]) -> Address {
    Address { namespace, key }
}

/// Derives the storage address of `key` in `namespace`.
/// Fails with `ValidationError` when `key` is not 32 bytes long.
pub fn derive(namespace: Namespace, key: &[u8]) -> (r: Result<Address, RegistryError>)
    ensures
        key@.len() != KEY_LEN ==> r == Err::<Address, RegistryError>(RegistryError::ValidationError),
        key@.len() == KEY_LEN ==> (r matches Ok(a) && a.namespace == namespace && a.key@ == key@),
{
    if key.len() != KEY_LEN {
        return Err(RegistryError::ValidationError);
    }
    let mut k: [u8; 32] = [0u8; 32];
    let mut i: usize = 0;
    while i < KEY_LEN
        invariant
            key@.len() == KEY_LEN,
            i <= KEY_LEN,
            forall|j: int| 0 <= j < i ==> k@[j] == key@[j],
        decreases KEY_LEN - i,
    {
        k[i] = key[i];
        i = i + 1;
    }
    assert(k@ =~= key@);
    Ok(Address { namespace, key: k })
}

/// Whether two addresses are the same.
pub fn same_address(a: &Address, b: &Address) -> (r: bool)
    ensures
        r == (*a == *b),
{
    if a.namespace != b.namespace {
        return false;
    }
    let mut i: usize = 0;
    while i < KEY_LEN
        invariant
            i <= KEY_LEN,
            forall|j: int| 0 <= j < i ==> a.key[j] == b.key[j],
        decreases KEY_LEN - i,
    {
        if a.key[i] != b.key[i] {
            return false;
        }
        i = i + 1;
    }
    assert(a.key =~= b.key);
    true
}

} // verus!
