//! Strings in the form that C reads: the bytes of the text followed by a
//! single nul, with no nul before it.

use vstd::prelude::*;
use vstd::slice::slice_subrange;
use vstd::string::StringSliceAdditionalSpecFns;

verus! {

/// No byte of `bytes` is nul.
pub open spec fn nul_free(bytes: Seq<u8>) -> bool {
    forall|i: int| 0 <= i < bytes.len() ==> bytes[i] != 0
}

/// `at` is the place of the first nul byte in `bytes`.
pub open spec fn first_nul_at(bytes: Seq<u8>, at: int) -> bool {
    &&& 0 <= at < bytes.len()
    &&& bytes[at] == 0
    &&& forall|i: int| 0 <= i < at ==> bytes[i] != 0
}

/// The place of the first nul byte in `bytes`; it means something only
/// where `bytes` holds one.
pub open spec fn first_nul(bytes: Seq<u8>) -> int
    recommends
        !nul_free(bytes),
{
    choose|at: int| first_nul_at(bytes, at)
}

/// Only one place can be that of the first nul byte.
pub proof fn lemma_first_nul_is_unique(bytes: Seq<u8>, at: int)
    requires
        first_nul_at(bytes, at),
    ensures
        !nul_free(bytes),
        first_nul(bytes) == at,
{
    let chosen = first_nul(bytes);
    assert(first_nul_at(bytes, chosen));
    if chosen < at {
        assert(bytes[chosen] != 0);
    } else if at < chosen {
        assert(bytes[at] != 0);
    }
}

/// The place of the first nul byte in `bytes`, if there is one.
pub fn find_nul(bytes: &[u8]) -> (found: Option<usize>)
    ensures
        match found {
            Some(at) => first_nul_at(bytes@, at as int),
            None => nul_free(bytes@),
        },
{
    let mut i: usize = 0;
    while i < bytes.len()
        invariant
            i <= bytes@.len(),
            forall|j: int| 0 <= j < i ==> bytes@[j] != 0,
        decreases bytes@.len() - i,
    {
        if bytes[i] == 0 {
            return Some(i);
        }
        i += 1;
    }
    None
}

/// A string meant for the native side held a nul byte.
#[derive(Debug, Clone, Copy, PartialEq, Eq)]
pub struct NulError {
    position: usize,
}

impl NulError {
    /// The place of the offending byte in the rejected string.
    pub closed spec fn position(&self) -> usize {
        self.position
    }

    /// The place of the offending byte in the rejected string.
    #[verifier::when_used_as_spec(position)]
    pub fn nul_position(&self) -> (at: usize)
        ensures
            at == self.position(),
    {
        self.position
    }
}

/// An owned string ready to be handed to C.
#[derive(Debug)]
pub struct NativeString {
    bytes: Vec<u8>,
}

impl View for NativeString {
    type V = Seq<u8>;

    /// The bytes of the text, without the closing nul.
    closed spec fn view(&self) -> Seq<u8> {
        self.bytes@.drop_last()
    }
}

impl NativeString {
    /// What is held ends in a nul and has no other.
    #[verifier::type_invariant]
    spec fn closed_by_nul(&self) -> bool {
        &&& self.bytes@.len() > 0
        &&& self.bytes@.last() == 0
        &&& nul_free(self.bytes@.drop_last())
    }

    /// Takes the UTF-8 bytes of `text` and closes them with a nul, unless
    /// one of them is a nul already: then the place of the first such
    /// byte is reported.
    pub fn new(text: &str) -> (made: Result<NativeString, NulError>)
        ensures
            made is Ok <==> nul_free(text.spec_bytes()),
            match made {
                Ok(native) => native@ == text.spec_bytes(),
                Err(e) => first_nul_at(text.spec_bytes(), e.position() as int),
            },
    {
        let source = text.as_bytes();
        match find_nul(source) {
            Some(position) => Err(NulError { position }),
            None => {
                let mut bytes: Vec<u8> = Vec::with_capacity(source.len());
                bytes.extend_from_slice(source);
                bytes.push(0);
                assert(bytes@.drop_last() =~= source@);
                Ok(NativeString { bytes })
            },
        }
    }

    /// The bytes of the text, without the closing nul.
    pub fn as_bytes(&self) -> (bytes: &[u8])
        ensures
            bytes@ == self@,
            nul_free(bytes@),
    {
        proof {
            use_type_invariant(self);
        }
        let all = self.bytes.as_slice();
        let bytes = slice_subrange(all, 0, all.len() - 1);
        assert(bytes@ =~= self.bytes@.drop_last());
        bytes
    }

    /// The bytes as C reads them: the text, then the nul that ends it.
    pub fn as_bytes_with_nul(&self) -> (bytes: &[u8])
        ensures
            bytes@ == self@.push(0),
            nul_free(self@),
    {
        proof {
            use_type_invariant(self);
            assert(self.bytes@ =~= self.bytes@.drop_last().push(0));
        }
        self.bytes.as_slice()
    }
}

} // verus!
