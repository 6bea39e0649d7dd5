//! Strings in the form the native layer takes them: bytes without a NUL.

use vstd::prelude::*;
use vstd::string::StringSliceAdditionalSpecFns;
use crate::error::{Error, ErrorView};

verus! {

/// Whether `bytes` holds a NUL byte.
pub open spec fn has_nul(bytes: Seq<u8>) -> bool {
    exists|i: int| 0 <= i < bytes.len() && bytes[i] == 0u8
}

/// Where the first NUL byte of `bytes` stands, if there is one.
pub open spec fn first_nul(bytes: Seq<u8>) -> Option<nat>
    decreases bytes.len(),
{
    if bytes.len() == 0 {
        None
    } else if bytes[0] == 0u8 {
        Some(0)
    } else {
        match first_nul(bytes.drop_first()) {
            Some(position) => Some(position + 1),
            None => None,
        }
    }
}

/// `first_nul` finds a NUL byte exactly when there is one, and then gives
/// the position before which there is none.
pub proof fn lemma_first_nul(bytes: Seq<u8>)
    ensures
        first_nul(bytes) is Some <==> has_nul(bytes),
        first_nul(bytes) matches Some(position) ==> {
            &&& position < bytes.len()
            &&& bytes[position as int] == 0u8
            &&& forall|i: int| 0 <= i < position ==> bytes[i] != 0u8
        },
    decreases bytes.len(),
{
    if bytes.len() > 0 {
        let rest = bytes.drop_first();
        lemma_first_nul(rest);
        if bytes[0] != 0u8 {
            if has_nul(bytes) {
                let i = choose|i: int| 0 <= i < bytes.len() && bytes[i] == 0u8;
                assert(rest[i - 1] == 0u8);
            }
            if has_nul(rest) {
                let i = choose|i: int| 0 <= i < rest.len() && rest[i] == 0u8;
                assert(bytes[i + 1] == 0u8);
            }
            if let Some(position) = first_nul(rest) {
                assert forall|i: int| 0 <= i < position + 1 implies bytes[i] != 0u8 by {
                    if i > 0 {
                        assert(rest[i - 1] != 0u8);
                    }
                }
            }
        }
    }
}

/// A position that holds a NUL byte with none before it is the first.
pub proof fn lemma_first_nul_at(bytes: Seq<u8>, position: int)
    requires
        0 <= position < bytes.len(),
        bytes[position] == 0u8,
        forall|i: int| 0 <= i < position ==> bytes[i] != 0u8,
    ensures
        first_nul(bytes) == Some(position as nat),
    decreases position,
{
    if position > 0 {
        let rest = bytes.drop_first();
        assert forall|i: int| 0 <= i < position - 1 implies rest[i] != 0u8 by {
            assert(rest[i] == bytes[i + 1]);
        }
        lemma_first_nul_at(rest, position - 1);
    }
}

/// A byte string that holds no NUL byte, so that the native layer can take
/// it NUL-terminated without losing its tail.
#[derive(Debug, PartialEq, Eq)]
pub struct NativeString {
    bytes: Vec<u8>,
}

impl View for NativeString {
    type V = Seq<u8>;

    closed spec fn view(&self) -> Seq<u8> {
        self.bytes@
    }
}

impl NativeString {
    #[verifier::type_invariant]
    spec fn nul_free(&self) -> bool {
        !has_nul(self.bytes@)
    }

    /// Keeps `bytes` if they hold no NUL byte, and reports where the first
    /// one stands otherwise.
    pub fn from_vec(bytes: Vec<u8>) -> (r: Result<NativeString, Error>)
        ensures
            match first_nul(bytes@) {
                None => r is Ok && r->Ok_0@ == bytes@,
                Some(position) => r is Err && r->Err_0@ == ErrorView::NulByte(position),
            },
    {
        let mut i: usize = 0;
        while i < bytes.len()
            invariant
                i <= bytes.len(),
                forall|j: int| 0 <= j < i ==> bytes@[j] != 0u8,
            decreases bytes.len() - i,
        {
            if bytes[i] == 0 {
                proof {
                    lemma_first_nul_at(bytes@, i as int);
                }
                return Err(Error::NulByte(i));
            }
            i += 1;
        }
        proof {
            lemma_first_nul(bytes@);
        }
        Ok(NativeString { bytes })
    }

    /// Keeps the UTF-8 bytes of `text` if they hold no NUL byte, and
    /// reports where the first one stands otherwise.
    pub fn new(text: &str) -> (r: Result<NativeString, Error>)
        ensures
            match first_nul(text.spec_bytes()) {
                None => r is Ok && r->Ok_0@ == text.spec_bytes(),
                Some(position) => r is Err && r->Err_0@ == ErrorView::NulByte(position),
            },
    {
        NativeString::from_vec(vstd::slice::slice_to_vec(text.as_bytes()))
    }

    /// The bytes, without a terminator.
    pub fn as_bytes(&self) -> (r: &[u8])
        ensures
            r@ == self@,
            !has_nul(r@),
    {
        proof {
            use_type_invariant(self);
        }
        self.bytes.as_slice()
    }

    /// The bytes, without a terminator.
    pub fn into_bytes(self) -> (r: Vec<u8>)
        ensures
            r@ == self@,
            !has_nul(r@),
    {
        proof {
            use_type_invariant(&self);
        }
        self.bytes
    }

    /// The number of bytes.
    pub fn len(&self) -> (r: usize)
        ensures
            r == self@.len(),
    {
        self.bytes.len()
    }
}

} // verus!
