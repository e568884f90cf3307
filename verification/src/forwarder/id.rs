//! Identifier of a request or of a socket.

use crate::base16::{encode_hex_text, hex_bytes, hex_lower};
use crate::forwarder::error::ProtocolError;
use vstd::prelude::*;
use vstd::string::StringExecFns;

verus! {

/// Identifier of a request or of a socket: a byte string that is never empty.
#[derive(Debug, PartialEq, Eq, PartialOrd, Ord, Hash)]
pub struct Id(Vec<u8>);

impl View for Id {
    type V = Seq<u8>;

    closed spec fn view(&self) -> Seq<u8> {
        self.0@
    }
}

impl Clone for Id {
    fn clone(&self) -> (r: Self)
        ensures
            r@ == self@,
    {
        proof {
            use_type_invariant(self);
        }
        Id(self.0.clone())
    }
}

impl Id {
    #[verifier::type_invariant]
    spec fn not_empty(self) -> bool {
        self.0@.len() > 0
    }

    /// An identifier is made of any bytes but none.
    pub fn try_from(value: Vec<u8>) -> (r: Result<Self, ProtocolError>)
        ensures
            value@.len() == 0 ==> r == Err::<Self, ProtocolError>(ProtocolError::Empty),
            value@.len() > 0 ==> r is Ok && r->Ok_0@ == value@,
    {
        if value.is_empty() {
            return Err(ProtocolError::Empty);
        }
        Ok(Self(value))
    }

    /// The bytes of the identifier.
    pub fn as_bytes(&self) -> (r: &Vec<u8>)
        ensures
            r@ == self@,
            r@.len() > 0,
    {
        proof {
            use_type_invariant(self);
        }
        &self.0
    }

    /// The bytes of the identifier, which is given up.
    pub fn into_bytes(self) -> (r: Vec<u8>)
        ensures
            r@ == self@,
            r@.len() > 0,
    {
        proof {
            use_type_invariant(&self);
        }
        self.0
    }

    /// Whether two identifiers are the same bytes.
    pub fn same(&self, other: &Id) -> (r: bool)
        ensures
            r == (self@ == other@),
    {
        if self.0.len() != other.0.len() {
            return false;
        }
        let mut i: usize = 0;
        while i < self.0.len()
            invariant
                i <= self.0.len(),
                self.0.len() == other.0.len(),
                forall|k: int| 0 <= k < i ==> self.0@[k] == other.0@[k],
            decreases self.0.len() - i,
        {
            if self.0[i] != other.0[i] {
                return false;
            }
            i += 1;
        }
        proof {
            assert(self.0@ =~= other.0@);
        }
        true
    }

    /// The text form: the bytes in lower-case hexadecimal. Reading the text
    /// back gives the bytes.
    pub fn to_string(&self) -> (r: String)
        ensures
            r@ == hex_lower(self@),
            hex_bytes(r@) == Some(self@),
    {
        encode_hex_text(self.0.as_slice())
    }

    /// The text form for diagnostics: `Id(` the hexadecimal text `)`.
    pub fn to_debug_string(&self) -> (r: String)
        ensures
            r@ == "Id("@ + hex_lower(self@) + ")"@,
    {
        let text = encode_hex_text(self.0.as_slice());
        String::from_str("Id(").concat(text.as_str()).concat(")")
    }
}

} // verus!
