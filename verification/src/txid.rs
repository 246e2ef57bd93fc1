//! A transaction identifier: exactly 32 raw bytes, rendered as hex in
//! reverse byte order.

use vstd::prelude::*;

use crate::codec::hex_encode;
use crate::codec::is_hex_char;
use crate::codec::lemma_spec_hex_charset;
use crate::codec::lemma_spec_hex_len;
use crate::codec::spec_hex;

verus! {

/// An identifier for a transaction or a referenced output.  The 32 bytes
/// are stored in the order the caller supplies them; rendering reverses
/// them, following the convention of displaying hashes in the byte order
/// opposite to their stored one.
#[derive(Debug, Clone, Copy)]
pub struct Txid {
    bytes: [u8; 32],
}

impl View for Txid {
    type V = Seq<u8>;

    closed spec fn view(&self) -> Seq<u8> {
        self.bytes@
    }
}

impl Txid {
    /// Wraps 32 bytes, kept verbatim in the supplied order.  Total: the
    /// fixed-size argument makes any other length unrepresentable.
    pub fn from_bytes(bytes: [u8; 32]) -> (t: Txid)
        ensures
            t@ == bytes@,
            t@.len() == 32,
    {
        Txid { bytes }
    }

    /// The stored bytes, in storage order.
    pub fn bytes(&self) -> (b: [u8; 32])
        ensures
            b@ == self@,
    {
        self.bytes
    }

    /// Renders the identifier: the stored bytes are reversed as a whole,
    /// then hex encoded with two lowercase digits per byte, giving 64
    /// characters.
    pub fn render(&self) -> (r: String)
        ensures
            r@ == spec_hex(self@.reverse()),
            r@.len() == 64,
    {
        let mut rev: Vec<u8> = Vec::new();
        let mut i: usize = 0;
        while i < 32
            invariant
                i <= 32,
                rev@.len() == i,
                forall|j: int| 0 <= j < i ==> rev@[j] == self@[31 - j],
            decreases 32 - i,
        {
            rev.push(self.bytes[31 - i]);
            i = i + 1;
        }
        proof {
            assert(rev@ =~= self@.reverse());
            lemma_spec_hex_len(self@.reverse());
        }
        hex_encode(&rev)
    }
}

/// Law: the rendered form of any 32-byte identifier has exactly 64
/// characters, each a lowercase hex digit.
pub proof fn lemma_txid_text_shape(b: Seq<u8>)
    requires
        b.len() == 32,
    ensures
        spec_hex(b.reverse()).len() == 64,
        forall|i: int| 0 <= i < 64 ==> is_hex_char(#[trigger] spec_hex(b.reverse())[i]),
{
    lemma_spec_hex_len(b.reverse());
    lemma_spec_hex_charset(b.reverse());
}

} // verus!
