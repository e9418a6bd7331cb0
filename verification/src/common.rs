//! Byte-sink helpers shared by the transmit path: a growable byte writer
//! and prefixed assembly of outgoing data.

use vstd::prelude::*;
use vstd::string::StringSliceAdditionalSpecFns;

verus! {

/// A growable byte sink that collects written string data.
#[derive(Debug)]
pub struct WriteBytes(pub Vec<u8>);

impl WriteBytes {
    /// Appends the bytes of `s` to the sink. Never fails; the `Result`
    /// mirrors the usual formatting-sink shape.
    pub fn write_str(&mut self, s: &str) -> (r: Result<(), ()>)
        ensures
            r is Ok,
            final(self).0@ == old(self).0@ + s.spec_bytes(),
    {
        let bytes: &[u8] = s.as_bytes();
        let mut i: usize = 0;
        while i < bytes.len()
            invariant
                i <= bytes@.len(),
                self.0@ == old(self).0@ + bytes@.subrange(0, i as int),
            decreases bytes@.len() - i,
        {
            self.0.push(bytes[i]);
            i = i + 1;
            proof {
                assert(self.0@ =~= old(self).0@ + bytes@.subrange(0, i as int));
            }
        }
        proof {
            assert(bytes@.subrange(0, bytes@.len() as int) =~= bytes@);
        }
        Ok(())
    }

    /// The collected bytes.
    pub fn as_slice(&self) -> (bytes: &[u8])
        ensures
            bytes@ == self.0@,
    {
        self.0.as_slice()
    }
}

/// Joins the bytes of `prefix` and `data` into one outgoing byte vector,
/// prefix first.
pub fn append_prefix(prefix: &str, data: &[u8]) -> (output: Vec<u8>)
    ensures
        output@ == prefix.spec_bytes() + data@,
        output@.len() == prefix.spec_bytes().len() + data@.len(),
{
    let prefix_bytes: &[u8] = prefix.as_bytes();
    let mut output: Vec<u8> = Vec::new();
    let mut i: usize = 0;
    while i < prefix_bytes.len()
        invariant
            i <= prefix_bytes@.len(),
            output@ == prefix_bytes@.subrange(0, i as int),
        decreases prefix_bytes@.len() - i,
    {
        output.push(prefix_bytes[i]);
        i = i + 1;
        proof {
            assert(output@ =~= prefix_bytes@.subrange(0, i as int));
        }
    }
    proof {
        assert(prefix_bytes@.subrange(0, prefix_bytes@.len() as int) =~= prefix_bytes@);
    }
    let mut j: usize = 0;
    while j < data.len()
        invariant
            j <= data@.len(),
            output@ == prefix.spec_bytes() + data@.subrange(0, j as int),
        decreases data@.len() - j,
    {
        output.push(data[j]);
        j = j + 1;
        proof {
            assert(output@ =~= prefix.spec_bytes() + data@.subrange(0, j as int));
        }
    }
    proof {
        assert(data@.subrange(0, data@.len() as int) =~= data@);
    }
    output
}

} // verus!
