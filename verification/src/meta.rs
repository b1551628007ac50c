use vstd::prelude::*;

use crate::hexcode::is_hex_digit;

verus! {

/// The path separator byte, `/`.
pub const SLASH: u8 = 47;

/// The bytes of the `.part` suffix of a staged payload file.
pub open spec fn part_suffix() -> Seq<u8> {
    seq![46u8, 112u8, 97u8, 114u8, 116u8]
}

/// The bytes of the `.meta` suffix of a sidecar file.
pub open spec fn meta_suffix() -> Seq<u8> {
    seq![46u8, 109u8, 101u8, 116u8, 97u8]
}

/// `dir/name`: a directory path joined with one more component.
pub open spec fn spec_path_join(dir: Seq<u8>, name: Seq<u8>) -> Seq<u8> {
    dir + seq![SLASH] + name
}

/// Joins a directory path and a component with a separator byte.
pub fn path_join(dir: &[u8], name: &[u8]) -> (r: Vec<u8>)
    ensures
        r@ == spec_path_join(dir@, name@),
{
    let mut out = vstd::slice::slice_to_vec(dir);
    out.push(SLASH);
    crate::stream::append_slice(&mut out, name);
    proof {
        assert(out@ =~= spec_path_join(dir@, name@));
    }
    out
}

/// Appends the `.part` suffix to a path.
pub fn push_part_suffix(out: &mut Vec<u8>)
    ensures
        final(out)@ == old(out)@ + part_suffix(),
{
    out.push(46);
    out.push(112);
    out.push(97);
    out.push(114);
    out.push(116);
    proof {
        assert(out@ =~= old(out)@ + part_suffix());
    }
}

/// Appends the `.meta` suffix to a path.
pub fn push_meta_suffix(out: &mut Vec<u8>)
    ensures
        final(out)@ == old(out)@ + meta_suffix(),
{
    out.push(46);
    out.push(109);
    out.push(101);
    out.push(116);
    out.push(97);
    proof {
        assert(out@ =~= old(out)@ + meta_suffix());
    }
}

/// The persisted sidecar record describing an in-flight transfer. It lives
/// next to the partial payload and is rewritten as progress is made.
#[derive(Clone)]
pub struct TransactionMeta {
    /// Unique transaction token, `tx_` followed by a random part.
    pub id: Vec<u8>,
    /// Original payload name.
    pub filename: Vec<u8>,
    /// Path of the staging directory holding the partial file and this sidecar.
    pub tmp_path: Vec<u8>,
    /// Intended destination path on commit.
    pub final_path: Vec<u8>,
    /// Expected payload digest, 64 hexadecimal digit bytes.
    pub expected_sha: Vec<u8>,
    /// Bytes of the payload written and hashed so far.
    pub written_bytes: u64,
    /// Total payload length; immutable for the transaction's lifetime.
    pub total_size: u64,
}

impl TransactionMeta {
    /// A sidecar is well formed when progress does not exceed the total and
    /// the expected digest is 64 hex digit bytes (either case).
    pub open spec fn wf(&self) -> bool {
        &&& self.written_bytes <= self.total_size
        &&& self.expected_sha@.len() == 64
        &&& forall|i: int| 0 <= i < 64 ==> is_hex_digit(self.expected_sha@[i])
    }

    /// Checks well-formedness of a loaded sidecar.
    pub fn check(&self) -> (r: bool)
        ensures
            r == self.wf(),
    {
        if self.written_bytes > self.total_size {
            return false;
        }
        if self.expected_sha.len() != 64 {
            return false;
        }
        let n = self.expected_sha.len();
        for i in 0..n
            invariant
                n == self.expected_sha@.len(),
                forall|j: int| 0 <= j < i ==> is_hex_digit(self.expected_sha@[j]),
        {
            let b = self.expected_sha[i];
            let ok = (48 <= b && b <= 57) || (97 <= b && b <= 102) || (65 <= b && b <= 70);
            if !ok {
                return false;
            }
        }
        true
    }
}

} // verus!
