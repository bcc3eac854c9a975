//! Small verified helpers on byte strings.

use vstd::prelude::*;

verus! {

/// Byte-for-byte equality of two byte strings.
pub fn bytes_eq(a: &Vec<u8>, b: &Vec<u8>) -> (r: bool)
    ensures
        r == (a@ == b@),
{
    if a.len() != b.len() {
        return false;
    }
    let mut i: usize = 0;
    while i < a.len()
        invariant
            i <= a.len(),
            a.len() == b.len(),
            forall|j: int| 0 <= j < i ==> a@[j] == b@[j],
        decreases a.len() - i,
    {
        if a[i] != b[i] {
            return false;
        }
        i += 1;
    }
    proof {
        assert(a@ =~= b@);
    }
    true
}

/// Append a copy of `src` to `dst`.
pub fn append_bytes(dst: &mut Vec<u8>, src: &Vec<u8>)
    ensures
        final(dst)@ == old(dst)@ + src@,
{
    let mut i: usize = 0;
    while i < src.len()
        invariant
            i <= src.len(),
            dst@ == old(dst)@ + src@.subrange(0, i as int),
        decreases src.len() - i,
    {
        dst.push(src[i]);
        proof {
            assert(dst@ =~= old(dst)@ + src@.subrange(0, i as int + 1));
        }
        i += 1;
    }
    proof {
        assert(src@.subrange(0, src@.len() as int) =~= src@);
    }
}

/// A fresh copy of `a`.
pub fn copy_bytes(a: &Vec<u8>) -> (r: Vec<u8>)
    ensures
        r@ == a@,
{
    let r = subvec(a, 0, a.len());
    proof {
        assert(a@.subrange(0, a@.len() as int) =~= a@);
    }
    r
}

/// The index of the first occurrence of `b` in `a`, if any.
pub fn find_first(a: &Vec<u8>, b: u8) -> (r: Option<usize>)
    ensures
        match r {
            Some(i) => i < a@.len() && a@[i as int] == b
                && forall|j: int| 0 <= j < i ==> a@[j] != b,
            None => forall|j: int| 0 <= j < a@.len() ==> a@[j] != b,
        },
{
    let mut i: usize = 0;
    while i < a.len()
        invariant
            i <= a.len(),
            forall|j: int| 0 <= j < i ==> a@[j] != b,
        decreases a.len() - i,
    {
        if a[i] == b {
            return Some(i);
        }
        i += 1;
    }
    None
}

/// The index of the last occurrence of `b` in `a`, if any.
pub fn find_last(a: &Vec<u8>, b: u8) -> (r: Option<usize>)
    ensures
        match r {
            Some(i) => i < a@.len() && a@[i as int] == b
                && forall|j: int| i < j < a@.len() ==> a@[j] != b,
            None => forall|j: int| 0 <= j < a@.len() ==> a@[j] != b,
        },
{
    let mut i: usize = a.len();
    while i > 0
        invariant
            i <= a.len(),
            forall|j: int| i <= j < a@.len() ==> a@[j] != b,
        decreases i,
    {
        i -= 1;
        if a[i] == b {
            return Some(i);
        }
    }
    None
}

/// A copy of `a[from..to]`.
pub fn subvec(a: &Vec<u8>, from: usize, to: usize) -> (r: Vec<u8>)
    requires
        from <= to <= a@.len(),
    ensures
        r@ == a@.subrange(from as int, to as int),
{
    let mut r: Vec<u8> = Vec::new();
    let mut i: usize = from;
    while i < to
        invariant
            from <= i <= to <= a@.len(),
            r@ == a@.subrange(from as int, i as int),
        decreases to - i,
    {
        r.push(a[i]);
        proof {
            assert(r@ =~= a@.subrange(from as int, i as int + 1));
        }
        i += 1;
    }
    r
}

} // verus!
