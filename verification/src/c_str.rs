//! NUL-terminated byte strings, and the memory image they are read from.
//!
//! A C string is a run of non-zero bytes followed by one NUL. The functions
//! here find that NUL with a bounds check on every read, so a caller that holds
//! a snapshot of foreign memory never reads past its end.

use vstd::prelude::*;
use vstd::slice::slice_subrange;
use vstd::slice::slice_to_vec;

verus! {

/// The first NUL of `s` stands at index `n`.
pub open spec fn nul_at(s: Seq<u8>, n: int) -> bool {
    &&& 0 <= n < s.len()
    &&& s[n] == 0
    &&& forall|j: int| 0 <= j < n ==> s[j] != 0
}

/// `s` holds a NUL somewhere.
pub open spec fn has_nul(s: Seq<u8>) -> bool {
    exists|n: int| nul_at(s, n)
}

/// The length of the C string that `s` starts with: the index of its first NUL.
/// Meaningful only where `has_nul(s)`.
pub open spec fn strlen(s: Seq<u8>) -> int {
    choose|n: int| nul_at(s, n)
}

/// `s` is one whole C string: its only NUL is its last byte.
pub open spec fn is_c_string(s: Seq<u8>) -> bool {
    s.len() > 0 && nul_at(s, s.len() - 1)
}

/// A sequence has at most one first NUL.
pub proof fn lemma_nul_unique(s: Seq<u8>, a: int, b: int)
    requires
        nul_at(s, a),
        nul_at(s, b),
    ensures
        a == b,
{
    if a < b {
        assert(s[a] != 0);
    } else if b < a {
        assert(s[b] != 0);
    }
}

/// Once the first NUL is known, so is `strlen`.
pub proof fn lemma_strlen(s: Seq<u8>, n: int)
    requires
        nul_at(s, n),
    ensures
        has_nul(s),
        strlen(s) == n,
{
    lemma_nul_unique(s, n, strlen(s));
}

/// A sequence without a zero byte has no first NUL, and the other way round.
pub proof fn lemma_has_nul_iff_zero(s: Seq<u8>)
    ensures
        has_nul(s) <==> exists|j: int| 0 <= j < s.len() && s[j] == 0,
{
    if has_nul(s) {
        let n = strlen(s);
        assert(0 <= n < s.len() && s[n] == 0);
    }
    if exists|j: int| 0 <= j < s.len() && s[j] == 0 {
        let j = choose|j: int| 0 <= j < s.len() && s[j] == 0;
        lemma_first_zero(s, j);
    }
}

proof fn lemma_first_zero(s: Seq<u8>, j: int)
    requires
        0 <= j < s.len(),
        s[j] == 0,
    ensures
        has_nul(s),
    decreases j,
{
    if forall|k: int| 0 <= k < j ==> s[k] != 0 {
        assert(nul_at(s, j));
    } else {
        let k = choose|k: int| 0 <= k < j && s[k] == 0;
        lemma_first_zero(s, k);
    }
}

/// Finds the first NUL of `s`.
pub fn find_nul(s: &[u8]) -> (r: Option<usize>)
    ensures
        match r {
            Some(n) => nul_at(s@, n as int),
            None => !has_nul(s@),
        },
{
    let mut i: usize = 0;
    while i < s.len()
        invariant
            i <= s.len(),
            forall|j: int| 0 <= j < i ==> s@[j] != 0,
        decreases s.len() - i,
    {
        if s[i] == 0 {
            return Some(i);
        }
        i += 1;
    }
    proof {
        lemma_has_nul_iff_zero(s@);
    }
    None
}

/// Reads `bytes` as one whole C string and returns what stands before its NUL.
/// `None` where `bytes` does not end in a NUL, or holds one earlier.
pub fn from_bytes_with_nul(bytes: &[u8]) -> (r: Option<&[u8]>)
    ensures
        r is Some <==> is_c_string(bytes@),
        r matches Some(body) ==> body@ == bytes@.drop_last(),
{
    match find_nul(bytes) {
        Some(n) => {
            if n == bytes.len() - 1 {
                Some(slice_subrange(bytes, 0, n))
            } else {
                proof {
                    if is_c_string(bytes@) {
                        lemma_nul_unique(bytes@, n as int, bytes@.len() - 1);
                    }
                }
                None
            }
        },
        None => None,
    }
}

/// A snapshot of a stretch of memory: the byte at address `base + i` is `bytes[i]`.
#[derive(Clone, Debug)]
pub struct Memory {
    pub base: usize,
    pub bytes: Vec<u8>,
}

impl Memory {
    /// What the snapshot holds from `addr` to its end; nothing where `addr` lies outside it.
    pub open spec fn tail(&self, addr: usize) -> Seq<u8> {
        if self.base <= addr && addr - self.base <= self.bytes@.len() {
            self.bytes@.skip(addr - self.base)
        } else {
            Seq::empty()
        }
    }

    /// A C string starts at `addr` and ends inside the snapshot.
    pub open spec fn has_c_str(&self, addr: usize) -> bool {
        has_nul(self.tail(addr))
    }

    /// The bytes of the C string at `addr`, without its NUL.
    pub open spec fn c_str(&self, addr: usize) -> Seq<u8> {
        self.tail(addr).take(strlen(self.tail(addr)))
    }

    /// The length of the C string at `addr`, or `None` where no NUL follows `addr`
    /// inside the snapshot.
    pub fn strlen(&self, addr: usize) -> (r: Option<usize>)
        ensures
            match r {
                Some(n) => nul_at(self.tail(addr), n as int),
                None => !self.has_c_str(addr),
            },
    {
        if addr < self.base || addr - self.base > self.bytes.len() {
            proof {
                lemma_has_nul_iff_zero(self.tail(addr));
            }
            return None;
        }
        let start: usize = addr - self.base;
        let rest = slice_subrange(self.bytes.as_slice(), start, self.bytes.len());
        assert(rest@ =~= self.tail(addr));
        find_nul(rest)
    }

    /// A copy of the C string at `addr`, NUL included.
    pub fn copy_c_str(&self, addr: usize) -> (buf: Vec<u8>)
        requires
            self.has_c_str(addr),
        ensures
            buf@ == self.c_str(addr).push(0),
            is_c_string(buf@),
    {
        let n: usize = self.strlen(addr).unwrap();
        proof {
            lemma_strlen(self.tail(addr), n as int);
        }
        let start: usize = addr - self.base;
        let len: usize = self.bytes.len();
        assert(self.tail(addr).len() == len - start);
        let src = slice_subrange(self.bytes.as_slice(), start, start + n + 1);
        let buf = slice_to_vec(src);
        assert(buf@ =~= self.c_str(addr).push(0));
        buf
    }
}

} // verus!
