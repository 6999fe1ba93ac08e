//! Information on the module image being hooked, and byte-pattern scanning
//! over its memory.

use vstd::prelude::*;

use vstd::string::StringSliceAdditionalSpecFns;

use crate::HookError;

verus! {

/// The value of an ASCII hexadecimal digit, if `b` is one.
pub open spec fn spec_hex_digit(b: u8) -> Option<u8> {
    if 0x30 <= b <= 0x39 {
        Some((b - 0x30) as u8)
    } else if 0x61 <= b <= 0x66 {
        Some((b - 0x61 + 10) as u8)
    } else if 0x41 <= b <= 0x46 {
        Some((b - 0x41 + 10) as u8)
    } else {
        None
    }
}

/// The byte a pattern token stands for: one or two hexadecimal digits give
/// a constant byte, and any other token (the `??` wildcard among them)
/// matches every byte.
pub open spec fn spec_parse_token(t: Seq<u8>) -> Option<u8> {
    if t.len() == 1 {
        spec_hex_digit(t[0])
    } else if t.len() == 2 {
        match (spec_hex_digit(t[0]), spec_hex_digit(t[1])) {
            (Some(h), Some(l)) => Some((h * 16 + l) as u8),
            _ => None,
        }
    } else {
        None
    }
}

/// Index of the first space in `s`, or its length when it holds none.
pub open spec fn spec_first_space(s: Seq<u8>) -> int
    decreases s.len(),
{
    if s.len() == 0 {
        0
    } else if s[0] == 0x20 {
        0
    } else {
        1 + spec_first_space(s.drop_first())
    }
}

/// The first space of a sequence sits exactly where no space stands before
/// a space, or at the length when the sequence holds none.
proof fn lemma_first_space_is(s: Seq<u8>, k: int)
    requires
        0 <= k <= s.len(),
        forall|j: int| 0 <= j < k ==> s[j] != 0x20,
        k < s.len() ==> s[k] == 0x20,
    ensures
        spec_first_space(s) == k,
    decreases k,
{
    if k > 0 {
        lemma_first_space_is(s.drop_first(), k - 1);
    }
}

/// The index of the first space never leaves the sequence's bounds.
proof fn lemma_first_space_bounds(s: Seq<u8>)
    ensures
        0 <= spec_first_space(s) <= s.len(),
    decreases s.len(),
{
    if s.len() > 0 && s[0] != 0x20 {
        lemma_first_space_bounds(s.drop_first());
    }
}

/// The bytes a whole space-separated pattern stands for, token by token.
pub open spec fn spec_pattern(s: Seq<u8>) -> Seq<Option<u8>>
    decreases s.len(),
    via spec_pattern_decreases
{
    let fs = spec_first_space(s);
    if fs == s.len() {
        seq![spec_parse_token(s)]
    } else {
        seq![spec_parse_token(s.take(fs))] + spec_pattern(s.skip(fs + 1))
    }
}

#[via_fn]
proof fn spec_pattern_decreases(s: Seq<u8>) {
    lemma_first_space_bounds(s);
}

/// Whether the parsed pattern `pat` matches the memory `mem` at offset `i`:
/// the pattern fits there and every constant byte of it equals the byte of
/// the memory under it.
pub open spec fn spec_matches_at(mem: Seq<u8>, pat: Seq<Option<u8>>, i: int) -> bool {
    &&& 0 <= i
    &&& i + pat.len() <= mem.len()
    &&& forall|j: int|
        0 <= j < pat.len() ==> (#[trigger] pat[j] matches Some(b) ==> mem[i + j] == b)
}

/// The value of an ASCII hexadecimal digit, if `b` is one.
fn hex_digit(b: u8) -> (r: Option<u8>)
    ensures
        r == spec_hex_digit(b),
{
    if 0x30 <= b && b <= 0x39 {
        Some(b - 0x30)
    } else if 0x61 <= b && b <= 0x66 {
        Some(b - 0x61 + 10)
    } else if 0x41 <= b && b <= 0x46 {
        Some(b - 0x41 + 10)
    } else {
        None
    }
}

/// Parses one space-free pattern token.
fn parse_token(t: &[u8]) -> (r: Option<u8>)
    ensures
        r == spec_parse_token(t@),
{
    if t.len() == 1 {
        hex_digit(t[0])
    } else if t.len() == 2 {
        match (hex_digit(t[0]), hex_digit(t[1])) {
            (Some(h), Some(l)) => Some(h * 16 + l),
            _ => None,
        }
    } else {
        None
    }
}

/// Splits a pattern at its spaces and parses every token.
fn parse_pattern(pattern: &[u8]) -> (r: Vec<Option<u8>>)
    ensures
        r@ == spec_pattern(pattern@),
{
    let ghost s = pattern@;
    let mut out: Vec<Option<u8>> = Vec::new();
    let mut start: usize = 0;
    let mut i: usize = 0;
    proof {
        assert(s.skip(0) =~= s);
    }
    while i < pattern.len()
        invariant
            pattern@ == s,
            start <= i <= s.len(),
            forall|j: int| start <= j < i ==> s[j] != 0x20,
            spec_pattern(s) == out@ + spec_pattern(s.skip(start as int)),
        decreases s.len() - i,
    {
        if pattern[i] == 0x20 {
            let tok = parse_token(&pattern[start..i]);
            let ghost prev = out@;
            out.push(tok);
            proof {
                let t = s.skip(start as int);
                assert forall|j: int| 0 <= j < i - start implies t[j] != 0x20 by {
                    assert(t[j] == s[start + j]);
                }
                assert(t[i - start] == s[i as int]);
                lemma_first_space_is(t, i - start);
                assert(t.take(i - start) =~= s.subrange(start as int, i as int));
                assert(t.skip(i - start + 1) =~= s.skip(i + 1));
                assert(spec_pattern(t) == seq![spec_parse_token(t.take(i - start))]
                    + spec_pattern(s.skip(i + 1)));
                assert(out@ =~= prev + seq![tok]);
                assert(out@ + spec_pattern(s.skip(i + 1)) =~= prev + spec_pattern(t));
            }
            start = i + 1;
        }
        i += 1;
    }
    let tok = parse_token(&pattern[start..pattern.len()]);
    let ghost prev = out@;
    out.push(tok);
    proof {
        let t = s.skip(start as int);
        assert forall|j: int| 0 <= j < s.len() - start implies t[j] != 0x20 by {
            assert(t[j] == s[start + j]);
        }
        lemma_first_space_is(t, s.len() - start);
        assert(spec_pattern(t) == seq![spec_parse_token(t)]);
        assert(s.subrange(start as int, s.len() as int) =~= t);
        assert(out@ =~= prev + seq![tok]);
        assert(out@ =~= prev + spec_pattern(t));
    }
    out
}

/// Whether the parsed pattern matches the memory at offset `i`.
fn matches_at(mem: &[u8], pat: &[Option<u8>], i: usize) -> (r: bool)
    requires
        i + pat@.len() <= mem@.len(),
        mem@.len() <= usize::MAX,
    ensures
        r == spec_matches_at(mem@, pat@, i as int),
{
    let mut j: usize = 0;
    while j < pat.len()
        invariant
            i + pat@.len() <= mem@.len(),
            mem@.len() <= usize::MAX,
            j <= pat@.len(),
            forall|k: int| 0 <= k < j ==> (#[trigger] pat@[k] matches Some(b) ==> mem@[i + k] == b),
        decreases pat@.len() - j,
    {
        if let Some(b) = pat[j] {
            if mem[i + j] != b {
                return false;
            }
        }
        j += 1;
    }
    true
}

/// Holds information on the module that is being hooked: its base address
/// and what a read of its mapped image yields.
pub struct Module<'a> {
    base: usize,
    memory: &'a [u8],
}

impl<'a> View for Module<'a> {
    type V = Seq<u8>;

    closed spec fn view(&self) -> Seq<u8> {
        self.memory@
    }
}

impl<'a> Module<'a> {
    /// The base address of the mapped image.
    pub closed spec fn spec_base(self) -> usize {
        self.base
    }

    /// A well-formed module: its image ends within the address space.
    pub closed spec fn wf(self) -> bool {
        self.base + self.memory@.len() <= usize::MAX
    }

    /// Records what a read of the module mapped at `base` yields.
    pub fn from_image(base: usize, memory: &'a [u8]) -> (r: Module<'a>)
        requires
            base + memory@.len() <= usize::MAX,
        ensures
            r.wf(),
            r@ == memory@,
            r.spec_base() == base,
    {
        Module { base, memory }
    }

    /// Gets the base address of this module in memory.
    pub fn base(&self) -> (r: usize)
        ensures
            r == self.spec_base(),
    {
        self.base
    }

    /// Gets the size of this module in memory, measured in bytes.
    pub fn size(&self) -> (r: usize)
        ensures
            r == self@.len(),
    {
        self.memory.len()
    }

    /// Finds the first address in this module that matches the signature
    /// `pattern` and returns the address of the byte where the match
    /// starts.
    ///
    /// `pattern` is a string where every byte is written as hexadecimal
    /// characters, the bytes separated by spaces. For wildcard matches
    /// where a byte is not a constant, `??` shall be used.
    ///
    /// Example: `AB 01 32 ?? 48`
    ///
    /// Fails with `SignatureNotFound` exactly when no offset of the image
    /// matches the whole pattern.
    pub fn find_signature(&self, pattern: &str) -> (r: Result<usize, HookError>)
        requires
            self.wf(),
        ensures
            match r {
                Ok(addr) => {
                    let i = addr - self.spec_base();
                    &&& spec_matches_at(self@, spec_pattern(pattern.spec_bytes()), i)
                    &&& self.spec_base() <= addr
                    &&& forall|i2: int|
                        0 <= i2 < i ==> !spec_matches_at(
                            self@,
                            spec_pattern(pattern.spec_bytes()),
                            i2,
                        )
                },
                Err(e) => {
                    &&& e == HookError::SignatureNotFound
                    &&& forall|i: int|
                        !spec_matches_at(self@, spec_pattern(pattern.spec_bytes()), i)
                },
            },
    {
        let pat = parse_pattern(pattern.as_bytes());
        let n = pat.len();
        let m = self.memory.len();
        if n > m {
            return Err(HookError::SignatureNotFound);
        }
        let mut i: usize = 0;
        while i <= m - n
            invariant
                pat@ == spec_pattern(pattern.spec_bytes()),
                n == pat@.len(),
                m == self@.len(),
                n <= m,
                i <= m - n + 1,
                self.wf(),
                forall|i2: int| 0 <= i2 < i ==> !spec_matches_at(self@, pat@, i2),
            decreases m - n - i + 1,
        {
            if matches_at(self.memory, pat.as_slice(), i) {
                return Ok(self.base + i);
            }
            i += 1;
        }
        Err(HookError::SignatureNotFound)
    }
}

} // verus!
