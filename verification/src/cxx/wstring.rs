//! Models of the foreign short-buffer-optimized wide string, with UTF-16
//! decoding that never fails.

use vstd::prelude::*;

use crate::HookError;

verus! {

/// Number of 16-bit code units the inline buffer of a wide string holds.
/// One slot is always reserved for the trailing terminator.
pub const WIDE_SSO_LEN: usize = 16;

/// The character substituted for invalid UTF-16 sequences.
pub const REPLACEMENT: char = '\u{FFFD}';

/// Whether `u` is a UTF-16 high (leading) surrogate code unit.
pub open spec fn is_high_surrogate(u: u16) -> bool {
    0xD800 <= u < 0xDC00
}

/// Whether `u` is a UTF-16 low (trailing) surrogate code unit.
pub open spec fn is_low_surrogate(u: u16) -> bool {
    0xDC00 <= u < 0xE000
}

/// Whether `u` lies in the surrogate range and so never stands for a
/// character on its own.
pub open spec fn is_surrogate(u: u16) -> bool {
    0xD800 <= u < 0xE000
}

/// The scalar value a valid surrogate pair encodes.
pub open spec fn combine_surrogates(hi: u16, lo: u16) -> u32 {
    (0x10000 + (hi - 0xD800) * 0x400 + (lo - 0xDC00)) as u32
}

/// The characters UTF-16 decoding yields: a valid surrogate pair becomes
/// the scalar it encodes, an unpaired surrogate the replacement character,
/// and any other code unit the character with its value.
pub open spec fn spec_decode_utf16(s: Seq<u16>) -> Seq<char>
    decreases s.len(),
{
    if s.len() == 0 {
        Seq::empty()
    } else if is_high_surrogate(s[0]) && s.len() >= 2 && is_low_surrogate(s[1]) {
        seq![combine_surrogates(s[0], s[1]) as char] + spec_decode_utf16(s.skip(2))
    } else if is_surrogate(s[0]) {
        seq![REPLACEMENT] + spec_decode_utf16(s.skip(1))
    } else {
        seq![(s[0] as u32) as char] + spec_decode_utf16(s.skip(1))
    }
}

/// Relies on char::from_u32: a value outside the surrogate range and no
/// greater than 0x10FFFF converts to the character with that scalar value,
/// anything else to no character.
pub assume_specification[ char::from_u32 ](i: u32) -> (r: Option<char>)
    ensures
        (0xD800 <= i < 0xE000 || i > 0x10FFFF) ==> r is None,
        !(0xD800 <= i < 0xE000 || i > 0x10FFFF) ==> r == Some(i as char),
;

/// Relies on String::push: appends the given character at the end.
pub assume_specification[ String::push ](s: &mut String, c: char)
    ensures
        final(s)@ == old(s)@.push(c),
;

/// Decodes the given code units as UTF-16, replacing every invalid
/// sequence with the replacement character, so that decoding never fails.
fn decode_units(units: &[u16]) -> (r: String)
    ensures
        r@ == spec_decode_utf16(units@),
{
    let full = Ghost(units@);
    let mut out = String::new();
    let mut i: usize = 0;
    proof {
        assert(full@.skip(0) =~= full@);
        assert(out@ + spec_decode_utf16(full@) =~= spec_decode_utf16(full@));
    }
    while i < units.len()
        invariant
            units@ == full@,
            i <= full@.len(),
            out@ + spec_decode_utf16(full@.skip(i as int)) == spec_decode_utf16(full@),
        decreases full@.len() - i,
    {
        let ghost rest = full@.skip(i as int);
        proof {
            assert(rest[0] == full@[i as int]);
        }
        let u = units[i];
        let step: usize;
        let c: char;
        if 0xD800 <= u && u < 0xDC00 && i + 1 < units.len() && 0xDC00 <= units[i + 1] && units[i
            + 1] < 0xE000 {
            let lo = units[i + 1];
            let scalar: u32 = 0x10000 + ((u - 0xD800) as u32) * 0x400 + ((lo - 0xDC00) as u32);
            proof {
                assert(rest.len() >= 2 && rest[1] == full@[i + 1]);
                assert(scalar == combine_surrogates(u, lo));
            }
            c = char::from_u32(scalar).unwrap();
            step = 2;
            proof {
                assert(spec_decode_utf16(rest) == seq![c] + spec_decode_utf16(rest.skip(2)));
            }
        } else if 0xD800 <= u && u < 0xE000 {
            c = REPLACEMENT;
            step = 1;
            proof {
                assert(spec_decode_utf16(rest) == seq![c] + spec_decode_utf16(rest.skip(1)));
            }
        } else {
            c = char::from_u32(u as u32).unwrap();
            step = 1;
            proof {
                assert(spec_decode_utf16(rest) == seq![c] + spec_decode_utf16(rest.skip(1)));
            }
        }
        let ghost prev = out@;
        out.push(c);
        proof {
            assert(rest.skip(step as int) =~= full@.skip(i + step));
            assert(out@ =~= prev + seq![c]);
            assert(out@ + spec_decode_utf16(full@.skip(i + step)) =~= prev + spec_decode_utf16(
                rest,
            ));
        }
        i += step;
    }
    proof {
        assert(full@.skip(i as int) =~= Seq::<u16>::empty());
        assert(out@ + Seq::<char>::empty() =~= out@);
    }
    out
}

/// Storage of an owned wide string: short contents sit in the inline
/// buffer, anything else behind a heap allocation, both in the same slot.
enum WStorage {
    Inline(Vec<u16>),
    Heap(Vec<u16>),
}

/// An owned model of the foreign short-buffer-optimized `std::wstring`.
///
/// The same scheme as the narrow string, applied over 16-bit code units:
/// contents shorter than [`WIDE_SSO_LEN`] units sit inline, anything longer
/// behind a heap allocation, and no content unit is the terminator.
pub struct WString {
    storage: WStorage,
    size: usize,
    capacity: usize,
}

impl View for WString {
    type V = Seq<u16>;

    closed spec fn view(&self) -> Seq<u16> {
        match self.storage {
            WStorage::Inline(v) => v@,
            WStorage::Heap(v) => v@,
        }
    }
}

impl WString {
    /// Whether the contents sit in the inline buffer rather than behind a
    /// heap allocation.
    pub closed spec fn is_inline(self) -> bool {
        self.storage is Inline
    }

    /// A well-formed owned wide string: the recorded size matches the
    /// contents, the inline form is used exactly below the short-buffer
    /// threshold, and no content unit is the terminator.
    pub closed spec fn wf(self) -> bool {
        &&& self.size == self@.len()
        &&& self.capacity == self.size
        &&& (self.is_inline() <==> self.size < WIDE_SSO_LEN)
        &&& forall|i: int| 0 <= i < self@.len() ==> self@[i] != 0
    }

    /// Creates a new wide string from caller-managed code units.
    ///
    /// Fails with `InvalidStringData` exactly when the input holds an
    /// embedded terminator unit, allocating nothing. Otherwise the contents
    /// are stored inline exactly when they are shorter than the
    /// short-buffer threshold, and are kept unit-for-unit.
    pub fn new(units: Vec<u16>) -> (r: Result<WString, HookError>)
        ensures
            match r {
                Ok(s) => {
                    &&& s.wf()
                    &&& s@ == units@
                    &&& (s.is_inline() <==> units@.len() < WIDE_SSO_LEN)
                    &&& forall|i: int| 0 <= i < units@.len() ==> units@[i] != 0
                },
                Err(e) => {
                    &&& e == HookError::InvalidStringData
                    &&& exists|i: int| 0 <= i < units@.len() && units@[i] == 0
                },
            },
    {
        let mut i: usize = 0;
        while i < units.len()
            invariant
                i <= units@.len(),
                forall|j: int| 0 <= j < i ==> units@[j] != 0,
            decreases units@.len() - i,
        {
            if units[i] == 0 {
                return Err(HookError::InvalidStringData);
            }
            i += 1;
        }
        let size = units.len();
        if size < WIDE_SSO_LEN {
            Ok(WString { storage: WStorage::Inline(units), size, capacity: size })
        } else {
            Ok(WString { storage: WStorage::Heap(units), size, capacity: size })
        }
    }

    /// Decodes the stored code units as UTF-16.
    ///
    /// Decoding never fails: invalid code points are replaced by the
    /// replacement character.
    pub fn decode_utf16(&self) -> (r: String)
        ensures
            r@ == spec_decode_utf16(self@),
    {
        match &self.storage {
            WStorage::Inline(v) => decode_units(v.as_slice()),
            WStorage::Heap(v) => decode_units(v.as_slice()),
        }
    }

    /// The number of content units, the terminator not counted.
    pub fn len(&self) -> (r: usize)
        requires
            self.wf(),
        ensures
            r == self@.len(),
    {
        self.size
    }

    /// Whether the contents are stored in the inline buffer.
    pub fn stored_inline(&self) -> (r: bool)
        ensures
            r == self.is_inline(),
    {
        match &self.storage {
            WStorage::Inline(_) => true,
            WStorage::Heap(_) => false,
        }
    }
}

/// A model of a foreign-owned wide string to which a borrowed view was
/// obtained.
///
/// The foreign side creates and frees the underlying storage; this layer
/// never does. The contents need not be valid UTF-16.
pub struct WStr {
    data: Vec<u16>,
    size: usize,
}

impl View for WStr {
    type V = Seq<u16>;

    closed spec fn view(&self) -> Seq<u16> {
        self.data@
    }
}

impl WStr {
    /// Records the code units a read of the foreign string yields.
    pub fn from_foreign(data: Vec<u16>) -> (r: WStr)
        ensures
            r@ == data@,
    {
        let size = data.len();
        WStr { data, size }
    }

    /// Decodes the recorded code units as UTF-16.
    ///
    /// Decoding never fails: invalid code points are replaced by the
    /// replacement character.
    pub fn decode_utf16(&self) -> (r: String)
        ensures
            r@ == spec_decode_utf16(self@),
    {
        decode_units(self.data.as_slice())
    }
}

/// Decoding a buffer whose first code unit is an unpaired surrogate yields
/// the replacement character at that position, and decodes the remaining
/// units independently of the surrogate.
pub proof fn lemma_unpaired_surrogate_replaced(s: Seq<u16>)
    requires
        s.len() > 0,
        is_surrogate(s[0]),
        !(is_high_surrogate(s[0]) && s.len() >= 2 && is_low_surrogate(s[1])),
    ensures
        spec_decode_utf16(s).len() > 0,
        spec_decode_utf16(s)[0] == REPLACEMENT,
        spec_decode_utf16(s).drop_first() == spec_decode_utf16(s.drop_first()),
{
    assert(s.skip(1) =~= s.drop_first());
    assert(spec_decode_utf16(s) == seq![REPLACEMENT] + spec_decode_utf16(s.skip(1)));
    assert(spec_decode_utf16(s).drop_first() =~= spec_decode_utf16(s.drop_first()));
}

/// A code unit outside the surrogate range decodes to the character with
/// its own value, ahead of the decoding of the remaining units: code units
/// beside an invalid sequence stay intact.
pub proof fn lemma_valid_unit_kept(s: Seq<u16>)
    requires
        s.len() > 0,
        !is_surrogate(s[0]),
    ensures
        spec_decode_utf16(s).len() > 0,
        spec_decode_utf16(s)[0] == (s[0] as u32) as char,
        spec_decode_utf16(s).drop_first() == spec_decode_utf16(s.drop_first()),
{
    assert(s.skip(1) =~= s.drop_first());
    assert(spec_decode_utf16(s) == seq![(s[0] as u32) as char] + spec_decode_utf16(s.skip(1)));
    assert(spec_decode_utf16(s).drop_first() =~= spec_decode_utf16(s.drop_first()));
}

/// Decoding a buffer that holds an unpaired surrogate behind a run of
/// ordinary code units yields the replacement character exactly at the
/// surrogate's position: every character of the run stays intact ahead of
/// it, and the units behind it decode independently of the surrogate.
pub proof fn lemma_surrogate_position_replaced(s: Seq<u16>, p: int)
    requires
        0 <= p < s.len(),
        forall|j: int| 0 <= j < p ==> !is_surrogate(s[j]),
        is_surrogate(s[p]),
        !(is_high_surrogate(s[p]) && p + 1 < s.len() && is_low_surrogate(s[p + 1])),
    ensures
        spec_decode_utf16(s).len() > p,
        spec_decode_utf16(s)[p] == REPLACEMENT,
        forall|j: int| 0 <= j < p ==> spec_decode_utf16(s)[j] == (s[j] as u32) as char,
        spec_decode_utf16(s).skip(p + 1) == spec_decode_utf16(s.skip(p + 1)),
    decreases p,
{
    if p == 0 {
        lemma_unpaired_surrogate_replaced(s);
        assert(s.drop_first() =~= s.skip(1));
        assert(spec_decode_utf16(s).skip(1) =~= spec_decode_utf16(s).drop_first());
    } else {
        lemma_valid_unit_kept(s);
        let t = s.drop_first();
        assert(t[p - 1] == s[p]);
        assert(p < t.len() ==> t[p] == s[p + 1]);
        assert forall|j: int| 0 <= j < p - 1 implies !is_surrogate(t[j]) by {
            assert(t[j] == s[j + 1]);
        }
        lemma_surrogate_position_replaced(t, p - 1);
        let d = spec_decode_utf16(s);
        let dt = spec_decode_utf16(t);
        assert(d == seq![(s[0] as u32) as char] + dt);
        assert(d[p] == dt[p - 1]);
        assert forall|j: int| 0 <= j < p implies d[j] == (s[j] as u32) as char by {
            if j > 0 {
                assert(d[j] == dt[j - 1]);
                assert(t[j - 1] == s[j]);
            }
        }
        assert(d.skip(p + 1) =~= dt.skip(p));
        assert(t.skip(p) =~= s.skip(p + 1));
    }
}

} // verus!
