//! A model of the scoped page-protection guard around detour patching.

use vstd::prelude::*;

use crate::HookError;

verus! {

/// The protection value of a region made writable and executable for the
/// duration of a patch.
pub const PAGE_EXECUTE_READWRITE: u32 = 0x40;

/// A model of one page-mapped region of the foreign process: its current
/// protection value.
pub struct PageRegion {
    protection: u32,
}

impl PageRegion {
    /// The protection value currently set on the region.
    pub closed spec fn spec_protection(self) -> u32 {
        self.protection
    }

    /// Records a region that currently carries the given protection value.
    pub fn new(protection: u32) -> (r: PageRegion)
        ensures
            r.spec_protection() == protection,
    {
        PageRegion { protection }
    }

    /// The protection value currently set on the region.
    pub fn protection(&self) -> (r: u32)
        ensures
            r == self.spec_protection(),
    {
        self.protection
    }
}

/// The scoped writable-memory guard: captures the region's protection,
/// makes the region writable and executable for the guarded mutation, and
/// restores the captured protection afterward.
///
/// The page-protection toggle itself is an injected capability of the
/// host; the outcomes of its two calls are handed in as `set_ok` and
/// `restore_ok`. When the first change fails, nothing has happened and the
/// error is the whole outcome. When only the restore fails, the guarded
/// mutation has already taken place and the region is left writable: the
/// error is still surfaced, but the side effect stands and is not rolled
/// back.
pub fn with_writable_region(region: &mut PageRegion, set_ok: bool, restore_ok: bool) -> (r: Result<
    (),
    HookError,
>)
    ensures
        !set_ok ==> (r matches Err(e) && e == HookError::ProtectionChangeError && *final(region)
            == *old(region)),
        set_ok && !restore_ok ==> (r matches Err(e) && e == HookError::ProtectionChangeError
            && final(region).spec_protection() == PAGE_EXECUTE_READWRITE),
        set_ok && restore_ok ==> r is Ok && final(region).spec_protection() == old(region).spec_protection(),
{
    if !set_ok {
        return Err(HookError::ProtectionChangeError);
    }
    let captured = region.protection;
    region.protection = PAGE_EXECUTE_READWRITE;
    if !restore_ok {
        return Err(HookError::ProtectionChangeError);
    }
    region.protection = captured;
    Ok(())
}

} // verus!
