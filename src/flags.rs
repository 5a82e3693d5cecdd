//! The set of built-in shortcuts to suppress.
use vstd::prelude::*;

verus! {

/// A set of built-in shortcut groups, one bit each.
///
/// The associated constants are the bits of the single groups; combine them with `|` and
/// make a set of them with [`Flags::from_bits_truncate`].
#[derive(Clone, Copy, Debug, PartialEq, Eq, Structural, Hash)]
pub struct Flags {
    bits: u32,
}

/// The bits of every group together.
pub const ALL_BITS: u32 = 0x3ff;

impl Flags {
    /// Find (`Ctrl+F`, `Ctrl+G`, `Ctrl+Shift+G`, `F3`)
    pub const FIND: u32 = 1;
    /// Caret browsing (`F7`)
    pub const CARET_BROWSING: u32 = 2;
    /// Developer tools (`Ctrl+Shift+I`)
    pub const DEV_TOOLS: u32 = 4;
    /// Downloads (`Ctrl+J`)
    pub const DOWNLOADS: u32 = 8;
    /// Focus move (`Shift+Tab`)
    pub const FOCUS_MOVE: u32 = 16;
    /// Reload (`F5`, `Ctrl+F5`, `Shift+F5`, `Ctrl+R`, `Ctrl+Shift+R`)
    pub const RELOAD: u32 = 32;
    /// Source (`Ctrl+U`)
    pub const SOURCE: u32 = 64;
    /// Open (`Ctrl+O`)
    pub const OPEN: u32 = 128;
    /// Print document (`Ctrl+P`, `Ctrl+Shift+P`)
    pub const PRINT: u32 = 256;
    /// Context menu (mouse right click)
    pub const CONTEXT_MENU: u32 = 512;

    pub closed spec fn spec_bits(self) -> u32 {
        self.bits
    }

    /// Whether every group of `bits` is in `self`.
    pub open spec fn spec_contains(self, bits: u32) -> bool {
        self.spec_bits() & bits == bits
    }

    /// The bits of the set.
    pub fn bits(&self) -> (r: u32)
        ensures
            r == self.spec_bits(),
    {
        self.bits
    }

    /// The set of the groups whose bits are set in `bits`; other bits are dropped.
    pub fn from_bits_truncate(bits: u32) -> (r: Flags)
        ensures
            r.spec_bits() == bits & ALL_BITS,
    {
        Flags { bits: bits & ALL_BITS }
    }

    /// No group.
    pub fn empty() -> (r: Flags)
        ensures
            r.spec_bits() == 0,
    {
        Flags { bits: 0 }
    }

    /// Every group.
    pub fn all() -> (r: Flags)
        ensures
            r.spec_bits() == ALL_BITS,
    {
        Flags { bits: ALL_BITS }
    }

    /// Whether every group whose bit is set in `bits` is in `self`.
    pub fn contains(&self, bits: u32) -> (r: bool)
        ensures
            r == self.spec_contains(bits),
    {
        self.bits & bits == bits
    }

    /// The groups in `self` or in `other`.
    pub fn union(self, other: Flags) -> (r: Flags)
        ensures
            r.spec_bits() == self.spec_bits() | other.spec_bits(),
    {
        Flags { bits: self.bits | other.bits }
    }

    /// The groups in `self` and not in `other`.
    pub fn difference(self, other: Flags) -> (r: Flags)
        ensures
            r.spec_bits() == self.spec_bits() & !other.spec_bits(),
    {
        Flags { bits: self.bits & !other.bits }
    }

    /// All keyboard shortcut groups: every group but `CONTEXT_MENU`.
    pub fn keyboard() -> (r: Flags)
        ensures
            r.spec_bits() == 0x1ff,
    {
        let r = Self::all().difference(Self::pointer());
        assert(0x3ffu32 & !0x200u32 == 0x1ffu32) by (bit_vector);
        r
    }

    /// All pointer shortcut groups: `CONTEXT_MENU`.
    pub fn pointer() -> (r: Flags)
        ensures
            r.spec_bits() == 0x200,
    {
        Flags { bits: Self::CONTEXT_MENU }
    }

    /// The groups for a debug build: all but `CONTEXT_MENU`, `DEV_TOOLS` and `RELOAD`, so
    /// that those stay at hand while developing; every group for a release build.
    pub fn debug(debug_assertions: bool) -> (r: Flags)
        ensures
            debug_assertions ==> r.spec_bits() == 0x1db,
            !debug_assertions ==> r.spec_bits() == ALL_BITS,
    {
        if debug_assertions {
            let kept = Flags { bits: Self::CONTEXT_MENU | Self::DEV_TOOLS | Self::RELOAD };
            assert(0x200u32 | 0x4u32 | 0x20u32 == 0x224u32) by (bit_vector);
            assert(0x3ffu32 & !0x224u32 == 0x1dbu32) by (bit_vector);
            Self::all().difference(kept)
        } else {
            Self::all()
        }
    }
}

impl Default for Flags {
    fn default() -> (r: Flags)
        ensures
            r.spec_bits() == ALL_BITS,
    {
        Self::all()
    }
}

} // verus!
