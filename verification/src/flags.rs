//! Flags marshaling: an open bit-set with explicit unknown-bit handling.
//!
//! Conversion from a foreign bit pattern partitions it into the subset
//! matching declared flag constants and the unknown remainder; it fails if
//! any unknown bit is present, and the failure carries the full input, the
//! known subset, and the unknown remainder, so a caller can still recover
//! the recognized part.

use vstd::prelude::*;

use crate::gtype::{GType, TypeKey};
use crate::runtime::Runtime;

verus! {

/// Bit of the flag that marks an attribute as copied with the file.
pub const COPY_WITH_FILE_BIT: u32 = 1;

/// Bit of the flag that marks an attribute as copied when the file moves.
pub const COPY_WHEN_MOVED_BIT: u32 = 2;

/// Union of all declared flag bits.
pub const ALL_BITS: u32 = 3;

/// The declared flags of the file-attribute-info class, as an open bit-set.
#[derive(Clone, Copy, PartialEq, Eq, Structural, Debug)]
pub struct FileAttributeInfoFlags {
    pub bits: u32,
}

/// The empty flag set, under the name the foreign declaration gives it.
pub fn none() -> (f: FileAttributeInfoFlags)
    ensures
        f.bits == 0,
{
    FileAttributeInfoFlags { bits: 0 }
}

/// The flag set holding exactly the copy-with-file flag.
pub fn copy_with_file() -> (f: FileAttributeInfoFlags)
    ensures
        f.bits == COPY_WITH_FILE_BIT,
{
    FileAttributeInfoFlags { bits: COPY_WITH_FILE_BIT }
}

/// The flag set holding exactly the copy-when-moved flag.
pub fn copy_when_moved() -> (f: FileAttributeInfoFlags)
    ensures
        f.bits == COPY_WHEN_MOVED_BIT,
{
    FileAttributeInfoFlags { bits: COPY_WHEN_MOVED_BIT }
}

/// The failure of converting a foreign bit pattern: some bits match no
/// declared flag.  Keeps the full input and the mask of declared bits, so
/// the known subset and the unknown remainder both stay recoverable.
#[derive(Clone, Copy, PartialEq, Eq, Structural, Debug)]
pub struct UnknownFlags {
    pub actual: u32,
    pub mask: u32,
}

impl UnknownFlags {
    /// The full input of the failed conversion.
    pub open spec fn actual_spec(self) -> u32 {
        self.actual
    }

    /// The mask of declared bits the conversion checked against.
    pub open spec fn mask_spec(self) -> u32 {
        self.mask
    }

    /// Packs a failed input together with the declared-bit mask.
    pub fn new(actual: u32, mask: u32) -> (u: UnknownFlags)
        ensures
            u.actual_spec() == actual,
            u.mask_spec() == mask,
    {
        UnknownFlags { actual, mask }
    }

    /// The full input value.
    pub fn actual(&self) -> (r: u32)
        ensures
            r == self.actual_spec(),
    {
        self.actual
    }

    /// The subset of the input that matches declared flags.
    pub fn known(&self) -> (r: u32)
        ensures
            r == self.actual_spec() & self.mask_spec(),
    {
        self.actual & self.mask
    }

    /// The remainder of the input that matches no declared flag.
    pub fn unknown(&self) -> (r: u32)
        ensures
            r == self.actual_spec() & !self.mask_spec(),
    {
        self.actual & !self.mask
    }
}

impl FileAttributeInfoFlags {
    /// Every set bit is a declared flag bit.
    pub open spec fn well_formed(self) -> bool {
        self.bits & !ALL_BITS == 0
    }

    /// The flag set with no flag set.
    pub fn empty() -> (f: FileAttributeInfoFlags)
        ensures
            f.bits == 0,
    {
        FileAttributeInfoFlags { bits: 0 }
    }

    /// The flag set with every declared flag set.
    pub fn all() -> (f: FileAttributeInfoFlags)
        ensures
            f.bits == ALL_BITS,
    {
        FileAttributeInfoFlags { bits: ALL_BITS }
    }

    /// The raw bit pattern of the set.
    pub fn bits(&self) -> (r: u32)
        ensures
            r == self.bits,
    {
        self.bits
    }

    /// Marshals the set to the foreign representation: the bitwise union
    /// of the set flags.  Total and lossless.
    pub fn to_uint(&self) -> (r: u32)
        ensures
            r == self.bits,
    {
        self.bits
    }

    /// What unmarshaling a foreign bit pattern yields: the same bits when
    /// all of them are declared, else the partitioned failure.
    pub open spec fn from_uint_spec(v: u32) -> Result<FileAttributeInfoFlags, UnknownFlags> {
        if v & !ALL_BITS == 0 {
            Ok(FileAttributeInfoFlags { bits: v })
        } else {
            Err(UnknownFlags { actual: v, mask: ALL_BITS })
        }
    }

    /// Unmarshals a foreign bit pattern; succeeds exactly when every set
    /// bit is declared, and otherwise fails carrying the full input, its
    /// known subset, and its unknown remainder.
    pub fn from_uint(v: u32) -> (r: Result<FileAttributeInfoFlags, UnknownFlags>)
        ensures
            r == Self::from_uint_spec(v),
            r is Ok <==> v & !ALL_BITS == 0,
            match r {
                Ok(f) => f.bits == v,
                Err(u) => u.actual_spec() == v && u.mask_spec() == ALL_BITS,
            },
    {
        if v & !ALL_BITS == 0 {
            Ok(FileAttributeInfoFlags { bits: v })
        } else {
            Err(UnknownFlags::new(v, ALL_BITS))
        }
    }

    /// Whether every flag of `other` is set in `self`.
    pub fn contains(&self, other: &FileAttributeInfoFlags) -> (r: bool)
        ensures
            r == (self.bits & other.bits == other.bits),
    {
        self.bits & other.bits == other.bits
    }

    /// The union of two flag sets.
    pub fn union(&self, other: &FileAttributeInfoFlags) -> (f: FileAttributeInfoFlags)
        ensures
            f.bits == self.bits | other.bits,
    {
        FileAttributeInfoFlags { bits: self.bits | other.bits }
    }

    /// The runtime type identifier of the flags class.
    pub fn get_type(rt: &mut Runtime) -> (t: GType)
        requires
            old(rt).wf(),
            old(rt).types@.len() < usize::MAX,
        ensures
            final(rt).wf(),
            final(rt).type_registered(TypeKey::FileAttributeInfoFlags, t),
            final(rt).objects@ == old(rt).objects@,
            final(rt).files@ == old(rt).files@,
            final(rt).ops@ == old(rt).ops@,
            final(rt).ctx_stack@ == old(rt).ctx_stack@,
    {
        rt.register_type(TypeKey::FileAttributeInfoFlags)
    }

    /// The pipe-separated names of the set flags, in declaration order,
    /// with no leading or trailing separator.
    pub open spec fn contents_spec(bits: u32) -> Seq<char> {
        let first: Seq<char> = if bits & COPY_WITH_FILE_BIT != 0 {
            "COPY_WITH_FILE"@
        } else {
            Seq::empty()
        };
        if bits & COPY_WHEN_MOVED_BIT != 0 {
            if first.len() > 0 {
                first + "|"@ + "COPY_WHEN_MOVED"@
            } else {
                "COPY_WHEN_MOVED"@
            }
        } else {
            first
        }
    }

    /// The debug rendering: the type name around the set flags, an empty
    /// parenthesis when no flag is set.
    pub open spec fn render_spec(bits: u32) -> Seq<char> {
        "FileAttributeInfoFlags("@ + Self::contents_spec(bits) + ")"@
    }

    /// Renders the flag set for debugging, listing only the set flags,
    /// pipe-separated, in declaration order.
    pub fn debug_string(&self) -> (s: String)
        ensures
            s@ == Self::render_spec(self.bits),
    {
        let mut contents = String::new();
        if self.bits & COPY_WITH_FILE_BIT != 0 {
            contents.append("COPY_WITH_FILE");
        }
        if self.bits & COPY_WHEN_MOVED_BIT != 0 {
            if contents.as_str().is_empty() {
                contents.append("COPY_WHEN_MOVED");
            } else {
                contents.append("|");
                contents.append("COPY_WHEN_MOVED");
            }
        }
        let mut s = String::from_str("FileAttributeInfoFlags(");
        s.append(contents.as_str());
        s.append(")");
        proof {
            assert(s@ =~= Self::render_spec(self.bits));
        }
        s
    }
}

/// Round trip of the flags: marshaling any set of declared flags and
/// unmarshaling the result yields the same set.
pub proof fn lemma_flags_round_trip(f: FileAttributeInfoFlags)
    requires
        f.well_formed(),
    ensures
        FileAttributeInfoFlags::from_uint_spec(f.bits) == Ok::<FileAttributeInfoFlags, UnknownFlags>(f),
{
}

/// The partition reported by a failed unmarshaling is exact: the known
/// subset and the unknown remainder split the input, the unknown part is
/// non-empty, and together they reassemble the full input.
pub proof fn lemma_flags_partition(v: u32)
    requires
        v & !ALL_BITS != 0,
    ensures
        FileAttributeInfoFlags::from_uint_spec(v) is Err,
        (v & ALL_BITS) | (v & !ALL_BITS) == v,
        (v & ALL_BITS) & (v & !ALL_BITS) == 0,
{
    assert(((v & ALL_BITS) | (v & !ALL_BITS) == v) && ((v & ALL_BITS) & (v & !ALL_BITS) == 0))
        by (bit_vector);
}

} // verus!
