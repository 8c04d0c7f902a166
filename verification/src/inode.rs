//! The inode encoder: how object classes share the 64-bit inode space.
//!
//! The space is partitioned into the real root (1), real inodes assigned by
//! the catalog, top-of-range singleton constants, a reserved range of
//! per-tag directories, a second reserved range of loose virtual leaves, and
//! three high bits that mark derived views of a low-bits inode.

use vstd::prelude::*;
use vstd::utf8::encode_utf8;

verus! {

/// The real root directory.
pub const ROOT_INODE: u64 = 1;

/// The `.magic` directory.
pub const MAGIC_ROOT: u64 = u64::MAX;

/// The `.magic/tags` directory.
pub const MAGIC_TAGS: u64 = u64::MAX - 1;

/// The `.magic/recent` directory.
pub const MAGIC_RECENT: u64 = u64::MAX - 2;

/// The `.magic/search` file.
pub const MAGIC_SEARCH: u64 = u64::MAX - 3;

/// The search results holder.
pub const MAGIC_SEARCH_RESULTS: u64 = u64::MAX - 4;

/// The `.magic/api` directory.
pub const MAGIC_API: u64 = u64::MAX - 5;

/// The `.magic/wormhole` directory.
pub const MAGIC_WORMHOLE: u64 = u64::MAX - 6;

/// The `.magic/stats.md` file.
pub const MAGIC_STATS: u64 = u64::MAX - 7;

/// Set on the context view of the directory in the low 63 bits.
pub const CONTEXT_BIT: u64 = 1u64 << 63;

/// Set on the format-converted view of the real file in the low 62 bits.
pub const CONVERT_BIT: u64 = 1u64 << 62;

/// Set on synthetic leaves inside the `api` subtree.
pub const API_BIT: u64 = 1u64 << 61;

/// The object class an inode number encodes.
#[derive(PartialEq, Eq, Structural, Clone, Copy, Debug)]
pub enum InodeClass {
    /// The real root directory, inode 1.
    Root,
    /// The `.magic` directory.
    MagicRoot,
    /// The `.magic/tags` directory.
    Tags,
    /// The `.magic/recent` directory.
    Recent,
    /// The `.magic/search` file.
    Search,
    /// The search results holder.
    SearchResults,
    /// The `.magic/api` directory.
    Api,
    /// The `.magic/wormhole` directory.
    Wormhole,
    /// The `.magic/stats.md` file.
    Stats,
    /// A per-tag virtual directory in the reserved range below the tag root.
    TagDir,
    /// A loose virtual leaf in the reserved range below the tag directories.
    VirtualLeaf,
    /// The context view of the directory `dir`.
    Context { dir: u64 },
    /// The format-converted view of the real file `real`.
    Convert { file: u64 },
    /// A synthetic leaf inside the `api` subtree.
    ApiLeaf,
    /// A real inode backed by the catalog and the source directory.
    Real,
}

/// Classifies an inode number.  The top-of-range singletons and the two
/// reserved ranges are tested before the bit flags: every value in those
/// ranges carries the high bits, so testing the flags first would leave the
/// ranges unreachable.
pub open spec fn spec_classify(inode: u64) -> InodeClass {
    if inode == ROOT_INODE {
        InodeClass::Root
    } else if inode == MAGIC_ROOT {
        InodeClass::MagicRoot
    } else if inode == MAGIC_TAGS {
        InodeClass::Tags
    } else if inode == MAGIC_RECENT {
        InodeClass::Recent
    } else if inode == MAGIC_SEARCH {
        InodeClass::Search
    } else if inode == MAGIC_SEARCH_RESULTS {
        InodeClass::SearchResults
    } else if inode == MAGIC_API {
        InodeClass::Api
    } else if inode == MAGIC_WORMHOLE {
        InodeClass::Wormhole
    } else if inode == MAGIC_STATS {
        InodeClass::Stats
    } else if MAGIC_TAGS - 2000 < inode && inode < MAGIC_TAGS {
        InodeClass::TagDir
    } else if MAGIC_SEARCH_RESULTS - 2000 <= inode && inode <= MAGIC_TAGS - 2000 {
        InodeClass::VirtualLeaf
    } else if inode & CONTEXT_BIT != 0 {
        InodeClass::Context { dir: inode & !CONTEXT_BIT }
    } else if inode & CONVERT_BIT != 0 {
        InodeClass::Convert { file: inode & !CONVERT_BIT }
    } else if inode & API_BIT != 0 {
        InodeClass::ApiLeaf
    } else {
        InodeClass::Real
    }
}

/// Classifies an inode number, as `spec_classify` does.
pub fn classify(inode: u64) -> (r: InodeClass)
    ensures
        r == spec_classify(inode),
{
    if inode == ROOT_INODE {
        InodeClass::Root
    } else if inode == MAGIC_ROOT {
        InodeClass::MagicRoot
    } else if inode == MAGIC_TAGS {
        InodeClass::Tags
    } else if inode == MAGIC_RECENT {
        InodeClass::Recent
    } else if inode == MAGIC_SEARCH {
        InodeClass::Search
    } else if inode == MAGIC_SEARCH_RESULTS {
        InodeClass::SearchResults
    } else if inode == MAGIC_API {
        InodeClass::Api
    } else if inode == MAGIC_WORMHOLE {
        InodeClass::Wormhole
    } else if inode == MAGIC_STATS {
        InodeClass::Stats
    } else if MAGIC_TAGS - 2000 < inode && inode < MAGIC_TAGS {
        InodeClass::TagDir
    } else if MAGIC_SEARCH_RESULTS - 2000 <= inode && inode <= MAGIC_TAGS - 2000 {
        InodeClass::VirtualLeaf
    } else if inode & CONTEXT_BIT != 0 {
        InodeClass::Context { dir: inode & !CONTEXT_BIT }
    } else if inode & CONVERT_BIT != 0 {
        InodeClass::Convert { file: inode & !CONVERT_BIT }
    } else if inode & API_BIT != 0 {
        InodeClass::ApiLeaf
    } else {
        InodeClass::Real
    }
}

/// The wrapping sum of a byte sequence.
pub open spec fn spec_byte_sum(s: Seq<u8>) -> u64
    decreases s.len(),
{
    if s.len() == 0 {
        0u64
    } else {
        vstd::wrapping::u64_specs::wrapping_add(spec_byte_sum(s.drop_last()), s.last() as u64)
    }
}

/// The inode of the per-tag virtual directory for a tag name: a slot in the
/// reserved range, picked by the byte sum of the name.  The map is lossy:
/// names whose sums agree modulo 1000 share a slot.
pub open spec fn spec_tag_dir_inode(name: Seq<char>) -> u64 {
    (MAGIC_TAGS - 1000 - spec_byte_sum(encode_utf8(name)) % 1000) as u64
}

/// Computes the per-tag directory inode of `spec_tag_dir_inode`.
pub fn tag_dir_inode(name: &str) -> (r: u64)
    ensures
        r == spec_tag_dir_inode(name@),
{
    let bytes = name.as_bytes();
    let mut h: u64 = 0;
    let mut i: usize = 0;
    proof {
        assert(bytes@.subrange(0, 0) =~= Seq::<u8>::empty());
    }
    while i < bytes.len()
        invariant
            i <= bytes@.len(),
            bytes@ == encode_utf8(name@),
            h == spec_byte_sum(bytes@.subrange(0, i as int)),
        decreases bytes@.len() - i,
    {
        proof {
            assert(bytes@.subrange(0, i + 1).drop_last() =~= bytes@.subrange(0, i as int));
            assert(bytes@.subrange(0, i + 1).last() == bytes@[i as int]);
        }
        h = h.wrapping_add(bytes[i] as u64);
        i = i + 1;
    }
    proof {
        assert(bytes@.subrange(0, bytes@.len() as int) =~= bytes@);
    }
    MAGIC_TAGS - 1000 - (h % 1000)
}

/// Every per-tag directory inode lies in the reserved tag range, so it is
/// classified as a tag directory.
pub proof fn lemma_tag_dir_inode_class(name: Seq<char>)
    ensures
        spec_classify(spec_tag_dir_inode(name)) == InodeClass::TagDir,
{
}

} // verus!
