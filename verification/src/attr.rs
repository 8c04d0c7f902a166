//! File attributes: the plain values a reply carries for each object class.

use vstd::prelude::*;
use crate::inode::{classify, spec_classify, InodeClass, MAGIC_SEARCH_RESULTS};

verus! {

/// Whether an object is served as a regular file or as a directory.
#[derive(PartialEq, Eq, Structural, Clone, Copy, Debug)]
pub enum FileKind {
    RegularFile,
    Directory,
}

/// The attributes of one inode, with times in whole seconds since the epoch.
#[derive(PartialEq, Eq, Structural, Clone, Copy, Debug)]
pub struct FileAttr {
    pub ino: u64,
    pub size: u64,
    pub blocks: u64,
    pub atime: u64,
    pub mtime: u64,
    pub ctime: u64,
    pub crtime: u64,
    pub kind: FileKind,
    pub perm: u16,
    pub nlink: u32,
    pub uid: u32,
    pub gid: u32,
    pub rdev: u32,
    pub flags: u32,
    pub blksize: u32,
}

/// What a stat of a backing file reports, with times in whole seconds since
/// the epoch.
#[derive(PartialEq, Eq, Structural, Clone, Copy, Debug)]
pub struct FsStat {
    pub size: u64,
    pub is_dir: bool,
    pub mode: u32,
    pub atime: u64,
    pub mtime: u64,
    pub created: u64,
}

/// The canned attributes of a synthetic directory: empty, read-only, two links.
pub open spec fn spec_synth_dir_attr(ino: u64) -> FileAttr {
    FileAttr {
        ino,
        size: 0,
        blocks: 0,
        atime: 0,
        mtime: 0,
        ctime: 0,
        crtime: 0,
        kind: FileKind::Directory,
        perm: 0o555,
        nlink: 2,
        uid: 0,
        gid: 0,
        rdev: 0,
        flags: 0,
        blksize: 512,
    }
}

/// Builds the attributes of `spec_synth_dir_attr`.
pub fn synth_dir_attr(ino: u64) -> (r: FileAttr)
    ensures
        r == spec_synth_dir_attr(ino),
{
    FileAttr {
        ino,
        size: 0,
        blocks: 0,
        atime: 0,
        mtime: 0,
        ctime: 0,
        crtime: 0,
        kind: FileKind::Directory,
        perm: 0o555,
        nlink: 2,
        uid: 0,
        gid: 0,
        rdev: 0,
        flags: 0,
        blksize: 512,
    }
}

/// The canned attributes of a synthetic regular file of a given size,
/// permission and block count.
pub open spec fn spec_synth_file_attr(ino: u64, size: u64, blocks: u64, perm: u16) -> FileAttr {
    FileAttr {
        ino,
        size,
        blocks,
        atime: 0,
        mtime: 0,
        ctime: 0,
        crtime: 0,
        kind: FileKind::RegularFile,
        perm,
        nlink: 1,
        uid: 0,
        gid: 0,
        rdev: 0,
        flags: 0,
        blksize: 512,
    }
}

/// Builds the attributes of `spec_synth_file_attr`.
pub fn synth_file_attr(ino: u64, size: u64, blocks: u64, perm: u16) -> (r: FileAttr)
    ensures
        r == spec_synth_file_attr(ino, size, blocks, perm),
{
    FileAttr {
        ino,
        size,
        blocks,
        atime: 0,
        mtime: 0,
        ctime: 0,
        crtime: 0,
        kind: FileKind::RegularFile,
        perm,
        nlink: 1,
        uid: 0,
        gid: 0,
        rdev: 0,
        flags: 0,
        blksize: 512,
    }
}

/// The attributes derived for `inode` from a stat of a backing path, for an
/// owner (`uid`, `gid`).  A derived view or synthetic singleton gets its
/// canned attributes; an inode at or above the reserved ranges is reported
/// as an empty read-only directory; a real inode passes the stat through,
/// with `blocks` approximated from the size.
pub open spec fn spec_attr_from_stat(inode: u64, meta: FsStat, uid: u32, gid: u32) -> FileAttr {
    match spec_classify(inode) {
        InodeClass::Context { dir: _ } => spec_synth_file_attr(inode, 1024, 1, 0o444),
        InodeClass::Convert { file: _ } => spec_synth_file_attr(inode, 1048576, 1, 0o444),
        InodeClass::Search => spec_synth_file_attr(inode, 0, 0, 0o666),
        InodeClass::Api => spec_synth_dir_attr(inode),
        InodeClass::Wormhole => spec_synth_dir_attr(inode),
        InodeClass::Stats => spec_synth_file_attr(inode, 1024, 1, 0o444),
        InodeClass::ApiLeaf => spec_synth_file_attr(inode, 1024, 1, 0o444),
        _ => {
            let synthetic = inode >= MAGIC_SEARCH_RESULTS;
            let size: u64 = if synthetic {
                0u64
            } else {
                meta.size
            };
            FileAttr {
                ino: inode,
                size,
                blocks: (size / 512 + 1) as u64,
                atime: meta.atime,
                mtime: meta.mtime,
                ctime: meta.created,
                crtime: meta.created,
                kind: if synthetic || meta.is_dir {
                    FileKind::Directory
                } else {
                    FileKind::RegularFile
                },
                perm: if synthetic {
                    0o555u16
                } else {
                    (meta.mode & 0xFFFF) as u16
                },
                nlink: 1,
                uid,
                gid,
                rdev: 0,
                flags: 0,
                blksize: 512,
            }
        },
    }
}

/// Derives the attributes of `spec_attr_from_stat`.
pub fn attr_from_stat(inode: u64, meta: &FsStat, uid: u32, gid: u32) -> (r: FileAttr)
    ensures
        r == spec_attr_from_stat(inode, *meta, uid, gid),
{
    match classify(inode) {
        InodeClass::Context { dir: _ } => synth_file_attr(inode, 1024, 1, 0o444),
        InodeClass::Convert { file: _ } => synth_file_attr(inode, 1048576, 1, 0o444),
        InodeClass::Search => synth_file_attr(inode, 0, 0, 0o666),
        InodeClass::Api => synth_dir_attr(inode),
        InodeClass::Wormhole => synth_dir_attr(inode),
        InodeClass::Stats => synth_file_attr(inode, 1024, 1, 0o444),
        InodeClass::ApiLeaf => synth_file_attr(inode, 1024, 1, 0o444),
        _ => {
            let synthetic = inode >= MAGIC_SEARCH_RESULTS;
            let size: u64 = if synthetic {
                0u64
            } else {
                meta.size
            };
            FileAttr {
                ino: inode,
                size,
                blocks: size / 512 + 1,
                atime: meta.atime,
                mtime: meta.mtime,
                ctime: meta.created,
                crtime: meta.created,
                kind: if synthetic || meta.is_dir {
                    FileKind::Directory
                } else {
                    FileKind::RegularFile
                },
                perm: if synthetic {
                    0o555
                } else {
                    (meta.mode & 0xFFFF) as u16
                },
                nlink: 1,
                uid,
                gid,
                rdev: 0,
                flags: 0,
                blksize: 512,
            }
        },
    }
}

} // verus!
