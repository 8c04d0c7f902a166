//! The filesystem multiplexer: the inode store over the catalog, the path
//! resolver, and the per-operation decision logic every callback runs.
//!
//! Disk and network stay outside: each operation is split into functions
//! from plain values to plain values, and the caller performs the I/O a
//! returned step asks for and hands the observation back.

use vstd::prelude::*;
use crate::attr::{
    attr_from_stat, spec_attr_from_stat, spec_synth_dir_attr, spec_synth_file_attr, synth_dir_attr,
    synth_file_attr, FileAttr, FileKind, FsStat,
};
use crate::cipher::{decrypt, spec_decrypt};
use crate::db::{files_listing, tags_listing, unique_pairs, CatalogError, Database};
use crate::inode::{
    classify, spec_classify, spec_tag_dir_inode, tag_dir_inode, InodeClass, API_BIT, CONTEXT_BIT,
    CONVERT_BIT, MAGIC_API, MAGIC_RECENT, MAGIC_ROOT, MAGIC_SEARCH, MAGIC_STATS, MAGIC_TAGS,
    MAGIC_WORMHOLE,
};
use crate::media::{jpeg_decodes, jpeg_render, png_to_jpeg};
use crate::text::{
    basename, ext_of, path_join, spec_basename, spec_contains, spec_ends_with, spec_ext_of,
    spec_path_join, spec_replace, spec_starts_with, spec_trim, str_contains, str_ends_with, str_eq,
    str_replace, str_starts_with, str_trim, u64_to_string, utf8_str, spec_decimal,
};
use crate::worker::{send_job, Job};
use vstd::slice::slice_to_vec;
use vstd::utf8::{decode_utf8, valid_utf8};

verus! {

/// The relative path of inode `i` under the inode table `m`, walking at most
/// `fuel` parent links: empty for the root, the parent's path joined with
/// the inode's name otherwise, and nothing when a link is missing or the
/// fuel runs out before the root is reached.
pub open spec fn spec_resolve(m: Map<u64, (u64, Seq<char>)>, i: u64, fuel: nat) -> Option<Seq<char>>
    decreases fuel,
{
    if i == 1 {
        Some(Seq::<char>::empty())
    } else if fuel == 0 {
        None
    } else if m.contains_key(i) {
        match spec_resolve(m, m[i].0, (fuel - 1) as nat) {
            Some(pp) => Some(spec_path_join(pp, m[i].1)),
            None => None,
        }
    } else {
        None
    }
}

/// A resolution that succeeds within some fuel keeps the same answer under
/// any larger fuel: the resolver needs no more hops than the inode's depth.
pub proof fn lemma_resolve_monotone(m: Map<u64, (u64, Seq<char>)>, i: u64, f1: nat, f2: nat)
    requires
        f1 <= f2,
        spec_resolve(m, i, f1) is Some,
    ensures
        spec_resolve(m, i, f2) == spec_resolve(m, i, f1),
    decreases f1,
{
    if i == 1 {
    } else {
        lemma_resolve_monotone(m, m[i].0, (f1 - 1) as nat, (f2 - 1) as nat);
    }
}

/// The parts collected on an upward walk, deepest name first, folded onto
/// the path `pp` of the highest ancestor reached.
pub open spec fn spec_join_rev(pp: Seq<char>, parts: Seq<Seq<char>>) -> Seq<char>
    decreases parts.len(),
{
    if parts.len() == 0 {
        pp
    } else {
        spec_join_rev(spec_path_join(pp, parts.last()), parts.drop_last())
    }
}

/// The inode store: the catalog handle and the walk logic over it.
pub struct InodeStore {
    pub db: Database,
}

impl InodeStore {
    /// The inode table of the underlying catalog.
    pub open spec fn inodes(&self) -> Map<u64, (u64, Seq<char>)> {
        self.db.inodes()
    }

    /// Opens the store at `path`, as `Database::new`.
    pub fn new(path: &str) -> (r: Result<InodeStore, CatalogError>)
        ensures
            r matches Ok(s) ==> s.inodes().contains_key(1) || (exists|k: u64|
                s.inodes().contains_key(k) && s.inodes()[k] == (1u64, Seq::<char>::empty())),
            r matches Ok(s) ==> (path@ == ":memory:"@ ==> s.inodes() == Map::<u64, (u64,
                Seq<char>)>::empty().insert(1, (1u64, Seq::<char>::empty())) && s.db.tags()
                == Set::<(u64, Seq<char>)>::empty() && s.db.history() == Seq::<(u64, u64,
                Seq<char>)>::empty() && s.db.trash() == Seq::<(Seq<char>, Seq<char>,
                u64)>::empty()),
    {
        match Database::new(path) {
            Ok(db) => Ok(InodeStore { db }),
            Err(e) => Err(e),
        }
    }

    /// Returns the inode of (parent, name) when the catalog shows one, and
    /// nothing when it shows none or cannot be read.
    pub fn get_inode(&self, parent: u64, name: &str) -> (r: Option<u64>)
        ensures
            r matches Some(id) ==> self.inodes().contains_key(id) && self.inodes()[id] == (
                parent,
                name@,
            ),
    {
        match self.db.get_inode(parent, name) {
            Ok(o) => o,
            Err(_) => None,
        }
    }

    /// Returns the inode of (parent, name), creating a row when none exists.
    /// When the pair is already present nothing changes and its id comes
    /// back; 0 reports a store failure.
    pub fn alloc_inode(&mut self, parent: u64, name: &str) -> (r: u64)
        ensures
            final(self).db.tags() == old(self).db.tags(),
            final(self).db.history() == old(self).db.history(),
            final(self).db.trash() == old(self).db.trash(),
            (old(self).inodes().contains_key(r) && old(self).inodes()[r] == (parent, name@)
                && final(self).inodes() == old(self).inodes()) || (!old(
                self).inodes().contains_key(r) && final(self).inodes() == old(
                self).inodes().insert(r, (parent, name@)) && (forall|k: u64|
                old(self).inodes().contains_key(k) ==> old(self).inodes()[k] != (parent, name@)))
                || (r == 0 && final(self).inodes() == old(self).inodes()),
            unique_pairs(old(self).inodes()) ==> unique_pairs(final(self).inodes()),
    {
        match self.db.get_inode(parent, name) {
            Ok(Some(inode)) => {
                return inode;
            },
            _ => {},
        }
        match self.db.create_inode(parent, name) {
            Ok(id) => id,
            Err(_) => 0,
        }
    }

    /// Reconstructs the relative path of `inode` by walking parent links,
    /// bounded at 100 hops as a cycle guard.  A returned path is exactly
    /// what the catalog resolves; when the catalog resolves nothing within
    /// the bound, nothing is returned.
    pub fn get_path(&self, inode: u64) -> (r: Option<String>)
        ensures
            r matches Some(p) ==> spec_resolve(self.inodes(), inode, 100) == Some(p@),
            spec_resolve(self.inodes(), inode, 100) is None ==> r is None,
            inode == 1 ==> (r matches Some(p) && p@ == Seq::<char>::empty()),
    {
        let ghost m = self.inodes();
        if inode == 1 {
            return Some(String::new());
        }
        let mut parts: Vec<String> = Vec::new();
        let ghost mut pview: Seq<Seq<char>> = Seq::<Seq<char>>::empty();
        let mut current: u64 = inode;
        let mut hops: usize = 0;
        while current != 1 && hops < 100
            invariant
                inode != 1,
                m == self.inodes(),
                hops <= 100,
                pview.len() == parts@.len(),
                forall|k: int| 0 <= k < parts@.len() ==> pview[k] == (#[trigger] parts@[k])@,
                forall|f: nat|
                    #![trigger spec_resolve(m, current, f)]
                    spec_resolve(m, inode, (hops + f) as nat) == (match spec_resolve(
                        m,
                        current,
                        f,
                    ) {
                        Some(pp) => Some(spec_join_rev(pp, pview)),
                        None => None::<Seq<char>>,
                    }),
            decreases 100 - hops,
        {
            match self.db.get_inode_entry(current) {
                Ok(Some(entry)) => {
                    let (p, name) = entry;
                    proof {
                        let pview2 = pview.push(name@);
                        assert forall|f: nat|
                            #![trigger spec_resolve(m, p, f)]
                            spec_resolve(m, inode, ((hops + 1) + f) as nat) == (
                            match spec_resolve(m, p, f) {
                                Some(pp) => Some(spec_join_rev(pp, pview2)),
                                None => None::<Seq<char>>,
                            }) by {
                            assert(spec_resolve(m, inode, (hops + (f + 1)) as nat) == (
                            match spec_resolve(m, current, (f + 1) as nat) {
                                Some(pp) => Some(spec_join_rev(pp, pview)),
                                None => None::<Seq<char>>,
                            }));
                            assert(pview2.drop_last() =~= pview);
                            match spec_resolve(m, p, f) {
                                Some(pp) => {
                                    assert(spec_resolve(m, current, (f + 1) as nat) == Some(
                                        spec_path_join(pp, name@)));
                                    assert(spec_join_rev(spec_path_join(pp, name@), pview)
                                        == spec_join_rev(pp, pview2));
                                },
                                None => {
                                    assert(spec_resolve(m, current, (f + 1) as nat)
                                        is None);
                                },
                            }
                        }
                        pview = pview2;
                    }
                    parts.push(name);
                    current = p;
                    hops = hops + 1;
                },
                _ => {
                    return None;
                },
            }
        }
        if current != 1 {
            proof {
                assert(spec_resolve(m, current, 0) is None);
                assert(spec_resolve(m, inode, (hops + 0) as nat) is None);
                assert(hops == 100);
            }
            return None;
        }
        proof {
            let f0 = (100 - hops) as nat;
            assert(spec_resolve(m, current, f0) == Some(Seq::<char>::empty()));
            assert(spec_resolve(m, inode, 100) == Some(spec_join_rev(Seq::<char>::empty(), pview)));
        }
        let mut acc = String::new();
        let mut j: usize = parts.len();
        proof {
            assert(pview.subrange(0, pview.len() as int) =~= pview);
        }
        while j > 0
            invariant
                pview.len() == parts@.len(),
                forall|k: int| 0 <= k < parts@.len() ==> pview[k] == (#[trigger] parts@[k])@,
                j <= parts@.len(),
                spec_join_rev(Seq::<char>::empty(), pview) == spec_join_rev(
                    acc@,
                    pview.subrange(0, j as int),
                ),
            decreases j,
        {
            proof {
                assert(pview.subrange(0, j as int).last() == pview[j - 1]);
                assert(pview.subrange(0, j as int).drop_last() =~= pview.subrange(0, j - 1));
            }
            acc = path_join(acc.as_str(), parts[j - 1].as_str());
            j = j - 1;
        }
        proof {
            assert(pview.subrange(0, 0) =~= Seq::<Seq<char>>::empty());
        }
        Some(acc)
    }

    /// Removes the catalog row of `inode`; a store failure changes nothing.
    pub fn remove_inode(&mut self, inode: u64)
        ensures
            final(self).db.tags() == old(self).db.tags(),
            final(self).db.history() == old(self).db.history(),
            final(self).db.trash() == old(self).db.trash(),
            final(self).inodes() == old(self).inodes().remove(inode) || final(self).inodes()
                == old(self).inodes(),
    {
        match self.db.delete_inode(inode) {
            Ok(_) => {},
            Err(_) => {},
        }
    }

    /// Rewrites the row of `inode` to (new_parent, new_name); a store
    /// failure changes nothing.
    pub fn move_inode(&mut self, inode: u64, new_parent: u64, new_name: &str)
        ensures
            final(self).db.tags() == old(self).db.tags(),
            final(self).db.history() == old(self).db.history(),
            final(self).db.trash() == old(self).db.trash(),
            final(self).inodes() == (if old(self).inodes().contains_key(inode) {
                old(self).inodes().insert(inode, (new_parent, new_name@))
            } else {
                old(self).inodes()
            }) || final(self).inodes() == old(self).inodes(),
    {
        match self.db.rename_inode(inode, new_parent, new_name) {
            Ok(_) => {},
            Err(_) => {},
        }
    }

    /// Lists the distinct tags, or nothing when the store cannot be read.
    pub fn get_tags(&self) -> (r: Vec<String>)
        ensures
            tags_listing(self.db.tags(), r@) || r@.len() == 0,
    {
        match self.db.get_tags() {
            Ok(v) => v,
            Err(_) => Vec::new(),
        }
    }

    /// Lists the files carrying `tag`, or nothing when the store cannot be
    /// read.
    pub fn get_files_with_tag(&self, tag: &str) -> (r: Vec<(u64, String)>)
        ensures
            files_listing(self.inodes(), self.db.tags(), tag@, r@) || r@.len() == 0,
    {
        match self.db.get_files_with_tag(tag) {
            Ok(v) => v,
            Err(_) => Vec::new(),
        }
    }
}

/// The error a callback replies with, mapped by the caller onto the host's
/// error numbers.
#[derive(PartialEq, Eq, Structural, Clone, Copy, Debug)]
pub enum Errno {
    /// No such inode or backing path.
    NoEnt,
    /// A store or I/O failure mid-operation.
    Io,
    /// Backing permission denied.
    Access,
    /// An operation outside the implemented surface.
    NoSys,
}

/// The filesystem state a mount carries: the source directory, the inode
/// store, the reported owner, and the analyzer queue.
pub struct EideticFS {
    pub source_path: String,
    pub inodes: InodeStore,
    pub uid: u32,
    pub gid: u32,
    pub sender: std::sync::mpsc::Sender<Job>,
}

/// The attributes a lookup under a synthetic parent resolves to, by name:
/// the `.magic` entry under the root, the fixed children of `.magic`, the
/// one `api` leaf, and a per-tag directory under `tags`.
pub open spec fn spec_lookup_synthetic(parent: u64, name: Seq<char>) -> Option<FileAttr> {
    if parent == 1 && name == ".magic"@ {
        Some(spec_synth_dir_attr(MAGIC_ROOT))
    } else if parent == MAGIC_ROOT && name == "tags"@ {
        Some(spec_synth_dir_attr(MAGIC_TAGS))
    } else if parent == MAGIC_ROOT && name == "recent"@ {
        Some(spec_synth_dir_attr(MAGIC_RECENT))
    } else if parent == MAGIC_ROOT && name == "search"@ {
        Some(spec_synth_file_attr(MAGIC_SEARCH, 0, 0, 0o666))
    } else if parent == MAGIC_ROOT && name == "api"@ {
        Some(spec_synth_dir_attr(MAGIC_API))
    } else if parent == MAGIC_ROOT && name == "wormhole"@ {
        Some(spec_synth_dir_attr(MAGIC_WORMHOLE))
    } else if parent == MAGIC_ROOT && name == "stats.md"@ {
        Some(spec_synth_file_attr(MAGIC_STATS, 1024, 1, 0o444))
    } else if parent == MAGIC_API && name == "bitcoin.json"@ {
        Some(spec_synth_file_attr(MAGIC_API | API_BIT, 1024, 1, 0o444))
    } else if parent == MAGIC_TAGS {
        Some(spec_synth_dir_attr(spec_tag_dir_inode(name)))
    } else {
        None
    }
}

/// What a lookup needs next: a finished attribute, or a stat of a backing
/// path.
pub enum LookupStep {
    Found(FileAttr),
    Stat { rel: String },
}

impl EideticFS {
    /// The inode table of the catalog.
    pub open spec fn imap(&self) -> Map<u64, (u64, Seq<char>)> {
        self.inodes.db.inodes()
    }

    /// The tag index of the catalog.
    pub open spec fn tag_rows(&self) -> Set<(u64, Seq<char>)> {
        self.inodes.db.tags()
    }

    /// The history log of the catalog.
    pub open spec fn history_rows(&self) -> Seq<(u64, u64, Seq<char>)> {
        self.inodes.db.history()
    }

    /// The trash log of the catalog.
    pub open spec fn trash_rows(&self) -> Seq<(Seq<char>, Seq<char>, u64)> {
        self.inodes.db.trash()
    }

    /// The owner and source fields a mutating call leaves untouched.
    pub open spec fn same_config(&self, other: &EideticFS) -> bool {
        &&& self.source_path == other.source_path
        &&& self.uid == other.uid
        &&& self.gid == other.gid
    }

    /// Opens the filesystem over `source_path`, with the catalog store at
    /// `.eidetic.db` inside it.
    pub fn new(
        source_path: String,
        uid: u32,
        gid: u32,
        sender: std::sync::mpsc::Sender<Job>,
    ) -> (r: Result<EideticFS, CatalogError>)
        ensures
            r matches Ok(fs) ==> fs.source_path == source_path && fs.uid == uid && fs.gid == gid,
            r matches Ok(fs) ==> fs.imap().contains_key(1) || (exists|k: u64|
                fs.imap().contains_key(k) && fs.imap()[k] == (1u64, Seq::<char>::empty())),
    {
        let db_path = path_join(source_path.as_str(), ".eidetic.db");
        match InodeStore::new(db_path.as_str()) {
            Ok(inodes) => Ok(EideticFS { source_path, inodes, uid, gid, sender }),
            Err(e) => Err(e),
        }
    }

    /// The absolute backing path of a relative one: the source root joined
    /// with it.
    pub fn full_path(&self, rel: &str) -> (r: String)
        ensures
            r@ == spec_path_join(self.source_path@, rel@),
    {
        path_join(self.source_path.as_str(), rel)
    }

    /// Resolves the relative backing path of the child `name` under
    /// `parent`: nothing when the parent does not resolve.
    pub fn child_path(&self, parent: u64, name: &str) -> (r: Result<String, Errno>)
        ensures
            r matches Ok(rel) ==> spec_resolve(self.imap(), parent, 100) matches Some(pp)
                && rel@ == spec_path_join(pp, name@),
            spec_resolve(self.imap(), parent, 100) is None ==> r == Err::<String, Errno>(
                Errno::NoEnt,
            ),
            r is Err ==> r == Err::<String, Errno>(Errno::NoEnt),
    {
        match self.inodes.get_path(parent) {
            Some(pp) => Ok(path_join(pp.as_str(), name)),
            None => Err(Errno::NoEnt),
        }
    }

    /// Serves a lookup under a synthetic parent, as `spec_lookup_synthetic`.
    pub fn lookup_synthetic(&self, parent: u64, name: &str) -> (r: Option<FileAttr>)
        ensures
            r == spec_lookup_synthetic(parent, name@),
    {
        if parent == 1 && str_eq(name, ".magic") {
            Some(synth_dir_attr(MAGIC_ROOT))
        } else if parent == MAGIC_ROOT && str_eq(name, "tags") {
            Some(synth_dir_attr(MAGIC_TAGS))
        } else if parent == MAGIC_ROOT && str_eq(name, "recent") {
            Some(synth_dir_attr(MAGIC_RECENT))
        } else if parent == MAGIC_ROOT && str_eq(name, "search") {
            Some(synth_file_attr(MAGIC_SEARCH, 0, 0, 0o666))
        } else if parent == MAGIC_ROOT && str_eq(name, "api") {
            Some(synth_dir_attr(MAGIC_API))
        } else if parent == MAGIC_ROOT && str_eq(name, "wormhole") {
            Some(synth_dir_attr(MAGIC_WORMHOLE))
        } else if parent == MAGIC_ROOT && str_eq(name, "stats.md") {
            Some(synth_file_attr(MAGIC_STATS, 1024, 1, 0o444))
        } else if parent == MAGIC_API && str_eq(name, "bitcoin.json") {
            Some(synth_file_attr(MAGIC_API | API_BIT, 1024, 1, 0o444))
        } else if parent == MAGIC_TAGS {
            Some(synth_dir_attr(tag_dir_inode(name)))
        } else {
            None
        }
    }

    /// Classifies a lookup: a synthetic child or a `.context` view is
    /// answered at once; a real child needs a stat of its backing path; a
    /// parent that does not resolve is not found.
    pub fn lookup_prepare(&self, parent: u64, name: &str) -> (r: Result<LookupStep, Errno>)
        ensures
            spec_lookup_synthetic(parent, name@) matches Some(a) ==> r == Ok::<LookupStep, Errno>(
                LookupStep::Found(a),
            ),
            r matches Ok(step) ==> match step {
                LookupStep::Found(a) => spec_lookup_synthetic(parent, name@) == Some(a) || (name@
                    == ".context"@ && spec_resolve(self.imap(), parent, 100) is Some && a
                    == spec_synth_file_attr(parent | CONTEXT_BIT, 1024, 1, 0o444)),
                LookupStep::Stat { rel } => spec_lookup_synthetic(parent, name@) is None && name@
                    != ".context"@ && (spec_resolve(self.imap(), parent, 100) matches Some(pp)
                    && rel@ == spec_path_join(pp, name@)),
            },
            spec_lookup_synthetic(parent, name@) is None && spec_resolve(self.imap(), parent, 100)
                is None ==> r == Err::<LookupStep, Errno>(Errno::NoEnt),
            r is Err ==> r == Err::<LookupStep, Errno>(Errno::NoEnt),
    {
        if let Some(a) = self.lookup_synthetic(parent, name) {
            return Ok(LookupStep::Found(a));
        }
        let pp = match self.inodes.get_path(parent) {
            Some(pp) => pp,
            None => {
                return Err(Errno::NoEnt);
            },
        };
        if str_eq(name, ".context") {
            return Ok(LookupStep::Found(synth_file_attr(parent | CONTEXT_BIT, 1024, 1, 0o444)));
        }
        Ok(LookupStep::Stat { rel: path_join(pp.as_str(), name) })
    }

    /// Registers a child seen on disk: allocates (or finds) its inode and
    /// derives its attributes from the stat.  A store failure is an I/O
    /// error.
    pub fn create_commit(&mut self, parent: u64, name: &str, meta: &FsStat) -> (r: Result<
        FileAttr,
        Errno,
    >)
        ensures
            old(self).same_config(final(self)),
            final(self).tag_rows() == old(self).tag_rows(),
            final(self).history_rows() == old(self).history_rows(),
            final(self).trash_rows() == old(self).trash_rows(),
            r matches Ok(a) ==> a.ino != 0 && a == spec_attr_from_stat(a.ino, *meta, old(self).uid,
                old(self).gid) && final(self).imap().contains_key(a.ino)
                && final(self).imap()[a.ino] == (parent, name@) && (final(self).imap() == old(
                self).imap() || final(self).imap() == old(self).imap().insert(a.ino, (parent,
                name@))),
            r matches Err(_) ==> final(self).imap() == old(self).imap() || final(self).imap()
                == old(self).imap().insert(0, (parent, name@)),
            unique_pairs(old(self).imap()) ==> unique_pairs(final(self).imap()),
    {
        let ino = self.inodes.alloc_inode(parent, name);
        if ino == 0 {
            return Err(Errno::Io);
        }
        Ok(attr_from_stat(ino, meta, self.uid, self.gid))
    }

    /// Finishes a lookup of a real child from what the stat observed.  A
    /// present child is registered and answered from its stat.  A missing
    /// `.jpg` child falls through to a converted view exactly when a `.png`
    /// sibling row exists in the catalog; everything else missing is not
    /// found.
    pub fn lookup_finish(&mut self, parent: u64, name: &str, stat: Option<&FsStat>) -> (r: Result<
        FileAttr,
        Errno,
    >)
        ensures
            old(self).same_config(final(self)),
            final(self).tag_rows() == old(self).tag_rows(),
            final(self).history_rows() == old(self).history_rows(),
            final(self).trash_rows() == old(self).trash_rows(),
            unique_pairs(old(self).imap()) ==> unique_pairs(final(self).imap()),
            stat is None ==> final(self).imap() == old(self).imap(),
            stat matches Some(m) ==> (r matches Ok(a) ==> a.ino != 0 && a == spec_attr_from_stat(
                a.ino,
                *m,
                old(self).uid,
                old(self).gid,
            ) && final(self).imap().contains_key(a.ino) && final(self).imap()[a.ino] == (
                parent,
                name@,
            )),
            stat is None ==> (r matches Ok(a) ==> spec_ends_with(name@, ".jpg"@) && (exists|id: u64|
                old(self).imap().contains_key(id) && old(self).imap()[id] == (
                    parent,
                    spec_replace(name@, ".jpg"@, ".png"@),
                ) && a == spec_synth_file_attr(id | CONVERT_BIT, 1048576, 1, 0o444))),
            stat is None && !spec_ends_with(name@, ".jpg"@) ==> r == Err::<FileAttr, Errno>(
                Errno::NoEnt,
            ),
            final(self).imap() == old(self).imap() || (exists|id: u64|
                final(self).imap() == old(self).imap().insert(id, (parent, name@))),
    {
        match stat {
            Some(meta) => self.create_commit(parent, name, meta),
            None => {
                if str_ends_with(name, ".jpg") {
                    let png = str_replace(name, ".jpg", ".png");
                    match self.inodes.get_inode(parent, png.as_str()) {
                        Some(png_ino) => {
                            proof {
                                assert(old(self).imap().contains_key(png_ino) && old(
                                    self,
                                ).imap()[png_ino] == (
                                    parent,
                                    spec_replace(name@, ".jpg"@, ".png"@),
                                ));
                            }
                            Ok(synth_file_attr(png_ino | CONVERT_BIT, 1048576, 1, 0o444))
                        },
                        None => Err(Errno::NoEnt),
                    }
                } else {
                    Err(Errno::NoEnt)
                }
            },
        }
    }
}


/// What a getattr can answer without a stat, by class: canned attributes
/// for every synthetic class, directories for the singleton and reserved
/// directory ranges, a small read-only file for loose virtual leaves, and
/// nothing for the root and real inodes, which need a stat.
pub open spec fn spec_getattr_ready(inode: u64) -> Option<FileAttr> {
    match spec_classify(inode) {
        InodeClass::Context { dir: _ } => Some(spec_synth_file_attr(inode, 1024, 1, 0o444)),
        InodeClass::Convert { file: _ } => Some(spec_synth_file_attr(inode, 1048576, 1, 0o444)),
        InodeClass::Search => Some(spec_synth_file_attr(inode, 0, 0, 0o666)),
        InodeClass::ApiLeaf => Some(spec_synth_file_attr(inode, 1024, 1, 0o444)),
        InodeClass::Api => Some(spec_synth_dir_attr(inode)),
        InodeClass::Wormhole => Some(spec_synth_dir_attr(inode)),
        InodeClass::Stats => Some(spec_synth_file_attr(inode, 1024, 1, 0o444)),
        InodeClass::MagicRoot => Some(spec_synth_dir_attr(inode)),
        InodeClass::Tags => Some(spec_synth_dir_attr(inode)),
        InodeClass::Recent => Some(spec_synth_dir_attr(inode)),
        InodeClass::TagDir => Some(spec_synth_dir_attr(inode)),
        InodeClass::SearchResults => Some(spec_synth_file_attr(inode, 100, 1, 0o444)),
        InodeClass::VirtualLeaf => Some(spec_synth_file_attr(inode, 100, 1, 0o444)),
        InodeClass::Root => None,
        InodeClass::Real => None,
    }
}

/// What a getattr needs next: a finished attribute, or a stat of a backing
/// path.
pub enum AttrStep {
    Ready(FileAttr),
    Stat { rel: String },
}

/// What a read needs next, by the inode's class: backing bytes, a directory
/// walk for a context view, the backing image for a converted view, the
/// generated statistics body, an empty reply, or nothing.
pub enum ReadStep {
    Backing { rel: String },
    ContextDir { rel: String },
    ConvertPng { rel: String },
    Stats,
    Empty,
    NotFound,
}

/// What a read of backing bytes replies: the bytes themselves (decrypted
/// for a vault path), or an address whose fetched body stands in for them.
pub enum ReadOutcome {
    Data(Vec<u8>),
    Fetch(String),
}

/// The slice an offset/size read takes of a generated body: empty at or
/// past the end, and never past the end.
pub open spec fn spec_slice(b: Seq<u8>, off: int, size: int) -> Seq<u8> {
    if off >= b.len() {
        Seq::<u8>::empty()
    } else if off + size <= b.len() {
        b.subrange(off, off + size)
    } else {
        b.subrange(off, b.len() as int)
    }
}

/// Takes the offset/size slice of a body, as `spec_slice`.  A read at or
/// past the end returns no bytes.
pub fn slice_bytes(b: &[u8], off: usize, size: u32) -> (r: Vec<u8>)
    ensures
        r@ == spec_slice(b@, off as int, size as int),
        off >= b@.len() ==> r@.len() == 0,
{
    let blen = b.len();
    if off >= blen {
        return Vec::new();
    }
    let end = if (size as usize) <= blen - off {
        off + size as usize
    } else {
        blen
    };
    let mut out: Vec<u8> = Vec::new();
    let mut j: usize = off;
    while j < end
        invariant
            blen == b@.len(),
            off <= j <= end <= b@.len(),
            out@ == b@.subrange(off as int, j as int),
        decreases end - j,
    {
        proof {
            assert(b@.subrange(off as int, j + 1) =~= b@.subrange(off as int, j as int).push(
                b@[j as int]));
        }
        out.push(b[j]);
        j = j + 1;
    }
    out
}

/// A path is a vault path when it holds the `/vault/` segment.
pub open spec fn spec_vault_path(p: Seq<char>) -> bool {
    spec_contains(p, "/vault/"@)
}

/// The address a `.url` file's bytes carry: their text trimmed, when they
/// are valid UTF-8 and the trimmed text starts with `http`.
pub open spec fn spec_url_payload(raw: Seq<u8>) -> Option<Seq<char>> {
    if valid_utf8(raw) && spec_starts_with(spec_trim(decode_utf8(raw)), "http"@) {
        Some(spec_trim(decode_utf8(raw)))
    } else {
        None
    }
}

/// One entry a directory listing emits.
pub struct DirEntry {
    pub ino: u64,
    pub offset: i64,
    pub kind: FileKind,
    pub name: String,
}

/// The plain view of a listing entry.
pub open spec fn entry_view(e: DirEntry) -> (u64, int, FileKind, Seq<char>) {
    (e.ino, e.offset as int, e.kind, e.name@)
}

/// The fixed listing of the `.magic` directory.
pub open spec fn spec_magic_root_listing() -> Seq<(u64, int, FileKind, Seq<char>)> {
    seq![
        (MAGIC_ROOT, 1, FileKind::Directory, "."@),
        (1u64, 2, FileKind::Directory, ".."@),
        (MAGIC_TAGS, 3, FileKind::Directory, "tags"@),
        (MAGIC_RECENT, 4, FileKind::Directory, "recent"@),
        (MAGIC_SEARCH, 5, FileKind::RegularFile, "search"@),
        (MAGIC_API, 6, FileKind::Directory, "api"@),
        (MAGIC_WORMHOLE, 7, FileKind::Directory, "wormhole"@),
        (MAGIC_STATS, 8, FileKind::RegularFile, "stats.md"@),
    ]
}

/// The fixed listing of the `api` directory.
pub open spec fn spec_api_listing() -> Seq<(u64, int, FileKind, Seq<char>)> {
    seq![
        (MAGIC_API, 1, FileKind::Directory, "."@),
        (MAGIC_ROOT, 2, FileKind::Directory, ".."@),
        (MAGIC_API | API_BIT, 3, FileKind::RegularFile, "bitcoin.json"@),
    ]
}

/// The listing of the `wormhole` directory: a peer when the license is
/// active, an upgrade notice otherwise.
pub open spec fn spec_wormhole_listing(pro: bool) -> Seq<(u64, int, FileKind, Seq<char>)> {
    if pro {
        seq![
            (MAGIC_WORMHOLE, 1, FileKind::Directory, "."@),
            (MAGIC_ROOT, 2, FileKind::Directory, ".."@),
            ((MAGIC_WORMHOLE - 100) as u64, 3, FileKind::Directory, "Peer_Node_1"@),
        ]
    } else {
        seq![
            (MAGIC_WORMHOLE, 1, FileKind::Directory, "."@),
            (MAGIC_ROOT, 2, FileKind::Directory, ".."@),
            ((MAGIC_WORMHOLE - 999) as u64, 3, FileKind::RegularFile, "UPGRADE_TO_PRO.txt"@),
        ]
    }
}

/// The mock listing of the `recent` directory.
pub open spec fn spec_recent_listing() -> Seq<(u64, int, FileKind, Seq<char>)> {
    seq![
        (MAGIC_RECENT, 1, FileKind::Directory, "."@),
        (MAGIC_ROOT, 2, FileKind::Directory, ".."@),
        ((MAGIC_RECENT - 1) as u64, 3, FileKind::RegularFile, "last_edited_file.rs"@),
    ]
}

/// The shape of a per-tag directory listing: the dot entries, then file
/// entries only, each a catalog row under its own name, carrying some tag
/// hashed to this directory.
pub open spec fn spec_tag_dir_shape(
    m: Map<u64, (u64, Seq<char>)>,
    rows: Set<(u64, Seq<char>)>,
    inode: u64,
    v: Seq<DirEntry>,
) -> bool {
    &&& v.len() >= 2
    &&& entry_view(v[0]) == (inode, 1int, FileKind::Directory, "."@)
    &&& entry_view(v[1]) == (MAGIC_TAGS, 2int, FileKind::Directory, ".."@)
    &&& forall|j: int|
        2 <= j < v.len() ==> (m.contains_key((#[trigger] v[j]).ino) && m[v[j].ino].1 == v[j].name@
            && v[j].kind == FileKind::RegularFile && (exists|t: Seq<char>|
            spec_tag_dir_inode(t) == inode && rows.contains((v[j].ino, t))))
    &&& forall|j: int| 2 <= j < v.len() && j + 1 <= i64::MAX ==> (#[trigger] v[j]).offset == j + 1
}

/// The listing of a per-tag virtual directory: its shape, and, unless the
/// tail is empty (the store-failure escape, or a tag with no files), one
/// entry for every catalog file carrying a tag hashed to this directory.
/// The lossy hash may merge colliding tags into one directory; that is the
/// documented weakness of the encoding.
pub open spec fn spec_tag_dir_file_entries(
    m: Map<u64, (u64, Seq<char>)>,
    rows: Set<(u64, Seq<char>)>,
    inode: u64,
    v: Seq<DirEntry>,
) -> bool {
    &&& spec_tag_dir_shape(m, rows, inode, v)
    &&& v.len() == 2 || (forall|p: (u64, Seq<char>)|
        #[trigger] rows.contains(p) && spec_tag_dir_inode(p.1) == inode && m.contains_key(p.0)
            ==> (exists|j: int| 2 <= j < v.len() && (#[trigger] v[j]).ino == p.0))
}

/// The catalog rows already listed: every file carrying one of the first
/// `n` tags of `ts` hashed to this directory has an entry.
spec fn spec_tags_done(
    m: Map<u64, (u64, Seq<char>)>,
    rows: Set<(u64, Seq<char>)>,
    inode: u64,
    v: Seq<DirEntry>,
    ts: Seq<String>,
    n: int,
) -> bool {
    forall|p: (u64, Seq<char>)|
        #[trigger] rows.contains(p) && spec_tag_dir_inode(p.1) == inode && m.contains_key(p.0)
            && (exists|k: int| 0 <= k < n && (#[trigger] ts[k])@ == p.1) ==> (exists|j: int|
            2 <= j < v.len() && (#[trigger] v[j]).ino == p.0)
}

/// The listing of the tag root: the dot entries, then one directory per
/// catalog tag at its hashed inode, each named by a tag some inode carries,
/// one entry per tag.  When the catalog cannot be read only the dot entries
/// come out, so an empty tail promises nothing.
pub open spec fn spec_tags_dir_entries(rows: Set<(u64, Seq<char>)>, v: Seq<DirEntry>) -> bool {
    &&& v.len() >= 2
    &&& entry_view(v[0]) == (MAGIC_TAGS, 1int, FileKind::Directory, "."@)
    &&& entry_view(v[1]) == (MAGIC_ROOT, 2int, FileKind::Directory, ".."@)
    &&& forall|j: int|
        2 <= j < v.len() ==> ((#[trigger] v[j]).ino == spec_tag_dir_inode(v[j].name@) && v[j].kind
            == FileKind::Directory && (exists|i: u64| rows.contains((i, v[j].name@))))
    &&& forall|p: (u64, Seq<char>)|
        #[trigger] rows.contains(p) ==> v.len() == 2 || (exists|j: int|
            2 <= j < v.len() && v[j].name@ == p.1)
    &&& forall|j1: int, j2: int| 2 <= j1 < j2 < v.len() ==> v[j1].name@ != v[j2].name@
    &&& v.len() + 1 <= i64::MAX ==> forall|j: int|
        2 <= j < v.len() ==> (#[trigger] v[j]).offset == j + 1
}

/// A child warranting a synthetic converted view: a `.png` name among the
/// children with no `.jpg` counterpart among them.
pub open spec fn spec_png_without_jpg(children: Seq<(String, bool)>, k: int) -> bool {
    &&& 0 <= k < children.len()
    &&& spec_ends_with(children[k].0@, ".png"@)
    &&& forall|k2: int|
        0 <= k2 < children.len() ==> (#[trigger] children[k2]).0@ != spec_replace(
            children[k].0@,
            ".png"@,
            ".jpg"@,
        )
}

/// Entry `j` of `v` is the synthetic converted view of the `.png` child
/// `kk`: its inode is the child entry's inode with the convert bit, its
/// name is the child's name with `.png` rewritten to `.jpg`.
pub open spec fn spec_jpg_entry_for(
    children: Seq<(String, bool)>,
    v: Seq<DirEntry>,
    base: int,
    j: int,
    kk: int,
) -> bool {
    &&& spec_png_without_jpg(children, kk)
    &&& v[j].ino == (v[base + kk].ino | CONVERT_BIT)
    &&& v[j].name@ == spec_replace(children[kk].0@, ".png"@, ".jpg"@)
    &&& v[j].kind == FileKind::RegularFile
}

/// Entry `j` of `v` is the converted view of some `.png` child.
pub open spec fn spec_jpg_tail_entry(
    children: Seq<(String, bool)>,
    v: Seq<DirEntry>,
    base: int,
    j: int,
) -> bool {
    exists|kk: int| spec_jpg_entry_for(children, v, base, j, kk)
}

/// The `.png` child `kk` has its converted view somewhere in the tail.
pub open spec fn spec_jpg_listed(
    children: Seq<(String, bool)>,
    v: Seq<DirEntry>,
    base: int,
    n: int,
    kk: int,
) -> bool {
    exists|j: int| base + n <= j < v.len() && spec_jpg_entry_for(children, v, base, j, kk)
}

proof fn lemma_jpg_entry_push(
    children: Seq<(String, bool)>,
    pre: Seq<DirEntry>,
    e: DirEntry,
    base: int,
    j: int,
    kk: int,
)
    requires
        0 <= base,
        base + children.len() <= pre.len(),
        0 <= j < pre.len(),
        spec_jpg_entry_for(children, pre, base, j, kk),
    ensures
        spec_jpg_entry_for(children, pre.push(e), base, j, kk),
{
    assert(pre.push(e)[j] == pre[j]);
    assert(pre.push(e)[base + kk] == pre[base + kk]);
}

/// The file count reported for one tag: either the length of some listing
/// of the files carrying it, or 0 when the store could not be read.
pub open spec fn spec_tag_count_ok(
    m: Map<u64, (u64, Seq<char>)>,
    rows: Set<(u64, Seq<char>)>,
    tag: Seq<char>,
    c: u64,
) -> bool {
    c == 0 || (exists|v: Seq<(u64, String)>| files_listing(m, rows, tag, v) && c == v.len())
}

proof fn lemma_tag_count_ok(
    m: Map<u64, (u64, Seq<char>)>,
    rows: Set<(u64, Seq<char>)>,
    tag: Seq<char>,
    v: Seq<(u64, String)>,
    c: u64,
)
    requires
        files_listing(m, rows, tag, v),
        c == v.len(),
    ensures
        spec_tag_count_ok(m, rows, tag, c),
{
}

/// What a readdir needs next: a finished listing, a walk of a backing
/// directory, or nothing.
pub enum ReaddirStep {
    Done(Vec<DirEntry>),
    ReadDisk { rel: String },
    NotFound,
}

/// A backup path under the history area:
/// `.eidetic/history/<inode>_<ts>_<basename>`.
pub open spec fn spec_history_backup(inode: u64, ts: u64, rel: Seq<char>) -> Seq<char> {
    ".eidetic/history/"@ + spec_decimal(inode as int) + "_"@ + spec_decimal(ts as int) + "_"@
        + spec_basename(rel)
}

/// A backup path under the trash area: `.eidetic/trash/<ts>_<name>`.
pub open spec fn spec_trash_backup(ts: u64, name: Seq<char>) -> Seq<char> {
    ".eidetic/trash/"@ + spec_decimal(ts as int) + "_"@ + name
}

/// The plan of a write to a real inode: its backing path, the backup path
/// the pre-write snapshot goes to, and the timestamp both carry.
pub struct WritePlan {
    pub rel: String,
    pub backup_rel: String,
    pub ts: u64,
}

/// The plan of an unlink: the child inode, its backing path, and the trash
/// path the file moves to.
pub struct UnlinkPlan {
    pub child: u64,
    pub rel: String,
    pub backup_rel: String,
    pub ts: u64,
}

/// The plan of a rename: the inode moved and both backing paths.
pub struct RenamePlan {
    pub inode: u64,
    pub old_rel: String,
    pub new_rel: String,
}

impl EideticFS {
    /// Serves a getattr: canned attributes for every synthetic class, a
    /// stat request for the root and real inodes, and not-found when a real
    /// inode does not resolve.
    pub fn getattr_route(&self, inode: u64) -> (r: Result<AttrStep, Errno>)
        ensures
            spec_getattr_ready(inode) matches Some(a) ==> r == Ok::<AttrStep, Errno>(
                AttrStep::Ready(a),
            ),
            r matches Ok(step) ==> match step {
                AttrStep::Ready(a) => spec_getattr_ready(inode) == Some(a),
                AttrStep::Stat { rel } => spec_getattr_ready(inode) is None && spec_resolve(
                    self.imap(),
                    inode,
                    100,
                ) == Some(rel@),
            },
            spec_getattr_ready(inode) is None && spec_resolve(self.imap(), inode, 100) is None
                ==> r == Err::<AttrStep, Errno>(Errno::NoEnt),
            r is Err ==> r == Err::<AttrStep, Errno>(Errno::NoEnt),
    {
        match classify(inode) {
            InodeClass::Context { dir: _ } => Ok(AttrStep::Ready(synth_file_attr(inode, 1024, 1, 0o444))),
            InodeClass::Convert { file: _ } => Ok(
                AttrStep::Ready(synth_file_attr(inode, 1048576, 1, 0o444)),
            ),
            InodeClass::Search => Ok(AttrStep::Ready(synth_file_attr(inode, 0, 0, 0o666))),
            InodeClass::ApiLeaf => Ok(AttrStep::Ready(synth_file_attr(inode, 1024, 1, 0o444))),
            InodeClass::Api => Ok(AttrStep::Ready(synth_dir_attr(inode))),
            InodeClass::Wormhole => Ok(AttrStep::Ready(synth_dir_attr(inode))),
            InodeClass::Stats => Ok(AttrStep::Ready(synth_file_attr(inode, 1024, 1, 0o444))),
            InodeClass::MagicRoot => Ok(AttrStep::Ready(synth_dir_attr(inode))),
            InodeClass::Tags => Ok(AttrStep::Ready(synth_dir_attr(inode))),
            InodeClass::Recent => Ok(AttrStep::Ready(synth_dir_attr(inode))),
            InodeClass::TagDir => Ok(AttrStep::Ready(synth_dir_attr(inode))),
            InodeClass::SearchResults => Ok(AttrStep::Ready(synth_file_attr(inode, 100, 1, 0o444))),
            InodeClass::VirtualLeaf => Ok(AttrStep::Ready(synth_file_attr(inode, 100, 1, 0o444))),
            InodeClass::Root | InodeClass::Real => match self.inodes.get_path(inode) {
                Some(rel) => Ok(AttrStep::Stat { rel }),
                None => Err(Errno::NoEnt),
            },
        }
    }

    /// Finishes a getattr of a real inode from what the stat observed.
    pub fn getattr_finish(&self, inode: u64, stat: Option<&FsStat>) -> (r: Result<FileAttr, Errno>)
        ensures
            r == (match stat {
                Some(m) => Ok::<FileAttr, Errno>(spec_attr_from_stat(inode, *m, self.uid, self.gid)),
                None => Err::<FileAttr, Errno>(Errno::NoEnt),
            }),
    {
        match stat {
            Some(m) => Ok(attr_from_stat(inode, m, self.uid, self.gid)),
            None => Err(Errno::NoEnt),
        }
    }

    /// Routes a read by the inode's class: backing bytes for a real inode,
    /// a directory walk for a context view, the backing image for a
    /// converted view, the generated body for the statistics file, an empty
    /// reply for the search file, and nothing for anything else.
    pub fn read_route(&self, inode: u64) -> (r: ReadStep)
        ensures
            r matches ReadStep::Backing { rel } ==> (spec_classify(inode) == InodeClass::Root
                || spec_classify(inode) == InodeClass::Real) && spec_resolve(self.imap(), inode, 100)
                == Some(rel@),
            r matches ReadStep::ContextDir { rel } ==> (spec_classify(inode) matches
                InodeClass::Context { dir } && spec_resolve(self.imap(), dir, 100) == Some(rel@)),
            r matches ReadStep::ConvertPng { rel } ==> (spec_classify(inode) matches
                InodeClass::Convert { file } && spec_resolve(self.imap(), file, 100) == Some(rel@)),
            r == ReadStep::Stats <==> spec_classify(inode) == InodeClass::Stats,
            r == ReadStep::Empty <==> spec_classify(inode) == InodeClass::Search,
            (spec_classify(inode) == InodeClass::Root || spec_classify(inode) == InodeClass::Real)
                && spec_resolve(self.imap(), inode, 100) is None ==> r == ReadStep::NotFound,
            spec_classify(inode) matches InodeClass::Context { dir } ==> (spec_resolve(
                self.imap(),
                dir,
                100,
            ) is None ==> r == ReadStep::NotFound),
            spec_classify(inode) matches InodeClass::Convert { file } ==> (spec_resolve(
                self.imap(),
                file,
                100,
            ) is None ==> r == ReadStep::NotFound),
            (match spec_classify(inode) {
                InodeClass::Root => false,
                InodeClass::Real => false,
                InodeClass::Context { dir: _ } => false,
                InodeClass::Convert { file: _ } => false,
                InodeClass::Stats => false,
                InodeClass::Search => false,
                _ => true,
            }) ==> r == ReadStep::NotFound,
    {
        match classify(inode) {
            InodeClass::Root | InodeClass::Real => match self.inodes.get_path(inode) {
                Some(rel) => ReadStep::Backing { rel },
                None => ReadStep::NotFound,
            },
            InodeClass::Context { dir } => match self.inodes.get_path(dir) {
                Some(rel) => ReadStep::ContextDir { rel },
                None => ReadStep::NotFound,
            },
            InodeClass::Convert { file } => match self.inodes.get_path(file) {
                Some(rel) => ReadStep::ConvertPng { rel },
                None => ReadStep::NotFound,
            },
            InodeClass::Stats => ReadStep::Stats,
            InodeClass::Search => ReadStep::Empty,
            _ => ReadStep::NotFound,
        }
    }

    /// Transforms the raw bytes a backing read returned: a vault path is
    /// decrypted; a `.url` file whose trimmed text is an address asks for a
    /// fetch; everything else passes through unchanged.
    pub fn read_backing(&self, rel: &str, raw: &[u8]) -> (r: ReadOutcome)
        ensures
            spec_vault_path(spec_path_join(self.source_path@, rel@)) ==> (r matches
                ReadOutcome::Data(d) && d@ == spec_decrypt(raw@)),
            spec_url_payload(raw@) matches Some(u) ==> (!spec_vault_path(
                spec_path_join(self.source_path@, rel@),
            ) && spec_ext_of(spec_basename(rel@)) == "url"@ ==> (r matches ReadOutcome::Fetch(a)
                && a@ == u)),
            !spec_vault_path(spec_path_join(self.source_path@, rel@)) && (spec_ext_of(
                spec_basename(rel@),
            ) != "url"@ || spec_url_payload(raw@) is None) ==> (r matches ReadOutcome::Data(d) && d@
                == raw@),
    {
        let full = self.full_path(rel);
        if str_contains(full.as_str(), "/vault/") {
            return ReadOutcome::Data(decrypt(raw));
        }
        let name = basename(rel);
        let ext = ext_of(name.as_str());
        if str_eq(ext.as_str(), "url") {
            match utf8_str(raw) {
                Some(text) => {
                    let trimmed = str_trim(text);
                    if str_starts_with(trimmed.as_str(), "http") {
                        return ReadOutcome::Fetch(trimmed);
                    }
                },
                None => {},
            }
        }
        ReadOutcome::Data(slice_to_vec(raw))
    }

    /// Serves a read of a converted view: the backing image re-encoded as
    /// JPEG, sliced by offset and size; bytes that do not transcode are an
    /// I/O error.
    pub fn convert_read(&self, png: &[u8], off: usize, size: u32) -> (r: Result<Vec<u8>, Errno>)
        ensures
            r is Ok <==> jpeg_decodes(png@),
            r matches Ok(d) ==> d@ == spec_slice(jpeg_render(png@), off as int, size as int),
            r is Err ==> r == Err::<Vec<u8>, Errno>(Errno::Io),
    {
        match png_to_jpeg(png) {
            Some(jpeg) => Ok(slice_bytes(jpeg.as_slice(), off, size)),
            None => Err(Errno::Io),
        }
    }

    /// Routes a readdir.  A nonzero offset means the one-batch listing was
    /// already sent: the reply is empty.  Synthetic directories get their
    /// fixed listings, the tag root lists the catalog's tags, a real
    /// directory needs its backing entries, and everything else is not
    /// found.
    fn magic_root_entries(&self) -> (v: Vec<DirEntry>)
        ensures
            v@.map_values(|e: DirEntry| entry_view(e)) == spec_magic_root_listing(),
    {
        let mut v: Vec<DirEntry> = Vec::new();
        v.push(DirEntry { ino: MAGIC_ROOT, offset: 1, kind: FileKind::Directory, name: String::from_str(".") });
        v.push(DirEntry { ino: 1, offset: 2, kind: FileKind::Directory, name: String::from_str("..") });
        v.push(DirEntry { ino: MAGIC_TAGS, offset: 3, kind: FileKind::Directory, name: String::from_str("tags") });
        v.push(DirEntry { ino: MAGIC_RECENT, offset: 4, kind: FileKind::Directory, name: String::from_str("recent") });
        v.push(DirEntry { ino: MAGIC_SEARCH, offset: 5, kind: FileKind::RegularFile, name: String::from_str("search") });
        v.push(DirEntry { ino: MAGIC_API, offset: 6, kind: FileKind::Directory, name: String::from_str("api") });
        v.push(DirEntry { ino: MAGIC_WORMHOLE, offset: 7, kind: FileKind::Directory, name: String::from_str("wormhole") });
        v.push(DirEntry { ino: MAGIC_STATS, offset: 8, kind: FileKind::RegularFile, name: String::from_str("stats.md") });
        proof {
            assert(v@.map_values(|e: DirEntry| entry_view(e)) =~= spec_magic_root_listing());
        }
        v
    }

    fn api_entries(&self) -> (v: Vec<DirEntry>)
        ensures
            v@.map_values(|e: DirEntry| entry_view(e)) == spec_api_listing(),
    {
        let mut v: Vec<DirEntry> = Vec::new();
        v.push(DirEntry { ino: MAGIC_API, offset: 1, kind: FileKind::Directory, name: String::from_str(".") });
        v.push(DirEntry { ino: MAGIC_ROOT, offset: 2, kind: FileKind::Directory, name: String::from_str("..") });
        v.push(DirEntry { ino: MAGIC_API | API_BIT, offset: 3, kind: FileKind::RegularFile, name: String::from_str("bitcoin.json") });
        proof {
            assert(v@.map_values(|e: DirEntry| entry_view(e)) =~= spec_api_listing());
        }
        v
    }

    fn wormhole_entries(&self, pro: bool) -> (v: Vec<DirEntry>)
        ensures
            v@.map_values(|e: DirEntry| entry_view(e)) == spec_wormhole_listing(pro),
    {
        let mut v: Vec<DirEntry> = Vec::new();
        v.push(DirEntry { ino: MAGIC_WORMHOLE, offset: 1, kind: FileKind::Directory, name: String::from_str(".") });
        v.push(DirEntry { ino: MAGIC_ROOT, offset: 2, kind: FileKind::Directory, name: String::from_str("..") });
        if pro {
            v.push(DirEntry { ino: MAGIC_WORMHOLE - 100, offset: 3, kind: FileKind::Directory, name: String::from_str("Peer_Node_1") });
        } else {
            v.push(DirEntry { ino: MAGIC_WORMHOLE - 999, offset: 3, kind: FileKind::RegularFile, name: String::from_str("UPGRADE_TO_PRO.txt") });
        }
        proof {
            assert(v@.map_values(|e: DirEntry| entry_view(e)) =~= spec_wormhole_listing(pro));
        }
        v
    }

    fn recent_entries(&self) -> (v: Vec<DirEntry>)
        ensures
            v@.map_values(|e: DirEntry| entry_view(e)) == spec_recent_listing(),
    {
        let mut v: Vec<DirEntry> = Vec::new();
        v.push(DirEntry { ino: MAGIC_RECENT, offset: 1, kind: FileKind::Directory, name: String::from_str(".") });
        v.push(DirEntry { ino: MAGIC_ROOT, offset: 2, kind: FileKind::Directory, name: String::from_str("..") });
        v.push(DirEntry { ino: MAGIC_RECENT - 1, offset: 3, kind: FileKind::RegularFile, name: String::from_str("last_edited_file.rs") });
        proof {
            assert(v@.map_values(|e: DirEntry| entry_view(e)) =~= spec_recent_listing());
        }
        v
    }

    fn tag_dir_dots(&self, inode: u64) -> (v: Vec<DirEntry>)
        ensures
            v@.len() == 2,
            spec_tag_dir_shape(self.imap(), self.tag_rows(), inode, v@),
    {
        let mut v: Vec<DirEntry> = Vec::new();
        v.push(DirEntry { ino: inode, offset: 1, kind: FileKind::Directory, name: String::from_str(".") });
        v.push(DirEntry { ino: MAGIC_TAGS, offset: 2, kind: FileKind::Directory, name: String::from_str("..") });
        v
    }

    /// Lists a per-tag virtual directory: the dot entries, then the catalog
    /// files carrying each tag whose hashed inode is this directory.  A
    /// store failure midway falls back to the dot entries alone.
    fn tag_dir_file_entries(&self, inode: u64) -> (v: Vec<DirEntry>)
        ensures
            spec_tag_dir_file_entries(self.imap(), self.tag_rows(), inode, v@),
    {
        let ghost m = self.imap();
        let ghost rows = self.tag_rows();
        let mut v = self.tag_dir_dots(inode);
        let tags = match self.inodes.db.get_tags() {
            Ok(t) => t,
            Err(_) => {
                return v;
            },
        };
        let mut ti: usize = 0;
        while ti < tags.len()
            invariant
                m == self.imap(),
                rows == self.tag_rows(),
                tags_listing(rows, tags@),
                ti <= tags@.len(),
                spec_tag_dir_shape(m, rows, inode, v@),
                spec_tags_done(m, rows, inode, v@, tags@, ti as int),
            decreases tags@.len() - ti,
        {
            let t = tags[ti].as_str();
            let ghost tv = t@;
            let h = tag_dir_inode(t);
            if h == inode {
                let files = match self.inodes.db.get_files_with_tag(t) {
                    Ok(f) => f,
                    Err(_) => {
                        return self.tag_dir_dots(inode);
                    },
                };
                let mut fi: usize = 0;
                while fi < files.len()
                    invariant
                        m == self.imap(),
                        rows == self.tag_rows(),
                        ti < tags@.len(),
                        tv == tags@[ti as int]@,
                        spec_tag_dir_inode(tv) == inode,
                        files_listing(m, rows, tv, files@),
                        fi <= files@.len(),
                        spec_tag_dir_shape(m, rows, inode, v@),
                        spec_tags_done(m, rows, inode, v@, tags@, ti as int),
                        forall|k: int|
                            0 <= k < fi ==> (exists|j: int|
                                2 <= j < v@.len() && (#[trigger] v@[j]).ino == (
                                #[trigger] files@[k]).0),
                    decreases files@.len() - fi,
                {
                    let ghost pre = v@;
                    let e_ino = files[fi].0;
                    let e_name = files[fi].1.clone();
                    let off: i64 = #[verifier::truncate] (v.len() as i64);
                    v.push(
                        DirEntry {
                            ino: e_ino,
                            offset: off.wrapping_add(1),
                            kind: FileKind::RegularFile,
                            name: e_name,
                        },
                    );
                    proof {
                        assert(v@ == pre.push(v@[pre.len() as int]));
                        assert forall|j: int|
                            2 <= j < v@.len() implies (m.contains_key((#[trigger] v@[j]).ino)
                            && m[v@[j].ino].1 == v@[j].name@ && v@[j].kind == FileKind::RegularFile
                            && (exists|t2: Seq<char>|
                            spec_tag_dir_inode(t2) == inode && rows.contains(
                                (v@[j].ino, t2),
                            ))) by {
                            if j < pre.len() {
                                assert(v@[j] == pre[j]);
                            } else {
                                assert(v@[j].ino == files@[fi as int].0);
                                assert(rows.contains((files@[fi as int].0, tv)));
                            }
                        }
                        assert forall|j: int|
                            2 <= j < v@.len() && j + 1 <= i64::MAX implies (#[trigger] v@[j]).offset
                            == j + 1 by {
                            if j < pre.len() {
                                assert(v@[j] == pre[j]);
                            }
                        }
                        assert forall|k: int|
                            0 <= k < fi + 1 implies (exists|j: int|
                            2 <= j < v@.len() && (#[trigger] v@[j]).ino == (
                            #[trigger] files@[k]).0) by {
                            if k < fi {
                                let j0 = choose|j0: int|
                                    2 <= j0 < pre.len() && pre[j0].ino == files@[k].0;
                                assert(v@[j0].ino == files@[k].0);
                            } else {
                                assert(v@[pre.len() as int].ino == files@[k].0);
                            }
                        }
                        assert(spec_tags_done(m, rows, inode, pre, tags@, ti as int));
                        assert forall|p: (u64, Seq<char>)|
                            #[trigger] rows.contains(p) && spec_tag_dir_inode(p.1) == inode
                                && m.contains_key(p.0) && (exists|k: int|
                                0 <= k < ti && (#[trigger] tags@[k])@ == p.1) implies (exists|
                            j: int,
                        | 2 <= j < v@.len() && (#[trigger] v@[j]).ino == p.0) by {
                            let j0 = choose|j0: int|
                                2 <= j0 < pre.len() && pre[j0].ino == p.0;
                            assert(v@[j0].ino == p.0);
                        }
                    }
                    fi = fi + 1;
                }
                proof {
                    assert forall|p: (u64, Seq<char>)|
                        #[trigger] rows.contains(p) && spec_tag_dir_inode(p.1) == inode
                            && m.contains_key(p.0) && (exists|k: int|
                            0 <= k < ti + 1 && (#[trigger] tags@[k])@ == p.1) implies (exists|
                        j: int,
                    | 2 <= j < v@.len() && (#[trigger] v@[j]).ino == p.0) by {
                        let k0 = choose|k0: int| 0 <= k0 < ti + 1 && (tags@[k0])@ == p.1;
                        if k0 < ti {
                        } else {
                            assert(p.1 == tv);
                            assert(rows.contains((p.0, tv)));
                            let k1 = choose|k1: int|
                                0 <= k1 < files@.len() && (files@[k1]).0 == p.0;
                            assert(exists|j: int|
                                2 <= j < v@.len() && (#[trigger] v@[j]).ino == (
                                #[trigger] files@[k1]).0);
                        }
                    }
                }
            } else {
                proof {
                    assert forall|p: (u64, Seq<char>)|
                        #[trigger] rows.contains(p) && spec_tag_dir_inode(p.1) == inode
                            && m.contains_key(p.0) && (exists|k: int|
                            0 <= k < ti + 1 && (#[trigger] tags@[k])@ == p.1) implies (exists|
                        j: int,
                    | 2 <= j < v@.len() && (#[trigger] v@[j]).ino == p.0) by {
                        let k0 = choose|k0: int| 0 <= k0 < ti + 1 && (tags@[k0])@ == p.1;
                        if k0 < ti {
                        } else {
                            assert(spec_tag_dir_inode(p.1) == h);
                        }
                    }
                }
            }
            ti = ti + 1;
        }
        proof {
            assert forall|p: (u64, Seq<char>)|
                #[trigger] rows.contains(p) && spec_tag_dir_inode(p.1) == inode
                    && m.contains_key(p.0) implies (exists|j: int|
                2 <= j < v@.len() && (#[trigger] v@[j]).ino == p.0) by {
                let k0 = choose|k0: int| 0 <= k0 < tags@.len() && (tags@[k0])@ == p.1;
                assert(0 <= k0 < ti && (tags@[k0])@ == p.1);
            }
        }
        v
    }

    /// Lists the tag root: the dot entries, then one directory per catalog
    /// tag, in some order, at its hashed inode.
    fn tags_listing_entries(&self) -> (v: Vec<DirEntry>)
        ensures
            spec_tags_dir_entries(self.tag_rows(), v@),
    {
        let tags = self.inodes.get_tags();
        let mut v: Vec<DirEntry> = Vec::new();
        v.push(DirEntry { ino: MAGIC_TAGS, offset: 1, kind: FileKind::Directory, name: String::from_str(".") });
        v.push(DirEntry { ino: MAGIC_ROOT, offset: 2, kind: FileKind::Directory, name: String::from_str("..") });
        let mut i: usize = 0;
        while i < tags.len()
            invariant
                i <= tags@.len(),
                v@.len() == 2 + i,
                entry_view(v@[0]) == (MAGIC_TAGS, 1int, FileKind::Directory, "."@),
                entry_view(v@[1]) == (MAGIC_ROOT, 2int, FileKind::Directory, ".."@),
                forall|j: int|
                    0 <= j < i ==> ((#[trigger] v@[2 + j]).ino == spec_tag_dir_inode(tags@[j]@)
                        && v@[2 + j].kind == FileKind::Directory && v@[2 + j].name@ == tags@[j]@),
                tags@.len() + 3 <= i64::MAX ==> forall|j: int|
                    0 <= j < i ==> (#[trigger] v@[2 + j]).offset == 3 + j,
            decreases tags@.len() - i,
        {
            let t = &tags[i];
            let ino = tag_dir_inode(t.as_str());
            let off_i: i64 = #[verifier::truncate] (i as i64);
            v.push(DirEntry { ino, offset: off_i.wrapping_add(3), kind: FileKind::Directory, name: t.clone() });
            i = i + 1;
        }
        proof {
            let rows = self.tag_rows();
            assert forall|j: int| 2 <= j < v@.len() implies ((#[trigger] v@[j]).ino
                == spec_tag_dir_inode(v@[j].name@) && v@[j].kind == FileKind::Directory && (exists|
                i: u64,
            | rows.contains((i, v@[j].name@)))) by {
                let j2 = j - 2;
                assert(v@[2 + j2].name@ == tags@[j2]@);
                assert(v@[2 + j2].ino == spec_tag_dir_inode(tags@[j2]@));
                assert(tags_listing(rows, tags@));
                assert(exists|i: u64| rows.contains((i, (tags@[j2])@)));
            }
            if tags@.len() > 0 {
                assert(tags_listing(rows, tags@));
                assert forall|p: (u64, Seq<char>)| #[trigger] rows.contains(p) implies v@.len()
                    == 2 || (exists|j: int| 2 <= j < v@.len() && v@[j].name@ == p.1) by {
                    let j0 = choose|j0: int| 0 <= j0 < tags@.len() && tags@[j0]@ == p.1;
                    assert(v@[2 + j0].name@ == p.1);
                    assert(2 <= 2 + j0 < v@.len() && v@[2 + j0].name@ == p.1);
                }
            }
            assert forall|j1: int, j2: int| 2 <= j1 < j2 < v@.len() implies v@[j1].name@
                != v@[j2].name@ by {
                assert(v@[2 + (j1 - 2)].name@ == tags@[j1 - 2]@);
                assert(v@[2 + (j2 - 2)].name@ == tags@[j2 - 2]@);
                assert(tags_listing(rows, tags@));
            }
            if v@.len() + 1 <= i64::MAX {
                assert forall|j: int| 2 <= j < v@.len() implies (#[trigger] v@[j]).offset == j
                    + 1 by {
                    assert(v@[2 + (j - 2)].offset == 3 + (j - 2));
                }
            }
            assert(spec_tags_dir_entries(rows, v@));
        }
        v
    }

    pub fn readdir_route(&self, inode: u64, offset: i64, pro: bool) -> (r: ReaddirStep)
        ensures
            offset > 0 ==> (r matches ReaddirStep::Done(v) && v@.len() == 0),
            offset <= 0 && spec_classify(inode) == InodeClass::MagicRoot ==> (r matches
                ReaddirStep::Done(v) && v@.map_values(|e: DirEntry| entry_view(e))
                == spec_magic_root_listing()),
            offset <= 0 && spec_classify(inode) == InodeClass::Api ==> (r matches
                ReaddirStep::Done(v) && v@.map_values(|e: DirEntry| entry_view(e))
                == spec_api_listing()),
            offset <= 0 && spec_classify(inode) == InodeClass::Wormhole ==> (r matches
                ReaddirStep::Done(v) && v@.map_values(|e: DirEntry| entry_view(e))
                == spec_wormhole_listing(pro)),
            offset <= 0 && spec_classify(inode) == InodeClass::Recent ==> (r matches
                ReaddirStep::Done(v) && v@.map_values(|e: DirEntry| entry_view(e))
                == spec_recent_listing()),
            offset <= 0 && spec_classify(inode) == InodeClass::TagDir ==> (r matches
                ReaddirStep::Done(v) && spec_tag_dir_file_entries(
                self.imap(),
                self.tag_rows(),
                inode,
                v@,
            )),
            offset <= 0 && spec_classify(inode) == InodeClass::Tags ==> r is Done
                && spec_tags_dir_entries(self.tag_rows(), (r->Done_0)@),
            offset <= 0 ==> (r matches ReaddirStep::ReadDisk { rel } ==> (spec_classify(inode)
                == InodeClass::Root || spec_classify(inode) == InodeClass::Real) && spec_resolve(
                self.imap(),
                inode,
                100,
            ) == Some(rel@)),
            offset <= 0 && (spec_classify(inode) == InodeClass::Root || spec_classify(inode)
                == InodeClass::Real) && spec_resolve(self.imap(), inode, 100) is None ==> r
                == ReaddirStep::NotFound,
    {
        if offset > 0 {
            return ReaddirStep::Done(Vec::new());
        }
        let c = classify(inode);
        match c {
            InodeClass::MagicRoot => ReaddirStep::Done(self.magic_root_entries()),
            InodeClass::Api => ReaddirStep::Done(self.api_entries()),
            InodeClass::Wormhole => ReaddirStep::Done(self.wormhole_entries(pro)),
            InodeClass::Recent => ReaddirStep::Done(self.recent_entries()),
            InodeClass::TagDir => ReaddirStep::Done(self.tag_dir_file_entries(inode)),
            InodeClass::Tags => ReaddirStep::Done(self.tags_listing_entries()),
            InodeClass::Root | InodeClass::Real => match self.inodes.get_path(inode) {
                Some(rel) => ReaddirStep::ReadDisk { rel },
                None => ReaddirStep::NotFound,
            },
            _ => ReaddirStep::NotFound,
        }
    }

    /// Assembles the listing of a real directory from the names and kinds
    /// its walk observed: the dot entries, the `.magic` root entry at the
    /// root, the `.context` view, the children, each registered in the
    /// catalog, and finally one synthetic `.jpg` entry for every `.png`
    /// child with no `.jpg` counterpart, at the converted view of the
    /// child's inode.
    #[verifier::spinoff_prover]
    #[verifier::rlimit(100)]
    pub fn readdir_disk(&mut self, inode: u64, children: &Vec<(String, bool)>) -> (r: Vec<DirEntry>)
        requires
            2 * children@.len() + 5 <= i64::MAX,
            2 * children@.len() + 5 <= usize::MAX,
        ensures
            old(self).same_config(final(self)),
            final(self).tag_rows() == old(self).tag_rows(),
            final(self).history_rows() == old(self).history_rows(),
            final(self).trash_rows() == old(self).trash_rows(),
            unique_pairs(old(self).imap()) ==> unique_pairs(final(self).imap()),
            ({
                let base: int = if inode == 1 {
                    4
                } else {
                    3
                };
                &&& base + children@.len() <= r@.len() <= base + 2 * children@.len()
                &&& entry_view(r@[0]) == (inode, 1int, FileKind::Directory, "."@)
                &&& entry_view(r@[1]) == (1u64, 2int, FileKind::Directory, ".."@)
                &&& (inode == 1 ==> entry_view(r@[2]) == (
                    MAGIC_ROOT,
                    3int,
                    FileKind::Directory,
                    ".magic"@,
                ))
                &&& entry_view(r@[base - 1]) == (
                    inode | CONTEXT_BIT,
                    base,
                    FileKind::RegularFile,
                    ".context"@,
                )
                &&& forall|j: int|
                    0 <= j < children@.len() ==> (#[trigger] r@[base + j]).name@ == children@[j].0@
                        && r@[base + j].offset == base + 1 + j && r@[base + j].kind == (
                        if children@[j].1 {
                            FileKind::Directory
                        } else {
                            FileKind::RegularFile
                        })
                &&& forall|j: int|
                    0 <= j < children@.len() ==> (#[trigger] r@[base + j]).ino == 0 || (final(self).imap().contains_key(r@[base + j].ino) && final(self).imap()[r@[base + j].ino]
                        == (inode, children@[j].0@))
                &&& forall|j: int|
                    base + children@.len() <= j < r@.len() ==> #[trigger] spec_jpg_tail_entry(
                        children@,
                        r@,
                        base,
                        j,
                    )
                &&& forall|j: int|
                    base + children@.len() <= j < r@.len() ==> (#[trigger] r@[j]).offset == j + 1
                &&& forall|k: int|
                    #[trigger] spec_png_without_jpg(children@, k) ==> spec_jpg_listed(
                        children@,
                        r@,
                        base,
                        children@.len() as int,
                        k,
                    )
            }),
    {
        let mut v: Vec<DirEntry> = Vec::new();
        v.push(DirEntry { ino: inode, offset: 1, kind: FileKind::Directory, name: String::from_str(".") });
        v.push(DirEntry { ino: 1, offset: 2, kind: FileKind::Directory, name: String::from_str("..") });
        if inode == 1 {
            v.push(DirEntry { ino: MAGIC_ROOT, offset: 3, kind: FileKind::Directory, name: String::from_str(".magic") });
        }
        let base = v.len() + 1;
        v.push(DirEntry { ino: inode | CONTEXT_BIT, offset: base as i64, kind: FileKind::RegularFile, name: String::from_str(".context") });
        let mut i: usize = 0;
        while i < children.len()
            invariant
                i <= children@.len(),
                children@.len() + 5 <= i64::MAX,
                children@.len() + 5 <= usize::MAX,
                base == (if inode == 1 {
                    4int
                } else {
                    3int
                }),
                v@.len() == base + i,
                old(self).same_config(self),
                self.tag_rows() == old(self).tag_rows(),
                self.history_rows() == old(self).history_rows(),
                self.trash_rows() == old(self).trash_rows(),
                unique_pairs(old(self).imap()) ==> unique_pairs(self.imap()),
                entry_view(v@[0]) == (inode, 1int, FileKind::Directory, "."@),
                entry_view(v@[1]) == (1u64, 2int, FileKind::Directory, ".."@),
                inode == 1 ==> entry_view(v@[2]) == (MAGIC_ROOT, 3int, FileKind::Directory,
                ".magic"@),
                entry_view(v@[base - 1]) == (inode | CONTEXT_BIT, base as int,
                FileKind::RegularFile, ".context"@),
                forall|j: int|
                    0 <= j < i ==> (#[trigger] v@[base + j]).name@ == children@[j].0@ && v@[base
                        + j].offset == base + 1 + j && v@[base + j].kind == (if children@[j].1 {
                        FileKind::Directory
                    } else {
                        FileKind::RegularFile
                    }),
                forall|j: int|
                    0 <= j < i ==> (#[trigger] v@[base + j]).ino == 0 || (self.imap().contains_key(
                        v@[base + j].ino,
                    ) && self.imap()[v@[base + j].ino] == (inode, children@[j].0@)),
            decreases children@.len() - i,
        {
            let name = children[i].0.clone();
            let is_dir = children[i].1;
            let ino = self.inodes.alloc_inode(inode, name.as_str());
            let ghost pre = self.imap();
            v.push(
                DirEntry {
                    ino,
                    offset: (base + i) as i64 + 1,
                    kind: if is_dir {
                        FileKind::Directory
                    } else {
                        FileKind::RegularFile
                    },
                    name,
                },
            );
            proof {
                assert forall|j: int| 0 <= j < i + 1 implies (#[trigger] v@[base + j]).ino == 0 || (
                self.imap().contains_key(v@[base + j].ino) && self.imap()[v@[base + j].ino] == (
                    inode,
                    children@[j].0@,
                )) by {
                    if j < i {
                    }
                }
            }
            i = i + 1;
        }
        let n = children.len();
        let mut k: usize = 0;
        while k < n
            invariant
                n == children@.len(),
                2 * children@.len() + 5 <= i64::MAX,
                2 * children@.len() + 5 <= usize::MAX,
                base == (if inode == 1 {
                    4int
                } else {
                    3int
                }),
                k <= n,
                base + n <= v@.len() <= base + n + k,
                old(self).same_config(self),
                self.tag_rows() == old(self).tag_rows(),
                self.history_rows() == old(self).history_rows(),
                self.trash_rows() == old(self).trash_rows(),
                unique_pairs(old(self).imap()) ==> unique_pairs(self.imap()),
                entry_view(v@[0]) == (inode, 1int, FileKind::Directory, "."@),
                entry_view(v@[1]) == (1u64, 2int, FileKind::Directory, ".."@),
                inode == 1 ==> entry_view(v@[2]) == (MAGIC_ROOT, 3int, FileKind::Directory,
                ".magic"@),
                entry_view(v@[base - 1]) == (inode | CONTEXT_BIT, base as int,
                FileKind::RegularFile, ".context"@),
                forall|j: int|
                    0 <= j < n ==> (#[trigger] v@[base + j]).name@ == children@[j].0@ && v@[base
                        + j].offset == base + 1 + j && v@[base + j].kind == (if children@[j].1 {
                        FileKind::Directory
                    } else {
                        FileKind::RegularFile
                    }),
                forall|j: int|
                    0 <= j < n ==> (#[trigger] v@[base + j]).ino == 0 || (self.imap().contains_key(
                        v@[base + j].ino,
                    ) && self.imap()[v@[base + j].ino] == (inode, children@[j].0@)),
                forall|j: int|
                    base + n <= j < v@.len() ==> #[trigger] spec_jpg_tail_entry(
                        children@,
                        v@,
                        base as int,
                        j,
                    ),
                forall|j: int| base + n <= j < v@.len() ==> (#[trigger] v@[j]).offset == j + 1,
                forall|kk: int|
                    0 <= kk < k && #[trigger] spec_png_without_jpg(children@, kk)
                        ==> spec_jpg_listed(children@, v@, base as int, n as int, kk),
            decreases n - k,
        {
            if str_ends_with(children[k].0.as_str(), ".png") {
                let jpg = str_replace(children[k].0.as_str(), ".png", ".jpg");
                let mut found = false;
                let mut k2: usize = 0;
                while k2 < n
                    invariant
                        n == children@.len(),
                        k < n,
                        k2 <= n,
                        jpg@ == spec_replace(children@[k as int].0@, ".png"@, ".jpg"@),
                        found == (exists|k3: int|
                            0 <= k3 < k2 && (#[trigger] children@[k3]).0@ == jpg@),
                    decreases n - k2,
                {
                    if str_eq(children[k2].0.as_str(), jpg.as_str()) {
                        found = true;
                        proof {
                            assert((#[trigger] children@[k2 as int]).0@ == jpg@);
                        }
                    }
                    k2 = k2 + 1;
                }
                if !found {
                    let ghost pre = v@;
                    let png_ino = v[base + k].ino;
                    let off: i64 = (v.len() as i64);
                    v.push(
                        DirEntry {
                            ino: png_ino | CONVERT_BIT,
                            offset: off + 1,
                            kind: FileKind::RegularFile,
                            name: jpg,
                        },
                    );
                    proof {
                        let e = v@[pre.len() as int];
                        assert(v@ == pre.push(e));
                        assert(spec_png_without_jpg(children@, k as int));
                        assert(v@[base + k] == pre[base + k]);
                        assert(spec_jpg_entry_for(children@, v@, base as int, pre.len() as int,
                            k as int));
                        assert forall|j: int|
                            base + n <= j < v@.len() implies #[trigger] spec_jpg_tail_entry(
                            children@,
                            v@,
                            base as int,
                            j,
                        ) by {
                            if j < pre.len() {
                                assert(spec_jpg_tail_entry(children@, pre, base as int, j));
                                let kk0 = choose|kk0: int|
                                    spec_jpg_entry_for(children@, pre, base as int, j, kk0);
                                lemma_jpg_entry_push(children@, pre, e, base as int, j, kk0);
                                assert(spec_jpg_entry_for(children@, v@, base as int, j, kk0));
                            }
                        }
                        assert forall|kk: int|
                            0 <= kk < k + 1 && #[trigger] spec_png_without_jpg(
                                children@,
                                kk,
                            ) implies spec_jpg_listed(children@, v@, base as int, n as int,
                            kk) by {
                            if kk < k {
                                assert(spec_jpg_listed(children@, pre, base as int, n as int, kk));
                                let j0 = choose|j0: int|
                                    base + n <= j0 < pre.len() && spec_jpg_entry_for(
                                        children@,
                                        pre,
                                        base as int,
                                        j0,
                                        kk,
                                    );
                                lemma_jpg_entry_push(children@, pre, e, base as int, j0, kk);
                                assert(spec_jpg_entry_for(children@, v@, base as int, j0, kk));
                            } else {
                                assert(spec_jpg_entry_for(children@, v@, base as int,
                                    pre.len() as int, k as int));
                            }
                        }
                    }
                } else {
                    proof {
                        assert forall|kk: int|
                            0 <= kk < k + 1 && #[trigger] spec_png_without_jpg(
                                children@,
                                kk,
                            ) implies spec_jpg_listed(children@, v@, base as int, n as int,
                            kk) by {
                            if kk == k {
                                let k3 = choose|k3: int|
                                    0 <= k3 < n && (children@[k3]).0@ == jpg@;
                                assert((#[trigger] children@[k3]).0@ == spec_replace(
                                    children@[k as int].0@,
                                    ".png"@,
                                    ".jpg"@,
                                ));
                                assert(false);
                            }
                        }
                    }
                }
            } else {
                proof {
                    assert forall|kk: int|
                        0 <= kk < k + 1 && #[trigger] spec_png_without_jpg(
                            children@,
                            kk,
                        ) implies spec_jpg_listed(children@, v@, base as int, n as int, kk) by {
                        if kk == k {
                            assert(!spec_ends_with(children@[k as int].0@, ".png"@));
                        }
                    }
                }
            }
            k = k + 1;
        }
        v
    }

    /// Plans a write to a real inode: its backing path, and the backup path
    /// a pre-write snapshot of it goes to, stamped with the present time.
    pub fn write_prepare(&self, inode: u64) -> (r: Result<WritePlan, Errno>)
        ensures
            r matches Ok(p) ==> spec_resolve(self.imap(), inode, 100) == Some(p.rel@)
                && p.backup_rel@ == spec_history_backup(inode, p.ts, p.rel@),
            spec_resolve(self.imap(), inode, 100) is None ==> r is Err,
            r is Err ==> r == Err::<WritePlan, Errno>(Errno::NoEnt),
    {
        let rel = match self.inodes.get_path(inode) {
            Some(rel) => rel,
            None => {
                return Err(Errno::NoEnt);
            },
        };
        let ts = crate::clock::unix_now();
        let mut backup = String::from_str(".eidetic/history/");
        let ino_s = u64_to_string(inode);
        backup.append(ino_s.as_str());
        backup.append("_");
        let ts_s = u64_to_string(ts);
        backup.append(ts_s.as_str());
        backup.append("_");
        let base = basename(rel.as_str());
        backup.append(base.as_str());
        Ok(WritePlan { rel, backup_rel: backup, ts })
    }

    /// Records the pre-write snapshot: a history row is appended exactly
    /// when the copy was made and the store accepts it; snapshotting is
    /// best-effort and never fails the write.
    pub fn write_record(&mut self, inode: u64, backup_full: &str, copied: bool)
        ensures
            old(self).same_config(final(self)),
            final(self).imap() == old(self).imap(),
            final(self).tag_rows() == old(self).tag_rows(),
            final(self).trash_rows() == old(self).trash_rows(),
            !copied ==> final(self).history_rows() == old(self).history_rows(),
            copied ==> (exists|ts: u64|
                final(self).history_rows() == old(self).history_rows().push(
                    (inode, ts, backup_full@),
                )) || final(self).history_rows() == old(self).history_rows(),
    {
        if copied {
            let _ = self.inodes.db.add_history(inode, backup_full);
        }
    }

    /// The payload a write stores: the data encrypted when the backing path
    /// is a vault path, the data itself otherwise.  The length never
    /// changes, so a full write acknowledges every byte handed in.
    pub fn write_payload(&self, rel: &str, data: &[u8]) -> (r: Vec<u8>)
        ensures
            spec_vault_path(spec_path_join(self.source_path@, rel@)) ==> r@ == crate::cipher::spec_encrypt(data@),
            !spec_vault_path(spec_path_join(self.source_path@, rel@)) ==> r@ == data@,
            r@.len() == data@.len(),
    {
        let full = self.full_path(rel);
        if str_contains(full.as_str(), "/vault/") {
            crate::cipher::encrypt(data)
        } else {
            slice_to_vec(data)
        }
    }

    /// Acknowledges a write to the search file: the query is accepted in
    /// full and discarded.
    pub fn write_search(&self, data: &[u8]) -> (r: u32)
        requires
            data@.len() <= u32::MAX,
        ensures
            r == data@.len(),
    {
        data.len() as u32
    }

    /// Plans an unlink: the child's inode and backing path, and the trash
    /// path the file moves to, stamped with the present time.
    pub fn unlink_prepare(&self, parent: u64, name: &str) -> (r: Result<UnlinkPlan, Errno>)
        ensures
            r matches Ok(p) ==> self.imap().contains_key(p.child) && self.imap()[p.child] == (
                parent,
                name@,
            ) && spec_resolve(self.imap(), p.child, 100) == Some(
                p.rel@,
            ) && p.backup_rel@ == spec_trash_backup(p.ts, name@),
            r is Err ==> r == Err::<UnlinkPlan, Errno>(Errno::NoEnt),
    {
        let child = match self.inodes.get_inode(parent, name) {
            Some(c) => c,
            None => {
                return Err(Errno::NoEnt);
            },
        };
        let rel = match self.inodes.get_path(child) {
            Some(rel) => rel,
            None => {
                return Err(Errno::NoEnt);
            },
        };
        let ts = crate::clock::unix_now();
        let mut backup = String::from_str(".eidetic/trash/");
        let ts_s = u64_to_string(ts);
        backup.append(ts_s.as_str());
        backup.append("_");
        backup.append(name);
        Ok(UnlinkPlan { child, rel, backup_rel: backup, ts })
    }

    /// Commits an unlink whose move to the trash succeeded: a trash row is
    /// recorded and the catalog row removed; a store failure is an I/O
    /// error and removes nothing silently.
    pub fn unlink_commit_trash(&mut self, child: u64, rel: &str, backup_full: &str) -> (r: Result<
        (),
        Errno,
    >)
        ensures
            old(self).same_config(final(self)),
            final(self).tag_rows() == old(self).tag_rows(),
            final(self).history_rows() == old(self).history_rows(),
            r matches Ok(_) ==> (exists|ts: u64|
                final(self).trash_rows() == old(self).trash_rows().push((rel@, backup_full@, ts)))
                && final(self).imap() == old(self).imap().remove(child),
            r matches Err(_) ==> final(self).imap() == old(self).imap(),
            unique_pairs(old(self).imap()) ==> unique_pairs(final(self).imap()),
    {
        match self.inodes.db.add_trash(rel, backup_full) {
            Ok(_) => {},
            Err(_) => {
                return Err(Errno::Io);
            },
        }
        let ghost t_after = self.trash_rows();
        let ghost ts_w = choose|ts: u64|
            t_after == old(self).trash_rows().push((rel@, backup_full@, ts));
        match self.inodes.db.delete_inode(child) {
            Ok(_) => {
                proof {
                    assert(self.trash_rows() == old(self).trash_rows().push(
                        (rel@, backup_full@, ts_w)));
                }
                Ok(())
            },
            Err(_) => Err(Errno::Io),
        }
    }

    /// Commits an unlink that fell back to a direct delete: the catalog row
    /// is removed and no trash row is recorded.
    pub fn unlink_commit_delete(&mut self, child: u64) -> (r: Result<(), Errno>)
        ensures
            old(self).same_config(final(self)),
            final(self).tag_rows() == old(self).tag_rows(),
            final(self).history_rows() == old(self).history_rows(),
            final(self).trash_rows() == old(self).trash_rows(),
            r matches Ok(_) ==> final(self).imap() == old(self).imap().remove(child),
            r matches Err(_) ==> final(self).imap() == old(self).imap(),
            unique_pairs(old(self).imap()) ==> unique_pairs(final(self).imap()),
    {
        match self.inodes.db.delete_inode(child) {
            Ok(_) => Ok(()),
            Err(_) => Err(Errno::Io),
        }
    }

    /// Plans a rename: the moved inode and both backing paths.
    pub fn rename_prepare(&self, parent: u64, name: &str, newparent: u64, newname: &str) -> (r:
        Result<RenamePlan, Errno>)
        ensures
            r matches Ok(p) ==> self.imap().contains_key(p.inode) && self.imap()[p.inode] == (
                parent,
                name@,
            ) && (spec_resolve(self.imap(), parent, 100)
                matches Some(op) && p.old_rel@ == spec_path_join(op, name@)) && (spec_resolve(
                self.imap(),
                newparent,
                100,
            ) matches Some(np) && p.new_rel@ == spec_path_join(np, newname@)),
            r is Err ==> r == Err::<RenamePlan, Errno>(Errno::NoEnt),
    {
        let old_p = match self.inodes.get_path(parent) {
            Some(p) => p,
            None => {
                return Err(Errno::NoEnt);
            },
        };
        let new_p = match self.inodes.get_path(newparent) {
            Some(p) => p,
            None => {
                return Err(Errno::NoEnt);
            },
        };
        let inode = match self.inodes.get_inode(parent, name) {
            Some(i) => i,
            None => {
                return Err(Errno::NoEnt);
            },
        };
        Ok(
            RenamePlan {
                inode,
                old_rel: path_join(old_p.as_str(), name),
                new_rel: path_join(new_p.as_str(), newname),
            },
        )
    }

    /// Commits a rename in the catalog: the moved row is rewritten to its
    /// new parent and name; a store failure is an I/O error.
    pub fn rename_commit(&mut self, inode: u64, newparent: u64, newname: &str) -> (r: Result<
        (),
        Errno,
    >)
        ensures
            old(self).same_config(final(self)),
            final(self).tag_rows() == old(self).tag_rows(),
            final(self).history_rows() == old(self).history_rows(),
            final(self).trash_rows() == old(self).trash_rows(),
            r matches Ok(_) ==> final(self).imap() == (if old(self).imap().contains_key(inode) {
                old(self).imap().insert(inode, (newparent, newname@))
            } else {
                old(self).imap()
            }),
            r matches Err(_) ==> final(self).imap() == old(self).imap(),
            unique_pairs(old(self).imap()) ==> unique_pairs(final(self).imap()),
    {
        match self.inodes.db.rename_inode(inode, newparent, newname) {
            Ok(_) => Ok(()),
            Err(_) => Err(Errno::Io),
        }
    }

    /// Plans a rmdir: the child's inode and backing path.
    pub fn rmdir_prepare(&self, parent: u64, name: &str) -> (r: Result<(u64, String), Errno>)
        ensures
            r matches Ok(p) ==> self.imap().contains_key(p.0) && self.imap()[p.0] == (
                parent,
                name@,
            ) && spec_resolve(self.imap(), p.0, 100) == Some(p.1@),
            r is Err ==> r == Err::<(u64, String), Errno>(Errno::NoEnt),
    {
        let child = match self.inodes.get_inode(parent, name) {
            Some(c) => c,
            None => {
                return Err(Errno::NoEnt);
            },
        };
        match self.inodes.get_path(child) {
            Some(rel) => Ok((child, rel)),
            None => Err(Errno::NoEnt),
        }
    }

    /// Commits a rmdir whose backing removal succeeded: the catalog row
    /// goes; a store failure leaves the row silently, as removal is
    /// best-effort here.
    pub fn rmdir_commit(&mut self, child: u64)
        ensures
            old(self).same_config(final(self)),
            final(self).tag_rows() == old(self).tag_rows(),
            final(self).history_rows() == old(self).history_rows(),
            final(self).trash_rows() == old(self).trash_rows(),
            final(self).imap() == old(self).imap().remove(child) || final(self).imap() == old(
                self,
            ).imap(),
            unique_pairs(old(self).imap()) ==> unique_pairs(final(self).imap()),
    {
        self.inodes.remove_inode(child);
    }

    /// The tags and per-tag file counts the statistics body is built from:
    /// every catalog tag once, in some order, each count the number of
    /// files carrying that tag; an empty tag list, or a zero count, is the
    /// store-failure escape.
    pub fn stats_tag_counts(&self) -> (r: (Vec<String>, Vec<u64>))
        ensures
            tags_listing(self.tag_rows(), r.0@) || r.0@.len() == 0,
            r.1@.len() == r.0@.len(),
            forall|j: int|
                0 <= j < r.0@.len() ==> spec_tag_count_ok(
                    self.imap(),
                    self.tag_rows(),
                    (#[trigger] r.0@[j])@,
                    r.1@[j],
                ),
    {
        let tags = self.inodes.get_tags();
        let mut counts: Vec<u64> = Vec::new();
        let mut i: usize = 0;
        while i < tags.len()
            invariant
                i <= tags@.len(),
                counts@.len() == i,
                forall|j: int|
                    0 <= j < i ==> spec_tag_count_ok(
                        self.imap(),
                        self.tag_rows(),
                        (#[trigger] tags@[j])@,
                        counts@[j],
                    ),
            decreases tags@.len() - i,
        {
            let t = tags[i].as_str();
            let files = self.inodes.get_files_with_tag(t);
            let c = files.len() as u64;
            proof {
                if files@.len() > 0 {
                    lemma_tag_count_ok(self.imap(), self.tag_rows(), t@, files@, c);
                }
            }
            counts.push(c);
            i = i + 1;
        }
        (tags, counts)
    }

    /// The job a release decides on: one analysis of the inode at its
    /// source-joined backing path when the inode resolves, nothing when it
    /// does not.
    pub fn release_plan(&self, inode: u64) -> (r: Option<Job>)
        ensures
            r matches Some(j) ==> (j matches Job::Analyze { inode: i, path } && i == inode && (
            spec_resolve(self.imap(), inode, 100) matches Some(q) && path@ == spec_path_join(
                self.source_path@,
                q,
            ))),
            spec_resolve(self.imap(), inode, 100) is None ==> r is None,
    {
        match self.inodes.get_path(inode) {
            Some(rel) => Some(Job::Analyze { inode, path: self.full_path(rel.as_str()) }),
            None => None,
        }
    }

    /// Fires the analyzer for a released inode: the job of `release_plan`,
    /// when there is one, is enqueued once; the reply is always success,
    /// and failures to enqueue are swallowed.  The queue itself is outside
    /// the model: what is promised of the job stands on `release_plan`.
    pub fn release(&self, inode: u64) {
        match self.release_plan(inode) {
            Some(job) => {
                let _ = send_job(&self.sender, job);
            },
            None => {},
        }
    }
}

} // verus!
