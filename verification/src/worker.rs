//! The analyzer side: the job type and channel the dispatcher enqueues on,
//! and the verified analysis steps the background worker runs per job.

use vstd::prelude::*;
use crate::db::Database;
use crate::text::{
    basename, ext_of, spec_basename, spec_contains, spec_ext_of, str_contains, str_eq,
};

verus! {

/// A message to the background analyzer.
pub enum Job {
    Analyze { inode: u64, path: String },
}

#[verifier::external_type_specification]
#[verifier::external_body]
#[verifier::reject_recursive_types(T)]
pub struct ExSender<T>(std::sync::mpsc::Sender<T>);

#[verifier::external_type_specification]
#[verifier::external_body]
#[verifier::reject_recursive_types(T)]
pub struct ExReceiver<T>(std::sync::mpsc::Receiver<T>);

/// Relies on `std::sync::mpsc::channel`: a connected sender and receiver.
#[verifier::external_body]
pub fn job_channel() -> (std::sync::mpsc::Sender<Job>, std::sync::mpsc::Receiver<Job>) {
    std::sync::mpsc::channel()
}

/// Relies on `std::sync::mpsc::Sender::send`: queues the job unless every
/// receiver is gone.  Nothing is promised of the queue.
#[verifier::external_body]
pub fn send_job(sender: &std::sync::mpsc::Sender<Job>, job: Job) -> bool {
    sender.send(job).is_ok()
}

/// Relies on `std::sync::mpsc::Receiver::recv`: blocks for the next job,
/// and reports nothing once every sender is gone.  Which job arrives is not
/// promised: the worker holds for every one.
#[verifier::external_body]
pub fn recv_job(receiver: &std::sync::mpsc::Receiver<Job>) -> Option<Job> {
    receiver.recv().ok()
}

/// The background worker: the receiving end of the queue and the path of
/// the catalog store its jobs concern.  The store is touched through the
/// process's one shared handle, never through a second connection.
pub struct Worker {
    pub receiver: std::sync::mpsc::Receiver<Job>,
    pub db_path: String,
}

impl Worker {
    /// Bundles a receiver with the path of the store its jobs concern.
    pub fn new(receiver: std::sync::mpsc::Receiver<Job>, db_path: String) -> (r: Worker)
        ensures
            r.db_path == db_path,
    {
        Worker { receiver, db_path }
    }

    /// Waits for the next job, if any sender is still alive.
    pub fn next_job(&self) -> Option<Job> {
        recv_job(&self.receiver)
    }
}

/// A NUL byte sits among the first 1024 bytes.
pub open spec fn spec_is_binary(data: Seq<u8>) -> bool {
    exists|i: int| 0 <= i < data.len() && i < 1024 && data[i] == 0
}

/// Whether the first 1024 bytes hold a NUL byte, marking binary content.
pub fn is_binary(data: &[u8]) -> (r: bool)
    ensures
        r == spec_is_binary(data@),
{
    let end = if data.len() < 1024 {
        data.len()
    } else {
        1024
    };
    let mut i: usize = 0;
    while i < end
        invariant
            end <= data@.len(),
            end <= 1024,
            i <= end,
            end == (if data@.len() < 1024 {
                data@.len() as int
            } else {
                1024
            }),
            forall|j: int| 0 <= j < i ==> data@[j] != 0,
        decreases end - i,
    {
        if data[i] == 0 {
            return true;
        }
        i = i + 1;
    }
    false
}

/// The lowercase rendering of a text, depending on its characters alone.
pub uninterp spec fn lower_of(s: Seq<char>) -> Seq<char>;

/// Relies on `str::to_lowercase`: the result depends on the characters of
/// `s` alone.
#[verifier::external_body]
fn to_lowercase(s: &str) -> (r: String)
    ensures
        r@ == lower_of(s@),
{
    s.to_lowercase()
}

/// The heuristic tags of a lowered text: substring tests for code, finance,
/// SQL and letter content, in that order.
pub open spec fn spec_tags_of(l: Seq<char>) -> Seq<Seq<char>> {
    let t0 = Seq::<Seq<char>>::empty();
    let t1 = if spec_contains(l, "function"@) || spec_contains(l, "def "@) || spec_contains(
        l,
        "impl "@,
    ) || spec_contains(l, "class "@) {
        t0.push("code"@)
    } else {
        t0
    };
    let t2 = if spec_contains(l, "total:"@) || spec_contains(l, "amount:"@) || spec_contains(
        l,
        "invoice"@,
    ) {
        t1.push("finance"@)
    } else {
        t1
    };
    let t3 = if spec_contains(l, "select * from"@) || spec_contains(l, "insert into"@) {
        t2.push("sql"@)
    } else {
        t2
    };
    if spec_contains(l, "dear "@) && spec_contains(l, "sincerely"@) {
        t3.push("letter"@)
    } else {
        t3
    }
}

/// Derives the heuristic tags of a text: the substring tests of
/// `spec_tags_of`, run on its lowercase rendering.
pub fn guess_tags(content: &str) -> (r: Vec<String>)
    ensures
        r@.map_values(|t: String| t@) == spec_tags_of(lower_of(content@)),
{
    let lower = to_lowercase(content);
    let l = lower.as_str();
    let mut tags: Vec<String> = Vec::new();
    if str_contains(l, "function") || str_contains(l, "def ") || str_contains(l, "impl ")
        || str_contains(l, "class ") {
        tags.push(String::from_str("code"));
    }
    if str_contains(l, "total:") || str_contains(l, "amount:") || str_contains(l, "invoice") {
        tags.push(String::from_str("finance"));
    }
    if str_contains(l, "select * from") || str_contains(l, "insert into") {
        tags.push(String::from_str("sql"));
    }
    if str_contains(l, "dear ") && str_contains(l, "sincerely") {
        tags.push(String::from_str("letter"));
    }
    proof {
        assert(tags@.map_values(|t: String| t@) =~= spec_tags_of(lower_of(content@)));
    }
    tags
}

/// The image-probe extensions of the analyzer.
pub open spec fn spec_is_image_ext(e: Seq<char>) -> bool {
    e == "jpg"@ || e == "jpeg"@ || e == "png"@ || e == "webp"@ || e == "gif"@
}

/// Whether a path names an image by extension: the lowercase rendering of
/// the extension of its base name is an image extension.
pub fn is_image_path(path: &str) -> (r: bool)
    ensures
        r == spec_is_image_ext(lower_of(spec_ext_of(spec_basename(path@)))),
{
    let name = basename(path);
    let ext = ext_of(name.as_str());
    let low = to_lowercase(ext.as_str());
    let l = low.as_str();
    str_eq(l, "jpg") || str_eq(l, "jpeg") || str_eq(l, "png") || str_eq(l, "webp") || str_eq(
        l,
        "gif",
    )
}

/// The tag rows that a text would add for an inode.
pub open spec fn spec_tag_rows(inode: u64, l: Seq<char>) -> Set<(u64, Seq<char>)> {
    Set::new(|p: (u64, Seq<char>)| p.0 == inode && spec_tags_of(l).contains(p.1))
}

/// Runs the heuristic tagger on a text and records each derived tag for
/// `inode`.  Every row already present stays; every row added is one the
/// tagger derived; store failures skip rows silently.
pub fn analyze_text(db: &mut Database, inode: u64, content: &str)
    ensures
        final(db).inodes() == old(db).inodes(),
        final(db).history() == old(db).history(),
        final(db).trash() == old(db).trash(),
        old(db).tags().subset_of(final(db).tags()),
        final(db).tags().subset_of(old(db).tags().union(spec_tag_rows(inode, lower_of(content@)))),
{
    let tags = guess_tags(content);
    let ghost tagseq = spec_tags_of(lower_of(content@));
    let mut i: usize = 0;
    while i < tags.len()
        invariant
            tagseq == spec_tags_of(lower_of(content@)),
            tags@.map_values(|t: String| t@) == tagseq,
            i <= tags@.len(),
            db.inodes() == old(db).inodes(),
            db.history() == old(db).history(),
            db.trash() == old(db).trash(),
            old(db).tags().subset_of(db.tags()),
            db.tags().subset_of(old(db).tags().union(spec_tag_rows(inode, lower_of(content@)))),
        decreases tags@.len() - i,
    {
        proof {
            assert(tagseq[i as int] == tags@[i as int]@);
            assert(tagseq.contains(tagseq[i as int]));
        }
        let ghost pre = db.tags();
        let t = tags[i].as_str();
        let _ = db.add_tag(inode, t);
        proof {
            let p = (inode, t@);
            let rows = spec_tag_rows(inode, lower_of(content@));
            assert(p.1 == tagseq[i as int]);
            assert(spec_tags_of(lower_of(content@)).contains(p.1));
            assert(rows.contains(p));
            assert(db.tags() == pre.insert(p) || db.tags() == pre);
            assert forall|x: (u64, Seq<char>)| db.tags().contains(x) implies old(db).tags().union(
                rows,
            ).contains(x) by {
                if x == p {
                } else {
                    assert(pre.contains(x));
                }
            }
        }
        i = i + 1;
    }
}

/// Records the `image` tag for an inode whose dimension probe succeeded;
/// a store failure changes nothing.
pub fn analyze_image(db: &mut Database, inode: u64)
    ensures
        final(db).inodes() == old(db).inodes(),
        final(db).history() == old(db).history(),
        final(db).trash() == old(db).trash(),
        final(db).tags() == old(db).tags().insert((inode, "image"@)) || final(db).tags() == old(
            db,
        ).tags(),
{
    let _ = db.add_tag(inode, "image");
}

} // verus!
