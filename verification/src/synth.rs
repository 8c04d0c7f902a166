//! Generated synthetic documents: the statistics body served by the
//! statistics file, and the per-directory context document.

use vstd::prelude::*;
use crate::text::{
    basename, ext_of, spec_basename, spec_decimal, spec_ext_of, str_eq, string_from_chars,
    u64_to_string,
};

verus! {

/// One line of the statistics body: a tag and its file count.
pub open spec fn spec_stats_line(tag: Seq<char>, count: u64) -> Seq<char> {
    "- **#"@ + tag + "**: "@ + spec_decimal(count as int) + " files\n"@
}

/// The tag lines of the statistics body, in the order given.
pub open spec fn spec_stats_lines(tags: Seq<Seq<char>>, counts: Seq<u64>) -> Seq<char>
    decreases tags.len(),
{
    if tags.len() == 0 || counts.len() != tags.len() {
        Seq::<char>::empty()
    } else {
        spec_stats_lines(tags.drop_last(), counts.drop_last()) + spec_stats_line(
            tags.last(),
            counts.last(),
        )
    }
}

/// The whole statistics body for a tag table: a header with the tag count,
/// one line per tag, and a footer.
pub open spec fn spec_stats_doc(tags: Seq<Seq<char>>, counts: Seq<u64>) -> Seq<char> {
    "# Eidetic Stats\n\n## System Status\n- **State**: Online\n- **Total Tags**: "@ + spec_decimal(
        tags.len() as int,
    ) + "\n\n## Tags Distribution\n"@ + (if tags.len() == 0 {
        "_No tags found yet._\n"@
    } else {
        spec_stats_lines(tags, counts)
    }) + "\n> *Generated by Eidetic Intelligent Filesystem*\n"@
}

/// Renders the statistics body of `spec_stats_doc` for these tags and
/// counts.
pub fn stats_body(tags: &Vec<String>, counts: &Vec<u64>) -> (r: String)
    requires
        tags@.len() == counts@.len(),
    ensures
        r@ == spec_stats_doc(tags@.map_values(|t: String| t@), counts@),
{
    let ghost tv = tags@.map_values(|t: String| t@);
    let mut s = String::from_str(
        "# Eidetic Stats\n\n## System Status\n- **State**: Online\n- **Total Tags**: ",
    );
    let n = u64_to_string(tags.len() as u64);
    s.append(n.as_str());
    s.append("\n\n## Tags Distribution\n");
    if tags.len() == 0 {
        s.append("_No tags found yet._\n");
    } else {
        let ghost head = s@;
        let mut i: usize = 0;
        proof {
            assert(tv.subrange(0, 0) =~= Seq::<Seq<char>>::empty());
            assert(counts@.subrange(0, 0) =~= Seq::<u64>::empty());
        }
        while i < tags.len()
            invariant
                tv == tags@.map_values(|t: String| t@),
                tags@.len() == counts@.len(),
                i <= tags@.len(),
                s@ == head + spec_stats_lines(
                    tv.subrange(0, i as int),
                    counts@.subrange(0, i as int),
                ),
            decreases tags@.len() - i,
        {
            s.append("- **#");
            s.append(tags[i].as_str());
            s.append("**: ");
            let c = u64_to_string(counts[i]);
            s.append(c.as_str());
            s.append(" files\n");
            proof {
                assert(tv.subrange(0, i + 1).drop_last() =~= tv.subrange(0, i as int));
                assert(counts@.subrange(0, i + 1).drop_last() =~= counts@.subrange(0, i as int));
                assert(tv.subrange(0, i + 1).last() == tv[i as int]);
                assert(counts@.subrange(0, i + 1).last() == counts@[i as int]);
                assert(tv[i as int] == tags@[i as int]@);
                assert(s@ =~= head + spec_stats_lines(
                    tv.subrange(0, i + 1),
                    counts@.subrange(0, i + 1),
                ));
            }
            i = i + 1;
        }
        proof {
            assert(tv.subrange(0, tv.len() as int) =~= tv);
            assert(counts@.subrange(0, counts@.len() as int) =~= counts@);
        }
    }
    s.append("\n> *Generated by Eidetic Intelligent Filesystem*\n");
    proof {
        assert(s@ =~= spec_stats_doc(tv, counts@));
    }
    s
}

/// The source extensions a context document includes.
pub open spec fn spec_context_ext_allowed(e: Seq<char>) -> bool {
    ||| e == "rs"@
    ||| e == "toml"@
    ||| e == "md"@
    ||| e == "txt"@
    ||| e == "js"@
    ||| e == "ts"@
    ||| e == "jsx"@
    ||| e == "tsx"@
    ||| e == "json"@
    ||| e == "py"@
    ||| e == "c"@
    ||| e == "h"@
    ||| e == "cpp"@
    ||| e == "hpp"@
    ||| e == "go"@
    ||| e == "java"@
    ||| e == "kt"@
    ||| e == "swift"@
    ||| e == "html"@
    ||| e == "css"@
    ||| e == "scss"@
    ||| e == "sql"@
    ||| e == "sh"@
    ||| e == "yaml"@
    ||| e == "yml"@
}

/// Whether a context document includes files with this extension.
pub fn context_ext_allowed(e: &str) -> (r: bool)
    ensures
        r == spec_context_ext_allowed(e@),
{
    str_eq(e, "rs") || str_eq(e, "toml") || str_eq(e, "md") || str_eq(e, "txt") || str_eq(e, "js")
        || str_eq(e, "ts") || str_eq(e, "jsx") || str_eq(e, "tsx") || str_eq(e, "json") || str_eq(
        e,
        "py",
    ) || str_eq(e, "c") || str_eq(e, "h") || str_eq(e, "cpp") || str_eq(e, "hpp") || str_eq(e, "go")
        || str_eq(e, "java") || str_eq(e, "kt") || str_eq(e, "swift") || str_eq(e, "html")
        || str_eq(e, "css") || str_eq(e, "scss") || str_eq(e, "sql") || str_eq(e, "sh") || str_eq(
        e,
        "yaml",
    ) || str_eq(e, "yml")
}

/// One file a context walk observed: its path relative to the walked
/// directory, and its text.
pub struct ContextFile {
    pub rel_path: String,
    pub content: String,
}

/// One fenced block of a context document.
pub open spec fn spec_context_entry(rel: Seq<char>, content: Seq<char>) -> Seq<char> {
    "## "@ + rel + "\n```"@ + spec_ext_of(spec_basename(rel)) + "\n"@ + content + "\n```\n\n"@
}

/// The fenced blocks of a context document: one per file whose extension is
/// allowed, in the order given.
pub open spec fn spec_context_files(files: Seq<(Seq<char>, Seq<char>)>) -> Seq<char>
    decreases files.len(),
{
    if files.len() == 0 {
        Seq::<char>::empty()
    } else {
        spec_context_files(files.drop_last()) + (if spec_context_ext_allowed(
            spec_ext_of(spec_basename(files.last().0)),
        ) {
            spec_context_entry(files.last().0, files.last().1)
        } else {
            Seq::<char>::empty()
        })
    }
}

/// A whole context document: a quoted header naming the directory, a note,
/// and the fenced blocks.
pub open spec fn spec_context_doc(dir_name: Seq<char>, files: Seq<(Seq<char>, Seq<char>)>) -> Seq<
    char,
> {
    "# Deep Context for \""@ + dir_name
        + "\"\n\n> Generated by Eidetic. Includes all source files recursively (respecting .gitignore).\n\n"@
        + spec_context_files(files)
}

/// Renders the context document of `spec_context_doc` for a directory name
/// and the files its walk observed.
pub fn context_document(dir_name: &str, files: &Vec<ContextFile>) -> (r: String)
    ensures
        r@ == spec_context_doc(
            dir_name@,
            files@.map_values(|f: ContextFile| (f.rel_path@, f.content@)),
        ),
{
    let ghost fv = files@.map_values(|f: ContextFile| (f.rel_path@, f.content@));
    let mut s = String::from_str("# Deep Context for \"");
    s.append(dir_name);
    s.append(
        "\"\n\n> Generated by Eidetic. Includes all source files recursively (respecting .gitignore).\n\n",
    );
    let ghost head = s@;
    let mut i: usize = 0;
    proof {
        assert(fv.subrange(0, 0) =~= Seq::<(Seq<char>, Seq<char>)>::empty());
    }
    while i < files.len()
        invariant
            fv == files@.map_values(|f: ContextFile| (f.rel_path@, f.content@)),
            i <= files@.len(),
            s@ == head + spec_context_files(fv.subrange(0, i as int)),
        decreases files@.len() - i,
    {
        let name = basename(files[i].rel_path.as_str());
        let ext = ext_of(name.as_str());
        proof {
            assert(fv.subrange(0, i + 1).drop_last() =~= fv.subrange(0, i as int));
            assert(fv.subrange(0, i + 1).last() == fv[i as int]);
            assert(fv[i as int] == (files@[i as int].rel_path@, files@[i as int].content@));
        }
        if context_ext_allowed(ext.as_str()) {
            s.append("## ");
            s.append(files[i].rel_path.as_str());
            s.append("\n```");
            s.append(ext.as_str());
            s.append("\n");
            s.append(files[i].content.as_str());
            s.append("\n```\n\n");
            proof {
                assert(s@ =~= head + spec_context_files(fv.subrange(0, i + 1)));
            }
        } else {
            proof {
                assert(s@ =~= head + spec_context_files(fv.subrange(0, i + 1)));
            }
        }
        i = i + 1;
    }
    proof {
        assert(fv.subrange(0, fv.len() as int) =~= fv);
        assert(s@ =~= spec_context_doc(dir_name@, fv));
    }
    s
}

} // verus!
