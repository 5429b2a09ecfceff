//! Decisions of the override writer and cleaner, and the laws that make
//! generating and cleaning safe to repeat. An override directory is modelled
//! as a map from file name to content.
use vstd::prelude::*;
use crate::marker::{is_generated, is_marked, lemma_stamped_is_marked, stamp, stamped};
use crate::paths::{is_desktop_file_name, is_desktop_name};

verus! {

/// The cleaner removes this file: a desktop entry that carries the marker.
pub open spec fn removable(file_name: Seq<char>, content: Seq<char>) -> bool {
    is_desktop_name(file_name) && is_marked(content)
}

/// The directory once the cleaner has swept it.
pub open spec fn cleaned(dir: Map<Seq<char>, Seq<char>>) -> Map<Seq<char>, Seq<char>> {
    dir.restrict(dir.dom().filter(|n: Seq<char>| !removable(n, dir[n])))
}

/// The directory once the writer has handled one entry: an existing file is
/// kept as it is, otherwise the stamped content is written under the name.
pub open spec fn written(dir: Map<Seq<char>, Seq<char>>, file_name: Seq<char>, content: Seq<char>) -> Map<Seq<char>, Seq<char>> {
    if dir.contains_key(file_name) {
        dir
    } else {
        dir.insert(file_name, stamped(content))
    }
}

/// The directory once the writer has handled each (name, content) in order.
pub open spec fn written_all(dir: Map<Seq<char>, Seq<char>>, files: Seq<(Seq<char>, Seq<char>)>) -> Map<Seq<char>, Seq<char>>
    decreases files.len(),
{
    if files.len() == 0 {
        dir
    } else {
        let prev = written_all(dir, files.drop_last());
        written(prev, files.last().0, files.last().1)
    }
}

/// The directory after a generate run: a sweep of the cleaner, then the
/// writer over the changed entries.
pub open spec fn generated(dir: Map<Seq<char>, Seq<char>>, files: Seq<(Seq<char>, Seq<char>)>) -> Map<Seq<char>, Seq<char>> {
    written_all(cleaned(dir), files)
}

/// Whether the cleaner removes the file `file_name` holding `content`.
pub fn should_remove(file_name: &str, content: &str) -> (r: bool)
    ensures
        r == removable(file_name@, content@),
{
    is_desktop_file_name(file_name) && is_generated(content)
}

/// What the writer stores for an entry whose target does or does not exist
/// yet: nothing over an existing file, else the stamped content.
pub fn override_content(target_exists: bool, content: &str) -> (r: Option<String>)
    ensures
        r is None <==> target_exists,
        r matches Some(s) ==> s@ == stamped(content@),
{
    if target_exists {
        None
    } else {
        Some(stamp(content))
    }
}

/// A file written by the writer is one the cleaner removes; a file that
/// does not carry the marker is never removed.
pub proof fn lemma_marker_round_trip(file_name: Seq<char>, content: Seq<char>)
    requires
        is_desktop_name(file_name),
    ensures
        removable(file_name, stamped(content)),
        !is_marked(content) ==> !removable(file_name, content),
{
    lemma_stamped_is_marked(content);
}

/// Cleaning an already cleaned directory removes nothing more.
pub proof fn lemma_clean_twice(dir: Map<Seq<char>, Seq<char>>)
    ensures
        cleaned(cleaned(dir)) == cleaned(dir),
        forall|n: Seq<char>| #[trigger] cleaned(dir).contains_key(n) ==> !removable(n, cleaned(dir)[n]),
{
    assert(cleaned(cleaned(dir)) =~= cleaned(dir));
}

proof fn lemma_written_all_covers(dir: Map<Seq<char>, Seq<char>>, files: Seq<(Seq<char>, Seq<char>)>)
    ensures
        dir.dom().subset_of(written_all(dir, files).dom()),
        forall|i: int| 0 <= i < files.len() ==> written_all(dir, files).contains_key(#[trigger] files[i].0),
    decreases files.len(),
{
    if files.len() > 0 {
        let prefix = files.drop_last();
        lemma_written_all_covers(dir, prefix);
        assert forall|i: int| 0 <= i < files.len() implies written_all(dir, files).contains_key(#[trigger] files[i].0) by {
            if i < files.len() - 1 {
                assert(prefix[i] == files[i]);
            }
        }
    }
}

proof fn lemma_written_all_present(dir: Map<Seq<char>, Seq<char>>, files: Seq<(Seq<char>, Seq<char>)>)
    requires
        forall|i: int| 0 <= i < files.len() ==> dir.contains_key(#[trigger] files[i].0),
    ensures
        written_all(dir, files) == dir,
    decreases files.len(),
{
    if files.len() > 0 {
        let prefix = files.drop_last();
        assert forall|i: int| 0 <= i < prefix.len() implies dir.contains_key(#[trigger] prefix[i].0) by {
            assert(prefix[i] == files[i]);
        }
        lemma_written_all_present(dir, prefix);
        assert(dir.contains_key(files[files.len() - 1].0));
    }
}

/// Writing the same entries a second time creates no file and changes
/// none: every target already exists after the first pass.
pub proof fn lemma_write_idempotent(dir: Map<Seq<char>, Seq<char>>, files: Seq<(Seq<char>, Seq<char>)>)
    ensures
        written_all(written_all(dir, files), files) == written_all(dir, files),
{
    lemma_written_all_covers(dir, files);
    lemma_written_all_present(written_all(dir, files), files);
}

proof fn lemma_clean_drops_written(dir: Map<Seq<char>, Seq<char>>, files: Seq<(Seq<char>, Seq<char>)>)
    requires
        forall|i: int| 0 <= i < files.len() ==> is_desktop_name(#[trigger] files[i].0),
    ensures
        cleaned(written_all(dir, files)) == cleaned(dir),
    decreases files.len(),
{
    if files.len() > 0 {
        let prefix = files.drop_last();
        assert forall|i: int| 0 <= i < prefix.len() implies is_desktop_name(#[trigger] prefix[i].0) by {
            assert(prefix[i] == files[i]);
        }
        lemma_clean_drops_written(dir, prefix);
        let w = written_all(dir, prefix);
        let n = files.last().0;
        let c = files.last().1;
        assert(is_desktop_name(files[files.len() - 1].0));
        if !w.contains_key(n) {
            lemma_stamped_is_marked(c);
            let w2 = w.insert(n, stamped(c));
            assert(removable(n, w2[n]));
            assert(cleaned(w2) =~= cleaned(w));
        }
    }
}

/// Running generate a second time with the same configuration and sources
/// leaves the override directory exactly as the first run left it.
pub proof fn lemma_generate_idempotent(dir: Map<Seq<char>, Seq<char>>, files: Seq<(Seq<char>, Seq<char>)>)
    requires
        forall|i: int| 0 <= i < files.len() ==> is_desktop_name(#[trigger] files[i].0),
    ensures
        generated(generated(dir, files), files) == generated(dir, files),
{
    lemma_clean_drops_written(cleaned(dir), files);
    lemma_clean_twice(dir);
}

} // verus!
