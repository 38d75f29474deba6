//! The embedded directory tree and the Asset Collector.
//!
//! The tree is an immutable in-memory structure available at process start:
//! files with their bytes, and subdirectories. The collector flattens it,
//! depth-first with files before subdirectories, into a list of asset
//! records, leaving out sentinel files that exist only to keep otherwise
//! empty directories embeddable.
use vstd::prelude::*;
use crate::AssetRecord;
use crate::config::{spec_ends_with, str_ends_with};

verus! {

/// An immutable in-memory directory: its files, then its subdirectories.
pub struct AssetDir {
    pub files: Vec<AssetRecord>,
    pub subdirs: Vec<AssetDir>,
}

/// The suffix that marks a directory-preservation sentinel file.
pub open spec fn spec_sentinel_suffix() -> Seq<char> {
    ".gitkeep"@
}

/// True of a path that names a sentinel file, which must never be served.
pub open spec fn spec_is_sentinel(path: Seq<char>) -> bool {
    spec_ends_with(path, spec_sentinel_suffix())
}

/// Every file embedded in the tree, depth-first, files before
/// subdirectories, sentinel files included.
pub open spec fn dir_entries(d: AssetDir) -> Seq<(Seq<char>, Seq<u8>)>
    decreases d,
{
    file_entries(d.files@) + subdir_entries(d.subdirs@)
}

/// The entries of a list of files, in order.
pub open spec fn file_entries(files: Seq<AssetRecord>) -> Seq<(Seq<char>, Seq<u8>)>
    decreases files.len(),
{
    if files.len() == 0 {
        Seq::empty()
    } else {
        seq![files[0]@] + file_entries(files.drop_first())
    }
}

/// The entries of a list of subdirectories, in order.
pub open spec fn subdir_entries(dirs: Seq<AssetDir>) -> Seq<(Seq<char>, Seq<u8>)>
    decreases dirs,
{
    if dirs.len() == 0 {
        Seq::empty()
    } else {
        dir_entries(dirs[0]) + subdir_entries(dirs.drop_first())
    }
}

/// No two entries share a path. The data model asks this of every asset
/// set; a tree that breaks it is malformed.
pub open spec fn spec_paths_distinct(entries: Seq<(Seq<char>, Seq<u8>)>) -> bool {
    forall|i: int, j: int|
        0 <= i < j < entries.len() ==> (#[trigger] entries[i]).0 != (#[trigger] entries[j]).0
}

/// What the collector produces for a tree: its entries in depth-first
/// order, with sentinel files left out.
pub open spec fn collected(d: AssetDir) -> Seq<(Seq<char>, Seq<u8>)>
    decreases d,
{
    collected_files(d.files@) + collected_subdirs(d.subdirs@)
}

/// The non-sentinel entries of a list of files, in order.
pub open spec fn collected_files(files: Seq<AssetRecord>) -> Seq<(Seq<char>, Seq<u8>)>
    decreases files.len(),
{
    if files.len() == 0 {
        Seq::empty()
    } else {
        (if spec_is_sentinel(files[0].path@) {
            Seq::empty()
        } else {
            seq![files[0]@]
        }) + collected_files(files.drop_first())
    }
}

/// The non-sentinel entries of a list of subdirectories, in order.
pub open spec fn collected_subdirs(dirs: Seq<AssetDir>) -> Seq<(Seq<char>, Seq<u8>)>
    decreases dirs,
{
    if dirs.len() == 0 {
        Seq::empty()
    } else {
        collected(dirs[0]) + collected_subdirs(dirs.drop_first())
    }
}

proof fn lemma_entries_add(a: Seq<AssetRecord>, b: Seq<AssetRecord>)
    ensures
        file_entries(a + b) == file_entries(a) + file_entries(b),
        collected_files(a + b) == collected_files(a) + collected_files(b),
    decreases a.len(),
{
    if a.len() == 0 {
        assert(a + b =~= b);
        assert(file_entries(a) =~= Seq::<(Seq<char>, Seq<u8>)>::empty());
        assert(collected_files(a) =~= Seq::<(Seq<char>, Seq<u8>)>::empty());
        assert(file_entries(a + b) =~= file_entries(a) + file_entries(b));
        assert(collected_files(a + b) =~= collected_files(a) + collected_files(b));
    } else {
        assert((a + b).drop_first() =~= a.drop_first() + b);
        assert((a + b)[0] == a[0]);
        lemma_entries_add(a.drop_first(), b);
        assert(file_entries(a + b) =~= file_entries(a) + file_entries(b));
        assert(collected_files(a + b) =~= collected_files(a) + collected_files(b));
    }
}

proof fn lemma_entries_singleton(r: AssetRecord)
    ensures
        file_entries(seq![r]) == seq![r@],
        collected_files(seq![r]) == (if spec_is_sentinel(r.path@) {
            Seq::<(Seq<char>, Seq<u8>)>::empty()
        } else {
            seq![r@]
        }),
{
    assert(seq![r].drop_first() =~= Seq::<AssetRecord>::empty());
    assert(file_entries(Seq::<AssetRecord>::empty()) =~= Seq::<(Seq<char>, Seq<u8>)>::empty());
    assert(collected_files(Seq::<AssetRecord>::empty()) =~= Seq::<(Seq<char>, Seq<u8>)>::empty());
    assert(file_entries(seq![r]) =~= seq![r@]);
    assert(collected_files(seq![r]) =~= (if spec_is_sentinel(r.path@) {
        Seq::<(Seq<char>, Seq<u8>)>::empty()
    } else {
        seq![r@]
    }));
}

proof fn lemma_subdirs_add(a: Seq<AssetDir>, b: Seq<AssetDir>)
    ensures
        subdir_entries(a + b) == subdir_entries(a) + subdir_entries(b),
        collected_subdirs(a + b) == collected_subdirs(a) + collected_subdirs(b),
    decreases a.len(),
{
    if a.len() == 0 {
        assert(a + b =~= b);
        assert(subdir_entries(a) =~= Seq::<(Seq<char>, Seq<u8>)>::empty());
        assert(collected_subdirs(a) =~= Seq::<(Seq<char>, Seq<u8>)>::empty());
        assert(subdir_entries(a + b) =~= subdir_entries(a) + subdir_entries(b));
        assert(collected_subdirs(a + b) =~= collected_subdirs(a) + collected_subdirs(b));
    } else {
        assert((a + b).drop_first() =~= a.drop_first() + b);
        assert((a + b)[0] == a[0]);
        lemma_subdirs_add(a.drop_first(), b);
        assert(subdir_entries(a + b) =~= subdir_entries(a) + subdir_entries(b));
        assert(collected_subdirs(a + b) =~= collected_subdirs(a) + collected_subdirs(b));
    }
}

proof fn lemma_subdirs_singleton(d: AssetDir)
    ensures
        subdir_entries(seq![d]) == dir_entries(d),
        collected_subdirs(seq![d]) == collected(d),
{
    assert(seq![d].drop_first() =~= Seq::<AssetDir>::empty());
    assert(subdir_entries(Seq::<AssetDir>::empty()) =~= Seq::<(Seq<char>, Seq<u8>)>::empty());
    assert(collected_subdirs(Seq::<AssetDir>::empty()) =~= Seq::<(Seq<char>, Seq<u8>)>::empty());
    assert(subdir_entries(seq![d]) =~= dir_entries(d));
    assert(collected_subdirs(seq![d]) =~= collected(d));
}

/// True exactly when `path` names a sentinel file.
pub fn is_sentinel_path(path: &String) -> (b: bool)
    ensures
        b == spec_is_sentinel(path@),
{
    let b = str_ends_with(path.as_str(), ".gitkeep");
    proof {
        reveal_strlit(".gitkeep");
    }
    b
}

/// Clones one asset record.
pub fn clone_record(r: &AssetRecord) -> (c: AssetRecord)
    ensures
        c@ == r@,
{
    let bytes = r.bytes.clone();
    proof {
        assert forall|k: int| 0 <= k < r.bytes@.len() implies bytes@[k] == r.bytes@[k] by {
            assert(cloned::<u8>(r.bytes@[k], bytes@[k]));
        }
        assert(bytes@ =~= r.bytes@);
    }
    AssetRecord { path: r.path.clone(), bytes }
}

/// Walks `dir` depth-first, files before subdirectories, and appends every
/// non-sentinel file to `assets` as an asset record. Exhaustive: every
/// embedded file except the sentinels appears exactly once, in walk order.
pub fn collect_assets(dir: &AssetDir, assets: &mut Vec<AssetRecord>)
    ensures
        final(assets)@.map_values(|r: AssetRecord| r@) == old(assets)@.map_values(
            |r: AssetRecord| r@,
        ) + collected(*dir),
    decreases *dir,
{
    let ghost start = assets@.map_values(|r: AssetRecord| r@);
    let mut i: usize = 0;
    while i < dir.files.len()
        invariant
            i <= dir.files.len(),
            assets@.map_values(|r: AssetRecord| r@) == start + collected_files(
                dir.files@.take(i as int),
            ),
        decreases dir.files.len() - i,
    {
        let ghost pre = assets@;
        let file = &dir.files[i];
        if !is_sentinel_path(&file.path) {
            let record = clone_record(file);
            assets.push(record);
            proof {
                assert(assets@.map_values(|r: AssetRecord| r@) =~= pre.map_values(
                    |r: AssetRecord| r@,
                ).push(dir.files@[i as int]@));
            }
        }
        proof {
            assert(dir.files@.take(i + 1) =~= dir.files@.take(i as int) + seq![dir.files@[
                i as int]]);
            lemma_entries_add(dir.files@.take(i as int), seq![dir.files@[i as int]]);
            lemma_entries_singleton(dir.files@[i as int]);
            assert(assets@.map_values(|r: AssetRecord| r@) =~= start + collected_files(
                dir.files@.take(i + 1),
            ));
        }
        i = i + 1;
    }
    proof {
        assert(dir.files@.take(dir.files@.len() as int) =~= dir.files@);
    }
    let mut j: usize = 0;
    while j < dir.subdirs.len()
        invariant
            j <= dir.subdirs.len(),
            assets@.map_values(|r: AssetRecord| r@) == start + collected_files(dir.files@)
                + collected_subdirs(dir.subdirs@.take(j as int)),
        decreases dir.subdirs.len() - j,
    {
        collect_assets(&dir.subdirs[j], assets);
        proof {
            assert(dir.subdirs@.take(j + 1) =~= dir.subdirs@.take(j as int) + seq![dir.subdirs@[
                j as int]]);
            lemma_subdirs_add(dir.subdirs@.take(j as int), seq![dir.subdirs@[j as int]]);
            lemma_subdirs_singleton(dir.subdirs@[j as int]);
            assert(assets@.map_values(|r: AssetRecord| r@) =~= start + collected_files(dir.files@)
                + collected_subdirs(dir.subdirs@.take(j + 1)));
        }
        j = j + 1;
    }
    proof {
        assert(dir.subdirs@.take(dir.subdirs@.len() as int) =~= dir.subdirs@);
    }
}

/// Exhaustive collection: on a tree without sentinel files the collector
/// keeps every embedded file, so the number of collected records equals the
/// number of embedded files.
pub proof fn lemma_exhaustive_collection(d: AssetDir)
    requires
        forall|i: int| 0 <= i < dir_entries(d).len() ==> !spec_is_sentinel(
            #[trigger] dir_entries(d)[i].0,
        ),
    ensures
        collected(d) == dir_entries(d),
        collected(d).len() == dir_entries(d).len(),
    decreases d,
{
    assert forall|i: int|
        0 <= i < file_entries(d.files@).len() implies !spec_is_sentinel(#[trigger] file_entries(
        d.files@,
    )[i].0) by {
        assert(dir_entries(d)[i] == file_entries(d.files@)[i]);
    }
    assert forall|i: int|
        0 <= i < subdir_entries(d.subdirs@).len() implies !spec_is_sentinel(
        #[trigger] subdir_entries(d.subdirs@)[i].0,
    ) by {
        assert(dir_entries(d)[i + file_entries(d.files@).len()] == subdir_entries(d.subdirs@)[i]);
    }
    lemma_collected_files_no_sentinel(d.files@);
    lemma_collected_subdirs_no_sentinel(d.subdirs@);
    assert(collected(d) =~= dir_entries(d));
}

proof fn lemma_collected_files_no_sentinel(files: Seq<AssetRecord>)
    requires
        forall|i: int| 0 <= i < file_entries(files).len() ==> !spec_is_sentinel(
            #[trigger] file_entries(files)[i].0,
        ),
    ensures
        collected_files(files) == file_entries(files),
    decreases files.len(),
{
    if files.len() > 0 {
        let head = seq![files[0]@];
        let tail = file_entries(files.drop_first());
        assert(file_entries(files) == head + tail);
        assert forall|i: int| 0 <= i < tail.len() implies !spec_is_sentinel(
            #[trigger] tail[i].0,
        ) by {
            assert(file_entries(files)[i + 1] == tail[i]);
        }
        assert(file_entries(files)[0] == files[0]@);
        assert(!spec_is_sentinel(file_entries(files)[0].0));
        assert(!spec_is_sentinel(files[0].path@));
        lemma_collected_files_no_sentinel(files.drop_first());
        assert(collected_files(files) == seq![files[0]@] + collected_files(files.drop_first()));
        assert(collected_files(files) =~= file_entries(files));
    }
}

proof fn lemma_collected_subdirs_no_sentinel(dirs: Seq<AssetDir>)
    requires
        forall|i: int| 0 <= i < subdir_entries(dirs).len() ==> !spec_is_sentinel(
            #[trigger] subdir_entries(dirs)[i].0,
        ),
    ensures
        collected_subdirs(dirs) == subdir_entries(dirs),
    decreases dirs,
{
    if dirs.len() > 0 {
        let head = dir_entries(dirs[0]);
        let tail = subdir_entries(dirs.drop_first());
        assert(subdir_entries(dirs) == head + tail);
        assert forall|i: int| 0 <= i < head.len() implies !spec_is_sentinel(
            #[trigger] head[i].0,
        ) by {
            assert(subdir_entries(dirs)[i] == head[i]);
        }
        assert forall|i: int| 0 <= i < tail.len() implies !spec_is_sentinel(
            #[trigger] tail[i].0,
        ) by {
            assert(subdir_entries(dirs)[i + head.len()] == tail[i]);
        }
        lemma_exhaustive_collection(dirs[0]);
        lemma_collected_subdirs_no_sentinel(dirs.drop_first());
        assert(collected_subdirs(dirs) =~= subdir_entries(dirs));
    }
}

/// Sentinel exclusion: no collected record is a sentinel file, for any tree.
pub proof fn lemma_sentinel_exclusion(d: AssetDir)
    ensures
        forall|i: int| 0 <= i < collected(d).len() ==> !spec_is_sentinel(
            #[trigger] collected(d)[i].0,
        ),
    decreases d,
{
    lemma_collected_files_sentinel_free(d.files@);
    lemma_collected_subdirs_sentinel_free(d.subdirs@);
    assert forall|i: int| 0 <= i < collected(d).len() implies !spec_is_sentinel(
        #[trigger] collected(d)[i].0,
    ) by {
        let n = collected_files(d.files@).len() as int;
        if i < n {
            assert(collected(d)[i] == collected_files(d.files@)[i]);
        } else {
            assert(collected(d)[i] == collected_subdirs(d.subdirs@)[i - n]);
        }
    }
}

proof fn lemma_collected_files_sentinel_free(files: Seq<AssetRecord>)
    ensures
        forall|i: int| 0 <= i < collected_files(files).len() ==> !spec_is_sentinel(
            #[trigger] collected_files(files)[i].0,
        ),
    decreases files.len(),
{
    if files.len() > 0 {
        lemma_collected_files_sentinel_free(files.drop_first());
        let head: Seq<(Seq<char>, Seq<u8>)> = if spec_is_sentinel(files[0].path@) {
            Seq::empty()
        } else {
            seq![files[0]@]
        };
        let tail = collected_files(files.drop_first());
        assert(collected_files(files) == head + tail);
        assert forall|i: int| 0 <= i < collected_files(files).len() implies !spec_is_sentinel(
            #[trigger] collected_files(files)[i].0,
        ) by {
            if i < head.len() {
                assert(collected_files(files)[i] == head[i]);
            } else {
                assert(collected_files(files)[i] == tail[i - head.len()]);
            }
        }
    }
}

proof fn lemma_collected_subdirs_sentinel_free(dirs: Seq<AssetDir>)
    ensures
        forall|i: int| 0 <= i < collected_subdirs(dirs).len() ==> !spec_is_sentinel(
            #[trigger] collected_subdirs(dirs)[i].0,
        ),
    decreases dirs,
{
    if dirs.len() > 0 {
        lemma_sentinel_exclusion(dirs[0]);
        lemma_collected_subdirs_sentinel_free(dirs.drop_first());
        let head = collected(dirs[0]);
        let tail = collected_subdirs(dirs.drop_first());
        assert(collected_subdirs(dirs) == head + tail);
        assert forall|i: int| 0 <= i < collected_subdirs(dirs).len() implies !spec_is_sentinel(
            #[trigger] collected_subdirs(dirs)[i].0,
        ) by {
            if i < head.len() {
                assert(collected_subdirs(dirs)[i] == head[i]);
            } else {
                assert(collected_subdirs(dirs)[i] == tail[i - head.len()]);
            }
        }
    }
}

} // verus!
