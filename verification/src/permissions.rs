//! Permission normalization of a freshly extracted tree: which files get
//! their mode bits set, and what the mode grants.

use vstd::prelude::*;

use crate::text::{ends_with, is_suffix_of};

verus! {

/// The mode every normalized file receives: read and execute for owner,
/// group and others; write for nobody.
pub const NORMALIZED_MODE: u32 = 0o555;

/// The mode grants read to owner, group and others.
pub open spec fn readable_by_all(mode: u32) -> bool {
    mode & 0o444 == 0o444
}

/// The mode grants execute to owner, group and others.
pub open spec fn executable_by_all(mode: u32) -> bool {
    mode & 0o111 == 0o111
}

/// The mode denies write to owner, group and others.
pub open spec fn writable_by_none(mode: u32) -> bool {
    mode & 0o222 == 0
}

/// Law: a normalized file permits read and execute and denies write for
/// every permission class.
pub proof fn lemma_normalized_mode()
    ensures
        readable_by_all(NORMALIZED_MODE),
        executable_by_all(NORMALIZED_MODE),
        writable_by_none(NORMALIZED_MODE),
{
    assert(0o555u32 & 0o444 == 0o444) by (bit_vector);
    assert(0o555u32 & 0o111 == 0o111) by (bit_vector);
    assert(0o555u32 & 0o222 == 0) by (bit_vector);
}

/// One entry of the `tools/` directory listing.
pub struct ToolsEntry {
    /// Name of the entry, relative to the `tools/` directory.
    pub name: String,
    /// Whether the entry is a regular file.
    pub is_file: bool,
}

/// The mathematical value of a [`ToolsEntry`].
pub struct ToolsEntrySpec {
    pub name: Seq<char>,
    pub is_file: bool,
}

impl View for ToolsEntry {
    type V = ToolsEntrySpec;

    open spec fn view(&self) -> ToolsEntrySpec {
        ToolsEntrySpec { name: self.name@, is_file: self.is_file }
    }
}

/// The names of the shell scripts among `entries`, in listing order: the
/// regular files whose name ends in `.sh`.
pub open spec fn sh_scripts(entries: Seq<ToolsEntrySpec>) -> Seq<Seq<char>>
    decreases entries.len(),
{
    if entries.len() == 0 {
        Seq::empty()
    } else {
        sh_scripts(entries.drop_last()) + (if entries.last().is_file && is_suffix_of(
            ".sh"@,
            entries.last().name,
        ) {
            seq![entries.last().name]
        } else {
            Seq::<Seq<char>>::empty()
        })
    }
}

/// Everything the normalization step touches, relative to the `tools/`
/// directory: the platform extractor binaries that exist, then every shell
/// script in the listing. Absent files are silently skipped; without a
/// `tools/` directory nothing is touched.
pub open spec fn spec_permission_plan(
    tools_dir_exists: bool,
    linux_extractor_exists: bool,
    osx_extractor_exists: bool,
    entries: Seq<ToolsEntrySpec>,
) -> Seq<Seq<char>> {
    if !tools_dir_exists {
        Seq::empty()
    } else {
        (if linux_extractor_exists {
            seq!["linux64/extractor"@]
        } else {
            Seq::<Seq<char>>::empty()
        }) + (if osx_extractor_exists {
            seq!["osx64/extractor"@]
        } else {
            Seq::<Seq<char>>::empty()
        }) + sh_scripts(entries)
    }
}

/// Computes the files to set to [`NORMALIZED_MODE`], relative to `tools/`.
pub fn permission_plan(
    tools_dir_exists: bool,
    linux_extractor_exists: bool,
    osx_extractor_exists: bool,
    entries: &Vec<ToolsEntry>,
) -> (r: Vec<String>)
    ensures
        r@.map_values(|s: String| s@) == spec_permission_plan(
            tools_dir_exists,
            linux_extractor_exists,
            osx_extractor_exists,
            entries@.map_values(|e: ToolsEntry| e@),
        ),
{
    let ghost all = entries@.map_values(|e: ToolsEntry| e@);
    let mut r: Vec<String> = Vec::new();
    if !tools_dir_exists {
        assert(r@.map_values(|s: String| s@) =~= Seq::<Seq<char>>::empty());
        return r;
    }
    if linux_extractor_exists {
        r.push("linux64/extractor".to_owned());
    }
    if osx_extractor_exists {
        r.push("osx64/extractor".to_owned());
    }
    let ghost head = r@.map_values(|s: String| s@);
    proof {
        assert(head =~= (if linux_extractor_exists {
            seq!["linux64/extractor"@]
        } else {
            Seq::<Seq<char>>::empty()
        }) + (if osx_extractor_exists {
            seq!["osx64/extractor"@]
        } else {
            Seq::<Seq<char>>::empty()
        }));
    }
    let mut i: usize = 0;
    while i < entries.len()
        invariant
            i <= entries@.len(),
            all == entries@.map_values(|e: ToolsEntry| e@),
            all.len() == entries@.len(),
            r@.map_values(|s: String| s@) == head + sh_scripts(all.take(i as int)),
        decreases entries@.len() - i,
    {
        let ghost prefix = all.take(i as int);
        let ghost r0 = r@;
        let entry = &entries[i];
        let take_it = entry.is_file && ends_with(entry.name.as_str(), ".sh");
        if take_it {
            r.push(entry.name.clone());
        }
        proof {
            let next = all.take(i + 1);
            assert(next.drop_last() =~= prefix);
            assert(next.last() == all[i as int]);
            assert(all[i as int] == entries@[i as int]@);
            assert(sh_scripts(next) == sh_scripts(prefix) + (if all[i as int].is_file
                && is_suffix_of(".sh"@, all[i as int].name) {
                seq![all[i as int].name]
            } else {
                Seq::<Seq<char>>::empty()
            }));
            if take_it {
                assert(r@ == r0.push(entries@[i as int].name));
                assert(r@.map_values(|s: String| s@) =~= r0.map_values(|s: String| s@).push(
                    entries@[i as int].name@,
                ));
                assert(r@.map_values(|s: String| s@) =~= head + sh_scripts(next));
            } else {
                assert(r@.map_values(|s: String| s@) =~= head + sh_scripts(next));
            }
        }
        i = i + 1;
    }
    proof {
        assert(all.take(all.len() as int) =~= all);
    }
    r
}

} // verus!
