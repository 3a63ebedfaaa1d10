//! Which of the files found under the search root the launcher offers, and
//! how they are numbered.
use std::path::PathBuf;
use vstd::prelude::*;

use crate::launch_item::{clone_path, LaunchItem};

verus! {

broadcast use vstd::seq_lib::group_seq_properties;

/// How deep below the search root the directory walk looks.
pub const FILE_SEARCH_DEPTH: usize = 4;

/// How many programs the result list has room for before it grows.
pub const ASSUMED_FILE_SIZE: usize = 64;

/// What the directory walk learned of one entry under the search root.
#[derive(Debug)]
pub struct FoundEntry {
    /// The entry is a regular file.
    pub is_file: bool,
    /// The extension of its file name, as text, if it has one.
    pub extension: Option<String>,
    /// Its file name, as text, if it has one.
    pub file_name: Option<String>,
    /// It is the launcher's own executable.
    pub is_current_exe: bool,
    /// Its path relative to the search root (its full path where it does not
    /// lie under the root), as text.
    pub name: String,
    /// Its full path.
    pub path: PathBuf,
}

/// File names of helper programs that are never offered.
pub open spec fn is_denylisted(file_name: Seq<char>) -> bool {
    ||| file_name == "UnityCrashHandler64.exe"@
    ||| file_name == "UnityCrashHandler32.exe"@
    ||| file_name == "notification_helper.exe"@
}

/// An entry is offered when it is a file with the extension `exe`, its name is
/// not on the deny list, and it is not the launcher itself.
pub open spec fn is_launch_candidate(entry: FoundEntry) -> bool {
    &&& entry.is_file
    &&& entry.extension matches Some(ext) && ext@ == "exe"@
    &&& !(entry.file_name matches Some(n) && is_denylisted(n@))
    &&& !entry.is_current_exe
}

/// `is_launch_candidate` as a filter.
pub open spec fn candidate_filter() -> spec_fn(FoundEntry) -> bool {
    |entry: FoundEntry| is_launch_candidate(entry)
}

/// The programs made of the offered entries: numbered from 0 in walk order,
/// with the entry's relative name and full path.
pub open spec fn launch_items_of(entries: Seq<FoundEntry>) -> Seq<LaunchItem> {
    let offered = entries.filter(candidate_filter());
    Seq::new(
        offered.len(),
        |i: int| LaunchItem { id: i as usize, name: offered[i].name, path: offered[i].path },
    )
}

/// Groups the functions that find and start programs.
pub struct LaunchItemRepository;

impl LaunchItemRepository {
    /// Whether `file_name` is on the deny list.
    pub fn is_denylisted_name(file_name: &String) -> (r: bool)
        ensures
            r == is_denylisted(file_name@),
    {
        *file_name == String::from_str("UnityCrashHandler64.exe") || *file_name == String::from_str(
            "UnityCrashHandler32.exe",
        ) || *file_name == String::from_str("notification_helper.exe")
    }

    /// Whether the launcher offers the entry.
    pub fn is_launch_candidate(entry: &FoundEntry) -> (r: bool)
        ensures
            r == is_launch_candidate(*entry),
    {
        if !entry.is_file {
            return false;
        }
        match &entry.extension {
            Some(ext) => {
                if *ext != String::from_str("exe") {
                    return false;
                }
            },
            None => {
                return false;
            },
        }
        if let Some(file_name) = &entry.file_name {
            if Self::is_denylisted_name(file_name) {
                return false;
            }
        }
        if entry.is_current_exe {
            return false;
        }
        true
    }

    /// The programs among the walked entries, numbered in walk order.
    pub fn collect_exe_files(entries: Vec<FoundEntry>) -> (r: Vec<LaunchItem>)
        ensures
            r@ == launch_items_of(entries@),
    {
        let mut collected: Vec<LaunchItem> = Vec::new();
        let ghost all = entries@;
        for i in 0..entries.len()
            invariant
                all == entries@,
                collected@ == launch_items_of(all.take(i as int)),
        {
            let ghost before = all.take(i as int);
            proof {
                assert(all.take(i + 1) =~= before.push(all[i as int]));
                before.lemma_filter_push(all[i as int], candidate_filter());
            }
            let entry = &entries[i];
            if Self::is_launch_candidate(entry) {
                let item = LaunchItem {
                    id: collected.len(),
                    name: entry.name.clone(),
                    path: clone_path(&entry.path),
                };
                collected.push(item);
                assert(collected@ =~= launch_items_of(all.take(i + 1)));
            } else {
                assert(collected@ =~= launch_items_of(all.take(i + 1)));
            }
        }
        assert(all.take(entries.len() as int) =~= all);
        collected
    }
}

} // verus!
