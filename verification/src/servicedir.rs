//! Listing the services of a directory for display: which entries of the
//! configured directories are themselves directories.
//!
//! The unverified shell reads the directory and reports each entry's name
//! and whether it is a directory; the selection of what to show is decided
//! here.

use vstd::prelude::*;

use crate::configuration::Config;

verus! {

/// One directory entry as the shell observed it.
#[derive(Debug)]
pub struct Entry {
    /// The entry's file name.
    pub name: String,
    /// Whether the entry is a directory.
    pub is_dir: bool,
}

/// The names of the directory entries among `entries`, in order.
pub open spec fn dir_names_spec(entries: Seq<Entry>) -> Seq<Seq<char>>
    decreases entries.len(),
{
    if entries.len() == 0 {
        Seq::empty()
    } else if entries.last().is_dir {
        dir_names_spec(entries.drop_last()).push(entries.last().name@)
    } else {
        dir_names_spec(entries.drop_last())
    }
}

/// Select the names of the sub-directories among the observed entries of a
/// path, or `None` when the path itself is not a directory.
pub fn show_dirs(p_is_dir: bool, entries: &Vec<Entry>) -> (r: Option<Vec<String>>)
    ensures
        !p_is_dir ==> r is None,
        p_is_dir ==> {
            &&& r matches Some(v)
            &&& v@.map_values(|s: String| s@) == dir_names_spec(entries@)
        },
{
    if !p_is_dir {
        return None;
    }
    let mut v: Vec<String> = Vec::new();
    let mut i: usize = 0;
    while i < entries.len()
        invariant
            i <= entries.len(),
            v@.map_values(|s: String| s@) == dir_names_spec(entries@.take(i as int)),
        decreases entries.len() - i,
    {
        proof {
            assert(entries@.take(i as int + 1).drop_last() =~= entries@.take(i as int));
            assert(entries@.take(i as int + 1).last() == entries@[i as int]);
        }
        if entries[i].is_dir {
            let name = entries[i].name.clone();
            assert(name@ == entries@[i as int].name@);
            v.push(name);
            proof {
                assert(v@.map_values(|s: String| s@) =~= dir_names_spec(
                    entries@.take(i as int + 1),
                ));
            }
        } else {
            proof {
                assert(v@.map_values(|s: String| s@) =~= dir_names_spec(
                    entries@.take(i as int + 1),
                ));
            }
        }
        i = i + 1;
    }
    proof {
        assert(entries@.take(entries@.len() as int) =~= entries@);
    }
    Some(v)
}

/// The active services: the sub-directories the shell observed under the
/// configured activation directory `lndir`.
pub fn show_active_services(c: &Config, lndir_is_dir: bool, entries: &Vec<Entry>) -> (r: Option<
    Vec<String>,
>)
    ensures
        !lndir_is_dir ==> r is None,
        lndir_is_dir ==> {
            &&& r matches Some(v)
            &&& v@.map_values(|s: String| s@) == dir_names_spec(entries@)
        },
{
    let _ = c;
    show_dirs(lndir_is_dir, entries)
}

} // verus!
