//! The filesystem-scanner model and the configuration resolver. A directory
//! listing is handed in as plain `EntryInfo` values (name, full path, and what
//! the metadata said); everything decided from a listing is verified here.

use vstd::prelude::*;
use vstd::string::StrSliceExecFns;
use vstd::string::StringExecFns;
use crate::error::SageError;
use crate::strmap::StrMap;
use crate::text::str_eq;

verus! {

/// One directory entry, as a scan reports it: its file name, its full path,
/// and whether the metadata query said it is a directory or a regular file
/// (both stand false when the query failed, so partial filesystem access
/// never aborts discovery).
pub struct EntryInfo {
    pub name: String,
    pub path: String,
    pub is_dir: bool,
    pub is_file: bool,
}

/// The last position of `c` in `s`, or a negative number when `c` does not
/// occur.
pub open spec fn spec_last_index(s: Seq<char>, c: char) -> int
    decreases s.len(),
{
    if s.len() == 0 {
        -1
    } else if s.last() == c {
        s.len() - 1
    } else {
        spec_last_index(s.drop_last(), c)
    }
}

/// The file-name part of a path: the characters after the last `/`.
pub open spec fn spec_file_name(p: Seq<char>) -> Seq<char> {
    p.subrange(spec_last_index(p, '/') + 1, p.len() as int)
}

/// The extension of a path: the characters of its file name after the last
/// `.`, empty when the file name has no dot, or only a leading one.
pub open spec fn spec_extension(p: Seq<char>) -> Seq<char> {
    let f = spec_file_name(p);
    let d = spec_last_index(f, '.');
    if d >= 1 {
        f.subrange(d + 1, f.len() as int)
    } else {
        Seq::empty()
    }
}

proof fn lemma_spec_last_index(s: Seq<char>, c: char, d: int)
    requires
        if d >= 0 {
            0 <= d < s.len() && s[d] == c && forall|j: int| d < j < s.len() ==> s[j] != c
        } else {
            forall|j: int| 0 <= j < s.len() ==> s[j] != c
        },
    ensures
        spec_last_index(s, c) == if d >= 0 {
            d
        } else {
            -1
        },
    decreases s.len(),
{
    if s.len() == 0 {
    } else if s.last() == c {
        assert(d == s.len() - 1);
    } else {
        lemma_spec_last_index(s.drop_last(), c, if d == s.len() - 1 {
            -1
        } else {
            d
        });
    }
}

/// The last position of `c` in `s`, if `c` occurs at all.
fn last_index_of(s: &str, c: char) -> (r: Option<usize>)
    ensures
        match r {
            Some(i) => i < s@.len() && s@[i as int] == c && forall|j: int|
                i < j < s@.len() ==> s@[j] != c,
            None => forall|j: int| 0 <= j < s@.len() ==> s@[j] != c,
        },
{
    let n = s.unicode_len();
    let mut i: usize = n;
    while i > 0
        invariant
            i <= n,
            n == s@.len(),
            forall|j: int| i <= j < s@.len() ==> s@[j] != c,
        decreases i,
    {
        i = i - 1;
        if s.get_char(i) == c {
            return Some(i);
        }
    }
    None
}

/// The extension of a path string: what stands in its file name after the
/// last dot, empty when there is no dot, or only one opening the name.
pub fn get_extension_from_filename(filename: &str) -> (r: &str)
    ensures
        r@ == spec_extension(filename@),
{
    let n = filename.unicode_len();
    let ls = last_index_of(filename, '/');
    let ld = last_index_of(filename, '.');
    let ghost lsi: int = match ls {
        Some(i) => i as int,
        None => -1,
    };
    proof {
        lemma_spec_last_index(filename@, '/', lsi);
    }
    let ghost f = spec_file_name(filename@);
    match ld {
        Some(d) => {
            let name_ok = match ls {
                Some(sl) => d > sl && d - sl >= 2,
                None => d >= 1,
            };
            if name_ok {
                proof {
                    assert forall|j: int| d - lsi - 1 < j < f.len() implies f[j] != '.' by {
                        assert(f[j] == filename@[lsi + 1 + j]);
                    }
                    assert(f[d - lsi - 1] == '.');
                    lemma_spec_last_index(f, '.', d - lsi - 1);
                }
                let r = filename.substring_char(d + 1, n);
                proof {
                    assert(r@ =~= f.subrange(d - lsi, f.len() as int));
                }
                r
            } else {
                proof {
                    if d > lsi {
                        assert(f[d - lsi - 1] == '.');
                        assert forall|j: int| d - lsi - 1 < j < f.len() implies f[j] != '.' by {
                            assert(f[j] == filename@[lsi + 1 + j]);
                        }
                        lemma_spec_last_index(f, '.', d - lsi - 1);
                    } else {
                        assert forall|j: int| 0 <= j < f.len() implies f[j] != '.' by {
                            assert(f[j] == filename@[lsi + 1 + j]);
                        }
                        lemma_spec_last_index(f, '.', -1);
                    }
                    reveal_strlit("");
                    assert(""@ =~= Seq::<char>::empty());
                }
                ""
            }
        },
        None => {
            proof {
                assert forall|j: int| 0 <= j < f.len() implies f[j] != '.' by {
                    assert(f[j] == filename@[lsi + 1 + j]);
                }
                lemma_spec_last_index(f, '.', -1);
                reveal_strlit("");
                assert(""@ =~= Seq::<char>::empty());
            }
            ""
        },
    }
}

/// The entry is a directory named `configs`.
pub open spec fn spec_is_configs_dir(e: EntryInfo) -> bool {
    e.is_dir && e.name@ == "configs"@
}

/// The path of the first directory entry named `configs`, if one is listed.
pub open spec fn spec_configs_dir(entries: Seq<EntryInfo>) -> Option<Seq<char>>
    decreases entries.len(),
{
    if entries.len() == 0 {
        None
    } else if spec_is_configs_dir(entries[0]) {
        Some(entries[0].path@)
    } else {
        spec_configs_dir(entries.drop_first())
    }
}

/// There is no `configs` directory exactly when no entry qualifies.
pub proof fn lemma_configs_dir_none(entries: Seq<EntryInfo>)
    ensures
        (spec_configs_dir(entries) is None) <==> (forall|i: int|
            0 <= i < entries.len() ==> !spec_is_configs_dir(#[trigger] entries[i])),
    decreases entries.len(),
{
    if entries.len() > 0 {
        lemma_configs_dir_none(entries.drop_first());
        if spec_configs_dir(entries) is None {
            assert forall|i: int|
                0 <= i < entries.len() implies !spec_is_configs_dir(
                #[trigger] entries[i],
            ) by {
                if i > 0 {
                    assert(entries.drop_first()[i - 1] == entries[i]);
                }
            }
        } else {
            if !spec_is_configs_dir(entries[0]) {
                let w = choose|i: int|
                    0 <= i < entries.drop_first().len() && spec_is_configs_dir(
                        #[trigger] entries.drop_first()[i],
                    );
                assert(entries[w + 1] == entries.drop_first()[w]);
            }
        }
    }
}

/// Finds the `configs` directory in a listing of the working directory.
pub fn configs_dir_path(entries: &Vec<EntryInfo>) -> (r: Option<String>)
    ensures
        match r {
            Some(p) => spec_configs_dir(entries@) == Some(p@),
            None => spec_configs_dir(entries@) is None,
        },
{
    let mut i: usize = 0;
    proof {
        assert(entries@.skip(0) =~= entries@);
    }
    while i < entries.len()
        invariant
            i <= entries@.len(),
            spec_configs_dir(entries@) == spec_configs_dir(entries@.skip(i as int)),
            forall|j: int| 0 <= j < i ==> !spec_is_configs_dir(#[trigger] entries@[j]),
        decreases entries@.len() - i,
    {
        proof {
            assert(entries@.skip(i as int)[0] == entries@[i as int]);
            assert(entries@.skip(i as int).drop_first() =~= entries@.skip(i + 1));
        }
        if entries[i].is_dir && str_eq(entries[i].name.as_str(), "configs") {
            return Some(entries[i].path.clone());
        }
        i = i + 1;
    }
    None
}

/// The configuration set a listing of `configs/` resolves to: every directory
/// entry keyed by its name, mapped to its full path; a repeated name keeps
/// the later entry.
pub open spec fn spec_collect(entries: Seq<EntryInfo>) -> Map<Seq<char>, Seq<char>>
    decreases entries.len(),
{
    if entries.len() == 0 {
        Map::empty()
    } else if entries.last().is_dir {
        spec_collect(entries.drop_last()).insert(entries.last().name@, entries.last().path@)
    } else {
        spec_collect(entries.drop_last())
    }
}

/// The number of directory entries in a listing.
pub open spec fn count_dirs(entries: Seq<EntryInfo>) -> nat
    decreases entries.len(),
{
    if entries.len() == 0 {
        0
    } else {
        count_dirs(entries.drop_last()) + if entries.last().is_dir {
            1nat
        } else {
            0nat
        }
    }
}

/// The resolved set is keyed by exactly the names of the directory entries.
pub proof fn lemma_collect_keys(entries: Seq<EntryInfo>)
    ensures
        spec_collect(entries).dom().finite(),
        forall|n: Seq<char>|
            spec_collect(entries).dom().contains(n) <==> exists|i: int|
                0 <= i < entries.len() && (#[trigger] entries[i]).is_dir && entries[i].name@ == n,
    decreases entries.len(),
{
    if entries.len() > 0 {
        lemma_collect_keys(entries.drop_last());
        let head = entries.drop_last();
        assert forall|n: Seq<char>|
            spec_collect(entries).dom().contains(n) <==> exists|i: int|
                0 <= i < entries.len() && (#[trigger] entries[i]).is_dir && entries[i].name@
                    == n by {
            if spec_collect(entries).dom().contains(n) {
                if entries.last().is_dir && entries.last().name@ == n {
                    assert(entries[entries.len() - 1].is_dir);
                } else {
                    let w = choose|i: int|
                        0 <= i < head.len() && (#[trigger] head[i]).is_dir && head[i].name@ == n;
                    assert(entries[w] == head[w]);
                }
            }
            if exists|i: int|
                0 <= i < entries.len() && (#[trigger] entries[i]).is_dir && entries[i].name@
                    == n {
                let w = choose|i: int|
                    0 <= i < entries.len() && (#[trigger] entries[i]).is_dir && entries[i].name@
                        == n;
                if w < entries.len() - 1 {
                    assert(head[w] == entries[w]);
                    assert(spec_collect(head).dom().contains(n));
                }
            }
        }
    }
}

/// With no two sibling directories sharing a name, the resolved set has
/// exactly one entry per directory.
pub proof fn lemma_collect_count(entries: Seq<EntryInfo>)
    requires
        forall|i: int, j: int|
            0 <= i < j < entries.len() && (#[trigger] entries[i]).is_dir
                && (#[trigger] entries[j]).is_dir ==> entries[i].name@ != entries[j].name@,
    ensures
        spec_collect(entries).dom().finite(),
        spec_collect(entries).dom().len() == count_dirs(entries),
    decreases entries.len(),
{
    if entries.len() > 0 {
        let head = entries.drop_last();
        assert(forall|i: int, j: int|
            0 <= i < j < head.len() && (#[trigger] head[i]).is_dir
                && (#[trigger] head[j]).is_dir ==> head[i].name@ != head[j].name@) by {
            assert(forall|i: int| 0 <= i < head.len() ==> head[i] == entries[i]);
        }
        lemma_collect_count(head);
        lemma_collect_keys(head);
        if entries.last().is_dir {
            let n = entries.last().name@;
            if spec_collect(head).dom().contains(n) {
                let w = choose|i: int|
                    0 <= i < head.len() && (#[trigger] head[i]).is_dir && head[i].name@ == n;
                assert(entries[w] == head[w]);
                assert(false);
            }
        }
    }
}

/// Builds the configuration set from a listing of the `configs/` directory.
pub fn collect_configs(entries: &Vec<EntryInfo>) -> (r: StrMap)
    ensures
        r.wf(),
        r.map_view() == spec_collect(entries@),
{
    let mut r = StrMap::new();
    let mut i: usize = 0;
    while i < entries.len()
        invariant
            i <= entries@.len(),
            r.wf(),
            r.map_view() == spec_collect(entries@.take(i as int)),
        decreases entries@.len() - i,
    {
        proof {
            assert(entries@.take(i + 1).drop_last() =~= entries@.take(i as int));
            assert(entries@.take(i + 1).last() == entries@[i as int]);
        }
        if entries[i].is_dir {
            r.insert(entries[i].name.clone(), entries[i].path.clone());
        }
        i = i + 1;
    }
    proof {
        assert(entries@.take(entries@.len() as int) =~= entries@);
    }
    r
}

/// The result is the I/O error for the given path.
pub open spec fn spec_is_io_err<T>(r: Result<T, SageError>, source: Seq<char>, detail: Seq<char>) -> bool {
    match r {
        Err(e) => match e {
            SageError::Io { source: s, detail: d } => s@ == source && d@ == detail,
            _ => false,
        },
        Ok(_) => false,
    }
}

/// Resolves the configuration set from the working directory's listing and
/// the listing of its `configs/` subdirectory. An unreadable working
/// directory is an error; a missing or unreadable `configs/` directory
/// resolves to the empty set.
pub fn get_configs(
    directory: &String,
    root: &Result<Vec<EntryInfo>, String>,
    configs_entries: &Result<Vec<EntryInfo>, String>,
) -> (r: Result<StrMap, SageError>)
    ensures
        match root {
            Err(d) => spec_is_io_err(r, directory@, d@),
            Ok(es) => {
                &&& r is Ok
                &&& r->Ok_0.wf()
                &&& r->Ok_0.map_view() == (match spec_configs_dir(es@) {
                    None => Map::<Seq<char>, Seq<char>>::empty(),
                    Some(_) => match configs_entries {
                        Ok(ce) => spec_collect(ce@),
                        Err(_) => Map::<Seq<char>, Seq<char>>::empty(),
                    },
                })
            },
        },
        // a tree without a `configs` directory resolves to the empty set
        (root matches Ok(es) && forall|i: int|
            0 <= i < es@.len() ==> !spec_is_configs_dir(#[trigger] es@[i])) ==> r is Ok
            && r->Ok_0.map_view() == Map::<Seq<char>, Seq<char>>::empty(),
{
    match root {
        Err(d) => Err(
            SageError::Io { source: directory.clone(), detail: d.clone() },
        ),
        Ok(es) => {
            proof {
                lemma_configs_dir_none(es@);
            }
            match configs_dir_path(es) {
                None => Ok(StrMap::new()),
                Some(_) => match configs_entries {
                    Ok(ce) => Ok(collect_configs(ce)),
                    Err(_) => Ok(StrMap::new()),
                },
            }
        },
    }
}

/// The message of the error naming an unknown configuration; it carries the
/// requested name.
pub open spec fn spec_invalid_config_message(name: Seq<char>) -> Seq<char> {
    "Configuration with "@ + name + " name was not found."@
}

/// The unknown-configuration message holds the requested name, right after
/// its fixed opening words.
pub proof fn lemma_invalid_config_message_contains_name(name: Seq<char>)
    ensures
        spec_invalid_config_message(name).subrange(19, 19 + name.len() as int) == name,
{
    reveal_strlit("Configuration with ");
    assert(("Configuration with "@).len() == 19);
    assert(spec_invalid_config_message(name).subrange(19, 19 + name.len() as int) =~= name);
}

/// Checks that the given name is one of the resolved configurations;
/// succeeds exactly when it is, and otherwise names it in the error.
pub fn is_correct_config(name: &String, configs: StrMap) -> (r: Result<(), SageError>)
    ensures
        r is Ok <==> configs.spec_contains(name@),
        match r {
            Ok(_) => true,
            Err(e) => match e {
                SageError::InvalidConfig { message } => message@ == spec_invalid_config_message(
                    name@,
                ),
                _ => false,
            },
        },
{
    if configs.contains_key(name.as_str()) {
        Ok(())
    } else {
        let message = String::from_str("Configuration with ").concat(name.as_str()).concat(
            " name was not found.",
        );
        Err(SageError::InvalidConfig { message })
    }
}

} // verus!
