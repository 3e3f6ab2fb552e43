//! The read side of the outbox: discovering completed jobs and their
//! rendered images.
//!
//! The host program enumerates a directory and hands the entries here;
//! this module applies the protocol's filters — directories only,
//! hidden entries excluded, image files recognized by extension — and
//! presents the survivors in ascending lexicographic order, so that
//! naming conventions that encode sequence order come out stable.

use vstd::prelude::*;
use vstd::string::*;
use crate::order::{sort_strings, sorted_lex, string_views};
use crate::paths::{job_entry, job_entry_spec, outbox_job_dir, outbox_job_dir_spec};

verus! {

/// One directory entry as the host program saw it.
pub struct DirEntryInfo {
    pub name: String,
    pub is_dir: bool,
}

/// An outbox entry that counts as a job: a true directory whose name
/// does not begin with a dot (hidden and system entries are excluded).
pub open spec fn keeps_outbox_entry(e: DirEntryInfo) -> bool {
    e.is_dir && !(e.name@.len() > 0 && e.name@[0] == '.')
}

/// The names of the entries that count as jobs, in enumeration order.
pub open spec fn outbox_job_names(entries: Seq<DirEntryInfo>) -> Seq<Seq<char>>
    decreases entries.len(),
{
    if entries.len() == 0 {
        Seq::empty()
    } else {
        let rest = outbox_job_names(entries.drop_last());
        if keeps_outbox_entry(entries.last()) {
            rest.push(entries.last().name@)
        } else {
            rest
        }
    }
}

/// Lists the completed jobs among the outbox entries: directories only,
/// dot-named entries excluded, sorted in ascending lexicographic order.
pub fn list_outbox_jobs(entries: Vec<DirEntryInfo>) -> (r: Vec<String>)
    ensures
        sorted_lex(string_views(r@)),
        string_views(r@).to_multiset() == outbox_job_names(entries@).to_multiset(),
{
    let ghost eseq = entries@;
    let mut kept: Vec<String> = Vec::new();
    let mut i: usize = 0;
    proof {
        assert(string_views(kept@) =~= outbox_job_names(eseq.take(0)));
    }
    while i < entries.len()
        invariant
            0 <= i <= eseq.len(),
            entries@ == eseq,
            string_views(kept@) == outbox_job_names(eseq.take(i as int)),
        decreases eseq.len() - i,
    {
        proof {
            assert(eseq.take(i + 1 as int).drop_last() =~= eseq.take(i as int));
            assert(eseq.take(i + 1 as int).last() == eseq[i as int]);
        }
        let e = &entries[i];
        let keep = if !e.is_dir {
            false
        } else {
            let n = e.name.as_str();
            if n.unicode_len() > 0 && n.get_char(0) == '.' {
                false
            } else {
                true
            }
        };
        if keep {
            kept.push(e.name.clone());
        }
        proof {
            assert(string_views(kept@) =~= outbox_job_names(eseq.take(i + 1 as int)));
        }
        i = i + 1;
    }
    proof {
        assert(eseq.take(eseq.len() as int) =~= eseq);
    }
    sort_strings(kept)
}

/// `c` equals the lowercase letter `l` up to ASCII case.
pub open spec fn lower_eq(c: char, l: char) -> bool {
    c == l || ('A' as u32 <= c as u32 && c as u32 <= 'Z' as u32 && c as u32 + 32 == l as u32)
}

/// The extension equals the lowercase word `l` up to ASCII case.
pub open spec fn ext_eq_ignore_case(ext: Seq<char>, l: Seq<char>) -> bool {
    ext.len() == l.len() && forall|i: int| 0 <= i < ext.len() ==> lower_eq(#[trigger] ext[i], l[i])
}

/// An extension that marks a rendered image: png, jpg or jpeg, in any
/// mix of case.
pub open spec fn is_image_extension(ext: Seq<char>) -> bool {
    ||| ext_eq_ignore_case(ext, seq!['p', 'n', 'g'])
    ||| ext_eq_ignore_case(ext, seq!['j', 'p', 'g'])
    ||| ext_eq_ignore_case(ext, seq!['j', 'p', 'e', 'g'])
}

/// The index of the last dot of the name, or -1 if it has none.
pub open spec fn last_dot_index(name: Seq<char>) -> int
    decreases name.len(),
{
    if name.len() == 0 {
        -1
    } else if name.last() == '.' {
        name.len() - 1
    } else {
        last_dot_index(name.drop_last())
    }
}

/// The name has an extension — a part after a last dot that is not the
/// leading character — and it marks an image.
pub open spec fn has_image_extension(name: Seq<char>) -> bool {
    let j = last_dot_index(name);
    j > 0 && is_image_extension(name.skip(j + 1))
}

/// Finds the last dot of the name, if any.
fn find_last_dot(name: &str) -> (r: Option<usize>)
    ensures
        r matches Some(j) ==> 0 <= j < name@.len() && j == last_dot_index(name@),
        r is None ==> last_dot_index(name@) == -1,
{
    let len = name.unicode_len();
    let mut j: usize = len;
    proof {
        assert(name@.take(len as int) =~= name@);
    }
    while j > 0
        invariant
            0 <= j <= len,
            len == name@.len(),
            last_dot_index(name@) == last_dot_index(name@.take(j as int)),
        decreases j,
    {
        let c = name.get_char(j - 1);
        proof {
            assert(name@.take(j as int).last() == name@[j - 1]);
            assert(name@.take(j as int).drop_last() =~= name@.take(j - 1));
        }
        if c == '.' {
            return Some(j - 1);
        }
        j = j - 1;
    }
    proof {
        assert(name@.take(0).len() == 0);
    }
    None
}

/// `c` equals the lowercase letter `l` up to ASCII case.
fn lower_eq_exec(c: char, l: char) -> (r: bool)
    ensures
        r == lower_eq(c, l),
{
    c == l || ((c as u32) >= 65 && (c as u32) <= 90 && (c as u32) + 32 == (l as u32))
}

/// Decides whether the file name carries an image extension.
pub fn has_image_extension_exec(name: &str) -> (r: bool)
    ensures
        r == has_image_extension(name@),
{
    let len = name.unicode_len();
    match find_last_dot(name) {
        None => false,
        Some(j) => {
            if j == 0 {
                return false;
            }
            let ghost ext = name@.skip(j + 1);
            proof {
                assert(ext.len() == len - (j + 1));
            }
            let elen = len - (j + 1);
            if elen == 3 {
                let c0 = name.get_char(j + 1);
                let c1 = name.get_char(j + 2);
                let c2 = name.get_char(j + 3);
                proof {
                    assert(ext[0] == name@[j + 1]);
                    assert(ext[1] == name@[j + 2]);
                    assert(ext[2] == name@[j + 3]);
                }
                let png = lower_eq_exec(c0, 'p') && lower_eq_exec(c1, 'n') && lower_eq_exec(
                    c2,
                    'g',
                );
                let jpg = lower_eq_exec(c0, 'j') && lower_eq_exec(c1, 'p') && lower_eq_exec(
                    c2,
                    'g',
                );
                png || jpg
            } else if elen == 4 {
                let c0 = name.get_char(j + 1);
                let c1 = name.get_char(j + 2);
                let c2 = name.get_char(j + 3);
                let c3 = name.get_char(j + 4);
                proof {
                    assert(ext[0] == name@[j + 1]);
                    assert(ext[1] == name@[j + 2]);
                    assert(ext[2] == name@[j + 3]);
                    assert(ext[3] == name@[j + 4]);
                }
                lower_eq_exec(c0, 'j') && lower_eq_exec(c1, 'p') && lower_eq_exec(c2, 'e')
                    && lower_eq_exec(c3, 'g')
            } else {
                false
            }
        },
    }
}

/// The full paths of the files that carry an image extension, in
/// enumeration order, each placed inside the job directory `dir`.
pub open spec fn image_paths(dir: Seq<char>, names: Seq<Seq<char>>) -> Seq<Seq<char>>
    decreases names.len(),
{
    if names.len() == 0 {
        Seq::empty()
    } else {
        let rest = image_paths(dir, names.drop_last());
        if has_image_extension(names.last()) {
            rest.push(job_entry_spec(dir, names.last()))
        } else {
            rest
        }
    }
}

/// Lists the rendered images of one completed job from the file names
/// found in its outbox directory: image extensions only (png, jpg,
/// jpeg, case-insensitive), as full paths, sorted in ascending
/// lexicographic order.
pub fn list_job_images(root: &str, folder_name: &str, file_names: Vec<String>) -> (r: Vec<String>)
    ensures
        sorted_lex(string_views(r@)),
        string_views(r@).to_multiset() == image_paths(
            outbox_job_dir_spec(root@, folder_name@),
            string_views(file_names@),
        ).to_multiset(),
{
    let ghost nseq = string_views(file_names@);
    let dir = outbox_job_dir(root, folder_name);
    let mut kept: Vec<String> = Vec::new();
    let mut i: usize = 0;
    proof {
        assert(string_views(kept@) =~= image_paths(dir@, nseq.take(0)));
    }
    while i < file_names.len()
        invariant
            0 <= i <= file_names@.len(),
            nseq == string_views(file_names@),
            nseq.len() == file_names@.len(),
            dir@ == outbox_job_dir_spec(root@, folder_name@),
            string_views(kept@) == image_paths(dir@, nseq.take(i as int)),
        decreases file_names@.len() - i,
    {
        proof {
            assert(nseq.take(i + 1 as int).drop_last() =~= nseq.take(i as int));
            assert(nseq.take(i + 1 as int).last() == nseq[i as int]);
            assert(nseq[i as int] == file_names@[i as int]@);
        }
        let name = file_names[i].as_str();
        if has_image_extension_exec(name) {
            kept.push(job_entry(dir.as_str(), name));
        }
        proof {
            assert(string_views(kept@) =~= image_paths(dir@, nseq.take(i + 1 as int)));
        }
        i = i + 1;
    }
    proof {
        assert(nseq.take(nseq.len() as int) =~= nseq);
    }
    sort_strings(kept)
}

} // verus!
