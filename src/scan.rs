//! Collecting the text files below a folder, walking the tree with an explicit
//! stack of directories still to read.
use vstd::prelude::*;
use crate::paths::{Platform, is_separator};

verus! {

/// One entry of a directory listing. `path` is `None` when the path is not
/// valid Unicode; such an entry is neither listed nor entered.
#[derive(Clone, Debug)]
pub struct ScanEntry {
    pub path: Option<String>,
    pub is_dir: bool,
}

/// `path` names a file whose extension is `txt`: its file name ends in
/// `.txt` and has at least one character before that dot.
pub open spec fn has_txt_extension(platform: Platform, path: Seq<char>) -> bool {
    path.len() >= 5 && path.subrange(path.len() - 4, path.len() as int) == ".txt"@ && !is_separator(
        platform,
        path[path.len() - 5],
    )
}

pub open spec fn entry_path(e: ScanEntry) -> Seq<char> {
    e.path->0@
}

pub open spec fn is_listed(platform: Platform, e: ScanEntry) -> bool {
    e.path is Some && !e.is_dir && has_txt_extension(platform, entry_path(e))
}

pub open spec fn is_entered(e: ScanEntry) -> bool {
    e.path is Some && e.is_dir
}

/// Paths of the text files among `es`, in listing order.
pub open spec fn listed(platform: Platform, es: Seq<ScanEntry>) -> Seq<Seq<char>>
    decreases es.len(),
{
    if es.len() == 0 {
        Seq::empty()
    } else {
        listed(platform, es.drop_last()) + if is_listed(platform, es.last()) {
            seq![entry_path(es.last())]
        } else {
            Seq::empty()
        }
    }
}

/// Paths of the subdirectories among `es`, in listing order.
pub open spec fn entered(es: Seq<ScanEntry>) -> Seq<Seq<char>>
    decreases es.len(),
{
    if es.len() == 0 {
        Seq::empty()
    } else {
        entered(es.drop_last()) + if is_entered(es.last()) {
            seq![entry_path(es.last())]
        } else {
            Seq::empty()
        }
    }
}

pub open spec fn strings_view(v: Seq<String>) -> Seq<Seq<char>> {
    v.map_values(|s: String| s@)
}

/// Whether `path` names a file with the `txt` extension.
pub fn is_txt_path(platform: Platform, path: &str) -> (r: bool)
    ensures
        r == has_txt_extension(platform, path@),
{
    let n = path.unicode_len();
    if n < 5 {
        return false;
    }
    let before = path.get_char(n - 5);
    let sep = match platform {
        Platform::Windows => before == '/' || before == '\\',
        Platform::Unix => before == '/',
    };
    let a = path.get_char(n - 4);
    let b = path.get_char(n - 3);
    let c = path.get_char(n - 2);
    let d = path.get_char(n - 1);
    proof {
        reveal_strlit(".txt");
        let tail = path@.subrange(n - 4, n as int);
        if tail == ".txt"@ {
            assert(tail[0] == a && tail[1] == b && tail[2] == c && tail[3] == d);
        }
        if a == '.' && b == 't' && c == 'x' && d == 't' {
            assert(tail =~= ".txt"@);
        }
    }
    a == '.' && b == 't' && c == 'x' && d == 't' && !sep
}

/// A walk in progress: directories still to read, and text files found.
pub struct TxtScan {
    pending: Vec<String>,
    found: Vec<String>,
}

impl TxtScan {
    pub closed spec fn pending_view(&self) -> Seq<Seq<char>> {
        strings_view(self.pending@)
    }

    pub closed spec fn found_view(&self) -> Seq<Seq<char>> {
        strings_view(self.found@)
    }

    /// Starts a walk at `root`. Fails when `root` is not an existing directory.
    pub fn start(root: String, root_is_dir: bool) -> (r: Result<TxtScan, String>)
        ensures
            root_is_dir <==> r is Ok,
            r matches Ok(s) ==> s.pending_view() == seq![root@] && s.found_view() == Seq::<
                Seq<char>,
            >::empty(),
            r matches Err(m) ==> m@ == "文件夹不存在"@,
    {
        if !root_is_dir {
            return Err(String::from_str("文件夹不存在"));
        }
        let mut pending: Vec<String> = Vec::new();
        pending.push(root);
        let s = TxtScan { pending, found: Vec::new() };
        proof {
            assert(s.pending_view() =~= seq![root@]);
            assert(s.found_view() =~= Seq::<Seq<char>>::empty());
        }
        Ok(s)
    }

    /// The next directory to read, taken off the stack; `None` when the walk is done.
    pub fn next_dir(&mut self) -> (r: Option<String>)
        ensures
            final(self).found_view() == old(self).found_view(),
            old(self).pending_view().len() == 0 ==> r is None && final(self).pending_view()
                == old(self).pending_view(),
            old(self).pending_view().len() > 0 ==> r is Some && r->0@ == old(self).pending_view().last()
                && final(self).pending_view() == old(self).pending_view().drop_last(),
    {
        let r = self.pending.pop();
        proof {
            if old(self).pending@.len() > 0 {
                assert(self.pending_view() =~= old(self).pending_view().drop_last());
            }
        }
        r
    }

    /// Takes the listing of a directory just read: text files are added to
    /// the result and subdirectories to the directories still to read.
    pub fn visit(&mut self, platform: Platform, entries: &Vec<ScanEntry>)
        ensures
            final(self).found_view() == old(self).found_view() + listed(platform, entries@),
            final(self).pending_view() == old(self).pending_view() + entered(entries@),
    {
        let mut i: usize = 0;
        while i < entries.len()
            invariant
                i <= entries.len(),
                self.found_view() == old(self).found_view() + listed(platform, entries@.take(i as int)),
                self.pending_view() == old(self).pending_view() + entered(entries@.take(i as int)),
            decreases entries.len() - i,
        {
            let ghost before_found = self.found_view();
            let ghost before_pending = self.pending_view();
            let e = &entries[i];
            proof {
                assert(entries@.take(i + 1).drop_last() =~= entries@.take(i as int));
                assert(entries@.take(i + 1).last() == *e);
            }
            match &e.path {
                Some(p) => {
                    if e.is_dir {
                        self.pending.push(p.clone());
                        proof {
                            assert(self.pending_view() =~= before_pending + seq![p@]);
                        }
                    } else if is_txt_path(platform, p.as_str()) {
                        self.found.push(p.clone());
                        proof {
                            assert(self.found_view() =~= before_found + seq![p@]);
                        }
                    }
                },
                None => {},
            }
            proof {
                let t = entries@.take(i + 1);
                assert(self.found_view() =~= old(self).found_view() + listed(platform, t));
                assert(self.pending_view() =~= old(self).pending_view() + entered(t));
            }
            i = i + 1;
        }
        proof {
            assert(entries@.take(entries@.len() as int) =~= entries@);
        }
    }

    /// The text files found so far.
    pub fn into_found(self) -> (r: Vec<String>)
        ensures
            strings_view(r@) == self.found_view(),
    {
        self.found
    }
}

} // verus!
