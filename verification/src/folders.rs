use vstd::prelude::*;

use crate::text::{
    chars_of, contains_seq, contains_str, ends_with, ends_with_chars, join_path, join_spec,
    replace_char, replace_char_spec,
};

verus! {

/// A tab is a folder next to the program; the program's own folder entries and the
/// "assets" folder are not tabs.
pub open spec fn is_tab_folder_spec(name: Seq<char>) -> bool {
    !contains_seq(name, "memo_dioxus.exe"@) && name != "assets"@
}

/// A memo is a file whose extension (the part after the last dot of a name that does
/// not merely start with that dot) is "txt".
pub open spec fn is_memo_file_spec(name: Seq<char>) -> bool {
    ends_with(name, ".txt"@) && name.len() > ".txt"@.len()
}

/// The names among `names` that are tab folders, in their order.
pub open spec fn tab_folder_names(names: Seq<Seq<char>>) -> Seq<Seq<char>>
    decreases names.len(),
{
    if names.len() == 0 {
        Seq::empty()
    } else {
        let rest = tab_folder_names(names.drop_last());
        if is_tab_folder_spec(names.last()) {
            rest.push(names.last())
        } else {
            rest
        }
    }
}

/// The path of the memo created at time `stamp` in tab `tab`: the tab's folder and a
/// file named after the time and the tab.
pub open spec fn memo_path_spec(exe: Seq<char>, tab: Seq<char>, stamp: Seq<char>) -> Seq<char> {
    join_spec(join_spec(exe, tab), stamp + "_"@ + tab + ".txt"@)
}

/// The program's folder as a path written with `/` only.
pub fn normalize_separators(path: &str) -> (r: String)
    ensures
        r@ == replace_char_spec(path@, '\\', '/'),
{
    replace_char(path, '\\', '/')
}

/// Whether the folder `name` holds a tab.
pub fn is_tab_folder(name: &str) -> (r: bool)
    ensures
        r == is_tab_folder_spec(name@),
{
    let own = contains_str(name, "memo_dioxus.exe");
    let assets = chars_of("assets");
    let n = chars_of(name);
    let same = crate::text::occurs_at_exec(&n, &assets, 0) && n.len() == assets.len();
    proof {
        if same {
            assert(n@.subrange(0, n@.len() as int) =~= n@);
        }
        if n@ == assets@ {
            assert(n@.subrange(0, assets@.len() as int) =~= assets@);
        }
    }
    !own && !same
}

/// Whether the file `name` is a memo.
pub fn is_memo_file(name: &str) -> (r: bool)
    ensures
        r == is_memo_file_spec(name@),
{
    let n = chars_of(name);
    let ext = chars_of(".txt");
    ends_with_chars(&n, &ext) && n.len() > ext.len()
}

/// Copies the names of the tab folders among `names`, keeping their order.
pub fn tab_folders(names: &Vec<String>) -> (r: Vec<String>)
    ensures
        crate::text::views(r@) == tab_folder_names(crate::text::views(names@)),
{
    let mut out: Vec<String> = Vec::new();
    let mut i: usize = 0;
    while i < names.len()
        invariant
            i <= names@.len(),
            crate::text::views(out@) == tab_folder_names(
                crate::text::views(names@.subrange(0, i as int)),
            ),
        decreases names.len() - i,
    {
        let ghost before = crate::text::views(out@);
        let ghost prefix = crate::text::views(names@.subrange(0, i + 1));
        proof {
            assert(prefix.drop_last() =~= crate::text::views(names@.subrange(0, i as int)));
            assert(prefix.last() == names@[i as int]@);
        }
        if is_tab_folder(names[i].as_str()) {
            out.push(names[i].clone());
            proof {
                assert(crate::text::views(out@) =~= before.push(names@[i as int]@));
            }
        }
        i = i + 1;
    }
    proof {
        assert(names@.subrange(0, names@.len() as int) =~= names@);
    }
    out
}

/// The path of the memo made at time `stamp` in the tab `tab`.
pub fn memo_file_path(exe: &str, tab: &str, stamp: &str) -> (r: String)
    ensures
        r@ == memo_path_spec(exe@, tab@, stamp@),
{
    let folder = join_path(exe, tab);
    let file = String::from_str(stamp).concat("_").concat(tab).concat(".txt");
    let r = join_path(folder.as_str(), file.as_str());
    proof {
        assert(file@ =~= stamp@ + "_"@ + tab@ + ".txt"@);
    }
    r
}

/// The folder where the memos of a tab are put aside: "old" inside `root`.
pub fn old_folder(root: &str) -> (r: String)
    ensures
        r@ == join_spec(root@, "old"@),
{
    join_path(root, "old")
}

} // verus!

verus! {

/// A path separator: `/` or `\` (both separate on Windows, where the tool runs).
pub open spec fn is_separator(c: char) -> bool {
    c == '/' || c == '\\'
}

/// The characters after the last separator of `p` (all of `p` without one).
pub open spec fn last_component(p: Seq<char>) -> Seq<char>
    decreases p.len(),
{
    if p.len() == 0 {
        p
    } else if is_separator(p.last()) {
        Seq::empty()
    } else {
        last_component(p.drop_last()).push(p.last())
    }
}

/// The file name of a path, as `Path::file_name` finds it: the last component once
/// trailing separators and "." components are passed over; none when that component is
/// "..", or when nothing is left (an empty path or a root).
pub open spec fn file_name_of(p: Seq<char>) -> Option<Seq<char>>
    decreases p.len(),
{
    if p.len() == 0 {
        None
    } else if is_separator(p.last()) {
        file_name_of(p.drop_last())
    } else {
        let c = last_component(p);
        if c == seq!['.'] {
            file_name_of(p.drop_last())
        } else if c == seq!['.', '.'] {
            None
        } else {
            Some(c)
        }
    }
}

proof fn lemma_last_component_after_slash(d: Seq<char>, n: Seq<char>)
    requires
        forall|i: int| 0 <= i < n.len() ==> n[i] != '/' && n[i] != '\\',
    ensures
        last_component(d + seq!['/'] + n) == n,
    decreases n.len(),
{
    let p = d + seq!['/'] + n;
    if n.len() == 0 {
        assert(p.last() == '/');
        assert(last_component(p) == Seq::<char>::empty());
        assert(n =~= Seq::<char>::empty());
    } else {
        assert(p.last() == n.last());
        assert(p.drop_last() =~= d + seq!['/'] + n.drop_last());
        lemma_last_component_after_slash(d, n.drop_last());
        assert(n.drop_last().push(n.last()) =~= n);
    }
}

/// Only `/` and `\` separate: a name without them, other than "." and "..", written
/// after a folder and a `/`, is the file name whole (spaces and all).
pub proof fn lemma_file_name_after_folder(d: Seq<char>, n: Seq<char>)
    requires
        n.len() > 0,
        forall|i: int| 0 <= i < n.len() ==> n[i] != '/' && n[i] != '\\',
        n != seq!['.'],
        n != seq!['.', '.'],
    ensures
        file_name_of(d + seq!['/'] + n) == Some(n),
{
    let p = d + seq!['/'] + n;
    lemma_last_component_after_slash(d, n);
    assert(p.last() == n[n.len() - 1]);
}

/// The file name of `path`, or `None` when it names no file.
pub fn file_name(path: &str) -> (r: Option<String>)
    ensures
        r matches Some(s) ==> file_name_of(path@) == Some(s@),
        r is None ==> file_name_of(path@) is None,
{
    let t = chars_of(path);
    let mut end: usize = t.len();
    proof {
        assert(t@.subrange(0, end as int) =~= t@);
    }
    loop
        invariant
            t@ == path@,
            end <= t@.len(),
            file_name_of(t@) == file_name_of(t@.subrange(0, end as int)),
        decreases end,
    {
        let ghost head = t@.subrange(0, end as int);
        if end == 0 {
            proof {
                assert(head =~= Seq::<char>::empty());
            }
            return None;
        }
        if t[end - 1] == '/' || t[end - 1] == '\\' {
            proof {
                assert(head.drop_last() =~= t@.subrange(0, end - 1));
            }
            end = end - 1;
            continue;
        }
        let mut start: usize = end;
        while start > 0 && !(t[start - 1] == '/' || t[start - 1] == '\\')
            invariant
                start <= end <= t@.len(),
                head == t@.subrange(0, end as int),
                last_component(head) == last_component(t@.subrange(0, start as int)) + t@.subrange(
                    start as int,
                    end as int,
                ),
            decreases start,
        {
            proof {
                let pre = t@.subrange(0, start as int);
                assert(pre.drop_last() =~= t@.subrange(0, start - 1));
                assert(t@.subrange(start - 1, end as int) =~= seq![pre.last()] + t@.subrange(
                    start as int,
                    end as int,
                ));
                assert(last_component(pre) == last_component(t@.subrange(0, start - 1)).push(
                    pre.last(),
                ));
                assert(last_component(t@.subrange(0, start - 1)).push(pre.last()) + t@.subrange(
                    start as int,
                    end as int,
                ) =~= last_component(t@.subrange(0, start - 1)) + t@.subrange(
                    start - 1,
                    end as int,
                ));
            }
            start = start - 1;
        }
        proof {
            let pre = t@.subrange(0, start as int);
            if start > 0 {
                assert(is_separator(pre.last()));
            }
            assert(last_component(pre) =~= Seq::<char>::empty());
            assert(last_component(head) =~= t@.subrange(start as int, end as int));
            assert(head.drop_last() =~= t@.subrange(0, end - 1));
            assert(head.last() == t@[end - 1]);
            assert(!is_separator(head.last()));
        }
        let len = end - start;
        if len == 1 && t[start] == '.' {
            proof {
                assert(t@.subrange(start as int, end as int) =~= seq!['.']);
            }
            end = end - 1;
            continue;
        }
        if len == 2 && t[start] == '.' && t[start + 1] == '.' {
            proof {
                assert(t@.subrange(start as int, end as int) =~= seq!['.', '.']);
            }
            return None;
        }
        proof {
            if t@.subrange(start as int, end as int) == seq!['.'] {
                assert(t@.subrange(start as int, end as int)[0] == '.');
            }
            if t@.subrange(start as int, end as int) == seq!['.', '.'] {
                assert(t@.subrange(start as int, end as int)[1] == '.');
            }
        }
        let name = crate::text::string_from_chars(
            vstd::slice::slice_subrange(t.as_slice(), start, end),
        );
        return Some(name);
    }
}

} // verus!
