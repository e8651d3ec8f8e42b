use vstd::prelude::*;

use crate::folders::{file_name, file_name_of};
use crate::order::{arranged_by, seq_less, sort_descending, sorted_descending_by};
use crate::text::{
    chars_of, contains_str, lowercase, replace_char, replace_char_spec, some_piece_contains,
    split_keep, split_keep_spec, to_lowercase, views,
};

verus! {

/// A memo: a text file inside a tab folder.
#[derive(Debug, Clone)]
pub struct Memo {
    pub path: String,
    pub name: String,
    pub content: String,
}

impl Memo {
    /// The memo stored at `path` (which must name a file), holding `content`; its name
    /// is the path's file name.
    pub fn new(path: &str, content: &str) -> (m: Memo)
        requires
            file_name_of(path@) is Some,
        ensures
            m.path@ == path@,
            file_name_of(path@) == Some(m.name@),
            m.content@ == content@,
    {
        let name = match file_name(path) {
            Some(n) => n,
            None => String::new(),
        };
        Memo { path: String::from_str(path), name, content: String::from_str(content) }
    }

    /// Replaces the memo's text by `value` (the caller stores it in the memo's file).
    pub fn write_memo(&mut self, value: &str)
        ensures
            final(self).content@ == value@,
            final(self).path == old(self).path,
            final(self).name == old(self).name,
    {
        self.content = String::from_str(value);
    }
}

/// The abstract value of a search hit: its path, file name and pieces.
pub struct SearchMemoModel {
    pub path: Seq<char>,
    pub name: Seq<char>,
    pub contents: Seq<Seq<char>>,
}

/// A memo found by a search, its text cut into pieces around the search string.
#[derive(Debug)]
pub struct SearchMemo {
    pub path: String,
    pub name: String,
    pub contents: Vec<String>,
}

impl View for SearchMemo {
    type V = SearchMemoModel;

    open spec fn view(&self) -> SearchMemoModel {
        SearchMemoModel { path: self.path@, name: self.name@, contents: views(self.contents@) }
    }
}

impl Clone for SearchMemo {
    fn clone(&self) -> (r: Self)
        ensures
            r@ == self@,
    {
        let contents = self.contents.clone();
        proof {
            assert(contents@ =~= self.contents@);
        }
        SearchMemo { path: self.path.clone(), name: self.name.clone(), contents }
    }
}

impl SearchMemo {
    /// The search hit for the memo at `path` (which must name a file; kept with `\`
    /// written as `/`), named by the path's file name, whose text `content` is split
    /// around the occurrences of `search`.
    pub fn new(path: &str, content: &str, search: &str) -> (m: SearchMemo)
        requires
            file_name_of(path@) is Some,
        ensures
            m.path@ == replace_char_spec(path@, '\\', '/'),
            file_name_of(path@) == Some(m.name@),
            views(m.contents@) == split_keep_spec(content@, search@),
    {
        let name = match file_name(path) {
            Some(n) => n,
            None => String::new(),
        };
        SearchMemo { path: replace_char(path, '\\', '/'), name, contents: split_keep(content, search) }
    }

    /// Whether one of the pieces contains `hit`.
    pub fn contains(&self, hit: &str) -> (r: bool)
        ensures
            r == some_piece_contains(views(self.contents@), hit@),
    {
        let mut i: usize = 0;
        while i < self.contents.len()
            invariant
                i <= self.contents@.len(),
                forall|k: int|
                    0 <= k < i ==> !crate::text::contains_seq(
                        #[trigger] views(self.contents@)[k],
                        hit@,
                    ),
            decreases self.contents.len() - i,
        {
            if contains_str(self.contents[i].as_str(), hit) {
                proof {
                    assert(views(self.contents@)[i as int] == self.contents@[i as int]@);
                }
                return true;
            }
            i = i + 1;
        }
        false
    }
}

/// Whether a piece of a hit is the search string itself (shown highlighted).
pub fn is_hit_piece(piece: &str, search: &str) -> (r: bool)
    ensures
        r == (piece@ == search@),
{
    let p = chars_of(piece);
    let s = chars_of(search);
    let r = p.len() == s.len() && crate::text::occurs_at_exec(&p, &s, 0);
    proof {
        if p@ == s@ {
            assert(p@.subrange(0, s@.len() as int) =~= s@);
        }
        if r {
            assert(p@.subrange(0, p@.len() as int) =~= p@);
        }
    }
    r
}

/// The search hit views of a list of hits.
pub open spec fn hit_views(v: Seq<SearchMemo>) -> Seq<SearchMemoModel> {
    v.map_values(|m: SearchMemo| m@)
}

/// A copy of a list of hits.
pub fn clone_hits(v: &Vec<SearchMemo>) -> (r: Vec<SearchMemo>)
    ensures
        hit_views(r@) == hit_views(v@),
{
    let mut r: Vec<SearchMemo> = Vec::new();
    let mut i: usize = 0;
    while i < v.len()
        invariant
            i <= v@.len(),
            r@.len() == i,
            hit_views(r@) == hit_views(v@.subrange(0, i as int)),
        decreases v.len() - i,
    {
        let m = v[i].clone();
        let ghost before = r@;
        r.push(m);
        proof {
            assert forall|k: int| 0 <= k < i + 1 implies #[trigger] hit_views(r@)[k] == hit_views(
                v@.subrange(0, i + 1),
            )[k] by {
                if k < i {
                    assert(r@[k] == before[k]);
                    assert(hit_views(before)[k] == hit_views(v@.subrange(0, i as int))[k]);
                }
            }
            assert(hit_views(r@) =~= hit_views(v@.subrange(0, i + 1)));
        }
        i = i + 1;
    }
    proof {
        assert(v@.subrange(0, v@.len() as int) =~= v@);
    }
    r
}

/// A progress or final report of a search.
#[derive(Debug)]
pub struct ResultSearch {
    pub search_message: String,
    pub is_search: bool,
    pub search_memos: Vec<SearchMemo>,
}

impl Clone for ResultSearch {
    fn clone(&self) -> (r: Self)
        ensures
            r.search_message@ == self.search_message@,
            r.is_search == self.is_search,
            hit_views(r.search_memos@) == hit_views(self.search_memos@),
    {
        ResultSearch {
            search_message: self.search_message.clone(),
            is_search: self.is_search,
            search_memos: clone_hits(&self.search_memos),
        }
    }
}

impl ResultSearch {
    pub fn new(search_message: &str, is_search: bool, search_memos: Vec<SearchMemo>) -> (r: ResultSearch)
        ensures
            r.search_message@ == search_message@,
            r.is_search == is_search,
            r.search_memos == search_memos,
    {
        ResultSearch { search_message: String::from_str(search_message), is_search, search_memos }
    }
}

/// The right-click menu of a memo.
#[derive(Debug, Clone)]
pub struct MemoMenu {
    pub is_show_menu: bool,
    pub memo_path: String,
}

impl Default for MemoMenu {
    fn default() -> (m: MemoMenu)
        ensures
            !m.is_show_menu,
            m.memo_path@ == Seq::<char>::empty(),
    {
        MemoMenu { is_show_menu: false, memo_path: String::new() }
    }
}

impl MemoMenu {
    /// The command-line arguments of `cmd.exe` that open the memo with its associated
    /// program: "/c", "start" and the memo's path.
    pub fn open_memo_args(&self) -> (r: Vec<String>)
        ensures
            views(r@) == seq!["/c"@, "start"@, self.memo_path@],
    {
        let mut r: Vec<String> = Vec::new();
        r.push(String::from_str("/c"));
        r.push(String::from_str("start"));
        r.push(self.memo_path.clone());
        proof {
            assert(views(r@) =~= seq!["/c"@, "start"@, self.memo_path@]);
        }
        r
    }

    /// The argument that makes the file explorer open the memo's folder with the memo
    /// selected: "/select," and the path written with `\`.
    pub fn folder_select_argument(&self) -> (r: String)
        ensures
            r@ == "/select,"@ + replace_char_spec(self.memo_path@, '/', '\\'),
    {
        String::from_str("/select,").concat(replace_char(self.memo_path.as_str(), '/', '\\').as_str())
    }
}

/// The key by which memos are ordered: the file name in lower case.
pub open spec fn name_key(name: Seq<char>) -> Seq<char> {
    lowercase(name)
}

/// Ordered by the whole lower-cased name, largest first: of two memos, the one with the
/// larger lower-cased name comes first (equal names in any place).
pub open spec fn names_descending(names: Seq<Seq<char>>) -> bool {
    forall|i: int, j: int|
        0 <= i < j < names.len() ==> !seq_less(
            lowercase(#[trigger] names[i]),
            lowercase(#[trigger] names[j]),
        )
}

/// A stable descending arrangement by `name_key` puts larger lower-cased names first.
pub proof fn lemma_name_order<T>(items: Seq<T>, names: Seq<Seq<char>>, out: Seq<T>, out_names: Seq<Seq<char>>)
    requires
        names.len() == items.len(),
        sorted_descending_by(items, names.map_values(|n: Seq<char>| name_key(n)), out),
        out_names.len() == out.len(),
        forall|k: int, q: int|
            0 <= k < out.len() && 0 <= q < items.len() && out[k] == items[q] ==> out_names[k]
                == names[q],
    ensures
        names_descending(out_names),
{
    let keys = names.map_values(|n: Seq<char>| name_key(n));
    let perm = choose|perm: Seq<int>| arranged_by(items, keys, out, perm);
    assert forall|i: int, j: int| 0 <= i < j < out_names.len() implies !seq_less(
        lowercase(#[trigger] out_names[i]),
        lowercase(#[trigger] out_names[j]),
    ) by {
        assert(out[i] == items[perm[i]]);
        assert(out[j] == items[perm[j]]);
        assert(out_names[i] == names[perm[i]]);
        assert(out_names[j] == names[perm[j]]);
        assert(seq_less(keys[perm[j]], keys[perm[i]]) || keys[perm[i]] == keys[perm[j]]);
        if seq_less(keys[perm[j]], keys[perm[i]]) {
            if seq_less(keys[perm[i]], keys[perm[j]]) {
                crate::order::lemma_seq_less_transitive(keys[perm[j]], keys[perm[i]], keys[perm[j]]);
                crate::order::lemma_seq_less_irreflexive(keys[perm[j]]);
            }
        } else {
            crate::order::lemma_seq_less_irreflexive(keys[perm[i]]);
        }
    }
}

/// Orders memos by file name, lower-cased, last name first (stably).
pub fn sort_memos(memos: Vec<Memo>) -> (out: Vec<Memo>)
    ensures
        sorted_descending_by(memos@, memos@.map_values(|m: Memo| name_key(m.name@)), out@),
        names_descending(out@.map_values(|m: Memo| m.name@)),
{
    let mut keys: Vec<Vec<char>> = Vec::new();
    let mut i: usize = 0;
    while i < memos.len()
        invariant
            i <= memos@.len(),
            keys@.len() == i,
            forall|k: int| 0 <= k < i ==> (#[trigger] keys@[k])@ == name_key(memos@[k].name@),
        decreases memos.len() - i,
    {
        let low = to_lowercase(memos[i].name.as_str());
        keys.push(chars_of(low.as_str()));
        i = i + 1;
    }
    proof {
        assert(keys@.map_values(|k: Vec<char>| k@) =~= memos@.map_values(
            |m: Memo| name_key(m.name@),
        ));
    }
    let ghost items = memos@;
    let out = sort_descending(memos, keys);
    proof {
        let names = items.map_values(|m: Memo| m.name@);
        assert(names.map_values(|n: Seq<char>| name_key(n)) =~= items.map_values(
            |m: Memo| name_key(m.name@),
        ));
        lemma_name_order(items, names, out@, out@.map_values(|m: Memo| m.name@));
    }
    out
}

/// Orders search hits by file name, lower-cased, last name first (stably).
pub fn sort_hits(memos: Vec<SearchMemo>) -> (out: Vec<SearchMemo>)
    ensures
        sorted_descending_by(memos@, memos@.map_values(|m: SearchMemo| name_key(m.name@)), out@),
        names_descending(out@.map_values(|m: SearchMemo| m.name@)),
{
    let mut keys: Vec<Vec<char>> = Vec::new();
    let mut i: usize = 0;
    while i < memos.len()
        invariant
            i <= memos@.len(),
            keys@.len() == i,
            forall|k: int| 0 <= k < i ==> (#[trigger] keys@[k])@ == name_key(memos@[k].name@),
        decreases memos.len() - i,
    {
        let low = to_lowercase(memos[i].name.as_str());
        keys.push(chars_of(low.as_str()));
        i = i + 1;
    }
    proof {
        assert(keys@.map_values(|k: Vec<char>| k@) =~= memos@.map_values(
            |m: SearchMemo| name_key(m.name@),
        ));
    }
    let ghost items = memos@;
    let out = sort_descending(memos, keys);
    proof {
        let names = items.map_values(|m: SearchMemo| m.name@);
        assert(names.map_values(|n: Seq<char>| name_key(n)) =~= items.map_values(
            |m: SearchMemo| name_key(m.name@),
        ));
        lemma_name_order(items, names, out@, out@.map_values(|m: SearchMemo| m.name@));
    }
    out
}

} // verus!
