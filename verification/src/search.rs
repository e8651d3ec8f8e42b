use vstd::prelude::*;

use crate::folders::{file_name_of, tab_folder_names, tab_folders};
use crate::memo::{
    clone_hits, hit_views, name_key, sort_hits, ResultSearch, SearchMemo, SearchMemoModel,
};
use crate::order::sorted_descending_by;
use crate::text::{
    contains_seq, decimal, decimal_string, join_path, join_spec, lemma_split_keep_finds, replace_char_spec,
    split_keep_spec, views,
};

verus! {

/// The report sent when a search begins.
pub open spec fn loading_message() -> Seq<char> {
    "ファイルを取得中です..."@
}

/// The report of `n` hits.
pub open spec fn hit_message(n: nat) -> Seq<char> {
    decimal(n) + " ファイルがヒットしました。"@
}

/// The hit that a memo file gives for the search string `search`.
pub open spec fn hit_of(path: Seq<char>, content: Seq<char>, search: Seq<char>) -> SearchMemoModel {
    SearchMemoModel {
        path: replace_char_spec(path, '\\', '/'),
        name: file_name_of(path).unwrap(),
        contents: split_keep_spec(content, search),
    }
}

/// The folders a search goes through: the tab folders among `names`, inside
/// `exe_path`, in their order.
pub fn search_folders(exe_path: &str, names: &Vec<String>) -> (r: Vec<String>)
    ensures
        views(r@) == tab_folder_names(views(names@)).map_values(
            |n: Seq<char>| join_spec(exe_path@, n),
        ),
{
    let tabs = tab_folders(names);
    let ghost target = tab_folder_names(views(names@)).map_values(
        |n: Seq<char>| join_spec(exe_path@, n),
    );
    let mut out: Vec<String> = Vec::new();
    let mut i: usize = 0;
    while i < tabs.len()
        invariant
            i <= tabs@.len(),
            views(tabs@) == tab_folder_names(views(names@)),
            target == tab_folder_names(views(names@)).map_values(
                |n: Seq<char>| join_spec(exe_path@, n),
            ),
            views(out@) == target.subrange(0, i as int),
        decreases tabs.len() - i,
    {
        let ghost before = views(out@);
        let p = join_path(exe_path, tabs[i].as_str());
        let ghost pv = p@;
        out.push(p);
        proof {
            assert(views(tabs@)[i as int] == tabs@[i as int]@);
            assert(target[i as int] == join_spec(exe_path@, tabs@[i as int]@));
            assert(views(out@) =~= before.push(pv));
            assert(views(out@) =~= target.subrange(0, i + 1));
        }
        i = i + 1;
    }
    proof {
        assert(target.subrange(0, target.len() as int) =~= target);
    }
    out
}

/// A search in progress: the search string and the hits so far.
pub struct SearchRun {
    pub search: String,
    pub memos: Vec<SearchMemo>,
}

impl SearchRun {
    /// Begins a search for `search`, with the report that files are being gathered.
    pub fn start(search: &str) -> (r: (SearchRun, ResultSearch))
        ensures
            r.0.search@ == search@,
            r.0.memos@.len() == 0,
            r.1.search_message@ == loading_message(),
            r.1.is_search,
            r.1.search_memos@.len() == 0,
    {
        let run = SearchRun { search: String::from_str(search), memos: Vec::new() };
        let report = ResultSearch::new("ファイルを取得中です...", true, Vec::new());
        (run, report)
    }

    /// Looks at the memo file at `path` (which must name a file), holding `content`.
    /// When the search string occurs in its text, it becomes a hit and a report of the
    /// hits so far comes back; otherwise nothing changes.
    pub fn offer(&mut self, path: &str, content: &str) -> (r: Option<ResultSearch>)
        requires
            file_name_of(path@) is Some,
        ensures
            final(self).search == old(self).search,
            contains_seq(content@, old(self).search@) ==> {
                &&& hit_views(final(self).memos@) == hit_views(old(self).memos@).push(
                    hit_of(path@, content@, old(self).search@),
                )
                &&& r matches Some(rep) && {
                    &&& rep.search_message@ == hit_message(final(self).memos@.len())
                    &&& rep.is_search
                    &&& hit_views(rep.search_memos@) == hit_views(final(self).memos@)
                }
            },
            !contains_seq(content@, old(self).search@) ==> r is None && final(self).memos == old(
                self,
            ).memos,
    {
        proof {
            lemma_split_keep_finds(content@, self.search@);
        }
        let m = SearchMemo::new(path, content, self.search.as_str());
        if !m.contains(self.search.as_str()) {
            return None;
        }
        let ghost before = self.memos@;
        self.memos.push(m);
        proof {
            assert(hit_views(self.memos@) =~= hit_views(before).push(
                hit_of(path@, content@, self.search@),
            ));
        }
        let message = decimal_string(self.memos.len()).concat(" ファイルがヒットしました。");
        let report = ResultSearch::new(message.as_str(), true, clone_hits(&self.memos));
        Some(report)
    }

    /// After a folder: the hits are ordered by lower-cased file name, last first.
    pub fn end_folder(&mut self)
        ensures
            final(self).search == old(self).search,
            sorted_descending_by(
                old(self).memos@,
                old(self).memos@.map_values(|m: SearchMemo| name_key(m.name@)),
                final(self).memos@,
            ),
            crate::memo::names_descending(final(self).memos@.map_values(|m: SearchMemo| m.name@)),
    {
        let mut memos: Vec<SearchMemo> = Vec::new();
        std::mem::swap(&mut memos, &mut self.memos);
        self.memos = sort_hits(memos);
    }

    /// The final report: the number of hits and the hits, the search over.
    pub fn finish(self) -> (r: ResultSearch)
        ensures
            r.search_message@ == hit_message(self.memos@.len()),
            !r.is_search,
            r.search_memos == self.memos,
    {
        let message = decimal_string(self.memos.len()).concat(" ファイルがヒットしました。");
        ResultSearch::new(message.as_str(), false, self.memos)
    }
}

} // verus!
