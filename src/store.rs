//! The process-local tier: exams and the summary list, memoized from the
//! corpus until invalidated.

use vstd::prelude::*;
use crate::exam::{indexed, opt_view, summaries_view, summary, copy_summaries, Simulado, SimuladoList, SimuladoListView, SimuladoView};
use crate::names::{ends_with_json, id_from_file_name, id_of_name, is_json_name, json_suffix, names_document_of};

verus! {

/// One file of the corpus directory, in directory order: its name and, where
/// it could be read and parsed as an exam, the parsed document.
pub struct CorpusFile {
    pub file_name: String,
    pub document: Option<Simulado>,
}

/// The document of exam `id` in the corpus: that of the first file named
/// `<id>.json`, if any, and if it parsed.
pub open spec fn corpus_document(files: Seq<CorpusFile>, id: Seq<char>) -> Option<SimuladoView>
    decreases files.len(),
{
    if files.len() == 0 {
        None
    } else if files[0].file_name@ == id + json_suffix() {
        opt_view(files[0].document)
    } else {
        corpus_document(files.drop_first(), id)
    }
}

/// What the local tier returns for `id`, given its cached exams and the
/// corpus: the cached exam, else the corpus document with its questions
/// indexed in source order.
pub open spec fn resolve(
    cached: Map<Seq<char>, SimuladoView>,
    files: Seq<CorpusFile>,
    id: Seq<char>,
) -> Option<SimuladoView> {
    if cached.contains_key(id) {
        Some(cached[id])
    } else {
        match corpus_document(files, id) {
            Some(d) => Some(indexed(d)),
            None => None,
        }
    }
}

/// The cached exams after resolving `id`: a document loaded from the corpus
/// is added; nothing else changes.
pub open spec fn after_resolve(
    cached: Map<Seq<char>, SimuladoView>,
    files: Seq<CorpusFile>,
    id: Seq<char>,
) -> Map<Seq<char>, SimuladoView> {
    match resolve(cached, files, id) {
        Some(d) => cached.insert(id, d),
        None => cached,
    }
}

/// The summary list built from the first `n` files of the corpus, in order,
/// with the cached exams that building it leaves.
pub open spec fn scan(
    cached: Map<Seq<char>, SimuladoView>,
    files: Seq<CorpusFile>,
    n: nat,
) -> (Seq<SimuladoListView>, Map<Seq<char>, SimuladoView>)
    decreases n,
{
    if n == 0 {
        (Seq::empty(), cached)
    } else {
        let (list, m) = scan(cached, files, (n - 1) as nat);
        let name = files[n - 1].file_name@;
        if n <= files.len() && is_json_name(name) {
            let id = id_of_name(name);
            match resolve(m, files, id) {
                Some(d) => (list.push(summary(id, d)), after_resolve(m, files, id)),
                None => (list, m),
            }
        } else {
            (list, m)
        }
    }
}

/// The local tier: the corpus directory, the exams loaded from it, and the
/// summary list.
pub struct SimuladoStore {
    path: String,
    cache: Vec<(String, Simulado)>,
    list_cache: Vec<SimuladoList>,
    exams: Ghost<Map<Seq<char>, SimuladoView>>,
}

impl SimuladoStore {
    /// The exams held, by id.
    pub closed spec fn cached_exams(&self) -> Map<Seq<char>, SimuladoView> {
        self.exams@
    }

    /// The corpus directory.
    pub closed spec fn dir(&self) -> Seq<char> {
        self.path@
    }

    /// The corpus directory.
    pub fn path(&self) -> (r: &str)
        ensures
            r@ == self.dir(),
    {
        self.path.as_str()
    }

    /// The summary list held; empty when none is held.
    pub closed spec fn cached_list(&self) -> Seq<SimuladoListView> {
        summaries_view(self.list_cache@)
    }

    /// The cache holds one entry per id, and the entries are the exams held.
    pub closed spec fn wf(&self) -> bool {
        &&& forall|i: int, j: int|
            0 <= i < j < self.cache@.len() ==> #[trigger] self.cache@[i].0@
                != #[trigger] self.cache@[j].0@
        &&& forall|i: int|
            0 <= i < self.cache@.len() ==> {
                &&& self.exams@.contains_key(#[trigger] self.cache@[i].0@)
                &&& self.exams@[self.cache@[i].0@] == self.cache@[i].1@
            }
        &&& forall|k: Seq<char>|
            #[trigger] self.exams@.contains_key(k) ==> exists|i: int|
                0 <= i < self.cache@.len() && #[trigger] self.cache@[i].0@ == k
    }

    /// A store for the corpus at `path`, with the summary list built from
    /// `corpus` (the files found there) at once.
    pub fn new(path: &str, corpus: &Vec<CorpusFile>) -> (r: SimuladoStore)
        ensures
            r.wf(),
            r.dir() == path@,
            r.cached_list() == scan(Map::empty(), corpus@, corpus@.len()).0,
            r.cached_exams() == scan(Map::empty(), corpus@, corpus@.len()).1,
    {
        let mut store = SimuladoStore {
            path: path.to_owned(),
            cache: Vec::new(),
            list_cache: Vec::new(),
            exams: Ghost(Map::empty()),
        };
        let _ = store.get_simulados_list(corpus);
        store
    }

    /// The document of exam `id` in the corpus, with its questions indexed in
    /// source order; `None` where no file holds it or it did not parse.
    pub fn load_simulado(&self, id: &str, corpus: &Vec<CorpusFile>) -> (r: Option<Simulado>)
        ensures
            opt_view(r) == match corpus_document(corpus@, id@) {
                Some(d) => Some(indexed(d)),
                None => None,
            },
    {
        let mut i: usize = 0;
        assert(corpus@.subrange(0, corpus@.len() as int) =~= corpus@);
        while i < corpus.len()
            invariant
                i <= corpus@.len(),
                corpus_document(corpus@, id@) == corpus_document(
                    corpus@.subrange(i as int, corpus@.len() as int),
                    id@,
                ),
            decreases corpus@.len() - i,
        {
            let ghost rest = corpus@.subrange(i as int, corpus@.len() as int);
            assert(rest.drop_first() =~= corpus@.subrange(i + 1, corpus@.len() as int));
            if names_document_of(corpus[i].file_name.as_str(), id) {
                match &corpus[i].document {
                    Some(d) => {
                        let mut s = d.duplicate();
                        s.assign_original_indexes();
                        return Some(s);
                    },
                    None => {
                        return None;
                    },
                }
            }
            i = i + 1;
        }
        None
    }

    /// The cached exam `id`, without consulting the corpus.
    pub fn cached_simulado(&self, id: &str) -> (r: Option<Simulado>)
        requires
            self.wf(),
        ensures
            opt_view(r) == if self.cached_exams().contains_key(id@) {
                Some(self.cached_exams()[id@])
            } else {
                None
            },
    {
        let mut i: usize = 0;
        while i < self.cache.len()
            invariant
                self.wf(),
                i <= self.cache@.len(),
                forall|j: int| 0 <= j < i ==> #[trigger] self.cache@[j].0@ != id@,
            decreases self.cache@.len() - i,
        {
            if self.cache[i].0 == id.to_owned() {
                return Some(self.cache[i].1.duplicate());
            }
            i = i + 1;
        }
        None
    }

    /// Exam `id`: the cached copy, else the corpus document, which is then
    /// cached. Nothing is cached when the corpus has no parsed document for
    /// `id`.
    pub fn get_simulado(&mut self, id: &str, corpus: &Vec<CorpusFile>) -> (r: Option<Simulado>)
        requires
            old(self).wf(),
        ensures
            final(self).wf(),
            final(self).dir() == old(self).dir(),
            final(self).cached_list() == old(self).cached_list(),
            opt_view(r) == resolve(old(self).cached_exams(), corpus@, id@),
            final(self).cached_exams() == after_resolve(old(self).cached_exams(), corpus@, id@),
    {
        let cached = self.cached_simulado(id);
        if cached.is_some() {
            return cached;
        }
        match self.load_simulado(id, corpus) {
            Some(s) => {
                let copy = s.duplicate();
                let ghost old_cache = self.cache@;
                self.cache.push((id.to_owned(), copy));
                self.exams = Ghost(self.exams@.insert(id@, s@));
                assert forall|k: Seq<char>| #[trigger] self.exams@.contains_key(k) implies exists|i: int|
                    0 <= i < self.cache@.len() && #[trigger] self.cache@[i].0@ == k by {
                    if k != id@ {
                        let i = choose|i: int| 0 <= i < old_cache.len() && #[trigger] old_cache[i].0@ == k;
                        assert(self.cache@[i].0@ == k);
                    } else {
                        assert(self.cache@[old_cache.len() as int].0@ == k);
                    }
                }
                Some(s)
            },
            None => None,
        }
    }

    /// The summary list: the cached one when not empty, else one built from
    /// the corpus files in order, each `.json` file resolved as by
    /// `get_simulado` and summarized under its id, files that give no exam
    /// left out. A built list is cached.
    pub fn get_simulados_list(&mut self, corpus: &Vec<CorpusFile>) -> (r: Vec<SimuladoList>)
        requires
            old(self).wf(),
        ensures
            final(self).wf(),
            final(self).dir() == old(self).dir(),
            old(self).cached_list().len() > 0 ==> {
                &&& summaries_view(r@) == old(self).cached_list()
                &&& final(self).cached_list() == old(self).cached_list()
                &&& final(self).cached_exams() == old(self).cached_exams()
            },
            old(self).cached_list().len() == 0 ==> {
                &&& summaries_view(r@) == scan(old(self).cached_exams(), corpus@, corpus@.len()).0
                &&& final(self).cached_list() == summaries_view(r@)
                &&& final(self).cached_exams() == scan(
                    old(self).cached_exams(),
                    corpus@,
                    corpus@.len(),
                ).1
            },
    {
        if self.list_cache.len() > 0 {
            return copy_summaries(&self.list_cache);
        }
        let ghost start = self.cached_exams();
        let mut list: Vec<SimuladoList> = Vec::new();
        let mut i: usize = 0;
        while i < corpus.len()
            invariant
                self.wf(),
                self.dir() == old(self).dir(),
                self.cached_list() == old(self).cached_list(),
                i <= corpus@.len(),
                summaries_view(list@) == scan(start, corpus@, i as nat).0,
                self.cached_exams() == scan(start, corpus@, i as nat).1,
            decreases corpus@.len() - i,
        {
            let name = corpus[i].file_name.as_str();
            if ends_with_json(name) {
                let id = id_from_file_name(name);
                match self.get_simulado(id.as_str(), corpus) {
                    Some(s) => {
                        let entry = s.summary(id.as_str());
                        let ghost before = list@;
                        list.push(entry);
                        assert(summaries_view(list@) =~= summaries_view(before).push(entry@));
                    },
                    None => {},
                }
            }
            i = i + 1;
        }
        let cached = copy_summaries(&list);
        let ghost before = *self;
        self.list_cache = cached;
        assert(self.cache@ == before.cache@ && self.exams@ == before.exams@);
        list
    }

    /// Drops every cached exam and the summary list.
    pub fn invalidate_cache(&mut self)
        ensures
            final(self).wf(),
            final(self).dir() == old(self).dir(),
            final(self).cached_exams() == Map::<Seq<char>, SimuladoView>::empty(),
            final(self).cached_list() == Seq::<SimuladoListView>::empty(),
    {
        self.cache.clear();
        self.list_cache.clear();
        self.exams = Ghost(Map::empty());
        assert(summaries_view(self.list_cache@) =~= Seq::<SimuladoListView>::empty());
    }
}

} // verus!
