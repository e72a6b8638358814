//! User-state rules: themes, and progress records joined with exam metadata.

use vstd::prelude::*;
use crate::exam::{SimuladoList, SimuladoListView};

verus! {

/// The characters of `"light"`.
pub open spec fn light() -> Seq<char> {
    seq!['l', 'i', 'g', 'h', 't']
}

/// The characters of `"dark"`.
pub open spec fn dark() -> Seq<char> {
    seq!['d', 'a', 'r', 'k']
}

/// Whether `theme` is one that can be saved.
pub fn is_valid_theme(theme: &str) -> (r: bool)
    ensures
        r == (theme@ == light() || theme@ == dark()),
{
    proof {
        reveal_strlit("light");
        reveal_strlit("dark");
    }
    let t = theme.to_owned();
    let l = "light".to_owned();
    let d = "dark".to_owned();
    assert(l@ =~= light());
    assert(d@ =~= dark());
    t == l || t == d
}

/// The theme to report: the saved one, else `"light"`.
pub fn theme_or_default(saved: Option<String>) -> (r: String)
    ensures
        r@ == match saved {
            Some(t) => t@,
            None => light(),
        },
{
    proof {
        reveal_strlit("light");
    }
    match saved {
        Some(t) => t,
        None => {
            let l = "light".to_owned();
            assert(l@ =~= light());
            l
        },
    }
}

/// Saved progress on one exam, with that exam's metadata.
pub struct ProgressEntry {
    pub simulado_id: String,
    pub titulo: String,
    pub descricao: String,
    pub questoes_count: usize,
    /// The saved progress document, as stored.
    pub progress: String,
}

pub struct ProgressEntryView {
    pub simulado_id: Seq<char>,
    pub titulo: Seq<char>,
    pub descricao: Seq<char>,
    pub questoes_count: nat,
    pub progress: Seq<char>,
}

impl View for ProgressEntry {
    type V = ProgressEntryView;

    open spec fn view(&self) -> ProgressEntryView {
        ProgressEntryView {
            simulado_id: self.simulado_id@,
            titulo: self.titulo@,
            descricao: self.descricao@,
            questoes_count: self.questoes_count as nat,
            progress: self.progress@,
        }
    }
}

/// The summary listed last under `id`, if any.
pub open spec fn find_summary(list: Seq<SimuladoList>, id: Seq<char>) -> Option<SimuladoListView>
    decreases list.len(),
{
    if list.len() == 0 {
        None
    } else if list.last().id@ == id {
        Some(list.last()@)
    } else {
        find_summary(list.drop_last(), id)
    }
}

/// The entries for the first `n` progress rows `(exam id, progress)`, in
/// order; rows of exams without a summary are left out.
pub open spec fn joined(rows: Seq<(String, String)>, list: Seq<SimuladoList>, n: nat) -> Seq<ProgressEntryView>
    decreases n,
{
    if n == 0 || n > rows.len() {
        Seq::empty()
    } else {
        let prev = joined(rows, list, (n - 1) as nat);
        let row = rows[n - 1];
        match find_summary(list, row.0@) {
            Some(s) => prev.push(ProgressEntryView {
                simulado_id: row.0@,
                titulo: s.titulo,
                descricao: s.descricao,
                questoes_count: s.questoes_count,
                progress: row.1@,
            }),
            None => prev,
        }
    }
}

/// The position of the summary listed last under `id`.
fn find_summary_index(list: &Vec<SimuladoList>, id: &String) -> (r: Option<usize>)
    ensures
        match r {
            Some(k) => k < list@.len() && find_summary(list@, id@) == Some(list@[k as int]@),
            None => find_summary(list@, id@) is None,
        },
{
    let mut i: usize = list.len();
    assert(list@.subrange(0, list@.len() as int) =~= list@);
    while i > 0
        invariant
            i <= list@.len(),
            find_summary(list@, id@) == find_summary(list@.subrange(0, i as int), id@),
        decreases i,
    {
        let ghost pre = list@.subrange(0, i as int);
        assert(pre.drop_last() =~= list@.subrange(0, i - 1));
        if list[i - 1].id == *id {
            return Some(i - 1);
        }
        i = i - 1;
    }
    None
}

/// Joins progress rows `(exam id, progress)` with the summary list: one
/// entry per row whose exam is listed, in row order.
pub fn join_progress(rows: &Vec<(String, String)>, list: &Vec<SimuladoList>) -> (r: Vec<ProgressEntry>)
    ensures
        r@.map_values(|e: ProgressEntry| e@) == joined(rows@, list@, rows@.len()),
{
    let mut out: Vec<ProgressEntry> = Vec::new();
    let mut i: usize = 0;
    while i < rows.len()
        invariant
            i <= rows@.len(),
            out@.map_values(|e: ProgressEntry| e@) == joined(rows@, list@, i as nat),
        decreases rows@.len() - i,
    {
        let row = &rows[i];
        match find_summary_index(list, &row.0) {
            Some(k) => {
                let s = &list[k];
                let ghost before = out@;
                out.push(ProgressEntry {
                    simulado_id: row.0.clone(),
                    titulo: s.titulo.clone(),
                    descricao: s.descricao.clone(),
                    questoes_count: s.questoes_count,
                    progress: row.1.clone(),
                });
                assert(out@.map_values(|e: ProgressEntry| e@) =~= before.map_values(
                    |e: ProgressEntry| e@,
                ).push(out@.last()@));
            },
            None => {},
        }
        i = i + 1;
    }
    out
}

} // verus!
