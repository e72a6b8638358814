//! The exam documents: questions, exams and exam summaries, with their
//! mathematical views.

use vstd::prelude::*;

verus! {

/// The text of each string in a sequence.
pub open spec fn texts(v: Seq<String>) -> Seq<Seq<char>> {
    v.map_values(|s: String| s@)
}

pub struct QuestaoView {
    pub id: i64,
    pub enunciado: Seq<char>,
    pub alternativas: Seq<Seq<char>>,
    pub resposta_correta: Seq<char>,
    pub explicacao: Seq<char>,
    pub original_index: nat,
}

pub struct SimuladoView {
    pub titulo: Seq<char>,
    pub descricao: Seq<char>,
    pub questoes: Seq<QuestaoView>,
}

pub struct SimuladoListView {
    pub id: Seq<char>,
    pub titulo: Seq<char>,
    pub descricao: Seq<char>,
    pub questoes_count: nat,
}

/// One question: a prompt, its answer choices, and the correct choice given
/// by value.
#[derive(Debug)]
pub struct Questao {
    pub id: i64,
    pub enunciado: String,
    pub alternativas: Vec<String>,
    pub resposta_correta: String,
    pub explicacao: String,
    /// Position of the question in its source document.
    pub original_index: usize,
}

/// An exam document.
#[derive(Debug)]
pub struct Simulado {
    pub titulo: String,
    pub descricao: String,
    pub questoes: Vec<Questao>,
}

/// The summary of one exam, as listed to clients.
#[derive(Debug)]
pub struct SimuladoList {
    pub id: String,
    pub titulo: String,
    pub descricao: String,
    pub questoes_count: usize,
}

impl View for Questao {
    type V = QuestaoView;

    open spec fn view(&self) -> QuestaoView {
        QuestaoView {
            id: self.id,
            enunciado: self.enunciado@,
            alternativas: texts(self.alternativas@),
            resposta_correta: self.resposta_correta@,
            explicacao: self.explicacao@,
            original_index: self.original_index as nat,
        }
    }
}

/// The views of a sequence of questions.
pub open spec fn questoes_view(v: Seq<Questao>) -> Seq<QuestaoView> {
    v.map_values(|q: Questao| q@)
}

impl View for Simulado {
    type V = SimuladoView;

    open spec fn view(&self) -> SimuladoView {
        SimuladoView {
            titulo: self.titulo@,
            descricao: self.descricao@,
            questoes: questoes_view(self.questoes@),
        }
    }
}

impl View for SimuladoList {
    type V = SimuladoListView;

    open spec fn view(&self) -> SimuladoListView {
        SimuladoListView {
            id: self.id@,
            titulo: self.titulo@,
            descricao: self.descricao@,
            questoes_count: self.questoes_count as nat,
        }
    }
}

/// The views of a sequence of summaries.
pub open spec fn summaries_view(v: Seq<SimuladoList>) -> Seq<SimuladoListView> {
    v.map_values(|s: SimuladoList| s@)
}

/// The view of an optional exam.
pub open spec fn opt_view(o: Option<Simulado>) -> Option<SimuladoView> {
    match o {
        Some(s) => Some(s@),
        None => None,
    }
}

/// The exam with each question's `original_index` set to its position.
pub open spec fn indexed(s: SimuladoView) -> SimuladoView {
    SimuladoView {
        questoes: s.questoes.map(|i: int, q: QuestaoView| QuestaoView { original_index: i as nat, ..q }),
        ..s
    }
}

/// The summary of the exam `s` listed under `id`.
pub open spec fn summary(id: Seq<char>, s: SimuladoView) -> SimuladoListView {
    SimuladoListView {
        id,
        titulo: s.titulo,
        descricao: s.descricao,
        questoes_count: s.questoes.len(),
    }
}

/// Whether `b` is `a` with each question's choices possibly reordered: every
/// other field is kept, and each question keeps the same multiset of choices.
pub open spec fn same_but_choice_order(a: SimuladoView, b: SimuladoView) -> bool {
    &&& b.titulo == a.titulo
    &&& b.descricao == a.descricao
    &&& b.questoes.len() == a.questoes.len()
    &&& forall|i: int|
        0 <= i < a.questoes.len() ==> #[trigger] same_question_but_order(
            a.questoes[i],
            b.questoes[i],
        )
}

/// Whether `b` is the question `a` with its choices possibly reordered.
pub open spec fn same_question_but_order(a: QuestaoView, b: QuestaoView) -> bool {
    &&& b.id == a.id
    &&& b.enunciado == a.enunciado
    &&& b.resposta_correta == a.resposta_correta
    &&& b.explicacao == a.explicacao
    &&& b.original_index == a.original_index
    &&& b.alternativas.len() == a.alternativas.len()
    &&& b.alternativas.to_multiset() == a.alternativas.to_multiset()
}

/// A copy of a sequence of strings.
pub fn copy_strings(v: &Vec<String>) -> (r: Vec<String>)
    ensures
        r@ == v@,
{
    let mut r: Vec<String> = Vec::new();
    let mut i: usize = 0;
    while i < v.len()
        invariant
            i <= v@.len(),
            r@ == v@.subrange(0, i as int),
        decreases v@.len() - i,
    {
        r.push(v[i].clone());
        i = i + 1;
    }
    r
}

impl Questao {
    /// A copy of this question.
    pub fn duplicate(&self) -> (r: Questao)
        ensures
            r@ == self@,
    {
        Questao {
            id: self.id,
            enunciado: self.enunciado.clone(),
            alternativas: copy_strings(&self.alternativas),
            resposta_correta: self.resposta_correta.clone(),
            explicacao: self.explicacao.clone(),
            original_index: self.original_index,
        }
    }
}

impl Simulado {
    /// A copy of this exam.
    pub fn duplicate(&self) -> (r: Simulado)
        ensures
            r@ == self@,
    {
        let mut questoes: Vec<Questao> = Vec::new();
        let mut i: usize = 0;
        while i < self.questoes.len()
            invariant
                i <= self.questoes@.len(),
                questoes@.len() == i,
                forall|j: int| 0 <= j < i ==> #[trigger] questoes@[j]@ == self.questoes@[j]@,
            decreases self.questoes@.len() - i,
        {
            questoes.push(self.questoes[i].duplicate());
            i = i + 1;
        }
        assert(questoes_view(questoes@) =~= questoes_view(self.questoes@));
        Simulado {
            titulo: self.titulo.clone(),
            descricao: self.descricao.clone(),
            questoes,
        }
    }

    /// Sets each question's `original_index` to its position in the exam.
    pub fn assign_original_indexes(&mut self)
        ensures
            final(self)@ == indexed(old(self)@),
    {
        let ghost before = self@;
        let mut i: usize = 0;
        while i < self.questoes.len()
            invariant
                i <= self.questoes@.len(),
                self.questoes@.len() == before.questoes.len(),
                self.titulo@ == before.titulo,
                self.descricao@ == before.descricao,
                forall|j: int|
                    0 <= j < i ==> #[trigger] self.questoes@[j]@ == indexed(before).questoes[j],
                forall|j: int|
                    i <= j < self.questoes@.len() ==> #[trigger] self.questoes@[j]@
                        == before.questoes[j],
            decreases self.questoes@.len() - i,
        {
            let mut q = self.questoes[i].duplicate();
            q.original_index = i;
            self.questoes.set(i, q);
            i = i + 1;
        }
        assert(self@.questoes =~= indexed(before).questoes);
    }

    /// The summary of this exam, listed under `id`.
    pub fn summary(&self, id: &str) -> (r: SimuladoList)
        ensures
            r@ == summary(id@, self@),
    {
        SimuladoList {
            id: id.to_owned(),
            titulo: self.titulo.clone(),
            descricao: self.descricao.clone(),
            questoes_count: self.questoes.len(),
        }
    }
}

impl SimuladoList {
    /// A copy of this summary.
    pub fn duplicate(&self) -> (r: SimuladoList)
        ensures
            r@ == self@,
    {
        SimuladoList {
            id: self.id.clone(),
            titulo: self.titulo.clone(),
            descricao: self.descricao.clone(),
            questoes_count: self.questoes_count,
        }
    }
}

/// A copy of a sequence of summaries.
pub fn copy_summaries(v: &Vec<SimuladoList>) -> (r: Vec<SimuladoList>)
    ensures
        summaries_view(r@) == summaries_view(v@),
{
    let mut r: Vec<SimuladoList> = Vec::new();
    let mut i: usize = 0;
    while i < v.len()
        invariant
            i <= v@.len(),
            r@.len() == i,
            forall|j: int| 0 <= j < i ==> #[trigger] r@[j]@ == v@[j]@,
        decreases v@.len() - i,
    {
        r.push(v[i].duplicate());
        i = i + 1;
    }
    assert(summaries_view(r@) =~= summaries_view(v@));
    r
}

} // verus!
