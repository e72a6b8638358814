//! Per-request reordering of answer choices.

use vstd::prelude::*;
use rand::seq::SliceRandom;
use crate::exam::{same_but_choice_order, same_question_but_order, texts, Questao, QuestaoView, Simulado, SimuladoView};

verus! {

/// Relies on `rand::rng` and `rand::seq::SliceRandom::shuffle`: the shuffle
/// only swaps elements, so the result is a permutation of the input.
#[verifier::external_body]
fn shuffle_strings(v: &mut Vec<String>)
    ensures
        final(v)@.len() == old(v)@.len(),
        texts(final(v)@).to_multiset() == texts(old(v)@).to_multiset(),
{
    let mut rng = rand::rng();
    v.shuffle(&mut rng);
}

impl Questao {
    /// Puts the choices in a random order; every other field is kept.
    pub fn shuffle_alternatives(&mut self)
        ensures
            same_question_but_order(old(self)@, final(self)@),
    {
        shuffle_strings(&mut self.alternativas);
    }
}

impl Simulado {
    /// Puts the choices of every question in a random order; every other
    /// field is kept.
    pub fn shuffle_all_alternatives(&mut self)
        ensures
            same_but_choice_order(old(self)@, final(self)@),
    {
        let ghost before = self@;
        let mut i: usize = 0;
        while i < self.questoes.len()
            invariant
                i <= self.questoes@.len(),
                self.questoes@.len() == before.questoes.len(),
                self.titulo@ == before.titulo,
                self.descricao@ == before.descricao,
                forall|j: int|
                    0 <= j < i ==> same_question_but_order(
                        before.questoes[j],
                        #[trigger] self.questoes@[j]@,
                    ),
                forall|j: int|
                    i <= j < self.questoes@.len() ==> #[trigger] self.questoes@[j]@
                        == before.questoes[j],
            decreases self.questoes@.len() - i,
        {
            let mut q = self.questoes[i].duplicate();
            q.shuffle_alternatives();
            self.questoes.set(i, q);
            i = i + 1;
        }
        assert forall|j: int| 0 <= j < before.questoes.len() implies #[trigger] same_question_but_order(
            before.questoes[j],
            self@.questoes[j],
        ) by {
            assert(self@.questoes[j] == self.questoes@[j]@);
        }
    }
}

/// Reordering choices keeps the correct choice among them.
pub proof fn lemma_correct_choice_kept(a: QuestaoView, b: QuestaoView)
    requires
        same_question_but_order(a, b),
        a.alternativas.contains(a.resposta_correta),
    ensures
        b.resposta_correta == a.resposta_correta,
        b.alternativas.contains(b.resposta_correta),
{
    broadcast use vstd::seq_lib::group_to_multiset_ensures;
    assert(a.alternativas.to_multiset().count(a.resposta_correta) > 0);
    assert(b.alternativas.to_multiset().count(b.resposta_correta) > 0);
}

/// Two reorderings of one exam are reorderings of each other.
pub proof fn lemma_reorderings_agree(a: SimuladoView, b: SimuladoView, c: SimuladoView)
    requires
        same_but_choice_order(a, b),
        same_but_choice_order(a, c),
    ensures
        same_but_choice_order(b, c),
{
    assert forall|i: int| 0 <= i < b.questoes.len() implies #[trigger] same_question_but_order(
        b.questoes[i],
        c.questoes[i],
    ) by {
        assert(same_question_but_order(a.questoes[i], b.questoes[i]));
        assert(same_question_but_order(a.questoes[i], c.questoes[i]));
    }
}

} // verus!
