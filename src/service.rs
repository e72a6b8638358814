//! What a content request returns and what it writes back to the
//! distributed tier, given what that tier gave.

use vstd::prelude::*;
use crate::exam::{opt_view, same_but_choice_order, summaries_view, Simulado, SimuladoList, SimuladoListView};
use crate::store::{after_resolve, resolve, scan, CorpusFile, SimuladoStore};
use crate::tier::TierRead;

verus! {

/// The answer to a summary-list request: the list to send, and whether it is
/// to be stored in the distributed tier.
pub struct ListResponse {
    pub body: Vec<SimuladoList>,
    pub write_back: bool,
}

/// The answer to an exam request.
pub enum ExamResponse {
    /// The exam to send, with its choices shuffled, and the canonical exam to
    /// store in the distributed tier, if any.
    Found { body: Simulado, write_back: Option<Simulado> },
    NotFound,
}

/// The summary list that the local tier gives: its cached list when not
/// empty, else the one built from the corpus.
pub open spec fn local_list(store: SimuladoStore, files: Seq<CorpusFile>) -> Seq<SimuladoListView> {
    if store.cached_list().len() > 0 {
        store.cached_list()
    } else {
        scan(store.cached_exams(), files, files.len()).0
    }
}

/// Serves the summary list: a distributed-tier hit is sent as it is;
/// otherwise the local tier's list is sent and written back.
pub fn serve_list(
    store: &mut SimuladoStore,
    corpus: &Vec<CorpusFile>,
    reply: TierRead<Vec<SimuladoList>>,
) -> (r: ListResponse)
    requires
        old(store).wf(),
    ensures
        final(store).wf(),
        final(store).dir() == old(store).dir(),
        match reply {
            TierRead::Hit(l) => {
                &&& summaries_view(r.body@) == summaries_view(l@)
                &&& !r.write_back
                &&& *final(store) == *old(store)
            },
            _ => {
                &&& summaries_view(r.body@) == local_list(*old(store), corpus@)
                &&& r.write_back
                &&& final(store).cached_list() == local_list(*old(store), corpus@)
            },
        },
{
    match reply {
        TierRead::Hit(l) => ListResponse { body: l, write_back: false },
        _ => {
            let body = store.get_simulados_list(corpus);
            ListResponse { body, write_back: true }
        },
    }
}

/// Serves exam `id`: a distributed-tier hit is sent with its choices
/// shuffled; otherwise the local tier's exam is sent shuffled and written
/// back unshuffled, or, where the local tier has none, the exam is not found.
pub fn serve_exam(
    store: &mut SimuladoStore,
    id: &str,
    corpus: &Vec<CorpusFile>,
    reply: TierRead<Simulado>,
) -> (r: ExamResponse)
    requires
        old(store).wf(),
    ensures
        final(store).wf(),
        final(store).dir() == old(store).dir(),
        final(store).cached_list() == old(store).cached_list(),
        match reply {
            TierRead::Hit(d) => {
                &&& *final(store) == *old(store)
                &&& r matches ExamResponse::Found { body, write_back }
                &&& same_but_choice_order(d@, body@)
                &&& write_back is None
            },
            _ => {
                &&& final(store).cached_exams() == after_resolve(
                    old(store).cached_exams(),
                    corpus@,
                    id@,
                )
                &&& match resolve(old(store).cached_exams(), corpus@, id@) {
                    Some(x) => {
                        &&& r matches ExamResponse::Found { body, write_back }
                        &&& same_but_choice_order(x, body@)
                        &&& opt_view(write_back) == Some(x)
                    },
                    None => r is NotFound,
                }
            },
        },
{
    match reply {
        TierRead::Hit(mut d) => {
            d.shuffle_all_alternatives();
            ExamResponse::Found { body: d, write_back: None }
        },
        _ => match store.get_simulado(id, corpus) {
            Some(x) => {
                let mut body = x.duplicate();
                body.shuffle_all_alternatives();
                ExamResponse::Found { body, write_back: Some(x) }
            },
            None => ExamResponse::NotFound,
        },
    }
}

} // verus!
