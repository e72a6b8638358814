//! Laws of the local tier, proved over the contracts of its operations.

use vstd::prelude::*;
use crate::exam::{indexed, opt_view, same_but_choice_order, summary, SimuladoListView, SimuladoView};
use crate::shuffle::lemma_reorderings_agree;
use crate::names::{id_of_name, is_json_name, json_suffix};
use crate::store::{after_resolve, corpus_document, resolve, scan, CorpusFile};

verus! {

/// No two files of the corpus share a name, as in a directory.
pub open spec fn distinct_names(files: Seq<CorpusFile>) -> bool {
    forall|i: int, j: int|
        0 <= i < files.len() && 0 <= j < files.len() && i != j ==> #[trigger] files[i].file_name@
            != #[trigger] files[j].file_name@
}

/// The summaries of the first `n` files that are `.json` documents that
/// parsed, in order.
pub open spec fn parsed_summaries(files: Seq<CorpusFile>, n: nat) -> Seq<SimuladoListView>
    decreases n,
{
    if n == 0 {
        Seq::empty()
    } else {
        let prev = parsed_summaries(files, (n - 1) as nat);
        let f = files[n - 1];
        if n <= files.len() && is_json_name(f.file_name@) && f.document is Some {
            prev.push(summary(id_of_name(f.file_name@), indexed(f.document.unwrap()@)))
        } else {
            prev
        }
    }
}

/// Reading an exam a second time from the local tier gives what the first
/// read gave, and changes nothing.
pub proof fn lemma_second_read_agrees(
    cached: Map<Seq<char>, SimuladoView>,
    files: Seq<CorpusFile>,
    id: Seq<char>,
)
    ensures
        resolve(after_resolve(cached, files, id), files, id) == resolve(cached, files, id),
        after_resolve(after_resolve(cached, files, id), files, id) == after_resolve(
            cached,
            files,
            id,
        ),
{
    if resolve(cached, files, id) is Some {
        assert(after_resolve(after_resolve(cached, files, id), files, id) =~= after_resolve(
            cached,
            files,
            id,
        ));
    }
}

/// Two requests for one exam, both served by the local tier, send the same
/// exam but for the order of the choices.
pub proof fn lemma_two_responses_agree(
    cached: Map<Seq<char>, SimuladoView>,
    files: Seq<CorpusFile>,
    id: Seq<char>,
    first: SimuladoView,
    second: SimuladoView,
)
    requires
        resolve(cached, files, id) is Some,
        same_but_choice_order(resolve(cached, files, id).unwrap(), first),
        same_but_choice_order(
            resolve(after_resolve(cached, files, id), files, id).unwrap(),
            second,
        ),
    ensures
        same_but_choice_order(first, second),
{
    lemma_second_read_agrees(cached, files, id);
    lemma_reorderings_agree(resolve(cached, files, id).unwrap(), first, second);
}

/// Once the local tier is cleared, a read of an exam loads it from the
/// corpus as it is now, whatever was cached before.
pub proof fn lemma_reload_after_invalidation(files: Seq<CorpusFile>, id: Seq<char>)
    ensures
        resolve(Map::empty(), files, id) == match corpus_document(files, id) {
            Some(d) => Some(indexed(d)),
            None => None,
        },
{
}

/// The document found for the name of file `k` is that file's, when no
/// earlier file has that name.
proof fn lemma_document_of_file(files: Seq<CorpusFile>, id: Seq<char>, k: int)
    requires
        0 <= k < files.len(),
        files[k].file_name@ == id + json_suffix(),
        forall|j: int| 0 <= j < k ==> #[trigger] files[j].file_name@ != id + json_suffix(),
    ensures
        corpus_document(files, id) == opt_view(files[k].document),
    decreases k,
{
    if k > 0 {
        let rest = files.drop_first();
        assert forall|j: int| 0 <= j < k - 1 implies #[trigger] rest[j].file_name@ != id
            + json_suffix() by {
            assert(rest[j] == files[j + 1]);
        }
        assert(files[0].file_name@ != id + json_suffix());
        lemma_document_of_file(rest, id, k - 1);
    }
}

/// Building the summary list over the first `n` files of a fresh store
/// gives the summaries of the parsed documents among them, and caches only
/// exams of those files.
proof fn lemma_fresh_scan(files: Seq<CorpusFile>, n: nat)
    requires
        distinct_names(files),
        n <= files.len(),
    ensures
        scan(Map::empty(), files, n).0 == parsed_summaries(files, n),
        forall|key: Seq<char>|
            #[trigger] scan(Map::empty(), files, n).1.contains_key(key) ==> exists|j: int|
                0 <= j < n && is_json_name(files[j].file_name@) && id_of_name(
                    #[trigger] files[j].file_name@,
                ) == key,
    decreases n,
{
    if n > 0 {
        lemma_fresh_scan(files, (n - 1) as nat);
        let m = scan(Map::empty(), files, (n - 1) as nat).1;
        let name = files[n - 1].file_name@;
        if is_json_name(name) {
            let id = id_of_name(name);
            assert(name =~= id + json_suffix());
            if m.contains_key(id) {
                let j = choose|j: int|
                    0 <= j < n - 1 && is_json_name(files[j].file_name@) && id_of_name(
                        #[trigger] files[j].file_name@,
                    ) == id;
                assert(files[j].file_name@ =~= id + json_suffix());
                assert(false);
            }
            assert forall|j: int| 0 <= j < n - 1 implies #[trigger] files[j].file_name@ != id
                + json_suffix() by {
                assert(files[j].file_name@ != files[n - 1].file_name@);
            }
            lemma_document_of_file(files, id, n - 1);
            let after = scan(Map::empty(), files, n).1;
            assert forall|key: Seq<char>| #[trigger] after.contains_key(key) implies exists|j: int|
                0 <= j < n && is_json_name(files[j].file_name@) && id_of_name(
                    #[trigger] files[j].file_name@,
                ) == key by {
                if key != id {
                    assert(m.contains_key(key));
                    let j = choose|j: int|
                        0 <= j < n - 1 && is_json_name(files[j].file_name@) && id_of_name(
                            #[trigger] files[j].file_name@,
                        ) == key;
                    assert(0 <= j < n);
                } else {
                    assert(id_of_name(files[n - 1].file_name@) == key);
                }
            }
        }
    }
}

/// A store built over a directory lists exactly the documents that parsed,
/// in directory order: files that did not parse are left out, and their
/// siblings are kept.
pub proof fn lemma_fresh_list_is_parsed_documents(files: Seq<CorpusFile>)
    requires
        distinct_names(files),
    ensures
        scan(Map::empty(), files, files.len()).0 == parsed_summaries(files, files.len()),
{
    lemma_fresh_scan(files, files.len());
}

} // verus!
