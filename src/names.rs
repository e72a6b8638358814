//! Corpus file names: `<id>.json`.

use vstd::prelude::*;

verus! {

/// The extension of a corpus document's file name.
pub open spec fn json_suffix() -> Seq<char> {
    seq!['.', 'j', 's', 'o', 'n']
}

/// Whether `name` names a corpus document.
pub open spec fn is_json_name(name: Seq<char>) -> bool {
    name.len() >= 5 && name.subrange(name.len() - 5, name.len() as int) == json_suffix()
}

/// The exam id of the document file `name`: the name without its extension.
pub open spec fn id_of_name(name: Seq<char>) -> Seq<char> {
    name.subrange(0, name.len() - 5)
}

/// Whether `name` ends with `.json`.
pub fn ends_with_json(name: &str) -> (r: bool)
    ensures
        r == is_json_name(name@),
{
    let n = name.unicode_len();
    if n < 5 {
        return false;
    }
    let suffix = ['.', 'j', 's', 'o', 'n'];
    let mut k: usize = 0;
    while k < 5
        invariant
            n == name@.len(),
            n >= 5,
            k <= 5,
            suffix@ == json_suffix(),
            forall|j: int| 0 <= j < k ==> name@[n - 5 + j] == json_suffix()[j],
        decreases 5 - k,
    {
        if name.get_char(n - 5 + k) != suffix[k] {
            assert(name@.subrange(n - 5, n as int)[k as int] != json_suffix()[k as int]);
            return false;
        }
        k = k + 1;
    }
    assert(name@.subrange(n - 5, n as int) =~= json_suffix());
    true
}

/// The exam id of a document file name.
pub fn id_from_file_name(name: &str) -> (r: String)
    requires
        is_json_name(name@),
    ensures
        r@ == id_of_name(name@),
{
    let n = name.unicode_len();
    name.substring_char(0, n - 5).to_owned()
}

/// Whether `name` is the file name of the document of exam `id`.
pub fn names_document_of(name: &str, id: &str) -> (r: bool)
    ensures
        r == (name@ == id@ + json_suffix()),
{
    let n = name.unicode_len();
    let m = id.unicode_len();
    if n < 5 || n - 5 != m {
        return false;
    }
    if !ends_with_json(name) {
        assert(name@ != id@ + json_suffix()) by {
            if name@ == id@ + json_suffix() {
                assert(name@.subrange(n - 5, n as int) =~= json_suffix());
            }
        }
        return false;
    }
    let mut k: usize = 0;
    while k < m
        invariant
            n == name@.len(),
            m == id@.len(),
            n == m + 5,
            k <= m,
            is_json_name(name@),
            forall|j: int| 0 <= j < k ==> name@[j] == id@[j],
        decreases m - k,
    {
        if name.get_char(k) != id.get_char(k) {
            assert((id@ + json_suffix())[k as int] == id@[k as int]);
            return false;
        }
        k = k + 1;
    }
    assert(name@ =~= id@ + json_suffix()) by {
        assert(name@.subrange(n - 5, n as int) == json_suffix());
        assert forall|j: int| 0 <= j < n implies name@[j] == (id@ + json_suffix())[j] by {
            if j >= m {
                assert(name@[j] == name@.subrange(n - 5, n as int)[j - m]);
            }
        }
    }
    true
}

} // verus!
