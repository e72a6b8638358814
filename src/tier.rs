//! The distributed tier's key space and expirations, and what a read of it
//! can give.

use vstd::prelude::*;

verus! {

/// The key of the summary list.
pub const LIST_KEY: &'static str = "simulados_list";

/// Seconds that a stored summary list lives.
pub const LIST_TTL_SECS: u64 = 600;

/// Seconds that a stored exam lives.
pub const EXAM_TTL_SECS: u64 = 3600;

/// The namespace of the exam keys.
pub const EXAM_KEY_PREFIX: &'static str = "simulado:";

/// The characters of `EXAM_KEY_PREFIX`.
pub open spec fn exam_key_prefix() -> Seq<char> {
    seq!['s', 'i', 'm', 'u', 'l', 'a', 'd', 'o', ':']
}

/// The key under which exam `id` is stored.
pub open spec fn exam_key_of(id: Seq<char>) -> Seq<char> {
    exam_key_prefix() + id
}

/// The key under which exam `id` is stored.
pub fn exam_key(id: &str) -> (r: String)
    ensures
        r@ == exam_key_of(id@),
{
    proof {
        reveal_strlit("simulado:");
    }
    let prefix = EXAM_KEY_PREFIX.to_owned();
    assert(prefix@ =~= exam_key_prefix());
    prefix.concat(id)
}

/// What a read of the distributed tier gave: a decoded value, no entry, or a
/// failure (unreachable tier, or an entry that did not decode). A failure is
/// handled as a miss.
pub enum TierRead<T> {
    Hit(T),
    Miss,
    Failed,
}

impl<T> TierRead<T> {
    /// Whether the read gave a value.
    pub fn is_hit(&self) -> (r: bool)
        ensures
            r == (self is Hit),
    {
        match self {
            TierRead::Hit(_) => true,
            _ => false,
        }
    }
}

} // verus!
