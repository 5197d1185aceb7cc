use vstd::prelude::*;

verus! {

/// Default maximum batch size that still uses sequential execution.
pub const DEFAULT_SEQUENTIAL_THRESHOLD: usize = 100;

/// Default interval between progress callbacks, in whole seconds.
pub const DEFAULT_REPORT_INTERVAL_SECS: u64 = 5;

/// Default prefix used for Rayon worker thread names.
pub open spec fn spec_default_thread_name_prefix() -> Seq<char> {
    "qubit-rayon-batch"@
}

/// The default prefix holds no NUL character, so it can name threads.
pub proof fn lemma_default_prefix_has_no_nul()
    ensures
        !spec_default_thread_name_prefix().contains('\0'),
{
    reveal_strlit("qubit-rayon-batch");
    let prefix = spec_default_thread_name_prefix();
    assert forall|i: int| 0 <= i < prefix.len() implies prefix[i] != '\0' by {
        assert(prefix == seq!['q', 'u', 'b', 'i', 't', '-', 'r', 'a', 'y', 'o', 'n', '-', 'b', 'a', 't', 'c', 'h']);
    }
}

/// Returns the default prefix used for Rayon worker thread names.
pub fn default_thread_name_prefix() -> (prefix: String)
    ensures
        prefix@ == spec_default_thread_name_prefix(),
{
    String::from_str("qubit-rayon-batch")
}

} // verus!
