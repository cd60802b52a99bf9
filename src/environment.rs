//! The environment table: the process's variables as listed, one row each.
use vstd::prelude::*;

verus! {

/// One row of the environment table.
pub struct EnvVar {
    pub key: String,
    pub value: String,
}

/// The values an environment page shows.
pub struct EnvContext {
    pub title: String,
    pub vars: Vec<EnvVar>,
}

/// Title of the environment page.
pub open spec fn env_title() -> Seq<char> {
    seq!['U', 'm', 'g', 'e', 'b', 'u', 'n', 'g', 's', 'v', 'a', 'r', 'i', 'a', 'b', 'l', 'e', 'n']
}

/// Row `i` of `rows` holds the key and the value of entry `i` of `listing`.
pub open spec fn row_matches(rows: Seq<EnvVar>, listing: Seq<(String, String)>, i: int) -> bool {
    rows[i].key@ == listing[i].0@ && rows[i].value@ == listing[i].1@
}

/// The rows show the listing verbatim: one row per entry, in the listing's
/// order, nothing added, dropped, merged or redacted.
pub open spec fn rows_of(rows: Seq<EnvVar>, listing: Seq<(String, String)>) -> bool {
    &&& rows.len() == listing.len()
    &&& forall|i: int| 0 <= i < listing.len() ==> #[trigger] row_matches(rows, listing, i)
}

/// The page context for an environment listing, given as (key, value) pairs
/// in the order the platform listed them.
pub fn env_context(listing: &Vec<(String, String)>) -> (r: EnvContext)
    ensures
        r.title@ == env_title(),
        rows_of(r.vars@, listing@),
{
    let mut vars: Vec<EnvVar> = Vec::new();
    let mut i: usize = 0;
    while i < listing.len()
        invariant
            i <= listing@.len(),
            rows_of(vars@, listing@.take(i as int)),
        decreases listing@.len() - i,
    {
        let key = listing[i].0.clone();
        let value = listing[i].1.clone();
        let ghost before = vars@;
        vars.push(EnvVar { key, value });
        proof {
            let done = listing@.take(i as int + 1);
            assert forall|j: int| 0 <= j < done.len() implies #[trigger] row_matches(vars@, done, j) by {
                if j < i {
                    assert(row_matches(before, listing@.take(i as int), j));
                    assert(vars@[j] == before[j]);
                }
            }
        }
        i = i + 1;
    }
    assert(listing@.take(listing@.len() as int) =~= listing@);
    proof { reveal_strlit("Umgebungsvariablen"); }
    let title = String::from_str("Umgebungsvariablen");
    assert(title@ =~= env_title());
    EnvContext { title, vars }
}

} // verus!
