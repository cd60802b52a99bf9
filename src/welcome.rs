//! The welcome page.
use vstd::prelude::*;

verus! {

/// The values the welcome page shows.
pub struct IndexContext {
    pub title: String,
}

/// Title of the welcome page.
pub open spec fn welcome_title() -> Seq<char> {
    seq![
        'W', 'i', 'l', 'l', 'k', 'o', 'm', 'm', 'e', 'n', ' ', 'b', 'e', 'i', ' ',
        'R', 'o', 'c', 'k', 'e', 't', 'O', 'n', 'e',
    ]
}

/// The page context of the welcome page; its title is never empty.
pub fn index_context() -> (r: IndexContext)
    ensures
        r.title@ == welcome_title(),
        r.title@.len() > 0,
{
    proof { reveal_strlit("Willkommen bei RocketOne"); }
    let title = String::from_str("Willkommen bei RocketOne");
    assert(title@ =~= welcome_title());
    IndexContext { title }
}

} // verus!
