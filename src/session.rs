//! The session: one logical connection to a remote, which fixes the remote's
//! base URL on its first action and makes a fresh exchange stream per action.

use vstd::prelude::*;

use crate::action::{path_of, Action};
use crate::error::ExchangeError;
use crate::stream::{fresh_stream, request_url, UreqSubtransport};

verus! {

/// The base URL after an action for `url`: the first non-empty URL seen
/// becomes the base, and later ones are ignored. The base is captured once:
/// a redirect met during an exchange does not change it.
pub open spec fn resolved_base(current: Seq<char>, url: Seq<char>) -> Seq<char> {
    if current.len() == 0 {
        url
    } else {
        current
    }
}

/// A session with one remote.
pub struct UreqTransport {
    base_url: String,
}

impl View for UreqTransport {
    type V = Seq<char>;

    /// The resolved base URL; empty until the first action.
    closed spec fn view(&self) -> Seq<char> {
        self.base_url@
    }
}

impl UreqTransport {
    /// A session whose base URL is not resolved yet.
    pub fn new() -> (r: UreqTransport)
        ensures
            r@ == Seq::<char>::empty(),
    {
        UreqTransport { base_url: String::new() }
    }

    /// The resolved base URL.
    pub fn base_url(&self) -> (r: &str)
        ensures
            r@ == self@,
    {
        self.base_url.as_str()
    }

    /// Starts `action`: fixes the base URL to `url` if none is resolved yet,
    /// and gives a fresh stream against the resolved base URL.
    pub fn action(&mut self, url: &str, action: Action) -> (r: UreqSubtransport)
        ensures
            final(self)@ == resolved_base(old(self)@, url@),
            r@ == fresh_stream(action, final(self)@),
    {
        if self.base_url.as_str().is_empty() {
            self.base_url = String::from_str(url);
        }
        UreqSubtransport::new(action, self.base_url.clone())
    }

    /// Ends the session; nothing is held open, so this always succeeds.
    pub fn close(&self) -> (r: Result<(), ExchangeError>)
        ensures
            r is Ok,
    {
        Ok(())
    }
}

/// The base URL of a new session after actions for `first` and then for each
/// of `later`, in order.
pub open spec fn base_after(first: Seq<char>, later: Seq<Seq<char>>) -> Seq<char> {
    later.fold_left(
        resolved_base(Seq::empty(), first),
        |b: Seq<char>, u: Seq<char>| resolved_base(b, u),
    )
}

/// Once a new session's first action was given a non-empty URL, the base URL
/// stays that URL through any later actions, whatever URLs they are given, and
/// the request of every stream made then goes below it.
pub proof fn lemma_first_url_fixes_base(first: Seq<char>, later: Seq<Seq<char>>, action: Action)
    requires
        first.len() > 0,
    ensures
        base_after(first, later) == first,
        request_url(fresh_stream(action, base_after(first, later))) == first + path_of(action),
    decreases later.len(),
{
    if later.len() > 0 {
        lemma_first_url_fixes_base(first, later.drop_last(), action);
    }
}

} // verus!
