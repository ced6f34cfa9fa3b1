//! The state of the directory and the operations that change it.
//!
//! The state starts out loading. The one fetch that is made for it settles
//! once, with the records or with a failure, and nothing changes the outcome
//! afterwards. The search term changes freely at any time.

use crate::record::{views, User, UserView};
use crate::search::{
    borrowed_views, filter_records, is_subsequence, matches_term, visible,
};
use vstd::prelude::*;
use vstd::string::StringExecFns;

verus! {

/// Address of the collection of users that the directory is fetched from.
pub const USERS_ENDPOINT: &'static str = "https://jsonplaceholder.typicode.com/users";

/// How far the fetch of the records has come.
#[derive(Clone, Copy, Debug, PartialEq, Eq, Structural)]
pub enum FetchStatus {
    /// The fetch has not settled yet.
    Loading,
    /// The fetch delivered the records.
    Ready,
    /// The fetch failed, on the network or on the shape of what it brought.
    Failed,
}

/// The one kind of error: the fetch delivered no list of records, because
/// the request failed or because the answer was not such a list.
#[derive(Debug, PartialEq, Eq)]
pub struct FetchFailure {
    /// What the transport or the decoder said, for the developer's log.
    pub detail: String,
}

/// The line that is logged for a failure with the given detail.
pub open spec fn diagnostic_text(detail: Seq<char>) -> Seq<char> {
    "Error fetching users: "@ + detail
}

impl FetchFailure {
    /// The diagnostic line for this failure.
    pub fn diagnostic(&self) -> (message: String)
        ensures
            message@ == diagnostic_text(self.detail@),
    {
        String::from_str("Error fetching users: ").concat(self.detail.as_str())
    }
}

/// A request that the front end is to perform: one `GET` of `url`, without
/// body, headers or query.
#[derive(Debug, PartialEq, Eq)]
pub struct FetchRequest {
    pub url: String,
}

/// View of a [`DirectoryState`].
#[verifier::ext_equal]
pub struct DirectorySnapshot {
    /// The records, in the order in which the fetch delivered them.
    pub records: Seq<UserView>,
    pub status: FetchStatus,
    pub search_term: Seq<char>,
}

impl DirectorySnapshot {
    /// The state right after mounting: loading, no records, no search term.
    pub open spec fn mounted() -> Self {
        DirectorySnapshot {
            records: Seq::empty(),
            status: FetchStatus::Loading,
            search_term: Seq::empty(),
        }
    }

    pub open spec fn is_loading(self) -> bool {
        self.status == FetchStatus::Loading
    }

    /// Records exist only once the fetch has delivered them.
    pub open spec fn well_formed(self) -> bool {
        self.status != FetchStatus::Ready ==> self.records.len() == 0
    }

    /// The state after the fetch settled with `fetched`: the records on
    /// success, `None` on failure. A state that has settled before stays as
    /// it is.
    pub open spec fn settle(self, fetched: Option<Seq<UserView>>) -> Self {
        if self.is_loading() {
            match fetched {
                Some(records) => DirectorySnapshot {
                    records,
                    status: FetchStatus::Ready,
                    search_term: self.search_term,
                },
                None => DirectorySnapshot {
                    records: Seq::empty(),
                    status: FetchStatus::Failed,
                    search_term: self.search_term,
                },
            }
        } else {
            self
        }
    }

    /// The state after the search term was set to `term`.
    pub open spec fn set_search_term(self, term: Seq<char>) -> Self {
        DirectorySnapshot { records: self.records, status: self.status, search_term: term }
    }

    /// The records that the current search term leaves visible.
    pub open spec fn filtered_records(self) -> Seq<UserView> {
        visible(self.records, self.search_term)
    }
}

/// What an outcome of the fetch delivers: the views of the records, or
/// nothing.
pub open spec fn fetched_views(outcome: Result<Vec<User>, FetchFailure>) -> Option<Seq<UserView>> {
    match outcome {
        Ok(records) => Some(views(records@)),
        Err(_) => None,
    }
}

/// The line to log when `outcome` settles the fetch of `state`: the
/// diagnostic of a failure that ends the loading, and nothing otherwise.
pub open spec fn settle_log(
    state: DirectorySnapshot,
    outcome: Result<Vec<User>, FetchFailure>,
) -> Option<Seq<char>> {
    match outcome {
        Err(failure) if state.is_loading() => Some(diagnostic_text(failure.detail@)),
        _ => None,
    }
}

/// Loading lasts from mounting until the fetch settles: a directory that has
/// just been mounted is loading, and after an outcome has been taken, be it
/// success or failure, no directory is.
pub proof fn lemma_loading_until_settled(state: DirectorySnapshot, fetched: Option<Seq<UserView>>)
    ensures
        DirectorySnapshot::mounted().is_loading(),
        !state.settle(fetched).is_loading(),
{
}

/// A fetch that fails leaves a loading directory with no records, nothing
/// visible and the loading at an end.
pub proof fn lemma_failure_leaves_no_records(state: DirectorySnapshot)
    requires
        state.is_loading(),
    ensures
        state.settle(None).records == Seq::<UserView>::empty(),
        state.settle(None).filtered_records() == Seq::<UserView>::empty(),
        state.settle(None).status == FetchStatus::Failed,
        !state.settle(None).is_loading(),
{
    reveal(Seq::filter);
}

/// No outcome leaves a settled state, and the search term never touches
/// records or status: there is no second fetch and no way back to loading.
pub proof fn lemma_settled_is_final(
    state: DirectorySnapshot,
    fetched: Option<Seq<UserView>>,
    term: Seq<char>,
)
    requires
        !state.is_loading(),
    ensures
        state.settle(fetched) == state,
        state.set_search_term(term).status == state.status,
        state.set_search_term(term).records == state.records,
{
}

/// The fetch settles once: after a first outcome a second one changes
/// nothing.
pub proof fn lemma_settles_once(
    state: DirectorySnapshot,
    first: Option<Seq<UserView>>,
    second: Option<Seq<UserView>>,
)
    ensures
        state.settle(first).settle(second) == state.settle(first),
{
}

/// Setting the search term and settling the fetch do not disturb each other:
/// in either order they lead to the same state.
pub proof fn lemma_search_and_settle_commute(
    state: DirectorySnapshot,
    fetched: Option<Seq<UserView>>,
    term: Seq<char>,
)
    ensures
        state.set_search_term(term).settle(fetched) == state.settle(fetched).set_search_term(term),
{
}

/// Every state that the operations reach is well formed: the mounted state
/// is, and each operation keeps a state so.
pub proof fn lemma_well_formed_is_kept(
    state: DirectorySnapshot,
    fetched: Option<Seq<UserView>>,
    term: Seq<char>,
)
    requires
        state.well_formed(),
    ensures
        DirectorySnapshot::mounted().well_formed(),
        state.settle(fetched).well_formed(),
        state.set_search_term(term).well_formed(),
{
}

/// The directory: the fetched records, the status of the fetch and the
/// search term.
#[derive(Debug)]
pub struct DirectoryState {
    records: Vec<User>,
    status: FetchStatus,
    search_term: String,
}

impl View for DirectoryState {
    type V = DirectorySnapshot;

    closed spec fn view(&self) -> DirectorySnapshot {
        DirectorySnapshot {
            records: views(self.records@),
            status: self.status,
            search_term: self.search_term@,
        }
    }
}

impl DirectoryState {
    #[verifier::type_invariant]
    spec fn holds_records_only_when_ready(&self) -> bool {
        self.status != FetchStatus::Ready ==> self.records@.len() == 0
    }

    /// The state of a directory that has just been mounted.
    pub fn new() -> (state: Self)
        ensures
            state@ == DirectorySnapshot::mounted(),
    {
        DirectoryState {
            records: Vec::new(),
            status: FetchStatus::Loading,
            search_term: String::new(),
        }
    }

    /// Whether the fetch is still under way.
    pub fn is_loading(&self) -> (loading: bool)
        ensures
            loading == self@.is_loading(),
    {
        self.status == FetchStatus::Loading
    }

    /// How far the fetch has come.
    pub fn status(&self) -> (status: FetchStatus)
        ensures
            status == self@.status,
            self@.well_formed(),
    {
        proof {
            use_type_invariant(self);
        }
        self.status
    }

    /// The records, in the order in which the fetch delivered them: none
    /// unless the fetch has succeeded.
    pub fn records(&self) -> (records: &Vec<User>)
        ensures
            views(records@) == self@.records,
            self@.well_formed(),
    {
        proof {
            use_type_invariant(self);
        }
        &self.records
    }

    /// The search term, as it was last set.
    pub fn search_term(&self) -> (term: &str)
        ensures
            term@ == self@.search_term,
    {
        self.search_term.as_str()
    }

    /// Asks for the fetch that fills the directory.
    ///
    /// A directory that is loading asks for one `GET` of [`USERS_ENDPOINT`];
    /// one whose fetch has settled asks for nothing, since there is no
    /// second fetch. The state itself changes only when the outcome is
    /// handed to [`DirectoryState::settle`].
    pub fn initialize_fetch(&self) -> (request: Option<FetchRequest>)
        ensures
            request is Some <==> self@.is_loading(),
            request matches Some(get) ==> get.url@ == USERS_ENDPOINT@,
    {
        if self.is_loading() {
            Some(FetchRequest { url: String::from_str(USERS_ENDPOINT) })
        } else {
            None
        }
    }

    /// Takes the outcome of the fetch.
    ///
    /// While loading, a success stores the records as they are and a failure
    /// stores none; either way the loading ends. A failure also yields the
    /// line to write to the developer's log. Once the fetch has settled,
    /// further outcomes change nothing and log nothing. The search term is
    /// never touched.
    pub fn settle(&mut self, outcome: Result<Vec<User>, FetchFailure>) -> (log: Option<String>)
        ensures
            final(self)@ == old(self)@.settle(fetched_views(outcome)),
            log.deep_view() == settle_log(old(self)@, outcome),
            !final(self)@.is_loading(),
    {
        proof {
            use_type_invariant(&*self);
        }
        if !self.is_loading() {
            return None;
        }
        match outcome {
            Ok(records) => {
                self.status = FetchStatus::Ready;
                self.records = records;
                None
            },
            Err(failure) => {
                self.status = FetchStatus::Failed;
                Some(failure.diagnostic())
            },
        }
    }

    /// Stores `term` as the search term, as it is: nothing is trimmed or
    /// folded here. Records and status stay as they are.
    pub fn set_search_term(&mut self, term: String)
        ensures
            final(self)@ == old(self)@.set_search_term(term@),
    {
        proof {
            use_type_invariant(&*self);
        }
        self.search_term = term;
    }

    /// The records that the search term leaves visible: those whose
    /// case-folded name, e-mail address or user name contains the case-folded
    /// term, in the order in which the fetch delivered them. The result is
    /// computed anew on every call and the state is not changed.
    pub fn filtered_records(&self) -> (out: Vec<&User>)
        ensures
            borrowed_views(out@) == self@.filtered_records(),
            forall|user: UserView| #[trigger]
                borrowed_views(out@).contains(user) <==> self@.records.contains(user)
                    && matches_term(user, self@.search_term),
            self@.search_term.len() == 0 ==> borrowed_views(out@) == self@.records,
            is_subsequence(borrowed_views(out@), self@.records),
    {
        filter_records(&self.records, self.search_term.as_str())
    }
}

impl Clone for DirectoryState {
    fn clone(&self) -> (copy: Self)
        ensures
            copy@ == self@,
    {
        proof {
            use_type_invariant(self);
        }
        let mut records: Vec<User> = Vec::new();
        let mut i: usize = 0;
        while i < self.records.len()
            invariant
                i <= self.records.len(),
                records@ == self.records@.take(i as int),
            decreases self.records.len() - i,
        {
            records.push(self.records[i].clone());
            i += 1;
        }
        DirectoryState {
            records,
            status: self.status,
            search_term: self.search_term.clone(),
        }
    }
}

} // verus!
