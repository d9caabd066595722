use vstd::prelude::*;

use crate::outcome::ClassifiedError;
use crate::outcome::ErrorClass;
use crate::text::dec_rep;
use crate::text::push_decimal;

verus! {

/// Menu actions offered for the sync-service resource kind: two child
/// resource kinds to recurse into, plus the local actions.
#[derive(Clone, Copy, Debug, PartialEq, Eq, Structural)]
pub enum Action {
    Document,
    Maps,
    ListDetails,
    Delete,
    Back,
    Exit,
}

impl Action {
    /// The display name of the action.
    pub open spec fn label_spec(self) -> Seq<char> {
        match self {
            Action::Document => "Documents"@,
            Action::Maps => "Maps"@,
            Action::ListDetails => "List Details"@,
            Action::Delete => "Delete"@,
            Action::Back => "Back"@,
            Action::Exit => "Exit"@,
        }
    }

    /// The display name of the action.
    pub fn as_str(&self) -> (r: &'static str)
        ensures
            r@ == self.label_spec(),
    {
        match self {
            Action::Document => "Documents",
            Action::Maps => "Maps",
            Action::ListDetails => "List Details",
            Action::Delete => "Delete",
            Action::Back => "Back",
            Action::Exit => "Exit",
        }
    }

    /// Every action, in menu order.
    pub open spec fn all_spec() -> Seq<Action> {
        seq![
            Action::Document,
            Action::Maps,
            Action::ListDetails,
            Action::Delete,
            Action::Back,
            Action::Exit,
        ]
    }

    /// Every action, in menu order.
    pub fn all() -> (v: Vec<Action>)
        ensures
            v@ == Action::all_spec(),
    {
        let mut v: Vec<Action> = Vec::new();
        v.push(Action::Document);
        v.push(Action::Maps);
        v.push(Action::ListDetails);
        v.push(Action::Delete);
        v.push(Action::Back);
        v.push(Action::Exit);
        proof {
            assert(v@ =~= Action::all_spec());
        }
        v
    }

    /// The action at position `i` of the menu, if any.
    pub fn from_index(i: usize) -> (r: Option<Action>)
        ensures
            i < Action::all_spec().len() ==> r == Some(Action::all_spec()[i as int]),
            i >= Action::all_spec().len() ==> r is None,
    {
        match i {
            0 => Some(Action::Document),
            1 => Some(Action::Maps),
            2 => Some(Action::ListDetails),
            3 => Some(Action::Delete),
            4 => Some(Action::Back),
            5 => Some(Action::Exit),
            _ => None,
        }
    }
}

/// What the engine reads of a remote sync-service entry.
#[derive(Clone, Debug)]
pub struct SyncService {
    pub sid: String,
    pub unique_name: String,
}

/// The root-menu line for a service: its identifier and unique name.
pub open spec fn service_label_spec(s: SyncService) -> Seq<char> {
    "("@ + s.sid@ + ") "@ + s.unique_name@
}

/// Renders the root-menu line of one service.
pub fn service_label(s: &SyncService) -> (r: String)
    ensures
        r@ == service_label_spec(*s),
{
    let mut out = String::new();
    out.append("(");
    out.append(s.sid.as_str());
    out.append(") ");
    out.append(s.unique_name.as_str());
    proof {
        assert(out@ =~= service_label_spec(*s));
    }
    out
}

/// The root-menu lines of every cached service, in cache order.
pub fn service_labels(services: &Vec<SyncService>) -> (labels: Vec<String>)
    ensures
        labels@.len() == services@.len(),
        forall|i: int| 0 <= i < services@.len() ==> labels@[i]@ == service_label_spec(
            services@[i],
        ),
{
    let mut labels: Vec<String> = Vec::new();
    let mut i: usize = 0;
    while i < services.len()
        invariant
            i <= services@.len(),
            labels@.len() == i,
            forall|j: int| 0 <= j < i ==> labels@[j]@ == service_label_spec(services@[j]),
        decreases services@.len() - i,
    {
        labels.push(service_label(&services[i]));
        i = i + 1;
    }
    labels
}

/// The status line reporting how many services the entry fetch found.
pub open spec fn services_found_message_spec(n: nat) -> Seq<char> {
    "Found "@ + dec_rep(n) + " Sync Services."@
}

/// The notice shown when the entry fetch found no services at all; an empty
/// list is a normal result, not an error.
pub open spec fn no_services_message() -> Seq<char> {
    "No Sync Services found."@
}

/// The status line shown on menu entry for a cache of `n` services.
pub fn service_count_message(n: usize) -> (r: String)
    ensures
        n == 0 ==> r@ == no_services_message(),
        n > 0 ==> r@ == services_found_message_spec(n as nat),
{
    if n == 0 {
        String::from_str("No Sync Services found.")
    } else {
        let mut out = String::from_str("Found ");
        push_decimal(n as u64, &mut out);
        out.append(" Sync Services.");
        proof {
            assert(out@ =~= services_found_message_spec(n as nat));
        }
        out
    }
}

/// What the root-menu selection led to.
#[derive(Clone, Copy, Debug, PartialEq, Eq, Structural)]
pub enum RootOutcome {
    Entered,
    BackOut,
    ExitAll,
}

/// What the application must do after an action was chosen at a selected
/// service.
#[derive(Clone, Copy, Debug, PartialEq, Eq, Structural)]
pub enum NavCommand {
    EnterDocuments,
    EnterMaps,
    RenderDetails,
    ConfirmDelete,
    Stay,
    ExitAll,
}

/// Outcome of the remote delete of the selected service.
#[derive(Clone, Debug)]
pub enum DeleteOutcome {
    Removed,
    AlreadyGone,
    Fatal(ClassifiedError),
}

/// Outcome of a remote get of the selected service.
#[derive(Clone, Debug)]
pub enum GetOutcome {
    Found(SyncService),
    Missing,
    Fatal(ClassifiedError),
}

/// The per-menu navigation state: the resource list cached once at menu
/// entry — the single source of truth for this menu's lifetime — and the
/// index of the selected entry, if one is in context.
pub struct Navigator {
    pub services: Vec<SyncService>,
    pub selected: Option<usize>,
}

impl Navigator {
    /// The selection always points into the cache.
    pub open spec fn wf(self) -> bool {
        self.selected matches Some(i) ==> i < self.services@.len()
    }

    /// No entry is in context: the root menu is showing.
    pub open spec fn at_root(self) -> bool {
        self.selected is None
    }

    /// Enters the menu with the list fetched once at entry.
    pub fn new(services: Vec<SyncService>) -> (n: Navigator)
        ensures
            n.services@ == services@,
            n.at_root(),
            n.wf(),
    {
        Navigator { services, selected: None }
    }

    /// The root-menu selection: an index into the cache selects that entry;
    /// the two reserved positions past the cache are Back and Exit, and
    /// cancelling unwinds like Back. The cache never changes here.
    pub fn on_root_choice(&mut self, selection: Option<usize>) -> (c: RootOutcome)
        requires
            old(self).wf(),
            old(self).at_root(),
            selection matches Some(i) ==> i < old(self).services@.len() + 2,
        ensures
            final(self).services@ == old(self).services@,
            final(self).wf(),
            (match selection {
                Some(i) => {
                    &&& i < old(self).services@.len() ==> c == RootOutcome::Entered
                        && final(self).selected == Some(i)
                    &&& i == old(self).services@.len() ==> c == RootOutcome::BackOut
                        && final(self).at_root()
                    &&& i == old(self).services@.len() + 1 ==> c == RootOutcome::ExitAll
                        && final(self).at_root()
                },
                None => c == RootOutcome::BackOut && final(self).at_root(),
            }),
    {
        match selection {
            None => RootOutcome::BackOut,
            Some(i) => {
                if i < self.services.len() {
                    self.selected = Some(i);
                    RootOutcome::Entered
                } else if i == self.services.len() {
                    RootOutcome::BackOut
                } else {
                    RootOutcome::ExitAll
                }
            },
        }
    }

    /// Dispatches the action chosen for the selected entry. Only Back moves
    /// the state — back to the root menu; every other action leaves the
    /// context in place, and nothing here touches the cache.
    pub fn on_action(&mut self, action: Option<Action>) -> (c: NavCommand)
        requires
            old(self).wf(),
            old(self).selected is Some,
        ensures
            final(self).services@ == old(self).services@,
            final(self).wf(),
            (match action {
                Some(a) => {
                    &&& a == Action::Document ==> c == NavCommand::EnterDocuments
                        && final(self).selected == old(self).selected
                    &&& a == Action::Maps ==> c == NavCommand::EnterMaps
                        && final(self).selected == old(self).selected
                    &&& a == Action::ListDetails ==> c == NavCommand::RenderDetails
                        && final(self).selected == old(self).selected
                    &&& a == Action::Delete ==> c == NavCommand::ConfirmDelete
                        && final(self).selected == old(self).selected
                    &&& a == Action::Back ==> c == NavCommand::Stay && final(self).at_root()
                    &&& a == Action::Exit ==> c == NavCommand::ExitAll
                        && final(self).selected == old(self).selected
                },
                None => c == NavCommand::Stay && final(self).selected == old(self).selected,
            }),
    {
        match action {
            None => NavCommand::Stay,
            Some(Action::Document) => NavCommand::EnterDocuments,
            Some(Action::Maps) => NavCommand::EnterMaps,
            Some(Action::ListDetails) => NavCommand::RenderDetails,
            Some(Action::Delete) => NavCommand::ConfirmDelete,
            Some(Action::Back) => {
                self.selected = None;
                NavCommand::Stay
            },
            Some(Action::Exit) => NavCommand::ExitAll,
        }
    }

    /// The delete-confirmation answer: only an explicit affirmative lets
    /// the remote delete go ahead; declining or cancelling changes nothing
    /// anywhere, so no remote call is owed.
    pub fn on_delete_confirm(&mut self, confirmation: Option<bool>) -> (proceed: bool)
        requires
            old(self).wf(),
            old(self).selected is Some,
        ensures
            *final(self) == *old(self),
            proceed <==> confirmation == Some(true),
    {
        match confirmation {
            Some(true) => true,
            _ => false,
        }
    }

    /// The answer of the confirmed remote delete: success removes exactly
    /// the selected entry from the cache and returns to the root menu, so
    /// the in-memory view stays consistent without refetching; a not-found
    /// answer is benign and changes nothing; any other failure is fatal.
    pub fn on_delete_result(&mut self, r: Result<(), ClassifiedError>) -> (out: DeleteOutcome)
        requires
            old(self).wf(),
            old(self).selected is Some,
        ensures
            final(self).wf(),
            (match r {
                Ok(_) => {
                    &&& final(self).services@ == old(self).services@.remove(
                        old(self).selected->0 as int,
                    )
                    &&& final(self).at_root()
                    &&& out == DeleteOutcome::Removed
                },
                Err(e) => {
                    &&& e.kind is NotFound ==> *final(self) == *old(self) && out
                        == DeleteOutcome::AlreadyGone
                    &&& e.kind is RemoteFailure ==> *final(self) == *old(self) && out
                        == DeleteOutcome::Fatal(e)
                },
            }),
    {
        match r {
            Ok(_) => {
                let i = match self.selected {
                    Some(i) => i,
                    None => 0,
                };
                self.services.remove(i);
                self.selected = None;
                DeleteOutcome::Removed
            },
            Err(e) => match &e.kind {
                ErrorClass::NotFound => DeleteOutcome::AlreadyGone,
                ErrorClass::RemoteFailure(_) => DeleteOutcome::Fatal(e),
            },
        }
    }

    /// The answer of a remote get: a not-found answer leaves the cached
    /// list and the menu state exactly as they were, and the loop resumes
    /// the same menu; any other failure is fatal. Nothing here ever moves
    /// the state.
    pub fn on_get_result(&mut self, r: Result<SyncService, ClassifiedError>) -> (out: GetOutcome)
        requires
            old(self).wf(),
        ensures
            *final(self) == *old(self),
            (match r {
                Ok(s) => out == GetOutcome::Found(s),
                Err(e) => {
                    &&& e.kind is NotFound ==> out == GetOutcome::Missing
                    &&& e.kind is RemoteFailure ==> out == GetOutcome::Fatal(e)
                },
            }),
    {
        match r {
            Ok(s) => GetOutcome::Found(s),
            Err(e) => match &e.kind {
                ErrorClass::NotFound => GetOutcome::Missing,
                ErrorClass::RemoteFailure(_) => GetOutcome::Fatal(e),
            },
        }
    }
}

} // verus!
