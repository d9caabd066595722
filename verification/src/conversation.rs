use vstd::prelude::*;

use crate::dates::date_string;
use crate::dates::default_start_range;
use crate::dates::spec_days_before;
use crate::dates::format_date;
use crate::dates::Date;
use crate::dates::DateRange;
use crate::outcome::ClassifiedError;
use crate::outcome::ErrorClass;
use crate::text::dec_rep;
use crate::text::push_decimal;

verus! {

/// Lifecycle state of a conversation resource, drawn from the remote API's
/// closed enumeration.
#[derive(Clone, Copy, Debug, PartialEq, Eq, Structural)]
pub enum State {
    Active,
    Inactive,
    Closed,
}

impl State {
    /// The wire name of the state.
    pub open spec fn label_spec(self) -> Seq<char> {
        match self {
            State::Active => "active"@,
            State::Inactive => "inactive"@,
            State::Closed => "closed"@,
        }
    }

    /// The wire name of the state.
    pub fn as_str(&self) -> (r: &'static str)
        ensures
            r@ == self.label_spec(),
    {
        match self {
            State::Active => "active",
            State::Inactive => "inactive",
            State::Closed => "closed",
        }
    }

    /// Every state, in declaration order.
    pub open spec fn all_spec() -> Seq<State> {
        seq![State::Active, State::Inactive, State::Closed]
    }

    /// Every state, in declaration order.
    pub fn all() -> (v: Vec<State>)
        ensures
            v@ == State::all_spec(),
    {
        let mut v: Vec<State> = Vec::new();
        v.push(State::Active);
        v.push(State::Inactive);
        v.push(State::Closed);
        proof {
            assert(v@ =~= State::all_spec());
        }
        v
    }
}

impl Default for State {
    /// A conversation starts out active.
    fn default() -> (r: Self)
        ensures
            r == State::Active,
    {
        State::Active
    }
}

/// Timer fields of a conversation.
#[derive(Clone, Debug, PartialEq)]
pub struct Timers {
    pub date_inactive: Option<String>,
    pub date_closed: Option<String>,
}

impl Default for Timers {
    fn default() -> (r: Self)
        ensures
            r.date_inactive is None,
            r.date_closed is None,
    {
        Timers { date_inactive: None, date_closed: None }
    }
}

/// Links to the sub-resources of a conversation.
#[derive(Clone, Debug, PartialEq)]
pub struct Links {
    pub participants: String,
    pub messages: String,
    pub webhooks: String,
}

impl Default for Links {
    fn default() -> (r: Self)
        ensures
            r.participants@ == Seq::<char>::empty(),
            r.messages@ == Seq::<char>::empty(),
            r.webhooks@ == Seq::<char>::empty(),
    {
        Links { participants: String::new(), messages: String::new(), webhooks: String::new() }
    }
}

/// Details related to a specific conversation.
#[derive(Clone, Debug, PartialEq)]
pub struct Conversation {
    pub sid: String,
    pub account_sid: String,
    pub chat_service_sid: String,
    pub messaging_service_sid: String,
    pub unique_name: Option<String>,
    pub friendly_name: Option<String>,
    pub date_created: String,
    pub date_updated: String,
    pub state: State,
    pub url: String,
    pub attributes: String,
    pub timers: Timers,
    pub links: Links,
}

impl Default for Conversation {
    fn default() -> (r: Self)
        ensures
            r.sid@ == Seq::<char>::empty(),
            r.account_sid@ == Seq::<char>::empty(),
            r.chat_service_sid@ == Seq::<char>::empty(),
            r.messaging_service_sid@ == Seq::<char>::empty(),
            r.unique_name is None,
            r.friendly_name is None,
            r.date_created@ == Seq::<char>::empty(),
            r.date_updated@ == Seq::<char>::empty(),
            r.state == State::Active,
            r.url@ == Seq::<char>::empty(),
            r.attributes@ == Seq::<char>::empty(),
            r.timers.date_inactive is None,
            r.timers.date_closed is None,
            r.links.participants@ == Seq::<char>::empty(),
            r.links.messages@ == Seq::<char>::empty(),
            r.links.webhooks@ == Seq::<char>::empty(),
    {
        Conversation {
            sid: String::new(),
            account_sid: String::new(),
            chat_service_sid: String::new(),
            messaging_service_sid: String::new(),
            unique_name: None,
            friendly_name: None,
            date_created: String::new(),
            date_updated: String::new(),
            state: State::Active,
            url: String::new(),
            attributes: String::new(),
            timers: Timers::default(),
            links: Links::default(),
        }
    }
}

/// Paging metadata returned beside one page of conversations.
#[derive(Clone, Debug)]
pub struct ConversationPageMeta {
    pub page: u16,
    pub page_size: u16,
    pub first_page_url: String,
    pub previous_page_url: Option<String>,
    pub next_page_url: Option<String>,
    pub key: String,
}

/// One page of conversations plus the cursor to the next page, if any.
#[derive(Clone, Debug)]
pub struct ConversationPage {
    pub conversations: Vec<Conversation>,
    pub meta: ConversationPageMeta,
}

/// Eager pagination aggregator over conversation pages: the caller fetches
/// each page and feeds it in; the aggregator follows the next-page cursor
/// and accumulates items in response order, all or nothing.
pub struct Conversations {
    pub results: Vec<Conversation>,
    pub done: bool,
    pub failed: Option<ClassifiedError>,
}

impl Conversations {
    /// A just-started aggregation: nothing fetched yet.
    pub open spec fn fresh(self) -> bool {
        self.results@ == Seq::<Conversation>::empty() && !self.done && self.failed is None
    }

    /// More pages are still owed.
    pub open spec fn pending(self) -> bool {
        !self.done && self.failed is None
    }

    /// One aggregation step as a relation between the state before, the
    /// fetched page, the state after, and the cursor demanded next.
    pub open spec fn step_spec(
        pre: Conversations,
        r: Result<ConversationPage, ClassifiedError>,
        post: Conversations,
        next: Option<String>,
    ) -> bool {
        match r {
            Ok(page) => {
                &&& post.results@ == pre.results@ + page.conversations@
                &&& post.failed is None
                &&& next == page.meta.next_page_url
                &&& post.done == (page.meta.next_page_url is None)
            },
            Err(e) => {
                &&& post.results@ == Seq::<Conversation>::empty()
                &&& post.failed == Some(e)
                &&& post.done
                &&& next is None
            },
        }
    }

    /// Begins an aggregation; the caller issues the initial fetch.
    pub fn new() -> (a: Conversations)
        ensures
            a.fresh(),
    {
        Conversations { results: Vec::new(), done: false, failed: None }
    }

    /// Feeds the answer of one page fetch. Returns the exact cursor to
    /// fetch next, or `None` when the aggregation has finished — complete
    /// or failed. A failure discards every previously fetched item.
    pub fn on_page(&mut self, r: Result<ConversationPage, ClassifiedError>) -> (next: Option<
        String,
    >)
        requires
            old(self).pending(),
        ensures
            Self::step_spec(*old(self), r, *final(self), next),
    {
        match r {
            Ok(page) => {
                let ConversationPage { mut conversations, meta } = page;
                self.results.append(&mut conversations);
                match meta.next_page_url {
                    Some(url) => Some(url),
                    None => {
                        self.done = true;
                        None
                    },
                }
            },
            Err(e) => {
                self.results = Vec::new();
                self.failed = Some(e);
                self.done = true;
                None
            },
        }
    }

    /// The aggregated outcome: the failure if any fetch failed, else every
    /// item of every page, in response order.
    pub fn into_result(self) -> (r: Result<Vec<Conversation>, ClassifiedError>)
        requires
            self.done,
        ensures
            (match self.failed {
                Some(e) => r == Err::<Vec<Conversation>, ClassifiedError>(e),
                None => r matches Ok(v) && v@ == self.results@,
            }),
    {
        match self.failed {
            Some(e) => Err(e),
            None => Ok(self.results),
        }
    }
}

/// Three pages chained by cursors aggregate to the concatenation of their
/// items in response order; each of the first two steps demands exactly the
/// cursor its page carried, and the third ends the aggregation, so exactly
/// three fetches are issued.
pub proof fn lemma_three_page_aggregation(
    a0: Conversations,
    a1: Conversations,
    a2: Conversations,
    a3: Conversations,
    p1: ConversationPage,
    p2: ConversationPage,
    p3: ConversationPage,
    n1: Option<String>,
    n2: Option<String>,
    n3: Option<String>,
    c1: String,
    c2: String,
)
    requires
        a0.fresh(),
        p1.meta.next_page_url == Some(c1),
        p2.meta.next_page_url == Some(c2),
        p3.meta.next_page_url is None,
        Conversations::step_spec(a0, Ok(p1), a1, n1),
        Conversations::step_spec(a1, Ok(p2), a2, n2),
        Conversations::step_spec(a2, Ok(p3), a3, n3),
    ensures
        n1 == Some(c1),
        n2 == Some(c2),
        n3 is None,
        a3.done,
        a3.failed is None,
        a3.results@ == p1.conversations@ + p2.conversations@ + p3.conversations@,
{
    assert(a3.results@ =~= p1.conversations@ + p2.conversations@ + p3.conversations@);
}

/// If the second fetch fails, the whole aggregation surfaces that failure
/// and the caller observes no items at all.
pub proof fn lemma_failed_fetch_discards_items(
    a0: Conversations,
    a1: Conversations,
    a2: Conversations,
    p1: ConversationPage,
    e: ClassifiedError,
    n1: Option<String>,
    n2: Option<String>,
)
    requires
        a0.fresh(),
        Conversations::step_spec(a0, Ok(p1), a1, n1),
        Conversations::step_spec(a1, Err(e), a2, n2),
    ensures
        a2.failed == Some(e),
        a2.results@ == Seq::<Conversation>::empty(),
        a2.done,
        n2 is None,
{
}

/// A conversation identifier: `CH` followed by 32 further characters.
pub open spec fn valid_sid_spec(s: Seq<char>) -> bool {
    s.len() == 34 && s[0] == 'C' && s[1] == 'H'
}

/// Validates a conversation identifier before it is sent anywhere.
pub fn valid_sid(s: &str) -> (r: bool)
    ensures
        r == valid_sid_spec(s@),
{
    if s.unicode_len() != 34 {
        return false;
    }
    let c0 = s.get_char(0);
    let c1 = s.get_char(1);
    c0 == 'C' && c1 == 'H'
}

/// Menu actions offered for the conversation resource kind.
#[derive(Clone, Copy, Debug, PartialEq, Eq, Structural)]
pub enum Action {
    GetConversation,
    ListConversations,
    DeleteConversation,
    DeleteAllConversations,
    Back,
    Exit,
}

impl Action {
    /// The display name of the action.
    pub open spec fn label_spec(self) -> Seq<char> {
        match self {
            Action::GetConversation => "Get conversation"@,
            Action::ListConversations => "List Conversations"@,
            Action::DeleteConversation => "Delete Conversation"@,
            Action::DeleteAllConversations => "Delete all Conversations"@,
            Action::Back => "Back"@,
            Action::Exit => "Exit"@,
        }
    }

    /// The display name of the action.
    pub fn as_str(&self) -> (r: &'static str)
        ensures
            r@ == self.label_spec(),
    {
        match self {
            Action::GetConversation => "Get conversation",
            Action::ListConversations => "List Conversations",
            Action::DeleteConversation => "Delete Conversation",
            Action::DeleteAllConversations => "Delete all Conversations",
            Action::Back => "Back",
            Action::Exit => "Exit",
        }
    }

    /// Every action, in menu order.
    pub open spec fn all_spec() -> Seq<Action> {
        seq![
            Action::GetConversation,
            Action::ListConversations,
            Action::DeleteConversation,
            Action::DeleteAllConversations,
            Action::Back,
            Action::Exit,
        ]
    }

    /// Every action, in menu order.
    pub fn all() -> (v: Vec<Action>)
        ensures
            v@ == Action::all_spec(),
    {
        let mut v: Vec<Action> = Vec::new();
        v.push(Action::GetConversation);
        v.push(Action::ListConversations);
        v.push(Action::DeleteConversation);
        v.push(Action::DeleteAllConversations);
        v.push(Action::Back);
        v.push(Action::Exit);
        proof {
            assert(v@ =~= Action::all_spec());
        }
        v
    }

    /// The action at position `i` of the menu, if any.
    pub fn from_index(i: usize) -> (r: Option<Action>)
        ensures
            i < Action::all_spec().len() ==> r == Some(Action::all_spec()[i as int]),
            i >= Action::all_spec().len() ==> r is None,
    {
        match i {
            0 => Some(Action::GetConversation),
            1 => Some(Action::ListConversations),
            2 => Some(Action::DeleteConversation),
            3 => Some(Action::DeleteAllConversations),
            4 => Some(Action::Back),
            5 => Some(Action::Exit),
            _ => None,
        }
    }
}

/// Filter over the conversation state: no filter, or one specific state.
#[derive(Clone, Copy, Debug, PartialEq, Eq, Structural)]
pub enum FilterOutcome {
    Any,
    Specific(State),
}

/// The filter chosen at menu position `i`: `Any` first, then one entry per
/// state in declaration order.
pub open spec fn filter_of_index(i: int) -> Option<FilterOutcome> {
    if i == 0 {
        Some(FilterOutcome::Any)
    } else if i == 1 {
        Some(FilterOutcome::Specific(State::Active))
    } else if i == 2 {
        Some(FilterOutcome::Specific(State::Inactive))
    } else if i == 3 {
        Some(FilterOutcome::Specific(State::Closed))
    } else {
        None
    }
}

/// The option labels of the state-filter prompt, in menu order.
pub fn filter_options() -> (opts: Vec<String>)
    ensures
        opts@.len() == 4,
        opts@[0]@ == "Any"@,
        opts@[1]@ == "active"@,
        opts@[2]@ == "inactive"@,
        opts@[3]@ == "closed"@,
{
    let mut opts: Vec<String> = Vec::new();
    opts.push(String::from_str("Any"));
    opts.push(String::from_str("active"));
    opts.push(String::from_str("inactive"));
    opts.push(String::from_str("closed"));
    opts
}

/// Progress through the prompts of a filtered listing: confirm filtering,
/// pick a start date, pick an end date, pick a state filter, then fetch.
/// Cancelling any prompt abandons the whole operation; no partial date
/// range ever reaches the fetch.
#[derive(Clone, Copy, Debug, PartialEq, Eq, Structural)]
pub enum ListStage {
    AwaitFilterConfirm { start_range: DateRange },
    AwaitStartDate { start_range: DateRange },
    AwaitEndDate { start: Date, end_range: DateRange },
    AwaitStateFilter { start: Date, end: Date },
    ReadyToFetch { start: Date, end: Date, state: FilterOutcome },
    Abandoned,
}

/// Well-formedness carried through the listing flow: every offered range is
/// valid, the end-date span starts at the chosen start date, and a chosen
/// pair is always ordered.
pub open spec fn list_wf(s: ListStage) -> bool {
    match s {
        ListStage::AwaitFilterConfirm { start_range } => start_range.wf(),
        ListStage::AwaitStartDate { start_range } => start_range.wf(),
        ListStage::AwaitEndDate { start, end_range } => end_range.wf() && end_range.minimum_date
            == start,
        ListStage::AwaitStateFilter { start, end } => start.valid() && end.valid() && start.le_spec(
            end,
        ),
        ListStage::ReadyToFetch { start, end, state } => start.valid() && end.valid()
            && start.le_spec(end),
        ListStage::Abandoned => true,
    }
}

/// Starts the listing flow from an available start-date span: with one, the
/// filter confirmation is owed next, over exactly that span; without one,
/// the listing is abandoned.
pub fn begin_list_with(range: Option<DateRange>) -> (s: ListStage)
    requires
        range matches Some(dr) ==> dr.wf(),
    ensures
        (match range {
            Some(dr) => s == (ListStage::AwaitFilterConfirm { start_range: dr }),
            None => s is Abandoned,
        }),
        list_wf(s),
{
    match range {
        Some(start_range) => ListStage::AwaitFilterConfirm { start_range },
        None => ListStage::Abandoned,
    }
}

/// Begins the listing flow; the start-date span defaults to the year ending
/// today, bounded below by exactly 365 days before it. Abandoned when the
/// clock lies outside the supported span.
pub fn begin_list() -> (s: ListStage)
    ensures
        s is AwaitFilterConfirm || s is Abandoned,
        list_wf(s),
        (match s {
            ListStage::AwaitFilterConfirm { start_range } => spec_days_before(
                start_range.maximum_date,
                365,
            ) == Some(start_range.minimum_date),
            _ => true,
        }),
{
    begin_list_with(default_start_range())
}

/// The confirmation answer before any date prompt: cancelling abandons the
/// listing; any answer moves on to the start date.
pub open spec fn on_filter_confirm_spec(s: ListStage, answer: Option<bool>) -> ListStage {
    match s {
        ListStage::AwaitFilterConfirm { start_range } => match answer {
            Some(_) => ListStage::AwaitStartDate { start_range },
            None => ListStage::Abandoned,
        },
        other => other,
    }
}

/// Feeds the answer of the filter-confirmation prompt.
pub fn on_filter_confirm(s: ListStage, answer: Option<bool>) -> (r: ListStage)
    ensures
        r == on_filter_confirm_spec(s, answer),
        list_wf(s) ==> list_wf(r),
{
    match s {
        ListStage::AwaitFilterConfirm { start_range } => match answer {
            Some(_) => ListStage::AwaitStartDate { start_range },
            None => ListStage::Abandoned,
        },
        other => other,
    }
}

/// The start-date answer: cancelling abandons the listing, so the end date
/// is never prompted for; a date outside the offered span is not taken and
/// the same prompt is owed again. A chosen start date bounds the end-date
/// span from below, up to the same upper bound as the start span.
pub open spec fn on_start_date_spec(s: ListStage, answer: Option<Date>) -> ListStage {
    match s {
        ListStage::AwaitStartDate { start_range } => match answer {
            None => ListStage::Abandoned,
            Some(d) => if start_range.contains(d) && d.valid() {
                ListStage::AwaitEndDate {
                    start: d,
                    end_range: DateRange { minimum_date: d, maximum_date: start_range.maximum_date },
                }
            } else {
                s
            },
        },
        other => other,
    }
}

/// Feeds the answer of the start-date prompt.
pub fn on_start_date(s: ListStage, answer: Option<Date>) -> (r: ListStage)
    ensures
        r == on_start_date_spec(s, answer),
        list_wf(s) ==> list_wf(r),
{
    match s {
        ListStage::AwaitStartDate { start_range } => match answer {
            None => ListStage::Abandoned,
            Some(d) => {
                if start_range.contains_date(&d) && d.is_valid() {
                    ListStage::AwaitEndDate {
                        start: d,
                        end_range: DateRange {
                            minimum_date: d,
                            maximum_date: start_range.maximum_date,
                        },
                    }
                } else {
                    ListStage::AwaitStartDate { start_range }
                }
            },
        },
        other => other,
    }
}

/// The end-date answer: cancelling after a chosen start date abandons the
/// whole listing; a date outside the offered span is not taken and the same
/// prompt is owed again.
pub open spec fn on_end_date_spec(s: ListStage, answer: Option<Date>) -> ListStage {
    match s {
        ListStage::AwaitEndDate { start, end_range } => match answer {
            None => ListStage::Abandoned,
            Some(d) => if end_range.contains(d) && d.valid() {
                ListStage::AwaitStateFilter { start, end: d }
            } else {
                s
            },
        },
        other => other,
    }
}

/// Feeds the answer of the end-date prompt.
pub fn on_end_date(s: ListStage, answer: Option<Date>) -> (r: ListStage)
    ensures
        r == on_end_date_spec(s, answer),
        list_wf(s) ==> list_wf(r),
{
    match s {
        ListStage::AwaitEndDate { start, end_range } => match answer {
            None => ListStage::Abandoned,
            Some(d) => {
                if end_range.contains_date(&d) && d.is_valid() {
                    ListStage::AwaitStateFilter { start, end: d }
                } else {
                    ListStage::AwaitEndDate { start, end_range }
                }
            },
        },
        other => other,
    }
}

/// The state-filter answer: cancelling abandons the listing; a known menu
/// position fixes the filter and the fetch may go ahead.
pub open spec fn on_state_filter_spec(s: ListStage, selection: Option<usize>) -> ListStage {
    match s {
        ListStage::AwaitStateFilter { start, end } => match selection {
            None => ListStage::Abandoned,
            Some(i) => match filter_of_index(i as int) {
                Some(f) => ListStage::ReadyToFetch { start, end, state: f },
                None => s,
            },
        },
        other => other,
    }
}

/// Feeds the answer of the state-filter prompt.
pub fn on_state_filter(s: ListStage, selection: Option<usize>) -> (r: ListStage)
    ensures
        r == on_state_filter_spec(s, selection),
        list_wf(s) ==> list_wf(r),
{
    match s {
        ListStage::AwaitStateFilter { start, end } => match selection {
            None => ListStage::Abandoned,
            Some(i) => {
                if i == 0 {
                    ListStage::ReadyToFetch { start, end, state: FilterOutcome::Any }
                } else if i == 1 {
                    ListStage::ReadyToFetch {
                        start,
                        end,
                        state: FilterOutcome::Specific(State::Active),
                    }
                } else if i == 2 {
                    ListStage::ReadyToFetch {
                        start,
                        end,
                        state: FilterOutcome::Specific(State::Inactive),
                    }
                } else if i == 3 {
                    ListStage::ReadyToFetch {
                        start,
                        end,
                        state: FilterOutcome::Specific(State::Closed),
                    }
                } else {
                    ListStage::AwaitStateFilter { start, end }
                }
            },
        },
        other => other,
    }
}

/// The opaque name-to-value parameters handed to the resource client's
/// list call: the two date bounds, and the state when one was chosen.
pub fn build_list_params(start: &Date, end: &Date, state: FilterOutcome) -> (params: Vec<
    (String, String),
>)
    requires
        start.valid(),
        end.valid(),
    ensures
        params@.len() == (if state is Any {
            2int
        } else {
            3int
        }),
        params@[0].0@ == "StartDate"@ && params@[0].1@ == date_string(*start),
        params@[1].0@ == "EndDate"@ && params@[1].1@ == date_string(*end),
        (match state {
            FilterOutcome::Specific(st) => params@[2].0@ == "State"@ && params@[2].1@
                == st.label_spec(),
            FilterOutcome::Any => true,
        }),
{
    let mut params: Vec<(String, String)> = Vec::new();
    params.push((String::from_str("StartDate"), format_date(start)));
    params.push((String::from_str("EndDate"), format_date(end)));
    match state {
        FilterOutcome::Specific(st) => {
            params.push((String::from_str("State"), String::from_str(st.as_str())));
        },
        FilterOutcome::Any => {},
    }
    params
}

/// One listing line for a conversation: its identifier, its unique name
/// when it has one, and its state.
pub open spec fn line_spec(c: Conversation) -> Seq<char> {
    match c.unique_name {
        Some(u) => "("@ + c.sid@ + ") "@ + u@ + " - "@ + c.state.label_spec(),
        None => c.sid@ + " - "@ + c.state.label_spec(),
    }
}

/// Renders one listing line for a conversation.
pub fn render_line(c: &Conversation) -> (r: String)
    ensures
        r@ == line_spec(*c),
{
    let mut out = String::new();
    match &c.unique_name {
        Some(u) => {
            out.append("(");
            out.append(c.sid.as_str());
            out.append(") ");
            out.append(u.as_str());
            out.append(" - ");
            out.append(c.state.as_str());
        },
        None => {
            out.append(c.sid.as_str());
            out.append(" - ");
            out.append(c.state.as_str());
        },
    }
    proof {
        assert(out@ =~= line_spec(*c));
    }
    out
}

/// The status line reporting how many resources a listing found.
pub open spec fn found_message_spec(n: nat) -> Seq<char> {
    "Found "@ + dec_rep(n) + " resources."@
}

/// The status line shown for an empty listing; an empty result is not an
/// error.
pub open spec fn no_resources_message() -> Seq<char> {
    "No resources found."@
}

/// Renders the found-count status line.
pub fn found_message(n: usize) -> (r: String)
    ensures
        r@ == found_message_spec(n as nat),
{
    let mut out = String::from_str("Found ");
    push_decimal(n as u64, &mut out);
    out.append(" resources.");
    proof {
        assert(out@ =~= found_message_spec(n as nat));
    }
    out
}

/// Everything a listing prints: the status line, then one line per item in
/// input order; an empty listing prints only the empty-result notice.
pub fn render_listing(items: &Vec<Conversation>) -> (out: Vec<String>)
    ensures
        items@.len() == 0 ==> out@.len() == 1 && out@[0]@ == no_resources_message(),
        items@.len() > 0 ==> out@.len() == items@.len() + 1,
        items@.len() > 0 ==> out@[0]@ == found_message_spec(items@.len()),
        forall|i: int| 0 <= i < items@.len() ==> out@[i + 1]@ == line_spec(items@[i]),
{
    let mut out: Vec<String> = Vec::new();
    if items.len() == 0 {
        out.push(String::from_str("No resources found."));
        return out;
    }
    out.push(found_message(items.len()));
    let mut i: usize = 0;
    while i < items.len()
        invariant
            i <= items@.len(),
            out@.len() == i + 1,
            out@[0]@ == found_message_spec(items@.len()),
            forall|j: int| 0 <= j < i ==> out@[j + 1]@ == line_spec(items@[j]),
        decreases items@.len() - i,
    {
        out.push(render_line(&items[i]));
        i = i + 1;
    }
    out
}

/// What a classified get answer means for the menu: the resource, a benign
/// miss, or a failure that ends the session.
#[derive(Clone, Debug)]
pub enum GetReport {
    Found(Conversation),
    Missing,
    Fatal(ClassifiedError),
}

/// Classifies a get answer: not-found is reported and the menu resumes;
/// any other failure is fatal.
pub fn classify_get(r: Result<Conversation, ClassifiedError>) -> (rep: GetReport)
    ensures
        (match r {
            Ok(c) => rep == GetReport::Found(c),
            Err(e) => {
                &&& e.kind is NotFound ==> rep == GetReport::Missing
                &&& e.kind is RemoteFailure ==> rep == GetReport::Fatal(e)
            },
        }),
{
    match r {
        Ok(c) => GetReport::Found(c),
        Err(e) => match &e.kind {
            ErrorClass::NotFound => GetReport::Missing,
            ErrorClass::RemoteFailure(_) => GetReport::Fatal(e),
        },
    }
}

/// What a classified delete answer means for the menu.
#[derive(Clone, Debug)]
pub enum DeleteReport {
    Deleted,
    AlreadyGone,
    Fatal(ClassifiedError),
}

/// Classifies a delete answer: deleting an absent resource is benign; any
/// other failure is fatal.
pub fn classify_delete(r: Result<(), ClassifiedError>) -> (rep: DeleteReport)
    ensures
        (match r {
            Ok(_) => rep == DeleteReport::Deleted,
            Err(e) => {
                &&& e.kind is NotFound ==> rep == DeleteReport::AlreadyGone
                &&& e.kind is RemoteFailure ==> rep == DeleteReport::Fatal(e)
            },
        }),
{
    match r {
        Ok(_) => DeleteReport::Deleted,
        Err(e) => match &e.kind {
            ErrorClass::NotFound => DeleteReport::AlreadyGone,
            ErrorClass::RemoteFailure(_) => DeleteReport::Fatal(e),
        },
    }
}

/// Whether a single destructive action may go ahead.
#[derive(Clone, Copy, Debug, PartialEq, Eq, Structural)]
pub enum DeleteDecision {
    Proceed,
    Abort,
}

/// A single-resource delete proceeds only on an explicit affirmative
/// confirmation; declining or cancelling makes no remote call.
pub fn decide_delete(confirmation: Option<bool>) -> (r: DeleteDecision)
    ensures
        r == DeleteDecision::Proceed <==> confirmation == Some(true),
{
    match confirmation {
        Some(true) => DeleteDecision::Proceed,
        _ => DeleteDecision::Abort,
    }
}

/// Progress through the two confirmations demanded before a bulk delete.
#[derive(Clone, Copy, Debug, PartialEq, Eq, Structural)]
pub enum DeleteAllStage {
    AwaitingFirst,
    AwaitingSecond,
    Approved,
    Abandoned,
}

/// One confirmation step of the bulk-delete protocol: each affirmative
/// advances one stage; declining or cancelling either abandons the whole
/// operation.
pub open spec fn delete_all_step_spec(stage: DeleteAllStage, answer: Option<bool>) -> DeleteAllStage {
    match stage {
        DeleteAllStage::AwaitingFirst => if answer == Some(true) {
            DeleteAllStage::AwaitingSecond
        } else {
            DeleteAllStage::Abandoned
        },
        DeleteAllStage::AwaitingSecond => if answer == Some(true) {
            DeleteAllStage::Approved
        } else {
            DeleteAllStage::Abandoned
        },
        s => s,
    }
}

/// One confirmation step of the bulk-delete protocol.
pub fn delete_all_step(stage: DeleteAllStage, answer: Option<bool>) -> (r: DeleteAllStage)
    ensures
        r == delete_all_step_spec(stage, answer),
{
    match stage {
        DeleteAllStage::AwaitingFirst => match answer {
            Some(true) => DeleteAllStage::AwaitingSecond,
            _ => DeleteAllStage::Abandoned,
        },
        DeleteAllStage::AwaitingSecond => match answer {
            Some(true) => DeleteAllStage::Approved,
            _ => DeleteAllStage::Abandoned,
        },
        s => s,
    }
}

/// A bulk delete is approved exactly when both sequential confirmations
/// were answered affirmatively; affirming the first and declining the
/// second leaves the operation abandoned, with no remote call owed.
pub proof fn lemma_delete_all_needs_two_confirmations(a1: Option<bool>, a2: Option<bool>)
    ensures
        delete_all_step_spec(delete_all_step_spec(DeleteAllStage::AwaitingFirst, a1), a2)
            == DeleteAllStage::Approved <==> (a1 == Some(true) && a2 == Some(true)),
{
}

} // verus!
