use resnav::conversation::{
    build_list_params, filter_options, found_message, on_end_date, on_filter_confirm,
    on_start_date, on_state_filter, render_line, render_listing, Conversation, ConversationPage,
    ConversationPageMeta, Conversations, FilterOutcome, Links, ListStage, State, Timers,
};
use resnav::conversation::{begin_list, begin_list_with};
use resnav::dates::{days_before, Date, DateRange};

fn d(year: u32, month: u32, day: u32) -> Date {
    Date { year, month, day }
}

fn named_conversation(sid: &str, unique_name: Option<&str>, state: State) -> Conversation {
    let mut c = Conversation::default();
    c.sid = sid.to_string();
    c.unique_name = unique_name.map(|s| s.to_string());
    c.state = state;
    c
}

fn start_stage() -> ListStage {
    ListStage::AwaitFilterConfirm {
        start_range: DateRange::new(d(2022, 6, 15), d(2023, 6, 15)).unwrap(),
    }
}

#[test]
fn a_fresh_listing_waits_for_the_filter_confirmation() {
    let s = begin_list();
    match s {
        ListStage::AwaitFilterConfirm { start_range } => {
            assert!(DateRange::new(start_range.minimum_date, start_range.maximum_date).is_some());
            assert_eq!(
                days_before(&start_range.maximum_date, 365),
                Some(start_range.minimum_date)
            );
        },
        other => panic!("unexpected stage {:?}", other),
    }
}

#[test]
fn a_listing_without_a_start_span_is_abandoned() {
    assert_eq!(begin_list_with(None), ListStage::Abandoned);
    let range = DateRange::new(d(2022, 6, 15), d(2023, 6, 15)).unwrap();
    assert_eq!(
        begin_list_with(Some(range)),
        ListStage::AwaitFilterConfirm { start_range: range }
    );
}

#[test]
fn cancelling_the_filter_confirmation_abandons_the_listing() {
    assert_eq!(on_filter_confirm(start_stage(), None), ListStage::Abandoned);
}

#[test]
fn cancelling_the_start_date_abandons_before_the_end_prompt() {
    let s = on_filter_confirm(start_stage(), Some(true));
    assert!(matches!(s, ListStage::AwaitStartDate { .. }));
    assert_eq!(on_start_date(s, None), ListStage::Abandoned);
}

#[test]
fn an_out_of_range_start_date_is_prompted_again() {
    let s = on_filter_confirm(start_stage(), Some(true));
    let again = on_start_date(s, Some(d(2021, 1, 1)));
    assert_eq!(again, s);
}

#[test]
fn cancelling_the_end_date_abandons_the_whole_filter() {
    let s = on_filter_confirm(start_stage(), Some(true));
    let s = on_start_date(s, Some(d(2023, 1, 1)));
    assert!(matches!(s, ListStage::AwaitEndDate { .. }));
    assert_eq!(on_end_date(s, None), ListStage::Abandoned);
}

#[test]
fn the_end_date_span_starts_at_the_chosen_start_date() {
    let s = on_filter_confirm(start_stage(), Some(true));
    let s = on_start_date(s, Some(d(2023, 1, 1)));
    match s {
        ListStage::AwaitEndDate { start, end_range } => {
            assert_eq!(start, d(2023, 1, 1));
            assert_eq!(end_range.minimum_date, d(2023, 1, 1));
            assert_eq!(end_range.maximum_date, d(2023, 6, 15));
        },
        other => panic!("unexpected stage {:?}", other),
    }
    let before_start = on_end_date(s, Some(d(2022, 12, 31)));
    assert_eq!(before_start, s);
}

#[test]
fn listing_with_state_and_date_filter_end_to_end() {
    let s = on_filter_confirm(start_stage(), Some(true));
    let s = on_start_date(s, Some(d(2023, 1, 1)));
    let s = on_end_date(s, Some(d(2023, 6, 1)));
    assert!(matches!(s, ListStage::AwaitStateFilter { .. }));
    let s = on_state_filter(s, Some(1));
    let (start, end, state) = match s {
        ListStage::ReadyToFetch { start, end, state } => (start, end, state),
        other => panic!("unexpected stage {:?}", other),
    };
    assert_eq!(state, FilterOutcome::Specific(State::Active));

    let params = build_list_params(&start, &end, state);
    let params: Vec<(&str, &str)> =
        params.iter().map(|(k, v)| (k.as_str(), v.as_str())).collect();
    assert_eq!(
        params,
        vec![("StartDate", "2023-01-01"), ("EndDate", "2023-06-01"), ("State", "active")]
    );

    let page = ConversationPage {
        conversations: vec![
            named_conversation("CHa", Some("support"), State::Active),
            named_conversation("CHb", None, State::Active),
        ],
        meta: ConversationPageMeta {
            page: 0,
            page_size: 50,
            first_page_url: String::new(),
            previous_page_url: None,
            next_page_url: None,
            key: String::new(),
        },
    };
    let mut agg = Conversations::new();
    assert!(agg.on_page(Ok(page)).is_none());
    let items = agg.into_result().expect("listing succeeded");

    let lines = render_listing(&items);
    assert_eq!(
        lines,
        vec!["Found 2 resources.", "(CHa) support - active", "CHb - active"]
    );
}

#[test]
fn choosing_any_state_sends_no_state_parameter() {
    let params = build_list_params(&d(2023, 1, 1), &d(2023, 6, 1), FilterOutcome::Any);
    assert_eq!(params.len(), 2);
    assert_eq!(params[0].0, "StartDate");
    assert_eq!(params[1].0, "EndDate");
}

#[test]
fn cancelling_the_state_filter_abandons_the_listing() {
    let s = ListStage::AwaitStateFilter { start: d(2023, 1, 1), end: d(2023, 6, 1) };
    assert_eq!(on_state_filter(s, None), ListStage::Abandoned);
    assert_eq!(
        on_state_filter(s, Some(0)),
        ListStage::ReadyToFetch { start: d(2023, 1, 1), end: d(2023, 6, 1), state: FilterOutcome::Any }
    );
    assert_eq!(on_state_filter(s, Some(9)), s);
}

#[test]
fn filter_menu_offers_any_and_every_state() {
    assert_eq!(filter_options(), vec!["Any", "active", "inactive", "closed"]);
}

#[test]
fn empty_listing_reports_no_resources() {
    let items: Vec<Conversation> = Vec::new();
    assert_eq!(render_listing(&items), vec!["No resources found."]);
}

#[test]
fn found_count_message_is_exact() {
    assert_eq!(found_message(1), "Found 1 resources.");
    assert_eq!(found_message(17), "Found 17 resources.");
}

#[test]
fn a_line_shows_the_unique_name_only_when_present() {
    let with = named_conversation("CHa", Some("support"), State::Closed);
    assert_eq!(render_line(&with), "(CHa) support - closed");
    let without = named_conversation("CHb", None, State::Inactive);
    assert_eq!(render_line(&without), "CHb - inactive");
}

#[test]
fn fresh_records_default_to_empty_fields() {
    let c = Conversation::default();
    assert_eq!(c.sid, "");
    assert!(c.unique_name.is_none());
    assert_eq!(c.state, State::Active);
    let t = Timers::default();
    assert!(t.date_inactive.is_none() && t.date_closed.is_none());
    let l = Links::default();
    assert_eq!(l.participants, "");
    assert_eq!(l.messages, "");
    assert_eq!(l.webhooks, "");
}
