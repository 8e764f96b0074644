use sparkling::domain::entities::{Board, Card, Column};
use sparkling::domain::errors::DomainError;
use sparkling::domain::ports::{CardFilters, CreateCardInput, CreateEventInput, Particulars, UpdateCardInput};
use sparkling::domain::value_objects::{CardStatus, Date, FizzyId, Timestamp};
use sparkling::infrastructure::persistence::card_query::filter_clauses;
use sparkling::infrastructure::persistence::memory_model::Faults;
use sparkling::infrastructure::persistence::memory_store::{
    filter_admits, predicate_holds, CardRecord, MemoryStore,
};

fn id(n: u128) -> FizzyId {
    FizzyId::from_number(n)
}

fn at(micros: i64) -> Timestamp {
    Timestamp { micros }
}

const ACCOUNT: u128 = 1;
const OTHER_ACCOUNT: u128 = 2;
const ALICE: u128 = 10;
const BOB: u128 = 11;
const ROADMAP: u128 = 100;
const SECRET: u128 = 101;
const TODO: u128 = 200;
const DOING: u128 = 201;
const ELSEWHERE: u128 = 202;

fn board(board_id: u128, account: u128, name: &str, all_access: bool) -> Board {
    Board {
        id: id(board_id),
        account_id: id(account),
        creator_id: id(ALICE),
        name: name.to_string(),
        all_access,
        created_at: at(1),
        updated_at: at(1),
        card_count: None,
    }
}

fn column(column_id: u128, board_id: u128, name: &str, position: i32) -> Column {
    Column {
        id: id(column_id),
        account_id: id(ACCOUNT),
        board_id: id(board_id),
        name: name.to_string(),
        color: "blue".to_string(),
        position,
    }
}

#[allow(clippy::too_many_arguments)]
fn record(
    card_id: u128,
    account: u128,
    board_id: u128,
    column_id: Option<u128>,
    number: i64,
    status: CardStatus,
    active: i64,
    golden: bool,
    assignees: &[u128],
) -> CardRecord {
    CardRecord {
        card: Card {
            id: id(card_id),
            account_id: id(account),
            board_id: id(board_id),
            column_id: column_id.map(id),
            creator_id: id(ALICE),
            number,
            title: format!("Card {}", number),
            description: None,
            status,
            due_on: None,
            last_active_at: at(active),
            created_at: at(1),
            updated_at: at(active),
            board_name: None,
            column_name: None,
            column_color: None,
            creator_name: Some("Alice".to_string()),
            assignee_names: assignees.iter().map(|a| format!("user {}", a)).collect(),
            tag_titles: vec![],
            is_golden: golden,
        },
        assignee_ids: assignees.iter().map(|a| id(*a)).collect(),
    }
}

fn fixture_records() -> Vec<CardRecord> {
    vec![
        record(1001, ACCOUNT, ROADMAP, Some(TODO), 1, CardStatus::Triaged, 50, false, &[ALICE]),
        record(1002, ACCOUNT, ROADMAP, Some(DOING), 2, CardStatus::Closed, 60, false, &[ALICE, BOB]),
        record(1003, ACCOUNT, ROADMAP, None, 3, CardStatus::Drafted, 40, true, &[]),
        record(1004, ACCOUNT, SECRET, Some(ELSEWHERE), 4, CardStatus::NotNow, 70, true, &[BOB]),
        record(1005, ACCOUNT, SECRET, Some(ELSEWHERE), 5, CardStatus::Published, 30, false, &[BOB]),
        record(1006, OTHER_ACCOUNT, ROADMAP, Some(TODO), 1, CardStatus::Triaged, 80, false, &[ALICE]),
        record(1007, ACCOUNT, ROADMAP, Some(TODO), 7, CardStatus::Triaged, 60, false, &[ALICE]),
    ]
}

fn fixture() -> MemoryStore {
    let mut store = MemoryStore::new();
    store.insert_board(board(ROADMAP, ACCOUNT, "Roadmap", true));
    store.insert_board(board(SECRET, ACCOUNT, "Secret", false));
    store.insert_board(board(102, OTHER_ACCOUNT, "Roadmap", true));
    store.insert_column(column(DOING, ROADMAP, "Doing", 2));
    store.insert_column(column(TODO, ROADMAP, "To do", 1));
    store.insert_column(column(ELSEWHERE, SECRET, "Elsewhere", 1));
    store.grant_access(id(SECRET), id(BOB));
    for r in fixture_records() {
        store.insert_card(r);
    }
    store
}

fn numbers(cards: &[Card]) -> Vec<i64> {
    cards.iter().map(|c| c.number).collect()
}

#[test]
fn point_lookups() {
    let store = fixture();
    let card = store.find_by_number(&id(ACCOUNT), 1).unwrap().unwrap();
    assert_eq!(card.id, id(1001));
    assert_eq!(card.board_name.as_deref(), Some("Roadmap"));
    assert_eq!(card.column_name.as_deref(), Some("To do"));
    assert_eq!(card.column_color.as_deref(), Some("blue"));
    assert_eq!(card.assignee_names, vec!["user 10".to_string()]);
    let other = store.find_by_number(&id(OTHER_ACCOUNT), 1).unwrap().unwrap();
    assert_eq!(other.id, id(1006));
    assert!(store.find_by_number(&id(ACCOUNT), 999).unwrap().is_none());
    let unplaced = store.find_card_by_id(&id(ACCOUNT), &id(1003)).unwrap().unwrap();
    assert_eq!(unplaced.column_name, None);
    assert!(store.find_card_by_id(&id(OTHER_ACCOUNT), &id(1003)).unwrap().is_none());
}

#[test]
fn boards_by_id_and_by_name() {
    let store = fixture();
    let roadmap = store.find_board_by_id(&id(ACCOUNT), &id(ROADMAP)).unwrap().unwrap();
    assert_eq!(roadmap.name, "Roadmap");
    // cards 1, 3 and 7 of this account and card 1 of the other are open on it
    assert_eq!(roadmap.card_count, Some(4));
    assert!(store.find_board_by_id(&id(OTHER_ACCOUNT), &id(SECRET)).unwrap().is_none());
    assert_eq!(store.find_by_name(&id(ACCOUNT), "roadmap").unwrap().unwrap().id, id(ROADMAP));
    assert_eq!(store.find_by_name(&id(ACCOUNT), "ROADMAP").unwrap().unwrap().id, id(ROADMAP));
    assert_eq!(store.find_by_name(&id(OTHER_ACCOUNT), "RoadMap").unwrap().unwrap().id, id(102));
    assert!(store.find_by_name(&id(ACCOUNT), "Road map").unwrap().is_none());
    let secret = store.find_by_name(&id(ACCOUNT), "sEcReT").unwrap().unwrap();
    assert_eq!(secret.card_count, Some(1));
}

#[test]
fn access_and_accessible_boards() {
    let store = fixture();
    assert_eq!(store.user_has_access(&id(ACCOUNT), &id(ROADMAP), &id(ALICE)), Ok(true));
    assert_eq!(store.user_has_access(&id(ACCOUNT), &id(SECRET), &id(ALICE)), Ok(false));
    assert_eq!(store.user_has_access(&id(ACCOUNT), &id(SECRET), &id(BOB)), Ok(true));
    assert_eq!(store.user_has_access(&id(OTHER_ACCOUNT), &id(SECRET), &id(BOB)), Ok(false));
    assert_eq!(store.user_has_access(&id(ACCOUNT), &id(999), &id(BOB)), Ok(false));
    let for_alice = store.list_accessible(&id(ACCOUNT), &id(ALICE)).unwrap();
    assert_eq!(for_alice.iter().map(|b| b.name.as_str()).collect::<Vec<_>>(), vec!["Roadmap"]);
    let for_bob = store.list_accessible(&id(ACCOUNT), &id(BOB)).unwrap();
    assert_eq!(for_bob.iter().map(|b| b.name.as_str()).collect::<Vec<_>>(), vec!["Roadmap", "Secret"]);
}

#[test]
fn boards_are_listed_by_name() {
    let mut store = MemoryStore::new();
    for (n, name) in ["delta", "Alpha", "charlie", "Bravo", "alpha"].iter().enumerate() {
        store.insert_board(board(500 + n as u128, ACCOUNT, name, true));
    }
    let boards = store.list_accessible(&id(ACCOUNT), &id(ALICE)).unwrap();
    let names: Vec<&str> = boards.iter().map(|b| b.name.as_str()).collect();
    assert_eq!(names, vec!["Alpha", "Bravo", "alpha", "charlie", "delta"]);
}

#[test]
fn columns_are_listed_by_position() {
    let store = fixture();
    let columns = store.get_columns(&id(ACCOUNT), &id(ROADMAP)).unwrap();
    assert_eq!(columns.iter().map(|c| c.name.as_str()).collect::<Vec<_>>(), vec!["To do", "Doing"]);
    assert!(store.get_columns(&id(ACCOUNT), &id(999)).unwrap().is_empty());
    assert!(store.get_columns(&id(OTHER_ACCOUNT), &id(ROADMAP)).unwrap().is_empty());
}

#[test]
fn listing_orders_by_last_activity_and_cuts_a_window() {
    let store = fixture();
    let all = store.list(&id(ACCOUNT), &CardFilters::default()).unwrap();
    // cards 2 and 7 were active at the same time and keep their stored order
    assert_eq!(numbers(&all), vec![4, 2, 7, 1, 3, 5]);
    let page = |limit, offset| {
        let filters = CardFilters { limit, offset, ..CardFilters::default() };
        numbers(&store.list(&id(ACCOUNT), &filters).unwrap())
    };
    assert_eq!(page(Some(2), None), vec![4, 2]);
    assert_eq!(page(Some(2), Some(2)), vec![7, 1]);
    assert_eq!(page(Some(10), Some(4)), vec![3, 5]);
    assert_eq!(page(None, Some(5)), vec![5]);
    assert_eq!(page(None, Some(6)), Vec::<i64>::new());
    assert_eq!(page(None, Some(100)), Vec::<i64>::new());
    assert_eq!(page(Some(0), None), Vec::<i64>::new());
    assert_eq!(page(Some(-1), None), vec![4, 2, 7, 1, 3, 5]);
    assert_eq!(page(Some(3), Some(-5)), vec![4, 2, 7]);
}

#[test]
fn listing_by_each_filter() {
    let store = fixture();
    let list = |filters: CardFilters| numbers(&store.list(&id(ACCOUNT), &filters).unwrap());
    assert_eq!(list(CardFilters { assignee_id: Some(id(BOB)), ..CardFilters::default() }), vec![4, 2, 5]);
    assert_eq!(list(CardFilters { board_id: Some(id(SECRET)), ..CardFilters::default() }), vec![4, 5]);
    assert_eq!(list(CardFilters { column_id: Some(id(TODO)), ..CardFilters::default() }), vec![7, 1]);
    assert_eq!(
        list(CardFilters {
            status: Some(vec![CardStatus::Closed, CardStatus::NotNow]),
            ..CardFilters::default()
        }),
        vec![4, 2]
    );
    assert_eq!(
        list(CardFilters {
            exclude_status: Some(vec![CardStatus::Closed, CardStatus::NotNow]),
            ..CardFilters::default()
        }),
        vec![7, 1, 3, 5]
    );
    assert_eq!(list(CardFilters { is_golden: Some(true), ..CardFilters::default() }), vec![4, 3]);
    assert_eq!(list(CardFilters { is_golden: Some(false), ..CardFilters::default() }), vec![2, 7, 1, 5]);
    // the creator is carried by the filter and selects nothing
    assert_eq!(list(CardFilters { creator_id: Some(id(BOB)), ..CardFilters::default() }), vec![4, 2, 7, 1, 3, 5]);
    // an empty allow-list selects nothing out
    assert_eq!(list(CardFilters { status: Some(vec![]), ..CardFilters::default() }), vec![4, 2, 7, 1, 3, 5]);
    // allow-list and deny-list are both applied
    assert_eq!(
        list(CardFilters {
            status: Some(vec![CardStatus::Triaged, CardStatus::Closed]),
            exclude_status: Some(vec![CardStatus::Closed]),
            ..CardFilters::default()
        }),
        vec![7, 1]
    );
}

fn subset(bits: u32) -> CardFilters {
    CardFilters {
        assignee_id: if bits & 1 != 0 { Some(id(ALICE)) } else { None },
        creator_id: None,
        board_id: if bits & 2 != 0 { Some(id(ROADMAP)) } else { None },
        column_id: if bits & 4 != 0 { Some(id(TODO)) } else { None },
        status: if bits & 8 != 0 {
            Some(vec![CardStatus::Triaged, CardStatus::Closed, CardStatus::Drafted])
        } else {
            None
        },
        exclude_status: if bits & 16 != 0 { Some(vec![CardStatus::Closed, CardStatus::NotNow]) } else { None },
        is_golden: if bits & 32 != 0 { Some(false) } else { None },
        limit: None,
        offset: None,
    }
}

#[test]
fn listing_agrees_with_filtering_the_fixture_directly() {
    let store = fixture();
    let records = fixture_records();
    let account = id(ACCOUNT);
    for bits in 0..64u32 {
        let filters = subset(bits);
        let listed = numbers(&store.list(&account, &filters).unwrap());
        let mut direct: Vec<&CardRecord> = records
            .iter()
            .filter(|r| r.card.account_id == account && filter_admits(&filters, r))
            .collect();
        direct.sort_by(|a, b| b.card.last_active_at.micros.cmp(&a.card.last_active_at.micros));
        let expected: Vec<i64> = direct.iter().map(|r| r.card.number).collect();
        assert_eq!(listed, expected, "subset {}", bits);
        let clauses = filter_clauses(&account, &filters);
        for r in &records {
            assert_eq!(
                predicate_holds(&clauses, r),
                r.card.account_id == account && filter_admits(&filters, r),
                "subset {} card {}",
                bits,
                r.card.number
            );
        }
    }
}

#[test]
fn disjoint_filters_compose() {
    let store = fixture();
    let account = id(ACCOUNT);
    for a in 0..64u32 {
        for b in 0..64u32 {
            if a & b != 0 {
                continue;
            }
            let both = numbers(&store.list(&account, &subset(a | b)).unwrap());
            let first = numbers(&store.list(&account, &subset(a)).unwrap());
            let second = numbers(&store.list(&account, &subset(b)).unwrap());
            let expected: Vec<i64> = first.iter().copied().filter(|n| second.contains(n)).collect();
            assert_eq!(both, expected, "subsets {} and {}", a, b);
        }
    }
}

#[test]
fn listing_never_changes_the_store() {
    let store = fixture();
    let before = format!("{:?}", store);
    let _ = store.list(&id(ACCOUNT), &subset(63));
    let _ = store.find_by_number(&id(ACCOUNT), 1);
    let _ = store.list_accessible(&id(ACCOUNT), &id(BOB));
    assert_eq!(format!("{:?}", store), before);
}

fn create_input(board_id: u128, title: &str) -> CreateCardInput {
    CreateCardInput {
        board_id: id(board_id),
        creator_id: id(ALICE),
        title: title.to_string(),
        description: Some("why".to_string()),
        status: CardStatus::Published,
        column_id: Some(id(TODO)),
    }
}

#[test]
fn creating_a_card() {
    let mut store = fixture();
    let card = store.create_with_id(&id(ACCOUNT), create_input(ROADMAP, "Ship it"), id(5000)).unwrap();
    assert_eq!(card.id, id(5000));
    assert_eq!(card.number, 8);
    assert_eq!(card.title, "Ship it");
    assert_eq!(card.description.as_deref(), Some("why"));
    assert_eq!(card.status, CardStatus::Published);
    assert_eq!(card.column_id, Some(id(TODO)));
    assert_eq!(card.board_name.as_deref(), Some("Roadmap"));
    assert_eq!(card.column_name.as_deref(), Some("To do"));
    assert_eq!(card.created_at, at(81));
    assert_eq!(card.last_active_at, card.created_at);
    assert_eq!(card.updated_at, card.created_at);
    assert_eq!(store.card_count(), 8);
    assert_eq!(store.event_count(), 0);
    let next = store.create(&id(ACCOUNT), create_input(ROADMAP, "Next")).unwrap();
    assert_eq!(next.number, 9);
    assert!(next.last_active_at.is_after(&card.last_active_at));
    let elsewhere = store.create(&id(OTHER_ACCOUNT), create_input(ROADMAP, "Other")).unwrap();
    assert_eq!(elsewhere.number, 2);
    let fresh = store.create(&id(77), create_input(ROADMAP, "First")).unwrap();
    assert_eq!(fresh.number, 1);
}

#[test]
fn creating_a_card_under_a_taken_identifier_fails_and_writes_nothing() {
    let mut store = fixture();
    let before = format!("{:?}", store);
    let r = store.create_with_id(&id(ACCOUNT), create_input(ROADMAP, "Again"), id(1001));
    assert_eq!(r.unwrap_err(), DomainError::InfrastructureError("card identifier already in use".to_string()));
    assert_eq!(format!("{:?}", store), before);
}

#[test]
fn card_numbers_never_repeat_within_an_account() {
    let mut store = MemoryStore::new();
    let mut seen = vec![];
    for k in 0..20 {
        let card = store.create(&id(ACCOUNT), create_input(ROADMAP, "x")).unwrap();
        assert!(!seen.contains(&card.number));
        assert_eq!(card.number, k + 1);
        seen.push(card.number);
    }
}

#[test]
fn updating_changes_only_what_is_given() {
    let mut store = fixture();
    let before = store.find_by_number(&id(ACCOUNT), 1).unwrap().unwrap();
    let update = UpdateCardInput { title: Some("New title".to_string()), ..UpdateCardInput::default() };
    let after = store.update(&id(ACCOUNT), &id(1001), update).unwrap();
    assert_eq!(after.title, "New title");
    assert_eq!(after.description, before.description);
    assert_eq!(after.status, before.status);
    assert_eq!(after.column_id, before.column_id);
    assert_eq!(after.due_on, before.due_on);
    assert_eq!(after.last_active_at, before.last_active_at);
    assert_eq!(after.updated_at, before.updated_at);
    assert_eq!(after.number, before.number);
    let update = UpdateCardInput {
        title: None,
        description: Some("text".to_string()),
        status: Some(CardStatus::NotNow),
        column_id: Some(id(DOING)),
        due_on: Some(Date { year: 2030, month: 1, day: 2 }),
    };
    let after = store.update(&id(ACCOUNT), &id(1001), update).unwrap();
    assert_eq!(after.title, "New title");
    assert_eq!(after.description.as_deref(), Some("text"));
    assert_eq!(after.status, CardStatus::NotNow);
    assert_eq!(after.column_id, Some(id(DOING)));
    assert_eq!(after.column_name.as_deref(), Some("Doing"));
    assert_eq!(after.due_on, Some(Date { year: 2030, month: 1, day: 2 }));
    let stored = store.find_by_number(&id(ACCOUNT), 1).unwrap().unwrap();
    assert_eq!(format!("{:?}", stored), format!("{:?}", after));
    // the empty update changes nothing
    let same = store.update(&id(ACCOUNT), &id(1001), UpdateCardInput::default()).unwrap();
    assert_eq!(format!("{:?}", same), format!("{:?}", after));
}

#[test]
fn updating_fails_for_a_missing_card_or_a_foreign_column() {
    let mut store = fixture();
    let before = format!("{:?}", store);
    let r = store.update(&id(ACCOUNT), &id(4242), UpdateCardInput::default());
    assert_eq!(
        r.unwrap_err(),
        DomainError::NotFound { entity: "Card".to_string(), id: id(4242).to_string() }
    );
    let update = UpdateCardInput { column_id: Some(id(ELSEWHERE)), ..UpdateCardInput::default() };
    let r = store.update(&id(ACCOUNT), &id(1001), update);
    assert_eq!(
        r.unwrap_err(),
        DomainError::InvalidState { message: "Column does not belong to the card's board".to_string() }
    );
    assert_eq!(format!("{:?}", store), before);
}

#[test]
fn closing_and_reopening_touch_the_status_only() {
    let mut store = fixture();
    let before = store.find_by_number(&id(ACCOUNT), 3).unwrap().unwrap();
    assert_eq!(before.status, CardStatus::Drafted);
    store.close(&id(ACCOUNT), &id(1003), &id(ALICE)).unwrap();
    let closed = store.find_by_number(&id(ACCOUNT), 3).unwrap().unwrap();
    assert_eq!(closed.status, CardStatus::Closed);
    assert_eq!(closed.updated_at, before.updated_at);
    assert_eq!(closed.last_active_at, before.last_active_at);
    assert_eq!(closed.title, before.title);
    store.reopen(&id(ACCOUNT), &id(1003)).unwrap();
    let reopened = store.find_by_number(&id(ACCOUNT), 3).unwrap().unwrap();
    // reopening lands in the active state, not in the state before closing
    assert_eq!(reopened.status, CardStatus::Triaged);
    assert!(matches!(
        store.close(&id(ACCOUNT), &id(4242), &id(ALICE)),
        Err(DomainError::NotFound { .. })
    ));
    assert!(matches!(store.reopen(&id(OTHER_ACCOUNT), &id(1003)), Err(DomainError::NotFound { .. })));
}

#[test]
fn writing_a_comment_writes_comment_content_and_activity_together() {
    let mut store = fixture();
    let before = store.find_by_number(&id(ACCOUNT), 1).unwrap().unwrap();
    let comment = store
        .create_comment_with_ids(&id(ACCOUNT), &id(1001), &id(BOB), "hello", id(7000), id(7001))
        .unwrap();
    assert_eq!(comment.id, id(7000));
    assert_eq!(comment.card_id, id(1001));
    assert_eq!(comment.creator_id, id(BOB));
    assert_eq!(comment.content, "hello");
    assert_eq!(comment.created_at, at(81));
    assert_eq!(store.comment_count(), 1);
    assert_eq!(store.content_count(), 1);
    let after = store.find_by_number(&id(ACCOUNT), 1).unwrap().unwrap();
    assert!(after.last_active_at.is_after(&before.last_active_at));
    assert_eq!(after.last_active_at, comment.created_at);
    assert_eq!(after.updated_at, comment.created_at);
    assert_eq!(after.title, before.title);
    let listed = store.list_for_card(&id(ACCOUNT), &id(1001), None).unwrap();
    assert_eq!(listed.len(), 1);
    assert_eq!(listed[0].content, "hello");
    assert_eq!(listed[0].id, id(7000));
    // the card is now the most recently active one
    assert_eq!(numbers(&store.list(&id(ACCOUNT), &CardFilters::default()).unwrap())[0], 1);
}

#[test]
fn a_comment_whose_content_cannot_be_written_is_not_written_at_all() {
    let mut store = fixture();
    store.set_faults(Faults { content_writes: true, event_writes: false });
    let before = format!("{:?}", store);
    let r = store.create_comment(&id(ACCOUNT), &id(1001), &id(BOB), "hello");
    assert_eq!(r.unwrap_err(), DomainError::InfrastructureError("content write failed".to_string()));
    assert_eq!(store.comment_count(), 0);
    assert_eq!(store.content_count(), 0);
    assert_eq!(format!("{:?}", store), before);
    assert!(store.list_for_card(&id(ACCOUNT), &id(1001), None).unwrap().is_empty());
}

#[test]
fn comment_writes_that_fail_write_nothing() {
    let mut store = fixture();
    store.create_comment_with_ids(&id(ACCOUNT), &id(1001), &id(BOB), "one", id(7000), id(7001)).unwrap();
    let before = format!("{:?}", store);
    let missing = store.create_comment(&id(ACCOUNT), &id(4242), &id(BOB), "two");
    assert!(matches!(missing, Err(DomainError::NotFound { .. })));
    let taken = store.create_comment_with_ids(&id(ACCOUNT), &id(1001), &id(BOB), "two", id(7000), id(7002));
    assert_eq!(
        taken.unwrap_err(),
        DomainError::InfrastructureError("comment identifier already in use".to_string())
    );
    let taken = store.create_comment_with_ids(&id(ACCOUNT), &id(1001), &id(BOB), "two", id(7003), id(7001));
    assert!(taken.is_err());
    assert_eq!(format!("{:?}", store), before);
}

#[test]
fn comments_are_listed_most_recent_first_with_a_default_limit() {
    let mut store = fixture();
    for k in 0..60 {
        store.create_comment(&id(ACCOUNT), &id(1001), &id(BOB), &format!("comment {}", k)).unwrap();
    }
    store.create_comment(&id(ACCOUNT), &id(1002), &id(BOB), "elsewhere").unwrap();
    let listed = store.list_for_card(&id(ACCOUNT), &id(1001), None).unwrap();
    assert_eq!(listed.len(), 50);
    assert_eq!(listed[0].content, "comment 59");
    assert_eq!(listed[49].content, "comment 10");
    let three = store.list_for_card(&id(ACCOUNT), &id(1001), Some(3)).unwrap();
    assert_eq!(three.iter().map(|c| c.content.as_str()).collect::<Vec<_>>(), vec!["comment 59", "comment 58", "comment 57"]);
    assert_eq!(store.list_for_card(&id(ACCOUNT), &id(1001), Some(-1)).unwrap().len(), 60);
    assert!(store.list_for_card(&id(OTHER_ACCOUNT), &id(1001), None).unwrap().is_empty());
}

fn event_input() -> CreateEventInput {
    CreateEventInput {
        board_id: id(ROADMAP),
        eventable_id: id(1001),
        eventable_type: "Card".to_string(),
        creator_id: id(ALICE),
        action: "card_closed".to_string(),
        particulars: Particulars::Empty,
    }
}

#[test]
fn audit_events_are_appended_or_dropped() {
    let mut store = fixture();
    store.create_event(&id(ACCOUNT), event_input()).unwrap();
    store.create_event_with_id(&id(ACCOUNT), event_input(), id(9000)).unwrap();
    assert_eq!(store.event_count(), 2);
    let taken = store.create_event_with_id(&id(ACCOUNT), event_input(), id(9000));
    assert_eq!(
        taken.unwrap_err(),
        DomainError::InfrastructureError("event identifier already in use".to_string())
    );
    store.set_faults(Faults { content_writes: false, event_writes: true });
    let before = format!("{:?}", store);
    let r = store.create_event(&id(ACCOUNT), event_input());
    assert_eq!(r.unwrap_err(), DomainError::InfrastructureError("event write failed".to_string()));
    assert_eq!(format!("{:?}", store), before);
    assert_eq!(store.event_count(), 2);
}

#[test]
fn the_clock_only_moves_forward() {
    let mut store = MemoryStore::new();
    store.advance_clock(at(1_000));
    let first = store.create(&id(ACCOUNT), create_input(ROADMAP, "a")).unwrap();
    assert_eq!(first.created_at, at(1_001));
    store.advance_clock(at(500));
    let second = store.create(&id(ACCOUNT), create_input(ROADMAP, "b")).unwrap();
    assert_eq!(second.created_at, at(1_002));
    store.advance_clock(at(i64::MAX));
    let r = store.create(&id(ACCOUNT), create_input(ROADMAP, "c"));
    assert_eq!(r.unwrap_err(), DomainError::InfrastructureError("clock exhausted".to_string()));
    let r = store.create_comment(&id(ACCOUNT), &first.id, &id(BOB), "late");
    assert_eq!(r.unwrap_err(), DomainError::InfrastructureError("clock exhausted".to_string()));
    assert_eq!(store.comment_count(), 0);
}
