use sparkling::application::errors::ApplicationError;
use sparkling::application::use_cases::{
    AddCommentInput, AddCommentUseCase, CloseCardInput, CloseCardUseCase, CreateCardUseCase,
    CreateCardUseCaseInput, Event, GetCardDetailsInput, GetCardDetailsUseCase, ListBoardCardsInput,
    ListBoardCardsUseCase, ListBoardsInput, ListBoardsUseCase, ListMyCardsInput, ListMyCardsUseCase,
    MoveCardInput, MoveCardUseCase, ReopenCardInput, ReopenCardUseCase, Request, Step,
    UpdateCardUseCase, UpdateCardUseCaseInput,
};
use sparkling::domain::entities::{Board, Card, Column, Comment};
use sparkling::domain::errors::DomainError;
use sparkling::domain::ports::Particulars;
use sparkling::domain::value_objects::{CardStatus, FizzyId, Timestamp};
use sparkling::infrastructure::persistence::memory_model::Faults;
use sparkling::infrastructure::persistence::memory_store::{CardRecord, MemoryStore};

fn id(n: u128) -> FizzyId {
    FizzyId::from_number(n)
}

fn at(micros: i64) -> Timestamp {
    Timestamp { micros }
}

const ACCOUNT: u128 = 1;
const ALICE: u128 = 10;
const BOB: u128 = 11;
const ROADMAP: u128 = 100;
const PRIVATE: u128 = 101;
const EMPTY_BOARD: u128 = 102;
const TODO: u128 = 200;
const DOING: u128 = 201;
const FOREIGN: u128 = 202;

fn board(board_id: u128, name: &str, all_access: bool) -> Board {
    Board {
        id: id(board_id),
        account_id: id(ACCOUNT),
        creator_id: id(ALICE),
        name: name.to_string(),
        all_access,
        created_at: at(1),
        updated_at: at(1),
        card_count: None,
    }
}

fn column(column_id: u128, board_id: u128, name: &str, position: i32) -> Column {
    Column {
        id: id(column_id),
        account_id: id(ACCOUNT),
        board_id: id(board_id),
        name: name.to_string(),
        color: "green".to_string(),
        position,
    }
}

fn card(card_id: u128, board_id: u128, column_id: Option<u128>, number: i64, status: CardStatus, active: i64) -> Card {
    Card {
        id: id(card_id),
        account_id: id(ACCOUNT),
        board_id: id(board_id),
        column_id: column_id.map(id),
        creator_id: id(ALICE),
        number,
        title: format!("Card {}", number),
        description: None,
        status,
        due_on: None,
        last_active_at: at(active),
        created_at: at(1),
        updated_at: at(active),
        board_name: None,
        column_name: None,
        column_color: None,
        creator_name: None,
        assignee_names: vec![],
        tag_titles: vec![],
        is_golden: false,
    }
}

fn fixture() -> MemoryStore {
    let mut store = MemoryStore::new();
    store.insert_board(board(ROADMAP, "Roadmap", true));
    store.insert_board(board(PRIVATE, "Private", false));
    store.insert_board(board(EMPTY_BOARD, "Empty", true));
    store.insert_column(column(DOING, ROADMAP, "Doing", 2));
    store.insert_column(column(TODO, ROADMAP, "To do", 1));
    store.insert_column(column(FOREIGN, PRIVATE, "Foreign", 1));
    store.grant_access(id(PRIVATE), id(BOB));
    store.insert_card(CardRecord {
        card: card(1007, ROADMAP, Some(TODO), 7, CardStatus::Drafted, 10),
        assignee_ids: vec![id(ALICE)],
    });
    store.insert_card(CardRecord {
        card: card(1042, ROADMAP, Some(TODO), 42, CardStatus::Triaged, 20),
        assignee_ids: vec![id(ALICE), id(BOB)],
    });
    store.insert_card(CardRecord {
        card: card(1043, ROADMAP, Some(DOING), 43, CardStatus::Closed, 30),
        assignee_ids: vec![id(ALICE)],
    });
    store.insert_card(CardRecord {
        card: card(1044, PRIVATE, Some(FOREIGN), 44, CardStatus::NotNow, 40),
        assignee_ids: vec![id(ALICE)],
    });
    store
}

fn snapshot(store: &MemoryStore) -> String {
    format!("{:?}", store)
}

#[test]
fn creating_a_card_without_access_is_unauthorized_and_creates_nothing() {
    let mut store = fixture();
    let before = snapshot(&store);
    let input = CreateCardUseCaseInput {
        account_id: id(ACCOUNT),
        user_id: id(ALICE),
        board_id: id(PRIVATE),
        title: "Ship it".to_string(),
        description: None,
    };
    let r = CreateCardUseCase::execute(&mut store, input);
    assert_eq!(r.unwrap_err(), ApplicationError::Unauthorized("No access to this board".to_string()));
    assert_eq!(store.card_count(), 4);
    assert_eq!(store.event_count(), 0);
    assert_eq!(snapshot(&store), before);
}

#[test]
fn creating_a_card_with_access() {
    let mut store = fixture();
    let input = CreateCardUseCaseInput {
        account_id: id(ACCOUNT),
        user_id: id(BOB),
        board_id: id(ROADMAP),
        title: "Ship it".to_string(),
        description: Some("soon".to_string()),
    };
    let card = CreateCardUseCase::execute(&mut store, input).unwrap();
    assert_eq!(card.title, "Ship it");
    assert_eq!(card.description.as_deref(), Some("soon"));
    assert_eq!(card.creator_id, id(BOB));
    assert_eq!(card.number, 45);
    // the board has columns: the card goes to the first of them, published
    assert_eq!(card.status, CardStatus::Published);
    assert_eq!(card.column_id, Some(id(TODO)));
    assert_eq!(card.column_name.as_deref(), Some("To do"));
    assert_eq!(store.card_count(), 5);
    assert_eq!(store.event_count(), 1);
    let on_empty = CreateCardUseCase::execute(
        &mut store,
        CreateCardUseCaseInput {
            account_id: id(ACCOUNT),
            user_id: id(BOB),
            board_id: id(EMPTY_BOARD),
            title: "Loose".to_string(),
            description: None,
        },
    )
    .unwrap();
    // a board without columns: the card is drafted, in no column
    assert_eq!(on_empty.status, CardStatus::Drafted);
    assert_eq!(on_empty.column_id, None);
}

#[test]
fn listing_a_board_leaves_out_closed_cards_and_defaults_to_twenty() {
    let mut store = MemoryStore::new();
    store.insert_board(board(ROADMAP, "Roadmap", true));
    store.insert_card(CardRecord {
        card: card(1, ROADMAP, None, 1, CardStatus::Closed, 10),
        assignee_ids: vec![],
    });
    store.insert_card(CardRecord {
        card: card(2, ROADMAP, None, 2, CardStatus::Triaged, 20),
        assignee_ids: vec![],
    });
    let input = ListBoardCardsInput {
        account_id: id(ACCOUNT),
        user_id: id(ALICE),
        board_name: "Roadmap".to_string(),
        limit: None,
    };
    let output = ListBoardCardsUseCase::execute(&mut store, input).unwrap();
    assert_eq!(output.board_name, "Roadmap");
    assert_eq!(output.cards.len(), 1);
    assert_eq!(output.cards[0].number, 2);
    assert_eq!(output.cards[0].status, CardStatus::Triaged);

    // the default limit: the filter that is asked for carries 20
    let uc = ListBoardCardsUseCase::new(ListBoardCardsInput {
        account_id: id(ACCOUNT),
        user_id: id(ALICE),
        board_name: "roadmap".to_string(),
        limit: None,
    });
    let (uc, _) = uc.advance(Event::Started);
    let (uc, _) = uc.advance(Event::BoardFound(Ok(Some(board(ROADMAP, "Roadmap", true)))));
    let (_, step) = uc.advance(Event::AccessChecked(Ok(true)));
    match step {
        Step::Call(Request::ListCards { account_id, filters }) => {
            assert_eq!(account_id, id(ACCOUNT));
            assert_eq!(filters.limit, Some(20));
            assert_eq!(filters.offset, None);
            assert_eq!(filters.board_id, Some(id(ROADMAP)));
            assert_eq!(filters.exclude_status, Some(vec![CardStatus::Closed, CardStatus::NotNow]));
            assert_eq!(filters.status, None);
            assert_eq!(filters.assignee_id, None);
        }
        other => panic!("unexpected step {:?}", other),
    }

    // with more than twenty cards, twenty come back
    for n in 3..40 {
        store.insert_card(CardRecord {
            card: card(n as u128, ROADMAP, None, n, CardStatus::Triaged, 20 + n),
            assignee_ids: vec![],
        });
    }
    let many = ListBoardCardsUseCase::execute(
        &mut store,
        ListBoardCardsInput {
            account_id: id(ACCOUNT),
            user_id: id(ALICE),
            board_name: "Roadmap".to_string(),
            limit: None,
        },
    )
    .unwrap();
    assert_eq!(many.cards.len(), 20);
    assert_eq!(many.cards[0].number, 39);
    let five = ListBoardCardsUseCase::execute(
        &mut store,
        ListBoardCardsInput {
            account_id: id(ACCOUNT),
            user_id: id(ALICE),
            board_name: "Roadmap".to_string(),
            limit: Some(5),
        },
    )
    .unwrap();
    assert_eq!(five.cards.len(), 5);
}

#[test]
fn listing_a_board_that_is_missing_or_closed_to_the_actor() {
    let mut store = fixture();
    let missing = ListBoardCardsUseCase::execute(
        &mut store,
        ListBoardCardsInput {
            account_id: id(ACCOUNT),
            user_id: id(ALICE),
            board_name: "Nowhere".to_string(),
            limit: None,
        },
    );
    assert_eq!(missing.unwrap_err(), ApplicationError::NotFound("Board 'Nowhere' not found".to_string()));
    let closed = ListBoardCardsUseCase::execute(
        &mut store,
        ListBoardCardsInput {
            account_id: id(ACCOUNT),
            user_id: id(ALICE),
            board_name: "private".to_string(),
            limit: None,
        },
    );
    assert_eq!(closed.unwrap_err(), ApplicationError::Unauthorized("No access to this board".to_string()));
}

#[test]
fn moving_a_card_to_a_column_of_another_board_is_invalid_input() {
    let mut store = fixture();
    let before = snapshot(&store);
    let input = MoveCardInput {
        account_id: id(ACCOUNT),
        user_id: id(ALICE),
        card_number: 42,
        column_id: id(FOREIGN),
    };
    let r = MoveCardUseCase::execute(&mut store, input);
    assert_eq!(r.unwrap_err(), ApplicationError::InvalidInput("Column not in this board".to_string()));
    let card = store.find_by_number(&id(ACCOUNT), 42).unwrap().unwrap();
    assert_eq!(card.column_id, Some(id(TODO)));
    assert_eq!(snapshot(&store), before);
}

#[test]
fn moving_a_card_within_its_board() {
    let mut store = fixture();
    let input = MoveCardInput {
        account_id: id(ACCOUNT),
        user_id: id(ALICE),
        card_number: 7,
        column_id: id(DOING),
    };
    let moved = MoveCardUseCase::execute(&mut store, input).unwrap();
    assert_eq!(moved.column_id, Some(id(DOING)));
    assert_eq!(moved.column_name.as_deref(), Some("Doing"));
    assert_eq!(moved.status, CardStatus::Triaged);
    assert_eq!(store.event_count(), 1);
    let missing = MoveCardUseCase::execute(
        &mut store,
        MoveCardInput {
            account_id: id(ACCOUNT),
            user_id: id(ALICE),
            card_number: 999,
            column_id: id(DOING),
        },
    );
    assert_eq!(missing.unwrap_err(), ApplicationError::NotFound("Card #999 not found".to_string()));
}

#[test]
fn commenting_on_a_missing_card_is_not_found_and_writes_nothing() {
    let mut store = fixture();
    let before = snapshot(&store);
    let input = AddCommentInput {
        account_id: id(ACCOUNT),
        user_id: id(ALICE),
        card_number: 999,
        content: "hi".to_string(),
    };
    let r = AddCommentUseCase::execute(&mut store, input);
    assert_eq!(r.unwrap_err(), ApplicationError::NotFound("Card #999 not found".to_string()));
    assert_eq!(store.comment_count(), 0);
    assert_eq!(store.content_count(), 0);
    assert_eq!(store.event_count(), 0);
    assert_eq!(snapshot(&store), before);
}

#[test]
fn empty_comments_are_refused_before_the_card_is_looked_up() {
    let mut store = fixture();
    for content in ["", "   ", "\n\t", "\u{a0}"] {
        for number in [42, 999] {
            let input = AddCommentInput {
                account_id: id(ACCOUNT),
                user_id: id(ALICE),
                card_number: number,
                content: content.to_string(),
            };
            let r = AddCommentUseCase::execute(&mut store, input);
            assert_eq!(r.unwrap_err(), ApplicationError::InvalidInput("Comment cannot be empty".to_string()));
        }
    }
    let uc = AddCommentUseCase::new(AddCommentInput {
        account_id: id(ACCOUNT),
        user_id: id(ALICE),
        card_number: 42,
        content: " ".to_string(),
    });
    let (_, step) = uc.advance(Event::Started);
    assert!(matches!(step, Step::Finish(Err(ApplicationError::InvalidInput(_)))));
    assert_eq!(store.comment_count(), 0);
}

#[test]
fn adding_a_comment() {
    let mut store = fixture();
    let before = store.find_by_number(&id(ACCOUNT), 42).unwrap().unwrap();
    let input = AddCommentInput {
        account_id: id(ACCOUNT),
        user_id: id(BOB),
        card_number: 42,
        content: "looks good".to_string(),
    };
    let comment = AddCommentUseCase::execute(&mut store, input).unwrap();
    assert_eq!(comment.content, "looks good");
    assert_eq!(comment.card_id, id(1042));
    assert_eq!(comment.creator_id, id(BOB));
    assert_eq!(store.comment_count(), 1);
    assert_eq!(store.content_count(), 1);
    assert_eq!(store.event_count(), 1);
    let after = store.find_by_number(&id(ACCOUNT), 42).unwrap().unwrap();
    assert!(after.last_active_at.is_after(&before.last_active_at));
    let listed = store.list_for_card(&id(ACCOUNT), &id(1042), None).unwrap();
    assert_eq!(listed.len(), 1);
    assert_eq!(listed[0].id, comment.id);
    assert_eq!(listed[0].content, "looks good");
}

#[test]
fn a_comment_whose_content_write_fails_leaves_no_comment() {
    let mut store = fixture();
    store.set_faults(Faults { content_writes: true, event_writes: false });
    let before = snapshot(&store);
    let input = AddCommentInput {
        account_id: id(ACCOUNT),
        user_id: id(BOB),
        card_number: 42,
        content: "looks good".to_string(),
    };
    let r = AddCommentUseCase::execute(&mut store, input);
    assert_eq!(
        r.unwrap_err(),
        ApplicationError::DomainError(DomainError::InfrastructureError("content write failed".to_string()))
    );
    assert_eq!(store.comment_count(), 0);
    assert_eq!(store.content_count(), 0);
    assert_eq!(store.event_count(), 0);
    assert_eq!(snapshot(&store), before);
}

#[test]
fn closing_then_reopening_lands_in_the_active_state() {
    let mut store = fixture();
    assert_eq!(store.find_by_number(&id(ACCOUNT), 7).unwrap().unwrap().status, CardStatus::Drafted);
    CloseCardUseCase::execute(
        &mut store,
        CloseCardInput { account_id: id(ACCOUNT), user_id: id(ALICE), card_number: 7 },
    )
    .unwrap();
    assert_eq!(store.find_by_number(&id(ACCOUNT), 7).unwrap().unwrap().status, CardStatus::Closed);
    ReopenCardUseCase::execute(
        &mut store,
        ReopenCardInput { account_id: id(ACCOUNT), user_id: id(ALICE), card_number: 7 },
    )
    .unwrap();
    let card = store.find_by_number(&id(ACCOUNT), 7).unwrap().unwrap();
    assert_eq!(card.status, CardStatus::Triaged);
    assert_eq!(store.event_count(), 2);
    let missing = CloseCardUseCase::execute(
        &mut store,
        CloseCardInput { account_id: id(ACCOUNT), user_id: id(ALICE), card_number: 999 },
    );
    assert_eq!(missing.unwrap_err(), ApplicationError::NotFound("Card #999 not found".to_string()));
    let missing = ReopenCardUseCase::execute(
        &mut store,
        ReopenCardInput { account_id: id(ACCOUNT), user_id: id(ALICE), card_number: 999 },
    );
    assert_eq!(missing.unwrap_err(), ApplicationError::NotFound("Card #999 not found".to_string()));
}

fn without_events(store: &MemoryStore) -> (String, usize, usize, usize) {
    let card = store.find_by_number(&id(ACCOUNT), 42).unwrap().unwrap();
    let mut card_text = format!("{:?}", card);
    // times depend on how many writes went before; the rest must agree
    card_text = card_text.split("last_active_at").next().unwrap().to_string();
    (card_text, store.card_count(), store.comment_count(), store.content_count())
}

#[test]
fn a_failing_audit_write_changes_no_result_and_no_primary_write() {
    let mut quiet = fixture();
    let mut failing = fixture();
    failing.set_faults(Faults { content_writes: false, event_writes: true });

    let comment_input = || AddCommentInput {
        account_id: id(ACCOUNT),
        user_id: id(BOB),
        card_number: 42,
        content: "hello".to_string(),
    };
    let a = AddCommentUseCase::execute(&mut quiet, comment_input()).unwrap();
    let b = AddCommentUseCase::execute(&mut failing, comment_input()).unwrap();
    assert_eq!(a.content, b.content);
    assert_eq!(a.card_id, b.card_id);
    assert_eq!(a.created_at, b.created_at);

    let move_input = || MoveCardInput {
        account_id: id(ACCOUNT),
        user_id: id(ALICE),
        card_number: 42,
        column_id: id(DOING),
    };
    let a = MoveCardUseCase::execute(&mut quiet, move_input()).unwrap();
    let b = MoveCardUseCase::execute(&mut failing, move_input()).unwrap();
    assert_eq!(a.column_id, b.column_id);
    assert_eq!(a.status, b.status);

    let update_input = || UpdateCardUseCaseInput {
        account_id: id(ACCOUNT),
        user_id: id(ALICE),
        card_number: 42,
        title: Some("Renamed".to_string()),
        description: None,
    };
    let a = UpdateCardUseCase::execute(&mut quiet, update_input()).unwrap();
    let b = UpdateCardUseCase::execute(&mut failing, update_input()).unwrap();
    assert_eq!(a.title, "Renamed");
    assert_eq!(a.title, b.title);

    let close_input = || CloseCardInput { account_id: id(ACCOUNT), user_id: id(ALICE), card_number: 42 };
    assert_eq!(CloseCardUseCase::execute(&mut quiet, close_input()), Ok(()));
    assert_eq!(CloseCardUseCase::execute(&mut failing, close_input()), Ok(()));
    let reopen_input = || ReopenCardInput { account_id: id(ACCOUNT), user_id: id(ALICE), card_number: 42 };
    assert_eq!(ReopenCardUseCase::execute(&mut quiet, reopen_input()), Ok(()));
    assert_eq!(ReopenCardUseCase::execute(&mut failing, reopen_input()), Ok(()));

    let create_input = || CreateCardUseCaseInput {
        account_id: id(ACCOUNT),
        user_id: id(ALICE),
        board_id: id(ROADMAP),
        title: "New".to_string(),
        description: None,
    };
    let a = CreateCardUseCase::execute(&mut quiet, create_input()).unwrap();
    let b = CreateCardUseCase::execute(&mut failing, create_input()).unwrap();
    assert_eq!(a.number, b.number);
    assert_eq!(a.title, b.title);
    assert_eq!(a.status, b.status);

    assert_eq!(quiet.event_count(), 6);
    assert_eq!(failing.event_count(), 0);
    assert_eq!(without_events(&quiet), without_events(&failing));
}

#[test]
fn the_answer_to_the_audit_event_is_ignored() {
    let comment = Comment {
        id: id(7000),
        account_id: id(ACCOUNT),
        card_id: id(1042),
        creator_id: id(BOB),
        content: "hello".to_string(),
        created_at: at(5),
        updated_at: at(5),
        creator_name: None,
    };
    for reply in [Ok(()), Err(DomainError::InfrastructureError("disk full".to_string()))] {
        let uc = AddCommentUseCase::new(AddCommentInput {
            account_id: id(ACCOUNT),
            user_id: id(BOB),
            card_number: 42,
            content: "hello".to_string(),
        });
        let (uc, step) = uc.advance(Event::Started);
        assert!(matches!(step, Step::Call(Request::FindCardByNumber { number: 42, .. })));
        let found = card(1042, ROADMAP, Some(TODO), 42, CardStatus::Triaged, 20);
        let (uc, step) = uc.advance(Event::CardFound(Ok(Some(found))));
        match step {
            Step::Call(Request::CreateComment { card_id, creator_id, content, .. }) => {
                assert_eq!(card_id, id(1042));
                assert_eq!(creator_id, id(BOB));
                assert_eq!(content, "hello");
            }
            other => panic!("unexpected step {:?}", other),
        }
        let (uc, step) = uc.advance(Event::CommentWritten(Ok(comment.clone())));
        match step {
            Step::Call(Request::EmitEvent { account_id, entry }) => {
                assert_eq!(account_id, id(ACCOUNT));
                assert_eq!(entry.board_id, id(ROADMAP));
                assert_eq!(entry.eventable_id, id(7000));
                assert_eq!(entry.eventable_type, "Comment");
                assert_eq!(entry.creator_id, id(BOB));
                assert_eq!(entry.action, "comment_created");
                assert!(matches!(entry.particulars, Particulars::CardId(ref c) if *c == id(1042)));
            }
            other => panic!("unexpected step {:?}", other),
        }
        let (uc, step) = uc.advance(Event::EventEmitted(reply));
        match step {
            Step::Finish(Ok(c)) => assert_eq!(c.id, id(7000)),
            other => panic!("unexpected step {:?}", other),
        }
        // the use case is over: whatever comes now is out of turn
        let (_, step) = uc.advance(Event::Started);
        assert!(matches!(step, Step::Finish(Err(ApplicationError::InternalError(_)))));
    }
}

#[test]
fn store_failures_come_back_wrapped_and_end_the_use_case() {
    let boom = || DomainError::InfrastructureError("connection lost".to_string());
    let uc = CloseCardUseCase::new(CloseCardInput { account_id: id(ACCOUNT), user_id: id(ALICE), card_number: 7 });
    let (uc, _) = uc.advance(Event::Started);
    let (_, step) = uc.advance(Event::CardFound(Err(boom())));
    assert!(matches!(step, Step::Finish(Err(ApplicationError::DomainError(ref e))) if *e == boom()));

    let uc = CloseCardUseCase::new(CloseCardInput { account_id: id(ACCOUNT), user_id: id(ALICE), card_number: 7 });
    let (uc, _) = uc.advance(Event::Started);
    let (uc, step) = uc.advance(Event::CardFound(Ok(Some(card(1007, ROADMAP, None, 7, CardStatus::Drafted, 1)))));
    assert!(matches!(step, Step::Call(Request::CloseCard { .. })));
    let (_, step) = uc.advance(Event::StatusChanged(Err(boom())));
    // the change failed: no audit event is asked for
    assert!(matches!(step, Step::Finish(Err(ApplicationError::DomainError(_)))));

    let uc = CreateCardUseCase::new(CreateCardUseCaseInput {
        account_id: id(ACCOUNT),
        user_id: id(ALICE),
        board_id: id(ROADMAP),
        title: "x".to_string(),
        description: None,
    });
    let (uc, step) = uc.advance(Event::Started);
    assert!(matches!(step, Step::Call(Request::UserHasAccess { .. })));
    let (_, step) = uc.advance(Event::AccessChecked(Err(boom())));
    assert!(matches!(step, Step::Finish(Err(ApplicationError::DomainError(_)))));

    // an answer that was not asked for ends the use case too
    let uc = MoveCardUseCase::new(MoveCardInput {
        account_id: id(ACCOUNT),
        user_id: id(ALICE),
        card_number: 7,
        column_id: id(DOING),
    });
    let (uc, _) = uc.advance(Event::Started);
    let (_, step) = uc.advance(Event::AccessChecked(Ok(true)));
    assert!(matches!(step, Step::Finish(Err(ApplicationError::InternalError(_)))));
}

#[test]
fn reading_listing_and_updating() {
    let mut store = fixture();
    let card = GetCardDetailsUseCase::execute(
        &mut store,
        GetCardDetailsInput { account_id: id(ACCOUNT), card_number: 42 },
    )
    .unwrap();
    assert_eq!(card.id, id(1042));
    assert_eq!(card.board_name.as_deref(), Some("Roadmap"));
    let missing = GetCardDetailsUseCase::execute(
        &mut store,
        GetCardDetailsInput { account_id: id(ACCOUNT), card_number: 41 },
    );
    assert_eq!(missing.unwrap_err(), ApplicationError::NotFound("Card #41 not found".to_string()));

    let boards = ListBoardsUseCase::execute(
        &mut store,
        ListBoardsInput { account_id: id(ACCOUNT), user_id: id(ALICE) },
    )
    .unwrap();
    assert_eq!(boards.boards.iter().map(|b| b.name.as_str()).collect::<Vec<_>>(), vec!["Empty", "Roadmap"]);

    let mine = ListMyCardsUseCase::execute(
        &mut store,
        ListMyCardsInput { account_id: id(ACCOUNT), user_id: id(ALICE), include_closed: false, limit: None },
    )
    .unwrap();
    assert_eq!(mine.cards.iter().map(|c| c.number).collect::<Vec<_>>(), vec![42, 7]);
    let all_mine = ListMyCardsUseCase::execute(
        &mut store,
        ListMyCardsInput { account_id: id(ACCOUNT), user_id: id(ALICE), include_closed: true, limit: Some(3) },
    )
    .unwrap();
    assert_eq!(all_mine.cards.iter().map(|c| c.number).collect::<Vec<_>>(), vec![44, 43, 42]);
    let bobs = ListMyCardsUseCase::execute(
        &mut store,
        ListMyCardsInput { account_id: id(ACCOUNT), user_id: id(BOB), include_closed: false, limit: None },
    )
    .unwrap();
    assert_eq!(bobs.cards.iter().map(|c| c.number).collect::<Vec<_>>(), vec![42]);

    let updated = UpdateCardUseCase::execute(
        &mut store,
        UpdateCardUseCaseInput {
            account_id: id(ACCOUNT),
            user_id: id(ALICE),
            card_number: 42,
            title: None,
            description: Some("details".to_string()),
        },
    )
    .unwrap();
    assert_eq!(updated.title, "Card 42");
    assert_eq!(updated.description.as_deref(), Some("details"));
    assert_eq!(store.event_count(), 1);
}

#[test]
fn my_cards_default_to_twenty_without_closed_ones() {
    let uc = ListMyCardsUseCase::new(ListMyCardsInput {
        account_id: id(ACCOUNT),
        user_id: id(ALICE),
        include_closed: false,
        limit: None,
    });
    let (_, step) = uc.advance(Event::Started);
    match step {
        Step::Call(Request::ListCards { filters, .. }) => {
            assert_eq!(filters.assignee_id, Some(id(ALICE)));
            assert_eq!(filters.exclude_status, Some(vec![CardStatus::Closed, CardStatus::NotNow]));
            assert_eq!(filters.limit, Some(20));
        }
        other => panic!("unexpected step {:?}", other),
    }
    let uc = ListMyCardsUseCase::new(ListMyCardsInput {
        account_id: id(ACCOUNT),
        user_id: id(ALICE),
        include_closed: true,
        limit: Some(7),
    });
    let (_, step) = uc.advance(Event::Started);
    match step {
        Step::Call(Request::ListCards { filters, .. }) => {
            assert_eq!(filters.exclude_status, None);
            assert_eq!(filters.limit, Some(7));
        }
        other => panic!("unexpected step {:?}", other),
    }
}
