use sparkling::application::errors::ApplicationError;
use sparkling::domain::entities::{Board, Card, Column, User, UserRole};
use sparkling::domain::errors::DomainError;
use sparkling::domain::value_objects::{CardStatus, Date, FizzyId, FizzyIdError, Timestamp};
use sparkling::infrastructure::persistence::card_row::CardRow;
use sparkling::infrastructure::persistence::FizzyIdGenerator;
use sparkling::infrastructure::telegram::formatters::{BoardFormatter, CardFormatter, ErrorFormatter};
use sparkling::shared::errors::AppError;

fn id(n: u128) -> FizzyId {
    FizzyId::from_number(n)
}

fn at(micros: i64) -> Timestamp {
    Timestamp { micros }
}

fn card() -> Card {
    Card {
        id: id(1),
        account_id: FizzyId::new("acct".to_string()),
        board_id: id(3),
        column_id: Some(id(4)),
        creator_id: id(5),
        number: 42,
        title: "Fix <b> & ship".to_string(),
        description: None,
        status: CardStatus::Triaged,
        due_on: Some(Date { year: 2026, month: 3, day: 9 }),
        last_active_at: at(3),
        created_at: at(1),
        updated_at: at(2),
        board_name: Some("R&D".to_string()),
        column_name: Some("Doing".to_string()),
        column_color: Some("Blue".to_string()),
        creator_name: Some("Alice".to_string()),
        assignee_names: vec!["Alice".to_string(), "Bob".to_string()],
        tag_titles: vec!["bug".to_string()],
        is_golden: true,
    }
}

fn row(status: &str) -> CardRow {
    CardRow {
        id: id(1),
        account_id: id(2),
        board_id: id(3),
        column_id: None,
        creator_id: id(5),
        number: 9,
        title: "From a row".to_string(),
        status: status.to_string(),
        due_on: None,
        last_active_at: at(3),
        created_at: at(1),
        updated_at: at(2),
        board_name: Some("Roadmap".to_string()),
        column_name: None,
        column_color: None,
        creator_name: Some("Alice".to_string()),
        is_golden: false,
    }
}

#[test]
fn card_helpers() {
    let c = card();
    assert_eq!(c.formatted_number(), "#42");
    assert!(c.is_active());
    assert_eq!(c.web_url(None), None);
    assert_eq!(c.web_url(Some("https://fizzy.example")).unwrap(), "https://fizzy.example/acct/cards/42");
    assert_eq!(c.web_url(Some("https://fizzy.example///")).unwrap(), "https://fizzy.example/acct/cards/42");
    assert_eq!(c.web_url(Some("")).unwrap(), "/acct/cards/42");
    let mut closed = card();
    closed.status = CardStatus::Closed;
    closed.number = -7;
    assert!(!closed.is_active());
    assert_eq!(closed.formatted_number(), "#-7");
    let copy = c.clone();
    assert_eq!(format!("{:?}", copy), format!("{:?}", c));
}

#[test]
fn rows_become_cards() {
    let card = row("published").into_card(vec!["Bob".to_string()], vec!["bug".to_string(), "ui".to_string()]).unwrap();
    assert_eq!(card.status, CardStatus::Published);
    assert_eq!(card.number, 9);
    assert_eq!(card.title, "From a row");
    assert_eq!(card.description, None);
    assert_eq!(card.board_name.as_deref(), Some("Roadmap"));
    assert_eq!(card.assignee_names, vec!["Bob".to_string()]);
    assert_eq!(card.tag_titles, vec!["bug".to_string(), "ui".to_string()]);
    let bad = row("archived").into_card(vec![], vec![]);
    assert_eq!(
        bad.unwrap_err(),
        DomainError::InvalidState { message: "Invalid card status: archived".to_string() }
    );
    assert!(row("").into_card(vec![], vec![]).is_err());
    assert!(row("Closed").into_card(vec![], vec![]).is_err());
}

#[test]
fn column_names_with_color() {
    let column = |color: &str| Column {
        id: id(1),
        account_id: id(2),
        board_id: id(3),
        name: "Doing".to_string(),
        color: color.to_string(),
        position: 1,
    };
    assert_eq!(column("red").formatted_name(), "\u{1F534} Doing");
    assert_eq!(column("Orange").formatted_name(), "\u{1F7E0} Doing");
    assert_eq!(column("YELLOW").formatted_name(), "\u{1F7E1} Doing");
    assert_eq!(column("green").formatted_name(), "\u{1F7E2} Doing");
    assert_eq!(column("blue").formatted_name(), "\u{1F535} Doing");
    assert_eq!(column("purple").formatted_name(), "\u{1F7E3} Doing");
    assert_eq!(column("gray").formatted_name(), "\u{26AA} Doing");
    assert_eq!(column("Grey").formatted_name(), "\u{26AA} Doing");
    assert_eq!(column("pink").formatted_name(), "\u{2B1C} Doing");
    assert_eq!(column("").formatted_name(), "\u{2B1C} Doing");
}

#[test]
fn user_roles() {
    for role in [UserRole::Owner, UserRole::Admin, UserRole::Member, UserRole::System] {
        assert_eq!(UserRole::from_str(role.as_str()), Some(role));
    }
    assert_eq!(UserRole::Owner.as_str(), "owner");
    assert_eq!(UserRole::from_str("Owner"), None);
    assert_eq!(UserRole::from_str("guest"), None);
    let user = |role, active| User {
        id: id(1),
        account_id: id(2),
        identity_id: None,
        name: "U".to_string(),
        role,
        active,
        created_at: at(1),
        updated_at: at(1),
        email: None,
    };
    assert!(user(UserRole::Owner, true).is_admin());
    assert!(user(UserRole::Admin, true).is_admin());
    assert!(!user(UserRole::Member, true).is_admin());
    assert!(!user(UserRole::System, false).is_admin());
    assert!(user(UserRole::Member, true).is_active());
    assert!(!user(UserRole::Member, false).is_active());
}

#[test]
fn formatting_a_card() {
    let text = CardFormatter::format_card(&card(), Some("https://fizzy.example/"));
    let expected = "\u{1F4CB} <b>#42</b> Fix &lt;b&gt; &amp; ship\n\
Board: R&amp;D\n\
Column: Doing\n\
Status: Active\n\
Assignees: Alice, Bob\n\
Tags: bug\n\
Due: 2026-03-09\n\
\u{2B50} Golden\n\
\n<a href=\"https://fizzy.example/acct/cards/42\">Open in Fizzy</a>";
    assert_eq!(text, expected);
    let mut bare = card();
    bare.board_name = None;
    bare.column_name = None;
    bare.assignee_names.clear();
    bare.tag_titles.clear();
    bare.due_on = None;
    bare.is_golden = false;
    bare.status = CardStatus::NotNow;
    assert_eq!(
        CardFormatter::format_card(&bare, None),
        "\u{23F8}\u{FE0F} <b>#42</b> Fix &lt;b&gt; &amp; ship\nStatus: Postponed"
    );
}

#[test]
fn formatting_lists() {
    assert_eq!(CardFormatter::format_card_list(&vec![]), "No cards found.");
    let mut second = card();
    second.number = 43;
    second.title = "Plain".to_string();
    second.due_on = None;
    second.status = CardStatus::Closed;
    assert_eq!(
        CardFormatter::format_card_list(&vec![card(), second]),
        "\u{1F4CB} <b>#42</b> Fix &lt;b&gt; &amp; ship \u{1F4C5} 2026-03-09\n\u{2705} <b>#43</b> Plain"
    );
    assert_eq!(BoardFormatter::format_board_list(&vec![]), "No boards found.");
    let board = |name: &str, all_access, card_count| Board {
        id: id(1),
        account_id: id(2),
        creator_id: id(3),
        name: name.to_string(),
        all_access,
        created_at: at(1),
        updated_at: at(1),
        card_count,
    };
    assert!(board("x", true, None).is_public());
    assert!(!board("x", false, None).is_public());
    assert_eq!(
        BoardFormatter::format_board_list(&vec![
            board("R&D", true, Some(3)),
            board("Private", false, None),
            board("<Zero>", false, Some(0)),
        ]),
        "\u{1F310} <b>R&amp;D</b> (3 cards)\n\u{1F512} <b>Private</b>\n\u{1F512} <b>&lt;Zero&gt;</b> (0 cards)"
    );
}

#[test]
fn error_texts() {
    let not_found = DomainError::NotFound { entity: "Card".to_string(), id: "abc".to_string() };
    assert_eq!(not_found.to_string(), "Entity 'Card' with id 'abc' not found");
    assert_eq!(DomainError::InvalidState { message: "no".to_string() }.to_string(), "Invalid state: no");
    assert_eq!(
        DomainError::ValidationFailed { field: "title".to_string(), reason: "empty".to_string() }.to_string(),
        "Validation failed for field 'title': empty"
    );
    assert_eq!(DomainError::InfrastructureError("down".to_string()).to_string(), "Infrastructure error: down");
    assert_eq!(ApplicationError::NotFound("Card #1 not found".to_string()).to_string(), "Not found: Card #1 not found");
    assert_eq!(ApplicationError::Unauthorized("x".to_string()).to_string(), "Unauthorized: x");
    assert_eq!(ApplicationError::InvalidInput("x".to_string()).to_string(), "Invalid input: x");
    assert_eq!(ApplicationError::InternalError("x".to_string()).to_string(), "Internal error: x");
    assert_eq!(
        ApplicationError::DomainError(DomainError::InfrastructureError("down".to_string())).to_string(),
        "Infrastructure error: down"
    );
    assert_eq!(AppError::Database("gone".to_string()).to_string(), "Database error: gone");
    assert_eq!(AppError::Config("bad".to_string()).to_string(), "Configuration error: bad");
    assert_eq!(AppError::Telegram("flood".to_string()).to_string(), "Telegram error: flood");
    assert_eq!(
        AppError::Application(ApplicationError::InvalidInput("x".to_string())).to_string(),
        "Invalid input: x"
    );
    assert_eq!(ErrorFormatter::format(&ApplicationError::NotFound("Card #1".to_string())), "Not found: Card #1");
    assert_eq!(ErrorFormatter::format(&ApplicationError::Unauthorized("no".to_string())), "Access denied: no");
    assert_eq!(ErrorFormatter::format(&ApplicationError::InvalidInput("bad".to_string())), "Invalid input: bad");
    assert_eq!(
        ErrorFormatter::format(&ApplicationError::DomainError(DomainError::InvalidState { message: "m".to_string() })),
        "Error: Invalid state: m"
    );
    assert_eq!(
        ErrorFormatter::format(&ApplicationError::InternalError("secret".to_string())),
        "An internal error occurred. Please try again later."
    );
    assert_eq!(FizzyIdError::InvalidChar('!').to_string(), "Invalid char: '!' in Base36 string");
    assert_eq!(FizzyIdError::Overflow.to_string(), "Base36 number to large for u128");
    assert_eq!(
        FizzyIdError::InvalidLength(15).to_string(),
        "Invalid FizzyId length in DB: Expected 16 bytes, got 15"
    );
}

#[test]
fn generator_and_conversions() {
    let generator = FizzyIdGenerator::new();
    let a = generator.generate();
    let b = FizzyIdGenerator::default().generate();
    assert_eq!(a.as_str().len(), 25);
    assert!(a.as_str() < b.as_str());
    let from: FizzyId = FizzyId::from("abc".to_string());
    assert_eq!(from.as_str(), "abc");
    let borrowed: FizzyId = FizzyId::from("xyz");
    assert_eq!(borrowed.as_str(), "xyz");
    let text: &str = borrowed.as_ref();
    assert_eq!(text, "xyz");
}
