use sparkling::domain::errors::DomainError;
use sparkling::domain::ports::{CreateEventInput, Particulars};
use sparkling::domain::value_objects::{FizzyId, Timestamp};
use sparkling::infrastructure::persistence::card_query::BindValue;
use sparkling::infrastructure::persistence::comment_write::{
    CommentDraft, CommentWrite, TxAction, TxEvent,
};
use sparkling::infrastructure::persistence::statements::{
    comment_limit, insert_comment_statement, insert_content_statement, insert_event_statement,
    touch_card_statement, Statement,
};

fn id(n: u128) -> FizzyId {
    FizzyId::from_number(n)
}

fn draft() -> CommentDraft {
    CommentDraft {
        comment_id: id(1),
        content_id: id(2),
        account_id: id(3),
        card_id: id(4),
        creator_id: id(5),
        content: "hello?".to_string(),
        now: Timestamp { micros: 99 },
    }
}

fn describe(value: &BindValue) -> String {
    match value {
        BindValue::Id(id) => format!("id:{}", id.as_str().trim_start_matches('0')),
        BindValue::Text(text) => format!("text:{}", text),
        BindValue::Integer(n) => format!("int:{}", n),
    }
}

fn bound(statement: &Statement) -> Vec<String> {
    statement.bindings.iter().map(describe).collect()
}

fn ok() -> TxEvent {
    TxEvent::Done(Ok(()))
}

fn failed(message: &str) -> TxEvent {
    TxEvent::Done(Err(message.to_string()))
}

#[test]
fn a_comment_write_that_goes_through() {
    let writer = CommentWrite::new(draft());
    let (writer, action) = writer.advance(TxEvent::Started);
    assert!(matches!(action, TxAction::Begin));
    let (writer, action) = writer.advance(ok());
    match action {
        TxAction::Execute(s) => {
            assert!(s.sql.starts_with("INSERT INTO comments "));
            assert_eq!(bound(&s), vec!["id:1", "id:3", "id:4", "id:5"]);
        }
        other => panic!("unexpected action {:?}", other),
    }
    let (writer, action) = writer.advance(ok());
    match action {
        TxAction::Execute(s) => {
            assert!(s.sql.starts_with("INSERT INTO action_text_rich_texts "));
            assert_eq!(bound(&s), vec!["id:2", "id:3", "id:1", "text:hello?"]);
        }
        other => panic!("unexpected action {:?}", other),
    }
    let (writer, action) = writer.advance(ok());
    match action {
        TxAction::Execute(s) => {
            assert!(s.sql.starts_with("UPDATE cards SET last_active_at"));
            assert_eq!(bound(&s), vec!["id:4", "id:3"]);
        }
        other => panic!("unexpected action {:?}", other),
    }
    let (writer, action) = writer.advance(ok());
    assert!(matches!(action, TxAction::Commit));
    let (writer, action) = writer.advance(ok());
    match action {
        TxAction::Finish(Ok(comment)) => {
            assert_eq!(comment.id, id(1));
            assert_eq!(comment.account_id, id(3));
            assert_eq!(comment.card_id, id(4));
            assert_eq!(comment.creator_id, id(5));
            assert_eq!(comment.content, "hello?");
            assert_eq!(comment.created_at, Timestamp { micros: 99 });
            assert_eq!(comment.updated_at, Timestamp { micros: 99 });
            assert_eq!(comment.creator_name, None);
        }
        other => panic!("unexpected action {:?}", other),
    }
    let (_, action) = writer.advance(ok());
    assert!(matches!(action, TxAction::Finish(Err(_))));
}

#[test]
fn a_failing_statement_is_rolled_back_and_nothing_more_is_sent() {
    for failing_at in 0..3 {
        let writer = CommentWrite::new(draft());
        let (mut writer, _) = writer.advance(TxEvent::Started);
        let (next, _) = writer.advance(ok());
        writer = next;
        for _ in 0..failing_at {
            let (next, action) = writer.advance(ok());
            assert!(matches!(action, TxAction::Execute(_)));
            writer = next;
        }
        let (writer, action) = writer.advance(failed("constraint failed"));
        assert!(matches!(action, TxAction::Rollback), "statement {}", failing_at);
        for rollback in [ok(), failed("rollback failed too")] {
            let writer = CommentWrite::new(draft());
            let (mut w, _) = writer.advance(TxEvent::Started);
            let (next, _) = w.advance(ok());
            w = next;
            for _ in 0..failing_at {
                w = w.advance(ok()).0;
            }
            let (w, _) = w.advance(failed("constraint failed"));
            let (_, action) = w.advance(rollback);
            match action {
                TxAction::Finish(Err(e)) => {
                    assert_eq!(e, DomainError::InfrastructureError("constraint failed".to_string()))
                }
                other => panic!("unexpected action {:?}", other),
            }
        }
        drop(writer);
    }
}

#[test]
fn a_transaction_that_cannot_begin_or_commit_fails() {
    let writer = CommentWrite::new(draft());
    let (writer, _) = writer.advance(TxEvent::Started);
    let (_, action) = writer.advance(failed("locked"));
    assert!(matches!(action, TxAction::Finish(Err(DomainError::InfrastructureError(ref m))) if m == "locked"));

    let writer = CommentWrite::new(draft());
    let mut writer = writer.advance(TxEvent::Started).0;
    for _ in 0..4 {
        writer = writer.advance(ok()).0;
    }
    let (_, action) = writer.advance(failed("disk full"));
    assert!(matches!(action, TxAction::Finish(Err(DomainError::InfrastructureError(ref m))) if m == "disk full"));
}

#[test]
fn statements_have_one_value_for_each_placeholder() {
    let event = CreateEventInput {
        board_id: id(6),
        eventable_id: id(1),
        eventable_type: "Comment".to_string(),
        creator_id: id(5),
        action: "comment_created".to_string(),
        particulars: Particulars::CardId(id(4)),
    };
    let statements = vec![
        insert_comment_statement(&id(1), &id(3), &id(4), &id(5)),
        insert_content_statement(&id(2), &id(3), &id(1), "has ? in it"),
        touch_card_statement(&id(4), &id(3)),
        insert_event_statement(&id(7), &id(3), &event),
    ];
    for s in &statements {
        assert_eq!(s.sql.matches('?').count(), s.bindings.len(), "{}", s.sql);
    }
    assert_eq!(
        bound(&statements[3]),
        vec![
            "id:7".to_string(),
            "id:3".to_string(),
            "id:6".to_string(),
            "id:1".to_string(),
            "text:Comment".to_string(),
            "id:5".to_string(),
            "text:comment_created".to_string(),
            format!("text:{{\"card_id\":\"{}\"}}", id(4).as_str()),
        ]
    );
}

#[test]
fn particulars_as_json() {
    assert_eq!(Particulars::Empty.to_json(), "{}");
    assert_eq!(Particulars::CardId(id(4)).to_json(), format!("{{\"card_id\":\"{}\"}}", id(4).as_str()));
    assert_eq!(
        Particulars::ColumnId(id(36)).to_json(),
        "{\"column_id\":\"0000000000000000000000010\"}"
    );
    let odd = Particulars::CardId(FizzyId::new("a\"b\\c".to_string()));
    let value: serde_json::Value = serde_json::from_str(&odd.to_json()).unwrap();
    assert_eq!(value["card_id"], serde_json::Value::String("a\"b\\c".to_string()));
}

#[test]
fn fresh_drafts() {
    let before = Timestamp::now();
    let a = CommentDraft::fresh(&id(3), &id(4), &id(5), "hello");
    let b = CommentDraft::fresh(&id(3), &id(4), &id(5), "hello");
    let after = Timestamp::now();
    assert_eq!(a.account_id, id(3));
    assert_eq!(a.card_id, id(4));
    assert_eq!(a.creator_id, id(5));
    assert_eq!(a.content, "hello");
    assert_ne!(a.comment_id, a.content_id);
    assert_ne!(a.comment_id, b.comment_id);
    assert_eq!(a.comment_id.as_str().len(), 25);
    assert!(before.micros <= a.now.micros && a.now.micros <= after.micros);
    // the clock is a real one: after the year 2020, in microseconds
    assert!(before.micros > 1_577_836_800_000_000);
    assert!((chrono::Utc::now().timestamp_micros() - after.micros).abs() < 60_000_000);
}

#[test]
fn comment_limits() {
    assert_eq!(comment_limit(None), 50);
    assert_eq!(comment_limit(Some(3)), 3);
    assert_eq!(comment_limit(Some(-1)), -1);
}
