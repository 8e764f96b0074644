use sparkling::domain::ports::CardFilters;
use sparkling::domain::value_objects::{CardStatus, FizzyId};
use sparkling::infrastructure::persistence::card_query::{
    base_card_query, build_find_by_id_query, build_find_by_number_query, build_list_query,
    filter_clauses, render_query, BindValue, Clause,
};

fn id(n: u128) -> FizzyId {
    FizzyId::from_number(n)
}

fn describe(value: &BindValue) -> String {
    match value {
        BindValue::Id(id) => format!("id:{}", id.as_str()),
        BindValue::Text(text) => format!("text:{}", text),
        BindValue::Integer(n) => format!("int:{}", n),
    }
}

fn subset(bits: u32) -> CardFilters {
    CardFilters {
        assignee_id: if bits & 1 != 0 { Some(id(11)) } else { None },
        creator_id: if bits & 2 != 0 { Some(id(12)) } else { None },
        board_id: if bits & 4 != 0 { Some(id(13)) } else { None },
        column_id: if bits & 8 != 0 { Some(id(14)) } else { None },
        status: if bits & 16 != 0 {
            Some(vec![CardStatus::Drafted, CardStatus::Triaged, CardStatus::Published])
        } else {
            None
        },
        exclude_status: if bits & 32 != 0 {
            Some(vec![CardStatus::Closed, CardStatus::NotNow])
        } else {
            None
        },
        is_golden: if bits & 64 != 0 { Some(bits & 128 != 0) } else { None },
        limit: if bits & 256 != 0 { Some(20) } else { None },
        offset: if bits & 512 != 0 { Some(40) } else { None },
    }
}

#[test]
fn every_subset_of_filters_has_one_value_per_placeholder_in_order() {
    let account = id(1);
    for bits in 0..1024u32 {
        let filters = subset(bits);
        let query = build_list_query(&account, &filters);
        let placeholders = query.sql.matches('?').count();
        assert_eq!(placeholders, query.bindings.len(), "subset {}", bits);

        let mut expected = vec![format!("id:{}", account.as_str())];
        if bits & 1 != 0 {
            expected.push(format!("id:{}", id(11).as_str()));
        }
        if bits & 4 != 0 {
            expected.push(format!("id:{}", id(13).as_str()));
        }
        if bits & 8 != 0 {
            expected.push(format!("id:{}", id(14).as_str()));
        }
        if bits & 16 != 0 {
            expected.extend(["text:drafted", "text:triaged", "text:published"].map(String::from));
        }
        if bits & 32 != 0 {
            expected.extend(["text:closed", "text:not_now"].map(String::from));
        }
        let bound: Vec<String> = query.bindings.iter().map(describe).collect();
        assert_eq!(bound, expected, "subset {}", bits);

        // each clause brings its own values: the placeholders of the clauses
        // add up, clause by clause, to the values bound so far
        let clauses = filter_clauses(&account, &filters);
        let mut so_far = 0;
        for clause in &clauses {
            let fragment = clause.fragment();
            let values = clause.bound_values();
            assert_eq!(fragment.matches('?').count(), values.len());
            for (k, value) in values.iter().enumerate() {
                assert_eq!(describe(value), bound[so_far + k]);
            }
            so_far += values.len();
        }
        assert_eq!(so_far, bound.len());
    }
}

#[test]
fn list_query_text_for_a_full_filter() {
    let account = id(1);
    let filters = CardFilters {
        assignee_id: Some(id(2)),
        creator_id: Some(id(3)),
        board_id: Some(id(4)),
        column_id: Some(id(5)),
        status: Some(vec![CardStatus::Triaged, CardStatus::Published]),
        exclude_status: Some(vec![CardStatus::Closed]),
        is_golden: Some(true),
        limit: Some(20),
        offset: Some(5),
    };
    let query = build_list_query(&account, &filters);
    let expected = format!(
        "{} WHERE c.account_id = ? AND EXISTS (SELECT 1 FROM assignments a WHERE a.card_id = c.id AND a.assignee_id = ?) AND c.board_id = ? AND c.column_id = ? AND c.status IN (?, ?) AND c.status NOT IN (?) AND cg.id IS NOT NULL ORDER BY c.last_active_at DESC LIMIT 20 OFFSET 5",
        base_card_query()
    );
    assert_eq!(query.sql, expected);
    assert_eq!(query.bindings.len(), 7);
}

#[test]
fn list_query_text_for_an_empty_filter() {
    let account = id(1);
    let query = build_list_query(&account, &CardFilters::default());
    let expected = format!(
        "{} WHERE c.account_id = ? ORDER BY c.last_active_at DESC",
        base_card_query()
    );
    assert_eq!(query.sql, expected);
    assert_eq!(query.bindings.len(), 1);
    assert_eq!(describe(&query.bindings[0]), format!("id:{}", account.as_str()));
}

#[test]
fn empty_status_lists_make_no_clause() {
    let account = id(1);
    let filters = CardFilters {
        status: Some(vec![]),
        exclude_status: Some(vec![]),
        ..CardFilters::default()
    };
    let clauses = filter_clauses(&account, &filters);
    assert_eq!(clauses.len(), 1);
    assert!(matches!(clauses[0], Clause::Account(_)));
}

#[test]
fn golden_filter_has_no_placeholder() {
    assert_eq!(Clause::Golden(true).fragment(), "cg.id IS NOT NULL");
    assert_eq!(Clause::Golden(false).fragment(), "cg.id IS NULL");
    assert!(Clause::Golden(true).bound_values().is_empty());
}

#[test]
fn negative_limit_and_offset_are_written_as_they_are() {
    let clauses = vec![Clause::Account(id(1))];
    let query = render_query(&clauses, Some(-1), Some(i64::MIN));
    assert!(query.sql.ends_with(" ORDER BY c.last_active_at DESC LIMIT -1 OFFSET -9223372036854775808"));
}

#[test]
fn point_queries() {
    let by_number = build_find_by_number_query(&id(1), 42);
    assert_eq!(
        by_number.sql,
        format!("{} WHERE c.account_id = ? AND c.number = ?", base_card_query())
    );
    let bound: Vec<String> = by_number.bindings.iter().map(describe).collect();
    assert_eq!(bound, vec![format!("id:{}", id(1).as_str()), "int:42".to_string()]);
    let by_id = build_find_by_id_query(&id(1), &id(9));
    assert_eq!(by_id.sql, format!("{} WHERE c.account_id = ? AND c.id = ?", base_card_query()));
    assert_eq!(by_id.bindings.len(), 2);
}
