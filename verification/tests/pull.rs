use wunder::config::PullOrderSettings;
use wunder::pull::{plan_order, plan_order_at, make_order_file_name, OrderInfo, PullCursor, PullStep};

const BASE: &str = "https://marketplace.example";

fn order(id: &str, state: &str) -> OrderInfo {
    OrderInfo { order_id: id.to_string(), order_state: state.to_string() }
}

#[test]
fn cursor_walks_every_page_then_stops() {
    // Three pages: the first two carry a continuation link, the last does not.
    let links = vec![
        Some("https://marketplace.example/api/orders?page=2".to_string()),
        Some("https://marketplace.example/api/orders?page=3".to_string()),
        None,
    ];
    let mut cursor = PullCursor::start(BASE);
    assert_eq!(
        cursor.target.as_deref(),
        Some("https://marketplace.example/api/orders")
    );
    let mut gets = 0;
    let mut page = 0;
    while cursor.is_active() {
        assert!(cursor.target.is_some());
        gets += 1;
        let link = links[page].clone();
        page += 1;
        cursor.advance(link);
    }
    assert_eq!(gets, 3);
    assert_eq!(cursor.target, None);
}

#[test]
fn cursor_single_page_run_issues_one_get() {
    let mut cursor = PullCursor::start(BASE);
    let mut gets = 0;
    while cursor.is_active() {
        gets += 1;
        cursor.advance(None);
    }
    assert_eq!(gets, 1);
}

#[test]
fn waiting_acceptance_order_plans_accept_then_persist() {
    let steps = plan_order_at(BASE, "20240101-120000", &order("A1", "WAITING_ACCEPTANCE"));
    assert_eq!(steps.len(), 2);
    match &steps[0] {
        PullStep::Accept { url } => {
            assert_eq!(url, "https://marketplace.example/api/orders/A1/accept");
        }
        other => panic!("expected an accept step first, got {:?}", other),
    }
    match &steps[1] {
        PullStep::Persist { file_name } => {
            assert_eq!(file_name, "20240101-120000-A1-GetOrders_Response.xml");
        }
        other => panic!("expected a persist step second, got {:?}", other),
    }
}

#[test]
fn other_state_plans_persist_only() {
    for state in ["SHIPPING", "waiting_acceptance", "WAITING_ACCEPTANCE ", "CLOSED", ""] {
        let steps = plan_order_at(BASE, "20240101-120000", &order("A2", state));
        assert_eq!(steps.len(), 1, "state {:?}", state);
        assert!(matches!(&steps[0], PullStep::Persist { .. }));
    }
}

#[test]
fn scenario_one_page_two_orders_one_accept() {
    // One page of two orders, no continuation link: one PUT, two files.
    let mut cursor = PullCursor::start(BASE);
    let orders = vec![order("A1", "WAITING_ACCEPTANCE"), order("A2", "SHIPPING")];
    let mut gets = 0;
    let mut puts: Vec<String> = Vec::new();
    let mut files: Vec<String> = Vec::new();
    while cursor.is_active() {
        gets += 1;
        for o in &orders {
            for step in plan_order_at(BASE, "20240101-120000", o) {
                match step {
                    PullStep::Accept { url } => puts.push(url),
                    PullStep::Persist { file_name } => files.push(file_name),
                }
            }
        }
        cursor.advance(None);
    }
    assert_eq!(gets, 1);
    assert_eq!(puts, vec!["https://marketplace.example/api/orders/A1/accept".to_string()]);
    assert_eq!(files.len(), 2);
    assert_ne!(files[0], files[1]);
}

#[test]
fn file_names_of_distinct_orders_differ() {
    let a = make_order_file_name("20240101-120000", "A1");
    let b = make_order_file_name("20240101-120000", "A2");
    assert_eq!(a, "20240101-120000-A1-GetOrders_Response.xml");
    assert_eq!(b, "20240101-120000-A2-GetOrders_Response.xml");
    assert_ne!(a, b);
}

#[test]
fn clocked_plan_carries_a_timestamped_file_name() {
    let steps = plan_order(BASE, &order("A7", "SHIPPING"));
    assert_eq!(steps.len(), 1);
    match &steps[0] {
        PullStep::Persist { file_name } => {
            // timestamp (at least 15 characters) + "-A7-GetOrders_Response.xml"
            assert!(file_name.ends_with("-A7-GetOrders_Response.xml"));
            assert!(file_name.len() >= 15 + "-A7-GetOrders_Response.xml".len());
            let ts = &file_name[..file_name.len() - "-A7-GetOrders_Response.xml".len()];
            assert!(ts.chars().all(|c| c.is_ascii_digit() || c == '-'));
        }
        other => panic!("expected a persist step, got {:?}", other),
    }
}

#[test]
fn state_codes_join_comma_separated_in_order() {
    let settings = PullOrderSettings {
        order_state_codes: vec!["WAITING_ACCEPTANCE".to_string(), "SHIPPING".to_string()],
        order_path: "orders".to_string(),
    };
    assert_eq!(settings.order_state_codes(), "WAITING_ACCEPTANCE,SHIPPING");
}

#[test]
fn state_codes_join_single_and_empty() {
    let one = PullOrderSettings {
        order_state_codes: vec!["WAITING_ACCEPTANCE".to_string()],
        order_path: "orders".to_string(),
    };
    assert_eq!(one.order_state_codes(), "WAITING_ACCEPTANCE");
    let none = PullOrderSettings { order_state_codes: vec![], order_path: "orders".to_string() };
    assert_eq!(none.order_state_codes(), "");
}
