use wunder::error::WunderError;
use wunder::http::{check_status, is_success_status};
use wunder::text::{find_first, find_last, str_eq, to_ascii_lower};
use wunder::urls::{order_accept_url, orders_url};

#[test]
fn two_hundreds_pass_the_status_rule() {
    for status in [200u16, 201, 204, 299] {
        assert!(is_success_status(status));
        assert!(check_status(status, String::new()).is_ok());
    }
}

#[test]
fn non_success_statuses_fail_with_status_and_body() {
    for status in [199u16, 301, 400, 404, 500] {
        assert!(!is_success_status(status));
        match check_status(status, "busy".to_string()) {
            Err(WunderError::HttpStatus { status: s, body }) => {
                assert_eq!(s, status);
                assert_eq!(body, "busy");
            }
            other => panic!("expected a status error for {}, got {:?}", status, other),
        }
    }
}

#[test]
fn url_builders_compose_base_and_order_id() {
    assert_eq!(orders_url("https://m.example"), "https://m.example/api/orders");
    assert_eq!(
        order_accept_url("https://m.example", "A1"),
        "https://m.example/api/orders/A1/accept"
    );
}

#[test]
fn text_helpers_behave_on_edges() {
    assert!(str_eq("", ""));
    assert!(str_eq("abc", "abc"));
    assert!(!str_eq("abc", "abd"));
    assert_eq!(find_first("a_b_c", '_'), Some(1));
    assert_eq!(find_last("a_b_c", '_'), Some(3));
    assert_eq!(find_first("abc", '_'), None);
    assert_eq!(find_last("", '.'), None);
    assert_eq!(to_ascii_lower("PDF"), "pdf");
    assert_eq!(to_ascii_lower("MiXeD-09_z"), "mixed-09_z");
    assert_eq!(to_ascii_lower("\u{c9}"), "\u{c9}");
}
