use quickbooks::constants::MAX_QUERY_LENGTH;
use quickbooks::error::{Error, Precondition};
use quickbooks::query::{build_query_string, COMPANY_INFO_QUERY};
use quickbooks::types::config::QueryConfig;

fn window(start_position: usize, max_results: usize) -> QueryConfig<'static> {
    QueryConfig {
        where_clause: None,
        order_by: None,
        start_position,
        max_results,
    }
}

#[test]
fn default_query_config_is_the_first_full_page() {
    let config = QueryConfig::default();
    assert_eq!(config.where_clause, None);
    assert_eq!(config.order_by, None);
    assert_eq!(config.start_position, 1);
    assert_eq!(config.max_results, 1000);
    assert_eq!(MAX_QUERY_LENGTH, 1000);
}

#[test]
fn query_config_clone_is_equal() {
    let config = QueryConfig {
        where_clause: Some("Active = true"),
        order_by: Some("Name"),
        start_position: 3,
        max_results: 40,
    };
    assert_eq!(config.clone(), config);
}

#[test]
fn default_query_text() {
    assert_eq!(
        build_query_string("Item", &QueryConfig::default()),
        Ok("SELECT * FROM Item MAXRESULTS 1000 STARTPOSITION 1".to_string())
    );
}

#[test]
fn query_text_with_both_clauses() {
    let config = QueryConfig {
        where_clause: Some("Active = true"),
        order_by: Some("Name DESC"),
        start_position: 101,
        max_results: 100,
    };
    assert_eq!(
        build_query_string("Customer", &config),
        Ok("SELECT * FROM Customer MAXRESULTS 100 STARTPOSITION 101 WHERE Active = true ORDERBY Name DESC".to_string())
    );
}

#[test]
fn query_text_with_a_filter_only() {
    let config = QueryConfig {
        where_clause: Some("Name LIKE 'A%'"),
        order_by: None,
        start_position: 1,
        max_results: 10,
    };
    assert_eq!(
        build_query_string("Item", &config),
        Ok("SELECT * FROM Item MAXRESULTS 10 STARTPOSITION 1 WHERE Name LIKE 'A%'".to_string())
    );
}

#[test]
fn query_text_with_an_order_only() {
    let config = QueryConfig {
        where_clause: None,
        order_by: Some("Id"),
        start_position: 2,
        max_results: 10,
    };
    assert_eq!(
        build_query_string("Item", &config),
        Ok("SELECT * FROM Item MAXRESULTS 10 STARTPOSITION 2 ORDERBY Id".to_string())
    );
}

#[test]
fn clauses_and_key_are_passed_through_as_given() {
    let config = QueryConfig {
        where_clause: Some(""),
        order_by: Some("  x ; DROP"),
        start_position: 1,
        max_results: 1,
    };
    assert_eq!(
        build_query_string("a b", &config),
        Ok("SELECT * FROM a b MAXRESULTS 1 STARTPOSITION 1 WHERE  ORDERBY   x ; DROP".to_string())
    );
}

#[test]
fn start_position_zero_is_refused() {
    assert_eq!(
        build_query_string("Item", &window(0, 1000)),
        Err(Error::Precondition(Precondition::StartPosition))
    );
    assert_eq!(
        build_query_string("Item", &window(0, 0)),
        Err(Error::Precondition(Precondition::StartPosition))
    );
}

#[test]
fn start_position_one_is_accepted() {
    assert!(build_query_string("Item", &window(1, 1000)).is_ok());
}

#[test]
fn page_size_at_the_maximum_is_kept() {
    assert_eq!(
        build_query_string("Item", &window(1, 1000)),
        Ok("SELECT * FROM Item MAXRESULTS 1000 STARTPOSITION 1".to_string())
    );
}

#[test]
fn page_size_above_the_maximum_is_lowered() {
    assert_eq!(
        build_query_string("Item", &window(1, 1001)),
        Ok("SELECT * FROM Item MAXRESULTS 1000 STARTPOSITION 1".to_string())
    );
    assert_eq!(
        build_query_string("Item", &window(7, usize::MAX)),
        Ok("SELECT * FROM Item MAXRESULTS 1000 STARTPOSITION 7".to_string())
    );
}

#[test]
fn page_size_below_the_maximum_is_kept() {
    assert_eq!(
        build_query_string("Item", &window(1, 999)),
        Ok("SELECT * FROM Item MAXRESULTS 999 STARTPOSITION 1".to_string())
    );
    assert_eq!(
        build_query_string("Item", &window(1, 0)),
        Ok("SELECT * FROM Item MAXRESULTS 0 STARTPOSITION 1".to_string())
    );
}

#[test]
fn large_start_position_is_written_in_full() {
    assert_eq!(
        build_query_string("Item", &window(usize::MAX, 5)),
        Ok(format!(
            "SELECT * FROM Item MAXRESULTS 5 STARTPOSITION {}",
            usize::MAX
        ))
    );
}

#[test]
fn phrases_stand_in_order() {
    let config = QueryConfig {
        where_clause: Some("Type = 'Service'"),
        order_by: Some("Name"),
        start_position: 21,
        max_results: 20,
    };
    let text = build_query_string("Item", &config).unwrap();
    let phrases = [
        "SELECT * FROM Item",
        "MAXRESULTS 20",
        "STARTPOSITION 21",
        "WHERE Type = 'Service'",
        "ORDERBY Name",
    ];
    let mut from = 0;
    for phrase in phrases {
        let at = text[from..].find(phrase);
        assert!(at.is_some());
        from += at.unwrap() + phrase.len();
    }
}

#[test]
fn company_info_query_text() {
    assert_eq!(COMPANY_INFO_QUERY, "SELECT * FROM CompanyInfo");
}
