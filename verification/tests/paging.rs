use auth_backend::models::{Page, PageRequest, SortingOrder};

fn order(value: &str) -> (Option<bool>, String) {
    match SortingOrder::from(value) {
        SortingOrder::Ascending(key) => (Some(true), key),
        SortingOrder::Descending(key) => (Some(false), key),
        SortingOrder::NoOrder => (None, String::new()),
    }
}

#[test]
fn sorting_order_reads_key_and_direction() {
    assert_eq!(order("email,asc"), (Some(true), "email".to_string()));
    assert_eq!(order("email,ascending"), (Some(true), "email".to_string()));
    assert_eq!(order("email,desc"), (Some(false), "email".to_string()));
    assert_eq!(order("email,dsc"), (Some(false), "email".to_string()));
    assert_eq!(order("email,descending"), (Some(false), "email".to_string()));
    assert_eq!(order("  email  ,  DESC  "), (Some(false), "email".to_string()));
    assert_eq!(order("Email,AsCeNdInG"), (Some(true), "Email".to_string()));
    assert_eq!(order(",asc"), (Some(true), "".to_string()));
}

#[test]
fn sorting_order_is_none_without_a_comma_or_with_another_word() {
    assert_eq!(order("email"), (None, String::new()));
    assert_eq!(order(""), (None, String::new()));
    assert_eq!(order("email,up"), (None, String::new()));
    assert_eq!(order("email,"), (None, String::new()));
    assert_eq!(order("email,asc,desc"), (None, String::new()));
    assert_eq!(order("a,b,asc"), (None, String::new()));
}

#[test]
fn sorting_order_from_parts_takes_the_words_as_they_are() {
    assert!(matches!(SortingOrder::from_parts("k", "asc"), SortingOrder::Ascending(key) if key == "k"));
    assert!(matches!(SortingOrder::from_parts(" k ", "dsc"), SortingOrder::Descending(key) if key == " k "));
    assert!(SortingOrder::from_parts("k", "ASC").is_no_order());
    assert!(SortingOrder::from_parts("k", " asc").is_no_order());
}

#[test]
fn sorting_order_is_written_for_a_query() {
    assert_eq!(
        SortingOrder::Ascending("email".to_string()).to_sql_string(),
        Some("email ASC".to_string())
    );
    assert_eq!(
        SortingOrder::Descending("id".to_string()).to_sql_string(),
        Some("id DESC".to_string())
    );
    assert_eq!(SortingOrder::NoOrder.to_sql_string(), None);
    assert!(SortingOrder::NoOrder.is_no_order());
    assert!(!SortingOrder::Ascending("x".to_string()).is_no_order());
}

#[test]
fn page_request_writes_order_limit_and_offset() {
    let request = PageRequest {
        take: 10,
        skip: 20,
        sort: vec!["email,asc".to_string(), "bogus".to_string(), " id , DESC".to_string()],
    };
    assert_eq!(
        request.to_sql_string("SELECT * FROM users u\n"),
        "SELECT * FROM users u\nORDER BY email ASC, id DESC\nLIMIT 10 OFFSET 20"
    );
    let plain = PageRequest { take: 0, skip: 18_446_744_073_709_551_615, sort: vec![] };
    assert_eq!(plain.to_sql_string("Q "), "Q LIMIT 0 OFFSET 18446744073709551615");
    let none = PageRequest { take: 5, skip: 0, sort: vec!["x".to_string(), "y,z".to_string()] };
    assert_eq!(none.to_sql_string(""), "LIMIT 5 OFFSET 0");
    let copy = request.clone();
    assert_eq!(copy.take, 10);
    assert_eq!(copy.skip, 20);
    assert_eq!(copy.sort, request.sort);
}

#[test]
fn page_knows_whether_rows_follow() {
    let request = |take, skip| PageRequest { take, skip, sort: vec![] };
    assert!(Page::new(vec![1, 2], 5, request(2, 2)).has_next);
    assert!(!Page::new(vec![1, 2], 4, request(2, 2)).has_next);
    assert!(!Page::new(vec![1], 3, request(2, 2)).has_next);
    assert!(!Page::new(Vec::<u8>::new(), 0, request(0, 0)).has_next);
    assert!(Page::new(Vec::<u8>::new(), 1, request(0, 0)).has_next);
    assert!(!Page::new(Vec::<u8>::new(), 10, request(u64::MAX, u64::MAX)).has_next);
    let page = Page::new(vec!["a", "b"], 7, request(2, 0));
    assert_eq!(page.content, vec!["a", "b"]);
    assert_eq!(page.total, 7);
    assert_eq!(page.request.take, 2);
}

#[test]
fn page_map_transforms_each_row_and_keeps_the_rest() {
    let page = Page::new(
        vec![1u32, 2, 3],
        9,
        PageRequest { take: 3, skip: 3, sort: vec!["id,asc".to_string()] },
    );
    let mapped = page.map(|row| format!("#{}", row * 2));
    assert_eq!(mapped.content, vec!["#2", "#4", "#6"]);
    assert_eq!(mapped.total, 9);
    assert!(mapped.has_next);
    assert_eq!(mapped.request.take, 3);
    assert_eq!(mapped.request.skip, 3);
    assert_eq!(mapped.request.sort, vec!["id,asc"]);
}
