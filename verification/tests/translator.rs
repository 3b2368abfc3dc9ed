use platypus::QueryOptions;
use platypus::config::Config;
use platypus::query::build_get_fields_query;
use platypus::query::build_get_query;
use platypus::query::build_list_fields_query;
use platypus::query::build_list_query;
use platypus::query::limit_clause;
use platypus::query::offset_clause;
use platypus::query::query_to_fields;
use platypus::query::query_to_filter;
use platypus::query::split_commas;
use platypus::query::u64_to_string;

fn opts() -> QueryOptions {
    QueryOptions::all()
}

#[test]
fn split_commas_cases() {
    assert_eq!(split_commas("a,b,c"), vec!["a", "b", "c"]);
    assert_eq!(split_commas("name"), vec!["name"]);
    assert_eq!(split_commas("a,,b"), vec!["a", "", "b"]);
    assert_eq!(split_commas("a,"), vec!["a", ""]);
    assert_eq!(split_commas(""), vec![""]);
}

#[test]
fn default_query_is_unrestricted() {
    let q = QueryOptions::default();
    assert!(q.fields.is_none());
    assert!(q.limit.is_none());
    assert!(q.offset.is_none());
    assert!(q.name.is_none());
}

#[test]
fn fields_sentinels() {
    let mut q = opts();
    assert!(query_to_fields(&q).is_none());

    q.fields = Some("none".to_string());
    assert_eq!(query_to_fields(&q), Some(Vec::<String>::new()));

    q.fields = Some(String::new());
    assert_eq!(query_to_fields(&q), Some(Vec::<String>::new()));

    q.fields = Some("name,status".to_string());
    assert_eq!(
        query_to_fields(&q),
        Some(vec!["name".to_string(), "status".to_string()])
    );
}

#[test]
fn decimal_rendering() {
    assert_eq!(u64_to_string(0), "0");
    assert_eq!(u64_to_string(7), "7");
    assert_eq!(u64_to_string(8001), "8001");
    assert_eq!(u64_to_string(65535), "65535");
}

#[test]
fn filter_value_is_bound_not_inlined() {
    let mut q = opts();
    q.name = Some("x' OR 1=1 --".to_string());
    let (clause, bound) = query_to_filter(&q);
    assert_eq!(clause, "WHERE item.name = $name");
    assert_eq!(bound, Some("x' OR 1=1 --".to_string()));
    assert!(!clause.contains("OR 1=1"));

    let none = query_to_filter(&opts());
    assert_eq!(none.0, "");
    assert_eq!(none.1, None);
}

#[test]
fn pagination_clauses() {
    assert_eq!(limit_clause(Some(2)), "LIMIT BY 2");
    assert_eq!(limit_clause(None), "");
    assert_eq!(offset_clause(Some(1)), "START AT 1");
    assert_eq!(offset_clause(None), "");
}

#[test]
fn list_statement_shape() {
    let mut q = opts();
    q.name = Some("Access".to_string());
    q.limit = Some(2);
    q.offset = Some(1);
    let built = build_list_query("catalog", &q);
    assert_eq!(
        built.statement,
        "SELECT * FROM catalog WHERE item.name = $name LIMIT BY 2 START AT 1"
    );
    assert_eq!(
        built.binding,
        Some(("name".to_string(), "Access".to_string()))
    );

    let plain = build_list_query("catalog", &opts());
    assert_eq!(plain.statement, "SELECT * FROM catalog   ");
    assert_eq!(plain.binding, None);
}

#[test]
fn list_fields_statement_shape() {
    let names = vec!["name".to_string(), "status".to_string()];
    let built = build_list_fields_query("catalog", &names, &opts());
    assert_eq!(
        built.statement,
        "SELECT item.id, item.href ,item.name,item.status FROM catalog   "
    );
    assert_eq!(built.binding, None);
}

#[test]
fn get_statement_shape() {
    let built = build_get_query("catalog", "abc123");
    assert_eq!(built.statement, "SELECT * FROM catalog:abc123");
    assert_eq!(built.binding, None);

    let names = vec!["name".to_string()];
    let built = build_get_fields_query("catalog", &names, "abc123");
    assert_eq!(
        built.statement,
        "SELECT item.id, item.href ,item.name FROM catalog:abc123"
    );
}

#[test]
fn config_defaults_and_overrides() {
    let config = Config::new();
    assert_eq!(config.get("PLATYPUS_PORT"), Some("8001".to_string()));
    assert_eq!(config.get("PLATYPUS_WORKERS"), Some("4".to_string()));
    assert_eq!(config.get("DB_HOST"), None);
    assert_eq!(Config::get_default("PLATYPUS_PORT"), Some("8001".to_string()));
    assert_eq!(Config::get_default("DB_HOST"), None);

    let mut config = Config::new();
    config.supply("PLATYPUS_PORT".to_string(), "9000".to_string());
    config.supply("DB_HOST".to_string(), "mem://".to_string());
    assert_eq!(config.get("PLATYPUS_PORT"), Some("9000".to_string()));
    assert_eq!(config.get("DB_HOST"), Some("mem://".to_string()));
}
