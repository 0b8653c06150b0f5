use prisma_engines::mysql::{
    get_connection_info, needs_default_database, ConnectionInfo, ErrorKind, Mysql,
    HEALTH_CHECK_INTERVAL_SECS, TEST_ON_CHECK_OUT, USE_DEFAULT_DATABASE,
};
use prisma_engines::preview_features::PreviewFeatures;

fn info(dbname: Option<&str>) -> ConnectionInfo {
    ConnectionInfo { dbname: dbname.map(|s| s.to_string()), version: None }
}

#[test]
fn default_database_only_without_name_and_vitess() {
    let none: Option<String> = None;
    assert!(needs_default_database(&none, &None));
    assert!(needs_default_database(&none, &Some("8.0.34".to_string())));
    assert!(!needs_default_database(&none, &Some("8.0.31-Vitess".to_string())));
    assert!(!needs_default_database(&none, &Some("Vitess".to_string())));
    assert!(needs_default_database(&none, &Some("vitess".to_string())));
    assert!(needs_default_database(&none, &Some("Vites".to_string())));
    assert!(needs_default_database(&none, &Some(String::new())));
    let named = Some("shop".to_string());
    assert!(!needs_default_database(&named, &None));
    assert!(!needs_default_database(&named, &Some("8.0.34".to_string())));
    assert!(!needs_default_database(&named, &Some("5.7.9-Vitess".to_string())));
}

#[test]
fn non_ascii_versions_are_searched_by_character() {
    let none: Option<String> = None;
    assert!(!needs_default_database(&none, &Some("ü€Vitess–x".to_string())));
    assert!(needs_default_database(&none, &Some("ü€Vitesü".to_string())));
}

#[test]
fn invalid_url_is_reported_with_url_and_details() {
    let r = get_connection_info("mysql://:bad", Err("invalid port number".to_string()));
    match r {
        Err(e) => match e.kind {
            ErrorKind::InvalidDatabaseUrl { details, url } => {
                assert_eq!(details, "invalid port number");
                assert_eq!(url, "mysql://:bad");
            }
        },
        Ok(_) => panic!("expected an error"),
    }
    let r = get_connection_info("mysql://localhost/shop", Ok(info(Some("shop"))));
    assert_eq!(r.unwrap().dbname.as_deref(), Some("shop"));
}

#[test]
fn from_source_keeps_info_and_features() {
    let features = PreviewFeatures { bits: 0b101 };
    let m = Mysql::from_source("mysql://localhost/", Ok(info(None)), features).unwrap();
    assert_eq!(m.features(), features);
    assert_eq!(m.name(), "mysql");
    assert!(!m.should_retry_on_transient_error());

    let plan = m.plan_connection(Some("8.0.1".to_string()));
    assert!(plan.use_default_database);
    assert_eq!(plan.connection_info.dbname, None);
    assert_eq!(plan.connection_info.version.as_deref(), Some("8.0.1"));
    assert_eq!(plan.features, features);

    let plan = m.plan_connection(Some("8.0.1-Vitess".to_string()));
    assert!(!plan.use_default_database);

    let r = Mysql::from_source("nope", Err("bad".to_string()), features);
    assert!(r.is_err());
}

#[test]
fn named_database_plan_keeps_name() {
    let m = Mysql::from_source("mysql://h/app", Ok(info(Some("app"))), PreviewFeatures { bits: 0 })
        .unwrap();
    let plan = m.plan_connection(None);
    assert!(!plan.use_default_database);
    assert_eq!(plan.connection_info.dbname.as_deref(), Some("app"));
    assert_eq!(plan.connection_info.version, None);
}

#[test]
fn pool_settings() {
    assert_eq!(HEALTH_CHECK_INTERVAL_SECS, 15);
    assert!(TEST_ON_CHECK_OUT);
    assert_eq!(USE_DEFAULT_DATABASE, "USE mysql");
}
