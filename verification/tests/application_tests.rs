use application_rdn::Application;
use application_rdn::ApplicationRDN;
use application_rdn::ApplicationsType;

#[test]
fn builds_with_only_required_fields() {
    let rdn = ApplicationRDN::new(String::from("com.example.app")).unwrap();
    let id = uuid::Uuid::from_u128(0x0123_4567_89ab_cdef_0123_4567_89ab_cdef);
    let app = Application::new(rdn, id, None, None, None);
    assert_eq!(app.rdn().name(), "com.example.app");
    assert_eq!(app.id(), id);
    assert!(app.homepage().is_none());
    assert!(app.description().is_none());
    assert!(app.app_type().is_none());
}

#[test]
fn builds_with_all_fields_and_hands_each_back() {
    let rdn = ApplicationRDN::new(String::from("org.example.server")).unwrap();
    let id = uuid::Uuid::from_u128(42);
    let homepage = url::Url::parse("https://example.org/home").unwrap();
    let app = Application::new(
        rdn,
        id,
        Some(homepage.clone()),
        Some(String::from("an example service")),
        Some(ApplicationsType::Server),
    );
    assert_eq!(app.rdn().name(), "org.example.server");
    assert_eq!(app.id(), id);
    assert_eq!(app.homepage(), Some(&homepage));
    assert_eq!(app.description(), Some(&String::from("an example service")));
    assert_eq!(app.app_type(), Some(&ApplicationsType::Server));
}

#[test]
fn kind_tag_has_two_distinct_values() {
    assert_ne!(ApplicationsType::Client, ApplicationsType::Server);
    let client = ApplicationsType::Client;
    assert_eq!(client, ApplicationsType::Client);
}
