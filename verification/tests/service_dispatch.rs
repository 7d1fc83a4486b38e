use unified_clipboard::protocol::Frame;
use unified_clipboard::registry::Auth;
use unified_clipboard::registry::Registry;
use unified_clipboard::registry::UnifiedClipboard;
use unified_clipboard::service::RegistryService;
use unified_clipboard::service::Status;
use unified_clipboard::service::create_clipboard;
use unified_clipboard::service::get_clipboard;
use unified_clipboard::service::get_clipboards;
use unified_clipboard::service::kill_clipboard;
use unified_clipboard::service::set_clipboard;

fn s(v: &str) -> String {
    v.to_string()
}

fn clip(contents: &str, passphrase: &str) -> UnifiedClipboard {
    UnifiedClipboard { contents: s(contents), passphrase: s(passphrase) }
}

#[test]
fn dispatcher_maps_outcomes_to_statuses() {
    let mut registry = Registry::new();
    assert_eq!(create_clipboard(&mut registry, clip("v", "p"), s("host")), Status::Success);
    assert_eq!(set_clipboard(&mut registry, clip("w", "p"), &s("host")), Status::Success);
    assert_eq!(set_clipboard(&mut registry, clip("x", "bad"), &s("host")), Status::Forbidden);
    assert_eq!(set_clipboard(&mut registry, clip("x", "p"), &s("gone")), Status::NotFound);
    assert_eq!(
        get_clipboard(&registry, &s("host"), &Auth { passphrase: s("p") }).unwrap(),
        s("w")
    );
    assert_eq!(kill_clipboard(&mut registry, &Auth { passphrase: s("q") }, &s("host")), Status::Forbidden);
    assert_eq!(kill_clipboard(&mut registry, &Auth { passphrase: s("p") }, &s("host")), Status::Success);
    assert_eq!(kill_clipboard(&mut registry, &Auth { passphrase: s("p") }, &s("host")), Status::NotFound);
}

#[test]
fn listing_goes_through_the_dispatcher() {
    let mut registry = Registry::new();
    create_clipboard(&mut registry, clip("Initial contents", ""), s("server_clipboard"));
    let names = get_clipboards(&registry);
    assert_eq!(names, vec![s("server_clipboard")]);
}

#[test]
fn accepted_set_is_pushed_to_the_live_session() {
    let mut service = RegistryService::new();
    create_clipboard(&mut service.registry, clip("v", "p"), s("host"));
    service.register_session(s("host"), s("p"));

    let (status, push) = service.set_and_push(clip("update", "p"), &s("host"));
    assert_eq!(status, Status::Success);
    let push = push.unwrap();
    assert_eq!(push.identifier, s("host"));
    assert!(matches!(push.frame, Frame::Text(t) if t == s("update")));
}

#[test]
fn no_session_means_no_push() {
    let mut service = RegistryService::new();
    create_clipboard(&mut service.registry, clip("v", "p"), s("host"));
    let (status, push) = service.set_and_push(clip("update", "p"), &s("host"));
    assert_eq!(status, Status::Success);
    assert!(push.is_none());

    service.register_session(s("host"), s("p"));
    service.drop_session(&s("host"));
    let (status, push) = service.set_and_push(clip("again", "p"), &s("host"));
    assert_eq!(status, Status::Success);
    assert!(push.is_none());
}

#[test]
fn refused_set_is_not_pushed() {
    let mut service = RegistryService::new();
    create_clipboard(&mut service.registry, clip("v", "p"), s("host"));
    service.register_session(s("host"), s("p"));
    let (status, push) = service.set_and_push(clip("update", "bad"), &s("host"));
    assert_eq!(status, Status::Forbidden);
    assert!(push.is_none());
}

#[test]
fn inbound_text_is_an_implicit_set() {
    let mut service = RegistryService::new();
    create_clipboard(&mut service.registry, clip("v", "p"), s("host"));
    service.register_session(s("host"), s("p"));

    assert_eq!(service.accept_text(&s("host"), "\"from wire\"\u{0}"), Status::Success);
    assert_eq!(
        get_clipboard(&service.registry, &s("host"), &Auth { passphrase: s("p") }).unwrap(),
        s("from wire")
    );
}

#[test]
fn inbound_text_without_a_session_is_refused() {
    let mut service = RegistryService::new();
    create_clipboard(&mut service.registry, clip("v", "p"), s("host"));
    assert_eq!(service.accept_text(&s("host"), "update"), Status::NotFound);
    assert_eq!(
        get_clipboard(&service.registry, &s("host"), &Auth { passphrase: s("p") }).unwrap(),
        s("v")
    );
}

#[test]
fn empty_inbound_text_is_discarded() {
    let mut service = RegistryService::new();
    create_clipboard(&mut service.registry, clip("v", "p"), s("host"));
    service.register_session(s("host"), s("p"));
    assert_eq!(service.accept_text(&s("host"), " \u{0} "), Status::Success);
    assert_eq!(
        get_clipboard(&service.registry, &s("host"), &Auth { passphrase: s("p") }).unwrap(),
        s("v")
    );
}
