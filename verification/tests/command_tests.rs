use voice_capture::attributes::ValueKind;
use voice_capture::commands::{Id, Ping, _run};

#[test]
fn command_names() {
    assert_eq!(Id.name(), "id");
    assert_eq!(Ping.name(), "ping");
}

#[test]
fn record_voice_reply() {
    assert_eq!(_run(), "in development");
}

#[test]
fn value_kind_descriptions() {
    assert_eq!(ValueKind::Name.description(), "`#[<name>]`");
    assert_eq!(ValueKind::Equals.description(), "`#[<name> = <value>]`");
    assert_eq!(
        ValueKind::List.description(),
        "`#[<name>([<value>, <value>, <value>, ...])]`"
    );
    assert_eq!(ValueKind::SingleList.description(), "`#[<name>(<value>)]`");
    assert_eq!(ValueKind::Name, ValueKind::Name);
    assert_ne!(ValueKind::List, ValueKind::SingleList);
}
