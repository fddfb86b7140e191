use tp_client::builder::{BuilderError, Protocol, SessionBuilder};

#[test]
fn builder_assembles_routing() {
    let mut b = SessionBuilder::new();
    assert_eq!(b.declare_capability(Protocol::TemplateDistribution), Ok(()));
    assert_eq!(b.attach_transport(), Ok(()));
    assert_eq!(b.register_handler(0x71), Ok(()));
    assert_eq!(b.register_handler(0x74), Ok(()));
    let routing = b.build().ok().unwrap();
    assert_eq!(routing.route(0x71), Some(0));
    assert_eq!(routing.route(0x74), Some(1));
    assert_eq!(routing.route(0x70), None);
}

#[test]
fn capability_is_declared_once() {
    let mut b = SessionBuilder::new();
    assert_eq!(b.declare_capability(Protocol::TemplateDistribution), Ok(()));
    assert_eq!(
        b.declare_capability(Protocol::TemplateDistribution),
        Err(BuilderError::CapabilityAlreadySet)
    );
}

#[test]
fn transport_needs_capability_first() {
    let mut b = SessionBuilder::new();
    assert_eq!(b.attach_transport(), Err(BuilderError::TransportAttachError));
    b.declare_capability(Protocol::TemplateDistribution).unwrap();
    assert_eq!(b.attach_transport(), Ok(()));
    assert_eq!(b.attach_transport(), Err(BuilderError::TransportAttachError));
}

#[test]
fn duplicate_handler_is_refused() {
    let mut b = SessionBuilder::new();
    assert_eq!(b.register_handler(0x71), Ok(()));
    assert_eq!(b.register_handler(0x71), Err(BuilderError::DuplicateHandler));
    assert_eq!(b.handlers, vec![0x71]);
}

#[test]
fn incomplete_configuration_is_refused() {
    let b = SessionBuilder::new();
    assert!(matches!(b.build(), Err(BuilderError::IncompleteConfiguration)));
    let mut b = SessionBuilder::new();
    b.declare_capability(Protocol::TemplateDistribution).unwrap();
    assert!(matches!(b.build(), Err(BuilderError::IncompleteConfiguration)));
}
