use backend_client::access::takes_foo;
use backend_client::access::takes_foo_implying_bounds;
use backend_client::access::takes_foo_not_specifying_associated_type;
use backend_client::access::takes_foo_specifying_associated_types_implying_bounds;
use backend_client::access::takes_foo_where_associated_t_impl_baz;
use backend_client::BackendCapability;
use backend_client::CompositeWrapper;
use backend_client::Counter;
use backend_client::Foo;
use backend_client::HasBackend;
use backend_client::PubClientTrait;
use backend_client::UnownedClientA;
use backend_client::UnownedClientB;

/// Error kinds as a backend might define them; this layer defines none of
/// its own.
#[derive(Clone, Copy, PartialEq, Eq, Debug)]
enum BackendErrKind {
    Timeout,
    ConnectionFailed(u16),
    NotFound,
}

/// A holder wired to a backend serving a prepared value answers the public
/// operation, with the requested type written on the method.
#[test]
fn test() {
    let client = UnownedClientA::new(1u64 * 2);
    let _ = client.foo::<u64>();
}

#[test]
fn counter_scenario() {
    let bare = Counter::new(42);
    assert_eq!(bare.get(), 42u64);

    let composite = CompositeWrapper::new(Counter::new(42), "anything else");
    let got: u64 = composite.get();
    assert_eq!(got, 42u64);
    assert_eq!(got, bare.get());
}

#[test]
fn composite_forwarding_ignores_other_slot() {
    let with_bool = CompositeWrapper::new(UnownedClientA::new(9u32), false);
    let with_str = CompositeWrapper::new(UnownedClientA::new(9u32), "inert");
    let with_client = CompositeWrapper::new(UnownedClientA::new(9u32), UnownedClientB::new(100u32));
    assert_eq!(with_bool.get(), 9u32);
    assert_eq!(with_str.get(), 9u32);
    assert_eq!(with_client.get(), 9u32);
}

#[test]
fn adapter_transparency() {
    let client = UnownedClientA::new(7u64);
    let native = client.native_fetch();
    let through_layer: u64 = client.get();
    assert_eq!(through_layer, native);

    let other = UnownedClientB::new(-3i32);
    assert_eq!(other.get(), other.native_fetch());
}

#[test]
fn delegation_applies_no_transformation() {
    let holder = CompositeWrapper::new(UnownedClientB::new(55u8), ());
    let direct = holder.backend().produce();
    let public: u8 = holder.get();
    assert_eq!(public, direct);
}

#[test]
fn error_passthrough_same_kind() {
    let failing = UnownedClientB::new(Err::<u64, BackendErrKind>(BackendErrKind::Timeout));
    assert_eq!(failing.get(), Err(BackendErrKind::Timeout));

    let missing = CompositeWrapper::new(
        UnownedClientA::new(Err::<u64, BackendErrKind>(BackendErrKind::NotFound)),
        0u8,
    );
    assert_eq!(missing.get(), Err(BackendErrKind::NotFound));
}

#[test]
fn error_passthrough_same_payload() {
    let failing = UnownedClientA::new(Err::<u32, BackendErrKind>(
        BackendErrKind::ConnectionFailed(502),
    ));
    let surfaced: Result<u32, BackendErrKind> = failing.get();
    assert_eq!(surfaced, Err(BackendErrKind::ConnectionFailed(502)));
}

#[test]
fn ok_values_pass_through_unchanged() {
    let fine = UnownedClientA::new(Ok::<u32, BackendErrKind>(11));
    assert_eq!(fine.get(), Ok(11u32));
}

#[test]
fn access_patterns_agree() {
    let backend = UnownedClientA::new(13u64);
    assert_eq!(takes_foo(&backend), 13u64);

    let holder = CompositeWrapper::new(UnownedClientA::new(13u64), 'x');
    assert_eq!(takes_foo_implying_bounds(&holder), 13u64);
    assert_eq!(takes_foo_not_specifying_associated_type(&holder), 13u64);
    assert_eq!(takes_foo_specifying_associated_types_implying_bounds(&holder), 13u64);
    assert_eq!(takes_foo_where_associated_t_impl_baz(&holder), 13u64);
}

#[test]
fn facade_matches_trait_level_operation() {
    let counter = Counter::new(6);
    let via_facade: u64 = counter.foo();
    assert_eq!(via_facade, counter.get());
}

#[test]
fn one_client_serves_many_requested_types() {
    let numbers = UnownedClientB::new(21u16);
    let flags = UnownedClientB::new(true);
    assert_eq!(numbers.get(), 21u16);
    assert!(flags.get());
}
