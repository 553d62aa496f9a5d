use jsandbox::capability::CapabilitiesModule;
use jsandbox::capability::Capability;

#[test]
fn all_lists_ten_capabilities_in_declaration_order() {
    let names: Vec<&str> = Capability::all().into_iter().map(|c| c.name()).collect();
    assert_eq!(
        names,
        vec![
            "fetch", "secrets", "invoke", "input", "output", "describe", "query", "read", "write",
            "blob"
        ]
    );
}

#[test]
fn from_name_inverts_name_for_every_capability() {
    for capability in Capability::all() {
        assert_eq!(Capability::from_name(capability.name()), Some(capability));
    }
}

#[test]
fn from_name_rejects_names_outside_the_set() {
    assert_eq!(Capability::from_name(""), None);
    assert_eq!(Capability::from_name("Fetch"), None);
    assert_eq!(Capability::from_name("fetch "), None);
    assert_eq!(Capability::from_name("eval"), None);
    assert_eq!(Capability::from_name("fetch_capability"), None);
}

#[test]
fn names_are_pairwise_distinct() {
    let all = Capability::all();
    for (i, a) in all.iter().enumerate() {
        for (j, b) in all.iter().enumerate() {
            assert_eq!(a.name() == b.name(), i == j);
        }
    }
}

#[test]
fn binding_name_appends_capability_suffix() {
    assert_eq!(Capability::Fetch.binding_name(), "fetch_capability");
    assert_eq!(Capability::Blob.binding_name(), "blob_capability");
    assert_eq!(Capability::Describe.binding_name(), "describe_capability");
}

#[test]
fn capabilities_module_declares_the_ten_names() {
    assert_eq!(
        CapabilitiesModule::declare(),
        vec![
            "fetch", "secrets", "invoke", "input", "output", "describe", "query", "read", "write",
            "blob"
        ]
    );
}

#[test]
fn capabilities_module_binds_each_name_to_its_capability() {
    let exports = CapabilitiesModule::evaluate();
    assert_eq!(exports.len(), 10);
    for (i, (name, capability)) in exports.iter().enumerate() {
        assert_eq!(*capability, Capability::all()[i]);
        assert_eq!(*name, capability.name());
        assert_eq!(*name, CapabilitiesModule::declare()[i]);
    }
    assert_eq!(exports[0], ("fetch", Capability::Fetch));
    assert_eq!(exports[9], ("blob", Capability::Blob));
}
