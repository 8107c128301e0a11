use backend::from_csv::OldAcquisition;
use backend::hackstead::item::Acquisition;

#[test]
fn num_unwrapper() {
    assert_eq!(backend::from_csv::num_unwrapper("Decimal('0')"), Some("0".to_string()));
    assert_eq!(backend::from_csv::num_unwrapper("Decimal('0.0')"), Some("0.0".to_string()));
    assert_eq!(backend::from_csv::num_unwrapper("Decimal('-0.0')"), Some("0.0".to_string()));
}

#[test]
fn num_unwrapper_leaves_the_rest() {
    assert_eq!(
        backend::from_csv::num_unwrapper("{'xp': Decimal('12'), 'until_yield': Decimal('-3.5')}"),
        Some("{'xp': 12, 'until_yield': 3.5}".to_string())
    );
    assert_eq!(backend::from_csv::num_unwrapper("no numbers here"), Some("no numbers here".to_string()));
}

#[test]
fn old_acquisitions_are_renewed() {
    assert_eq!(Acquisition::from(OldAcquisition::Trade), Acquisition::Trade);
    assert_eq!(Acquisition::from(OldAcquisition::Purchase { price: 7 }), Acquisition::Trade);
    assert_eq!(Acquisition::from(OldAcquisition::Farmed), Acquisition::Farmed);
    assert_eq!(Acquisition::from(OldAcquisition::Crafted), Acquisition::Crafted);
    assert_eq!(Acquisition::from(OldAcquisition::Hatched), Acquisition::Hatched);
}

#[test]
fn exported_values_become_json() {
    assert_eq!(
        backend::from_csv::json_text("{'xp': Decimal('12'), 'dead': False, 'until_yield': Decimal('-3.5')}"),
        Some("{\"xp\": 12, \"dead\": false, \"until_yield\": 3.5}".to_string())
    );
    assert_eq!(backend::from_csv::json_text(""), Some(String::new()));
    assert_eq!(backend::from_csv::json_text("True"), Some("True".to_string()));
}

#[test]
fn old_owners_keep_their_id() {
    let owner = backend::from_csv::OldOwner {
        id: "U14MB0B".to_string(),
        acquisition: OldAcquisition::Purchase { price: 3 },
    };
    assert_eq!(owner.id, "U14MB0B");
    assert_eq!(Acquisition::from(owner.acquisition), Acquisition::Trade);
}
