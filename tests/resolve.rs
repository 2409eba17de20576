use solutils::resolve::{get_field, impl_chargeable, FeeFields, FieldDecl, ResolveError, Role, StructFields};

fn field(name: &str, markers: &[&str]) -> FieldDecl {
    FieldDecl { name: name.to_string(), markers: markers.iter().map(|m| m.to_string()).collect() }
}

fn defaults() -> Vec<FieldDecl> {
    vec![
        field("fee_payer", &["account"]),
        field("fee_payer_ata", &[]),
        field("fee_incinerator_ata", &[]),
        field("fee_token_address", &[]),
        field("token_program", &[]),
    ]
}

#[test]
fn default_names_resolve_to_their_fields() {
    let mut fields = vec![field("extra", &[])];
    fields.extend(defaults());
    let m = impl_chargeable(&StructFields::Named(fields)).unwrap();
    assert_eq!(
        m,
        FeeFields {
            fee_payer: 1,
            fee_payer_ata: 2,
            fee_incinerator_ata: 3,
            fee_token_address: 4,
            token_program: 5,
        }
    );
    assert_eq!(m.field(Role::TokenProgram), 5);
}

#[test]
fn marker_resolves_a_differently_named_field() {
    let mut fields = defaults();
    fields[0] = field("owner", &["account", "fee_payer"]);
    let m = impl_chargeable(&StructFields::Named(fields)).unwrap();
    assert_eq!(m.fee_payer, 0);
    assert_eq!(m.field(Role::FeePayer), 0);
}

#[test]
fn marker_on_a_later_field() {
    let mut fields = defaults();
    fields.remove(2);
    fields.push(field("incinerator", &["fee_incinerator_ata"]));
    let m = impl_chargeable(&StructFields::Named(fields)).unwrap();
    assert_eq!(m.fee_incinerator_ata, 4);
}

#[test]
fn missing_role_is_named() {
    let mut fields = defaults();
    fields.remove(3);
    assert_eq!(
        impl_chargeable(&StructFields::Named(fields)),
        Err(ResolveError::MissingField(Role::FeeTokenAddress))
    );
}

#[test]
fn first_missing_role_is_reported() {
    let fields = vec![field("token_program", &[]), field("fee_payer", &[])];
    assert_eq!(
        impl_chargeable(&StructFields::Named(fields)),
        Err(ResolveError::MissingField(Role::FeePayerAta))
    );
}

#[test]
fn empty_struct_misses_the_fee_payer() {
    assert_eq!(
        impl_chargeable(&StructFields::Named(vec![])),
        Err(ResolveError::MissingField(Role::FeePayer))
    );
}

#[test]
fn positional_and_unit_structs_are_refused() {
    assert_eq!(impl_chargeable(&StructFields::Unnamed), Err(ResolveError::NotNamedFields));
    assert_eq!(impl_chargeable(&StructFields::Unit), Err(ResolveError::NotNamedFields));
}

#[test]
fn name_takes_precedence_over_marker() {
    let fields = vec![field("payer", &["fee_payer"]), field("fee_payer", &[])];
    assert_eq!(get_field(Role::FeePayer, &fields), Ok(1));
}

#[test]
fn first_of_two_marked_fields_wins() {
    let fields = vec![field("a", &[]), field("b", &["token_program"]), field("c", &["token_program"])];
    assert_eq!(get_field(Role::TokenProgram, &fields), Ok(1));
}

#[test]
fn unmatched_role_gives_missing_field() {
    let fields = vec![field("fee_payer_atas", &["fee_payer_at"])];
    assert_eq!(get_field(Role::FeePayerAta, &fields), Err(ResolveError::MissingField(Role::FeePayerAta)));
}

#[test]
fn role_names_are_the_default_field_names() {
    assert_eq!(Role::FeePayer.name(), "fee_payer");
    assert_eq!(Role::FeePayerAta.name(), "fee_payer_ata");
    assert_eq!(Role::FeeIncineratorAta.name(), "fee_incinerator_ata");
    assert_eq!(Role::FeeTokenAddress.name(), "fee_token_address");
    assert_eq!(Role::TokenProgram.name(), "token_program");
}
