use light_macros::accounts::{common_fields, light_verifier_accounts, FieldDef};

fn field(name: &str, ty: &str, attrs: &[&str]) -> FieldDef {
    FieldDef {
        name: name.to_string(),
        ty: ty.to_string(),
        attrs: attrs.iter().map(|a| a.to_string()).collect(),
    }
}

#[test]
fn test_common_fields_names_and_order() {
    let commons = common_fields();
    let names: Vec<&str> = commons.iter().map(|f| f.name.as_str()).collect();
    assert_eq!(
        names,
        vec![
            "program_merkle_tree",
            "merkle_tree",
            "authority",
            "token_program",
            "sender",
            "recipient",
            "sender_fee",
            "recipient_fee",
            "relayer_recipient",
            "token_authority",
            "registered_verifier_pda",
        ],
    );
}

#[test]
fn test_common_fields_types_and_attrs() {
    let commons = common_fields();
    assert_eq!(
        commons[0].ty,
        "Program<'info, ::merkle_tree_program::program::MerkleTreeProgram>",
    );
    assert_eq!(commons[0].attrs, vec!["/// CHECK: Is the same as in integrity hash."]);
    assert_eq!(
        commons[1].attrs,
        vec!["/// CHECK: Is the same as in integrity hash.", "#[account(mut)]"],
    );
    assert_eq!(
        commons[2].attrs[1],
        "#[account(mut, seeds=[::merkle_tree_program::program::MerkleTreeProgram::id().to_bytes().as_ref()], bump)]",
    );
    assert_eq!(commons[3].ty, "Program<'info, ::anchor_spl::token::Token>");
    assert!(commons[3].attrs.is_empty());
    assert_eq!(commons[9].ty, "AccountInfo<'info>");
    assert_eq!(commons[10].attrs.len(), 3);
    assert_eq!(
        commons[10].ty,
        "Account<'info, ::merkle_tree_program::config_accounts::register_verifier::RegisteredVerifier>",
    );
}

#[test]
fn test_light_verifier_accounts_splices_fields() {
    let user = vec![field("verifier_state", "Signer<'info>", &["#[account(mut)]"])];
    let expansion = light_verifier_accounts(user);

    assert_eq!(expansion.account_fields.len(), 12);
    assert_eq!(expansion.plain_fields.len(), 12);

    // The user's field keeps its place and, on the accounts side, its
    // attributes.
    assert_eq!(expansion.account_fields[0].name, "verifier_state");
    assert_eq!(expansion.account_fields[0].ty, "Signer<'info>");
    assert_eq!(expansion.account_fields[0].attrs, vec!["#[account(mut)]"]);

    // On the plain side every attribute is removed.
    assert_eq!(expansion.plain_fields[0].name, "verifier_state");
    assert_eq!(expansion.plain_fields[0].ty, "Signer<'info>");
    assert!(expansion.plain_fields[0].attrs.is_empty());
    for f in &expansion.plain_fields {
        assert!(f.attrs.is_empty());
    }

    // The appended tail is exactly the fixed field list.
    let commons = common_fields();
    for (spliced, common) in expansion.account_fields[1..].iter().zip(commons.iter()) {
        assert_eq!(spliced.name, common.name);
        assert_eq!(spliced.ty, common.ty);
        assert_eq!(spliced.attrs, common.attrs);
    }
    assert_eq!(expansion.plain_fields[1].name, "program_merkle_tree");
    assert_eq!(expansion.plain_fields[11].name, "registered_verifier_pda");
}

#[test]
fn test_light_verifier_accounts_empty_struct() {
    let expansion = light_verifier_accounts(Vec::new());
    assert_eq!(expansion.account_fields.len(), 11);
    assert_eq!(expansion.plain_fields.len(), 11);
    assert_eq!(expansion.account_fields[0].name, "program_merkle_tree");
}

#[test]
fn test_light_verifier_accounts_keeps_order_of_many_fields() {
    let user = vec![
        field("signing_address", "Signer<'info>", &["#[account(mut)]"]),
        field("system_program", "Program<'info, System>", &[]),
    ];
    let expansion = light_verifier_accounts(user);
    assert_eq!(expansion.account_fields.len(), 13);
    assert_eq!(expansion.account_fields[0].name, "signing_address");
    assert_eq!(expansion.account_fields[1].name, "system_program");
    assert_eq!(expansion.account_fields[2].name, "program_merkle_tree");
    assert_eq!(expansion.plain_fields[1].name, "system_program");
    assert!(expansion.plain_fields[1].attrs.is_empty());
}
