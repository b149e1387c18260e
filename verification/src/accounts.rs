//! The accounts-struct expansion: the fixed set of verifier account
//! fields, and the splicing of those fields after a user-declared
//! field list.

use vstd::prelude::*;

verus! {

/// One field of an accounts struct: its name, the source text of its
/// type, and the source text of each of its attributes (doc comments
/// included), in declaration order.
#[derive(Debug)]
pub struct FieldDef {
    pub name: String,
    pub ty: String,
    pub attrs: Vec<String>,
}

/// `f` has the given name and type text.
pub open spec fn field_is(f: FieldDef, name: Seq<char>, ty: Seq<char>) -> bool {
    f.name@ == name && f.ty@ == ty
}

/// `f` carries exactly the given attribute texts, in order.
pub open spec fn attrs_are(f: FieldDef, attrs: Seq<Seq<char>>) -> bool {
    f.attrs@.len() == attrs.len() && forall|i: int|
        0 <= i < attrs.len() ==> f.attrs@[i]@ == attrs[i]
}

/// `f` is `g` with its attributes removed.
pub open spec fn stripped_of(f: FieldDef, g: FieldDef) -> bool {
    f.name@ == g.name@ && f.ty@ == g.ty@ && f.attrs@.len() == 0
}

/// `s` is exactly the fixed list of verifier account fields that the
/// expansion appends, with their account attributes and doc comments.
pub open spec fn common_fields_ok(s: Seq<FieldDef>) -> bool {
    &&& s.len() == 11
    &&& field_is(
        s[0],
        "program_merkle_tree"@,
        "Program<'info, ::merkle_tree_program::program::MerkleTreeProgram>"@,
    )
    &&& attrs_are(s[0], seq!["/// CHECK: Is the same as in integrity hash."@])
    &&& field_is(
        s[1],
        "merkle_tree"@,
        "AccountLoader<'info, ::merkle_tree_program::poseidon_merkle_tree::state::MerkleTree>"@,
    )
    &&& attrs_are(
        s[1],
        seq!["/// CHECK: Is the same as in integrity hash."@, "#[account(mut)]"@],
    )
    &&& field_is(s[2], "authority"@, "UncheckedAccount<'info>"@)
    &&& attrs_are(
        s[2],
        seq![
            "/// CHECK: This is the cpi authority and will be enforced in the Merkle tree program."@,
            "#[account(mut, seeds=[::merkle_tree_program::program::MerkleTreeProgram::id().to_bytes().as_ref()], bump)]"@,
        ],
    )
    &&& field_is(s[3], "token_program"@, "Program<'info, ::anchor_spl::token::Token>"@)
    &&& attrs_are(s[3], Seq::empty())
    &&& field_is(s[4], "sender"@, "UncheckedAccount<'info>"@)
    &&& attrs_are(
        s[4],
        seq!["/// CHECK: Is checked depending on deposit or withdrawal."@, "#[account(mut)]"@],
    )
    &&& field_is(s[5], "recipient"@, "UncheckedAccount<'info>"@)
    &&& attrs_are(
        s[5],
        seq!["/// CHECK: Is checked depending on deposit or withdrawal."@, "#[account(mut)]"@],
    )
    &&& field_is(s[6], "sender_fee"@, "UncheckedAccount<'info>"@)
    &&& attrs_are(
        s[6],
        seq!["/// CHECK: Is checked depending on deposit or withdrawal."@, "#[account(mut)]"@],
    )
    &&& field_is(s[7], "recipient_fee"@, "UncheckedAccount<'info>"@)
    &&& attrs_are(
        s[7],
        seq!["/// CHECK: Is checked depending on deposit or withdrawal."@, "#[account(mut)]"@],
    )
    &&& field_is(s[8], "relayer_recipient"@, "UncheckedAccount<'info>"@)
    &&& attrs_are(
        s[8],
        seq![
            "/// CHECK: Is not checked the relayer has complete freedom."@,
            "#[account(mut)]"@,
        ],
    )
    &&& field_is(s[9], "token_authority"@, "AccountInfo<'info>"@)
    &&& attrs_are(
        s[9],
        seq![
            "/// CHECK: Is checked when it is used during spl withdrawals."@,
            "#[account(mut, seeds=[::merkle_tree_program::utils::constants::TOKEN_AUTHORITY_SEED], bump, seeds::program=::merkle_tree_program::program::MerkleTreeProgram::id())]"@,
        ],
    )
    &&& field_is(
        s[10],
        "registered_verifier_pda"@,
        "Account<'info, ::merkle_tree_program::config_accounts::register_verifier::RegisteredVerifier>"@,
    )
    &&& attrs_are(
        s[10],
        seq![
            "/// Verifier config pda which needs ot exist Is not checked the relayer has complete freedom."@,
            "/// CHECK: Is the same as in integrity hash."@,
            "#[account(mut, seeds=[program_id.key().to_bytes().as_ref()], bump, seeds::program=::merkle_tree_program::program::MerkleTreeProgram::id())]"@,
        ],
    )
}

/// A field without attributes.
fn mk_field(name: &str, ty: &str) -> (r: FieldDef)
    ensures
        field_is(r, name@, ty@),
        r.attrs@.len() == 0,
{
    FieldDef { name: name.to_owned(), ty: ty.to_owned(), attrs: Vec::new() }
}

/// Appends the attribute text `a` to the field's attributes.
fn push_attr(f: &mut FieldDef, a: &str)
    ensures
        final(f).name == old(f).name,
        final(f).ty == old(f).ty,
        final(f).attrs@.len() == old(f).attrs@.len() + 1,
        forall|i: int| 0 <= i < old(f).attrs@.len() ==> final(f).attrs@[i] == old(f).attrs@[i],
        final(f).attrs@.last()@ == a@,
{
    f.attrs.push(a.to_owned());
}

/// The fixed list of verifier account fields that the expansion appends
/// to a user-declared accounts struct, with their attributes.
pub fn common_fields() -> (r: Vec<FieldDef>)
    ensures
        common_fields_ok(r@),
{
    let mut r: Vec<FieldDef> = Vec::new();

    let mut f = mk_field(
        "program_merkle_tree",
        "Program<'info, ::merkle_tree_program::program::MerkleTreeProgram>",
    );
    push_attr(&mut f, "/// CHECK: Is the same as in integrity hash.");
    r.push(f);

    let mut f = mk_field(
        "merkle_tree",
        "AccountLoader<'info, ::merkle_tree_program::poseidon_merkle_tree::state::MerkleTree>",
    );
    push_attr(&mut f, "/// CHECK: Is the same as in integrity hash.");
    push_attr(&mut f, "#[account(mut)]");
    r.push(f);

    let mut f = mk_field("authority", "UncheckedAccount<'info>");
    push_attr(
        &mut f,
        "/// CHECK: This is the cpi authority and will be enforced in the Merkle tree program.",
    );
    push_attr(
        &mut f,
        "#[account(mut, seeds=[::merkle_tree_program::program::MerkleTreeProgram::id().to_bytes().as_ref()], bump)]",
    );
    r.push(f);

    let f = mk_field("token_program", "Program<'info, ::anchor_spl::token::Token>");
    r.push(f);

    let mut f = mk_field("sender", "UncheckedAccount<'info>");
    push_attr(&mut f, "/// CHECK: Is checked depending on deposit or withdrawal.");
    push_attr(&mut f, "#[account(mut)]");
    r.push(f);

    let mut f = mk_field("recipient", "UncheckedAccount<'info>");
    push_attr(&mut f, "/// CHECK: Is checked depending on deposit or withdrawal.");
    push_attr(&mut f, "#[account(mut)]");
    r.push(f);

    let mut f = mk_field("sender_fee", "UncheckedAccount<'info>");
    push_attr(&mut f, "/// CHECK: Is checked depending on deposit or withdrawal.");
    push_attr(&mut f, "#[account(mut)]");
    r.push(f);

    let mut f = mk_field("recipient_fee", "UncheckedAccount<'info>");
    push_attr(&mut f, "/// CHECK: Is checked depending on deposit or withdrawal.");
    push_attr(&mut f, "#[account(mut)]");
    r.push(f);

    let mut f = mk_field("relayer_recipient", "UncheckedAccount<'info>");
    push_attr(&mut f, "/// CHECK: Is not checked the relayer has complete freedom.");
    push_attr(&mut f, "#[account(mut)]");
    r.push(f);

    let mut f = mk_field("token_authority", "AccountInfo<'info>");
    push_attr(&mut f, "/// CHECK: Is checked when it is used during spl withdrawals.");
    push_attr(
        &mut f,
        "#[account(mut, seeds=[::merkle_tree_program::utils::constants::TOKEN_AUTHORITY_SEED], bump, seeds::program=::merkle_tree_program::program::MerkleTreeProgram::id())]",
    );
    r.push(f);

    let mut f = mk_field(
        "registered_verifier_pda",
        "Account<'info, ::merkle_tree_program::config_accounts::register_verifier::RegisteredVerifier>",
    );
    push_attr(
        &mut f,
        "/// Verifier config pda which needs ot exist Is not checked the relayer has complete freedom.",
    );
    push_attr(&mut f, "/// CHECK: Is the same as in integrity hash.");
    push_attr(
        &mut f,
        "#[account(mut, seeds=[program_id.key().to_bytes().as_ref()], bump, seeds::program=::merkle_tree_program::program::MerkleTreeProgram::id())]",
    );
    r.push(f);

    r
}

/// The same field without its attributes.
fn strip_field(f: &FieldDef) -> (r: FieldDef)
    ensures
        stripped_of(r, *f),
{
    FieldDef { name: f.name.clone(), ty: f.ty.clone(), attrs: Vec::new() }
}

/// Each field of `fields`, in order, with its attributes removed.
fn strip_attrs(fields: &Vec<FieldDef>) -> (r: Vec<FieldDef>)
    ensures
        r@.len() == fields@.len(),
        forall|i: int| 0 <= i < r@.len() ==> stripped_of(r@[i], fields@[i]),
{
    let mut r: Vec<FieldDef> = Vec::new();
    let mut i: usize = 0;
    while i < fields.len()
        invariant
            i <= fields@.len(),
            r@.len() == i,
            forall|j: int| 0 <= j < i ==> stripped_of(r@[j], fields@[j]),
        decreases fields@.len() - i,
    {
        r.push(strip_field(&fields[i]));
        i += 1;
    }
    r
}

/// The two field lists that the expansion of an accounts struct emits.
pub struct AccountsExpansion {
    /// The fields of the re-emitted plain struct: the user's fields and
    /// then the verifier fields, all with their attributes removed.
    pub plain_fields: Vec<FieldDef>,
    /// The fields that the accounts deserializer sees: the user's
    /// fields and then the verifier fields, attributes kept.
    pub account_fields: Vec<FieldDef>,
}

/// Expands a user-declared accounts struct: appends the fixed verifier
/// fields after the user's fields, and re-emits the plain struct with
/// every attribute removed.
pub fn light_verifier_accounts(fields: Vec<FieldDef>) -> (r: AccountsExpansion)
    ensures
        r.account_fields@.len() == fields@.len() + 11,
        forall|i: int| 0 <= i < fields@.len() ==> r.account_fields@[i] == fields@[i],
        common_fields_ok(r.account_fields@.skip(fields@.len() as int)),
        r.plain_fields@.len() == r.account_fields@.len(),
        forall|i: int|
            0 <= i < r.plain_fields@.len() ==> stripped_of(
                r.plain_fields@[i],
                r.account_fields@[i],
            ),
{
    let ghost user_snap = fields@;
    let plain_user = strip_attrs(&fields);
    let mut commons = common_fields();
    let ghost commons_snap = commons@;
    let mut plain_commons = strip_attrs(&commons);

    let mut plain_fields = plain_user;
    plain_fields.append(&mut plain_commons);

    let mut account_fields = fields;
    account_fields.append(&mut commons);

    proof {
        assert(account_fields@.skip(user_snap.len() as int) =~= commons_snap);
    }
    AccountsExpansion { plain_fields, account_fields }
}

} // verus!
