use anchor_spl::token::ID as TOKEN_PROGRAM_ID;
use mpl_token_metadata::types::DataV2;
use solutils::address::Address;
use solutils::metadata::{
    freeze_delegated_account, thaw_delegated_account, token_program_id, update_metadata_accounts_v2,
    AccountMeta, FreezeDelegatedAccount, ThawDelegatedAccount, UpdateMetadataAccountV2,
};

fn addr(b: u8) -> Address {
    Address::new([b; 32])
}

fn meta(b: u8, is_signer: bool, is_writable: bool) -> AccountMeta {
    AccountMeta { pubkey: addr(b), is_signer, is_writable }
}

#[test]
fn token_program_id_is_the_token_program() {
    assert_eq!(token_program_id().bytes, TOKEN_PROGRAM_ID.to_bytes());
}

#[test]
fn freeze_names_the_delegate_accounts() {
    let accounts = FreezeDelegatedAccount { delegate: addr(1), token_account: addr(2), edition: addr(3), mint: addr(4) };
    let ix = freeze_delegated_account(&accounts);
    assert_eq!(ix.program_id.bytes, mpl_token_metadata::ID.to_bytes());
    assert_eq!(
        ix.accounts,
        vec![
            meta(1, true, true),
            meta(2, false, true),
            meta(3, false, false),
            meta(4, false, false),
            AccountMeta { pubkey: token_program_id(), is_signer: false, is_writable: false },
        ]
    );
    assert_eq!(ix.data, vec![26u8]);
}

#[test]
fn thaw_names_the_delegate_accounts() {
    let accounts = ThawDelegatedAccount { delegate: addr(5), token_account: addr(6), edition: addr(7), mint: addr(8) };
    let ix = thaw_delegated_account(&accounts);
    assert_eq!(ix.program_id.bytes, mpl_token_metadata::ID.to_bytes());
    assert_eq!(ix.accounts[0], meta(5, true, true));
    assert_eq!(ix.accounts[1], meta(6, false, true));
    assert_eq!(ix.accounts[2], meta(7, false, false));
    assert_eq!(ix.accounts[3], meta(8, false, false));
    assert_eq!(ix.accounts.len(), 5);
    assert_eq!(ix.data, vec![27u8]);
}

#[test]
fn update_sends_the_new_data() {
    let accounts = UpdateMetadataAccountV2 { metadata_account: addr(9), update_authority: addr(10) };
    let data = DataV2 {
        name: "Fee".to_string(),
        symbol: "FEE".to_string(),
        uri: "https://example.com/fee.json".to_string(),
        seller_fee_basis_points: 500,
        creators: None,
        collection: None,
        uses: None,
    };
    let ix = update_metadata_accounts_v2(&accounts, data);
    assert_eq!(ix.program_id.bytes, mpl_token_metadata::ID.to_bytes());
    assert_eq!(ix.accounts, vec![meta(9, false, true), meta(10, true, false)]);
    assert_eq!(ix.data[0], 15);
    assert_eq!(ix.data[1], 1);
    // name "Fee": a four-byte length, then the bytes
    assert_eq!(&ix.data[2..9], &[3, 0, 0, 0, b'F', b'e', b'e']);
    let n = ix.data.len();
    assert_eq!(&ix.data[n - 3..], &[0, 0, 0]);
}
