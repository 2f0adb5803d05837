use vstd::prelude::*;

verus! {

/// Default value used for request fields that are opted in unless stated
/// otherwise.
pub fn yes() -> (r: bool)
    ensures
        r == true,
{
    true
}

#[derive(Debug, Clone, Copy, PartialEq, Eq, Structural)]
pub struct Login {
    pub fingerprint: u32,
}

#[derive(Debug, Clone, Copy, PartialEq, Eq, Structural)]
pub struct LoginResponse {
}

#[derive(Debug, Clone, Copy, PartialEq, Eq, Structural)]
pub struct Logout {
}

#[derive(Debug, Clone, Copy, PartialEq, Eq, Structural)]
pub struct LogoutResponse {
}

#[derive(Debug, Clone, Copy, PartialEq, Eq, Structural)]
pub struct Resync {
    pub fingerprint: u32,
    pub delete_coins: bool,
    pub delete_assets: bool,
    pub delete_files: bool,
    pub delete_offers: bool,
    pub delete_addresses: bool,
    pub delete_blocks: bool,
}

#[derive(Debug, Clone, Copy, PartialEq, Eq, Structural)]
pub struct ResyncResponse {
}

#[derive(Debug, Clone, Copy, PartialEq, Eq, Structural)]
pub struct GenerateMnemonic {
    pub use_24_words: bool,
}

#[derive(Debug, Clone)]
pub struct GenerateMnemonicResponse {
    pub mnemonic: String,
}

#[derive(Debug, Clone)]
pub struct ImportKey {
    pub name: String,
    pub key: String,
    pub derivation_index: u32,
    pub save_secrets: bool,
    pub login: bool,
    pub emoji: Option<String>,
}

#[derive(Debug, Clone, Copy, PartialEq, Eq, Structural)]
pub struct ImportKeyResponse {
    pub fingerprint: u32,
}

#[derive(Debug, Clone)]
pub struct DeleteDatabase {
    pub fingerprint: u32,
    pub network: String,
}

#[derive(Debug, Clone, Copy, PartialEq, Eq, Structural)]
pub struct DeleteDatabaseResponse {
}

#[derive(Debug, Clone, Copy, PartialEq, Eq, Structural)]
pub struct DeleteKey {
    pub fingerprint: u32,
}

#[derive(Debug, Clone, Copy, PartialEq, Eq, Structural)]
pub struct DeleteKeyResponse {
}

#[derive(Debug, Clone)]
pub struct RenameKey {
    pub fingerprint: u32,
    pub name: String,
}

#[derive(Debug, Clone, Copy, PartialEq, Eq, Structural)]
pub struct RenameKeyResponse {
}

#[derive(Debug, Clone)]
pub struct SetWalletEmoji {
    pub fingerprint: u32,
    pub emoji: Option<String>,
}

#[derive(Debug, Clone, Copy, PartialEq, Eq, Structural)]
pub struct SetWalletEmojiResponse {
}

#[derive(Debug, Clone, Copy, PartialEq, Eq, Structural)]
pub struct GetKeys {
}

#[derive(Debug, Clone)]
pub struct GetKeysResponse {
    pub keys: Vec<KeyInfo>,
}

#[derive(Debug, Clone, Copy, PartialEq, Eq, Structural)]
pub struct GetKey {
    pub fingerprint: Option<u32>,
}

#[derive(Debug, Clone)]
pub struct GetKeyResponse {
    pub key: Option<KeyInfo>,
}

#[derive(Debug, Clone, Copy, PartialEq, Eq, Structural)]
pub struct GetSecretKey {
    pub fingerprint: u32,
}

#[derive(Debug, Clone)]
pub struct GetSecretKeyResponse {
    pub secrets: Option<SecretKeyInfo>,
}

#[derive(Debug, Clone, Copy, PartialEq, Eq, Structural)]
pub struct GetUserThemes {
}

#[derive(Debug, Clone)]
pub struct GetUserThemesResponse {
    pub themes: Vec<String>,
}

#[derive(Debug, Clone)]
pub struct GetUserTheme {
    pub nft_id: String,
}

#[derive(Debug, Clone)]
pub struct GetUserThemeResponse {
    pub theme: Option<String>,
}

#[derive(Debug, Clone)]
pub struct SaveUserTheme {
    pub nft_id: String,
}

#[derive(Debug, Clone, Copy, PartialEq, Eq, Structural)]
pub struct SaveUserThemeResponse {
}

#[derive(Debug, Clone)]
pub struct DeleteUserTheme {
    pub nft_id: String,
}

#[derive(Debug, Clone, Copy, PartialEq, Eq, Structural)]
pub struct DeleteUserThemeResponse {
}

/// The kind of root key a wallet holds.
#[derive(Debug, Clone, Copy, PartialEq, Eq, Structural)]
pub enum KeyKind {
    Bls,
}

/// Public information about one stored wallet key.
#[derive(Debug, Clone)]
pub struct KeyInfo {
    pub name: String,
    pub fingerprint: u32,
    pub public_key: String,
    pub kind: KeyKind,
    pub has_secrets: bool,
    pub network_id: String,
    pub emoji: Option<String>,
}

/// Secret material extracted for one stored wallet key.
#[derive(Debug, Clone)]
pub struct SecretKeyInfo {
    pub mnemonic: Option<String>,
    pub secret_key: String,
}

/// A display unit for an asset: its ticker and the number of decimal places
/// its base denomination is shifted by.
#[derive(Debug, Clone)]
pub struct Unit {
    pub ticker: String,
    pub precision: u8,
}

impl Unit {
    /// The display unit of a fungible token: three decimal places.
    pub fn cat(ticker: String) -> (r: Unit)
        ensures
            r.ticker == ticker,
            r.precision == 3,
    {
        Unit { ticker, precision: 3 }
    }
}

/// The display unit of the chain's native coin on mainnet.
pub fn xch() -> (r: Unit)
    ensures
        r.ticker@ == "XCH"@,
        r.precision == 12,
{
    Unit { ticker: "XCH".to_string(), precision: 12 }
}

/// The display unit of the chain's native coin on testnets.
pub fn txch() -> (r: Unit)
    ensures
        r.ticker@ == "TXCH"@,
        r.precision == 12,
{
    Unit { ticker: "TXCH".to_string(), precision: 12 }
}

/// The base denomination itself: no decimal shift.
pub fn mojos() -> (r: Unit)
    ensures
        r.ticker@ == "Mojos"@,
        r.precision == 0,
{
    Unit { ticker: "Mojos".to_string(), precision: 0 }
}

} // verus!
