use vstd::prelude::*;

use crate::errors::DatabaseError;
use crate::ids::Hash32;

verus! {

/// The semantic kind of a stored asset.
#[derive(Debug, Clone, Copy, PartialEq, Eq, Structural)]
pub enum AssetKind {
    Token,
    Nft,
    Did,
}

/// The integer code an asset kind is stored under.
pub open spec fn spec_asset_kind_code(kind: AssetKind) -> i64 {
    match kind {
        AssetKind::Token => 0,
        AssetKind::Nft => 1,
        AssetKind::Did => 2,
    }
}

/// Decodes a stored asset-kind code; exactly the codes 0, 1 and 2 are valid.
pub fn asset_kind_from_code(code: i64) -> (r: Result<AssetKind, DatabaseError>)
    ensures
        code == 0 ==> r == Result::<AssetKind, DatabaseError>::Ok(AssetKind::Token),
        code == 1 ==> r == Result::<AssetKind, DatabaseError>::Ok(AssetKind::Nft),
        code == 2 ==> r == Result::<AssetKind, DatabaseError>::Ok(AssetKind::Did),
        !(0 <= code <= 2) ==> r == Result::<AssetKind, DatabaseError>::Err(
            DatabaseError::InvalidEnumVariant,
        ),
{
    if code == 0 {
        Ok(AssetKind::Token)
    } else if code == 1 {
        Ok(AssetKind::Nft)
    } else if code == 2 {
        Ok(AssetKind::Did)
    } else {
        Err(DatabaseError::InvalidEnumVariant)
    }
}

/// Encodes an asset kind as its stored integer code.
pub fn asset_kind_code(kind: AssetKind) -> (r: i64)
    ensures
        r == spec_asset_kind_code(kind),
{
    match kind {
        AssetKind::Token => 0,
        AssetKind::Nft => 1,
        AssetKind::Did => 2,
    }
}

/// A stored asset row: display metadata for a token, NFT or DID.
#[derive(Debug)]
pub struct Asset {
    pub hash: Hash32,
    pub name: Option<String>,
    pub ticker: Option<String>,
    pub precision: u8,
    pub icon_url: Option<String>,
    pub description: Option<String>,
    pub is_sensitive_content: bool,
    pub is_visible: bool,
    pub hidden_puzzle_hash: Option<Hash32>,
    pub kind: AssetKind,
}

} // verus!
