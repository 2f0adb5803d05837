//! The puzzle classifier: interprets a serialized on-chain locking program
//! and yields exactly one semantic coin kind.
//!
//! Template parsing is done by the `chia-sdk-driver` crate behind trusted
//! wrappers. Each wrapper works on a fresh evaluator, so every parse result
//! is a function of the serialized program bytes alone; those results carry
//! names here, and the whole classification — the fixed priority order
//! launcher, CAT, NFT, DID, the rule that a malformed template match
//! degrades to `Unknown` instead of failing, and the payload each kind
//! carries — is stated over the names and verified.

use vstd::prelude::*;

use crate::errors::ParseError;
use crate::ids::Hash32;

use chia_sdk_driver::Layer;
use clvm_traits::{FromClvm, ToClvm};

verus! {

#[verifier::external_type_specification]
#[verifier::external_body]
pub struct ExProgram(chia_protocol::Program);

#[verifier::external_type_specification]
#[verifier::external_body]
pub struct ExAllocator(clvmr::Allocator);

#[verifier::external_type_specification]
#[verifier::external_body]
pub struct ExPuzzle(chia_sdk_driver::Puzzle);

#[verifier::external_type_specification]
#[verifier::external_body]
pub struct ExNftInfo(chia_sdk_driver::NftInfo);

#[verifier::external_type_specification]
#[verifier::external_body]
pub struct ExDidInfo(chia_sdk_driver::DidInfo);

/// A program allocated into its own fresh evaluator, ready for the template
/// parsers.
struct ParsedPuzzle {
    allocator: clvmr::Allocator,
    puzzle: chia_sdk_driver::Puzzle,
}

// ---------------------------------------------------------------------------
// Library records for template data
// ---------------------------------------------------------------------------

/// The on-chain information of an NFT, with its metadata kept as the
/// serialized program it was read from.
#[derive(Debug)]
pub struct NftInfoRec {
    pub launcher_id: Hash32,
    /// The serialized metadata program of the NFT's state layer.
    pub metadata: Vec<u8>,
    pub metadata_updater_puzzle_hash: Hash32,
    pub current_owner: Option<Hash32>,
    pub royalty_puzzle_hash: Hash32,
    pub royalty_basis_points: u16,
    pub p2_puzzle_hash: Hash32,
}

/// The mathematical value of an NFT's on-chain fields, metadata aside.
pub ghost struct NftFieldsView {
    pub launcher_id: Seq<u8>,
    pub metadata_updater_puzzle_hash: Seq<u8>,
    pub current_owner: Option<Seq<u8>>,
    pub royalty_puzzle_hash: Seq<u8>,
    pub royalty_basis_points: u16,
    pub p2_puzzle_hash: Seq<u8>,
}

/// The bytes of an optional hash.
pub open spec fn opt_hash_view(h: Option<Hash32>) -> Option<Seq<u8>> {
    match h {
        Some(h) => Some(h@),
        None => None,
    }
}

impl NftInfoRec {
    /// The record's fields as mathematical values, metadata aside.
    pub open spec fn fields_view(self) -> NftFieldsView {
        NftFieldsView {
            launcher_id: self.launcher_id@,
            metadata_updater_puzzle_hash: self.metadata_updater_puzzle_hash@,
            current_owner: opt_hash_view(self.current_owner),
            royalty_puzzle_hash: self.royalty_puzzle_hash@,
            royalty_basis_points: self.royalty_basis_points,
            p2_puzzle_hash: self.p2_puzzle_hash@,
        }
    }
}

/// The decoded off-chain metadata payload of an NFT, where decodable.
#[derive(Debug)]
pub struct NftMetadata {
    pub edition_number: u64,
    pub edition_total: u64,
    pub data_uris: Vec<String>,
    pub data_hash: Option<Hash32>,
    pub metadata_uris: Vec<String>,
    pub metadata_hash: Option<Hash32>,
    pub license_uris: Vec<String>,
    pub license_hash: Option<Hash32>,
}

/// The mathematical value of a decoded NFT metadata payload.
pub ghost struct NftMetadataView {
    pub edition_number: u64,
    pub edition_total: u64,
    pub data_uris: Seq<Seq<char>>,
    pub data_hash: Option<Seq<u8>>,
    pub metadata_uris: Seq<Seq<char>>,
    pub metadata_hash: Option<Seq<u8>>,
    pub license_uris: Seq<Seq<char>>,
    pub license_hash: Option<Seq<u8>>,
}

/// The character sequences of a list of strings.
pub open spec fn strings_view(v: Seq<String>) -> Seq<Seq<char>> {
    v.map_values(|s: String| s@)
}

impl NftMetadata {
    pub open spec fn view(self) -> NftMetadataView {
        NftMetadataView {
            edition_number: self.edition_number,
            edition_total: self.edition_total,
            data_uris: strings_view(self.data_uris@),
            data_hash: opt_hash_view(self.data_hash),
            metadata_uris: strings_view(self.metadata_uris@),
            metadata_hash: opt_hash_view(self.metadata_hash),
            license_uris: strings_view(self.license_uris@),
            license_hash: opt_hash_view(self.license_hash),
        }
    }
}

/// The mathematical value of an optional metadata payload.
pub open spec fn opt_metadata_view(m: Option<NftMetadata>) -> Option<NftMetadataView> {
    match m {
        Some(m) => Some(m@),
        None => None,
    }
}

/// The on-chain information of a DID, with its metadata kept as the
/// serialized program it was read from.
#[derive(Debug)]
pub struct DidInfoRec {
    pub launcher_id: Hash32,
    pub recovery_list_hash: Option<Hash32>,
    pub num_verifications_required: u64,
    /// The serialized metadata program of the DID layer.
    pub metadata: Vec<u8>,
    pub p2_puzzle_hash: Hash32,
}

/// The mathematical value of a DID's on-chain fields, metadata aside.
pub ghost struct DidFieldsView {
    pub launcher_id: Seq<u8>,
    pub recovery_list_hash: Option<Seq<u8>>,
    pub num_verifications_required: u64,
    pub p2_puzzle_hash: Seq<u8>,
}

impl DidInfoRec {
    /// The record's fields as mathematical values, metadata aside.
    pub open spec fn fields_view(self) -> DidFieldsView {
        DidFieldsView {
            launcher_id: self.launcher_id@,
            recovery_list_hash: opt_hash_view(self.recovery_list_hash),
            num_verifications_required: self.num_verifications_required,
            p2_puzzle_hash: self.p2_puzzle_hash@,
        }
    }
}

/// The semantic kind of a coin, derived from its locking program.
#[derive(Debug)]
pub enum CoinKind {
    Unknown,
    Launcher,
    Cat { asset_id: Hash32, p2_puzzle_hash: Hash32 },
    Did { info: DidInfoRec },
    Nft { info: NftInfoRec, metadata: Option<NftMetadata> },
}

// ---------------------------------------------------------------------------
// Template check outcomes and the verified dispatch
// ---------------------------------------------------------------------------

/// What one template check reported of a puzzle.
#[derive(Debug, Clone, Copy, PartialEq, Eq, Structural)]
pub enum TemplateOutcome {
    /// The program is not this template; classification falls through.
    NoMatch,
    /// The program matched the template but its inner data is malformed;
    /// the coin degrades to `Unknown` rather than failing classification.
    Malformed,
    /// The program is this template.
    Match,
}

/// The kind a classification decides on, without the template payloads.
#[derive(Debug, Clone, Copy, PartialEq, Eq, Structural)]
pub enum KindTag {
    Unknown,
    Launcher,
    Cat,
    Did,
    Nft,
}

impl CoinKind {
    /// The kind's tag, payloads aside.
    pub open spec fn spec_tag(self) -> KindTag {
        match self {
            CoinKind::Unknown => KindTag::Unknown,
            CoinKind::Launcher => KindTag::Launcher,
            CoinKind::Cat { .. } => KindTag::Cat,
            CoinKind::Did { .. } => KindTag::Did,
            CoinKind::Nft { .. } => KindTag::Nft,
        }
    }

    /// The tag of a classified kind.
    pub fn tag(&self) -> (r: KindTag)
        ensures
            r == self.spec_tag(),
    {
        match self {
            CoinKind::Unknown => KindTag::Unknown,
            CoinKind::Launcher => KindTag::Launcher,
            CoinKind::Cat { .. } => KindTag::Cat,
            CoinKind::Did { .. } => KindTag::Did,
            CoinKind::Nft { .. } => KindTag::Nft,
        }
    }
}

/// The classifier's decision rule: templates are tried in the fixed
/// priority order singleton launcher, CAT, NFT, DID; the first match wins,
/// and a malformed match yields `Unknown` immediately. The order is
/// load-bearing: a CAT-wrapped NFT must classify as a CAT.
pub open spec fn spec_classify(
    launcher: bool,
    cat: TemplateOutcome,
    nft: TemplateOutcome,
    did: TemplateOutcome,
) -> KindTag {
    if launcher {
        KindTag::Launcher
    } else if cat is Malformed {
        KindTag::Unknown
    } else if cat is Match {
        KindTag::Cat
    } else if nft is Malformed {
        KindTag::Unknown
    } else if nft is Match {
        KindTag::Nft
    } else if did is Malformed {
        KindTag::Unknown
    } else if did is Match {
        KindTag::Did
    } else {
        KindTag::Unknown
    }
}

/// Decides a coin's kind from the four template outcomes.
pub fn classify(
    launcher: bool,
    cat: TemplateOutcome,
    nft: TemplateOutcome,
    did: TemplateOutcome,
) -> (k: KindTag)
    ensures
        k == spec_classify(launcher, cat, nft, did),
{
    if launcher {
        KindTag::Launcher
    } else {
        match cat {
            TemplateOutcome::Malformed => KindTag::Unknown,
            TemplateOutcome::Match => KindTag::Cat,
            TemplateOutcome::NoMatch => match nft {
                TemplateOutcome::Malformed => KindTag::Unknown,
                TemplateOutcome::Match => KindTag::Nft,
                TemplateOutcome::NoMatch => match did {
                    TemplateOutcome::Malformed => KindTag::Unknown,
                    TemplateOutcome::Match => KindTag::Did,
                    TemplateOutcome::NoMatch => KindTag::Unknown,
                },
            },
        }
    }
}

/// Classification is total and respects the fixed priority order: for any
/// four template outcomes it decides exactly one kind; the launcher test
/// comes first, then CAT before NFT before DID; and a malformed match of
/// the first template reached yields `Unknown` instead of an error.
pub proof fn lemma_classifier_total(
    launcher: bool,
    cat: TemplateOutcome,
    nft: TemplateOutcome,
    did: TemplateOutcome,
)
    ensures
        spec_classify(launcher, cat, nft, did) matches KindTag::Unknown
            || spec_classify(launcher, cat, nft, did) matches KindTag::Launcher
            || spec_classify(launcher, cat, nft, did) matches KindTag::Cat
            || spec_classify(launcher, cat, nft, did) matches KindTag::Did
            || spec_classify(launcher, cat, nft, did) matches KindTag::Nft,
        launcher ==> spec_classify(launcher, cat, nft, did) == KindTag::Launcher,
        !launcher && cat is Match ==> spec_classify(launcher, cat, nft, did) == KindTag::Cat,
        !launcher && cat is Malformed ==> spec_classify(launcher, cat, nft, did)
            == KindTag::Unknown,
        !launcher && cat is NoMatch && nft is Match ==> spec_classify(launcher, cat, nft, did)
            == KindTag::Nft,
        !launcher && cat is NoMatch && nft is Malformed ==> spec_classify(launcher, cat, nft, did)
            == KindTag::Unknown,
        !launcher && cat is NoMatch && nft is NoMatch && did is Match ==> spec_classify(
            launcher,
            cat,
            nft,
            did,
        ) == KindTag::Did,
        !launcher && cat is NoMatch && nft is NoMatch && did is Malformed ==> spec_classify(
            launcher,
            cat,
            nft,
            did,
        ) == KindTag::Unknown,
        !launcher && cat is NoMatch && nft is NoMatch && did is NoMatch ==> spec_classify(
            launcher,
            cat,
            nft,
            did,
        ) == KindTag::Unknown,
{
}

// ---------------------------------------------------------------------------
// Named parse results over the program bytes
// ---------------------------------------------------------------------------
//
// Every check below runs on a fresh evaluator holding nothing but the
// program, so each result is a function of the serialized bytes alone.

/// Whether `chia_protocol::Program::to_clvm` accepts the serialization.
pub uninterp spec fn spec_puzzle_allocates(bytes: Seq<u8>) -> bool;

/// What `chia_sdk_driver::Puzzle::mod_hash` returns after `Puzzle::parse`:
/// the tree hash of the program's uncurried module.
pub uninterp spec fn spec_mod_hash(bytes: Seq<u8>) -> Seq<u8>;

/// The tree hash of the singleton launcher template: the value of the
/// constant `chia_puzzles::SINGLETON_LAUNCHER_HASH`.
pub open spec fn spec_launcher_hash() -> Seq<u8> {
    seq![
        0xefu8, 0xf0, 0x75, 0x22, 0x49, 0x50, 0x60, 0xc0, 0x66, 0xf6, 0x6f, 0x32, 0xac, 0xc2,
        0xa7, 0x7e, 0x3a, 0x3e, 0x73, 0x7a, 0xca, 0x8b, 0xae, 0xa4, 0xd1, 0xa6, 0x4e, 0xa4, 0xcd,
        0xc1, 0x3d, 0xa9,
    ]
}

/// The program's uncurried module is the singleton launcher template.
pub open spec fn spec_is_launcher(bytes: Seq<u8>) -> bool {
    spec_mod_hash(bytes) == spec_launcher_hash()
}

/// What `CatLayer::<HashedPtr>::parse_puzzle` reports: no match, a
/// malformed match, or a match.
pub uninterp spec fn spec_cat_parse(bytes: Seq<u8>) -> TemplateOutcome;

/// The asset id (TAIL program hash) a CAT match carries.
pub uninterp spec fn spec_cat_asset_id(bytes: Seq<u8>) -> Seq<u8>;

/// The tree hash of the inner spend-authority puzzle a CAT match carries.
pub uninterp spec fn spec_cat_inner_puzzle_hash(bytes: Seq<u8>) -> Seq<u8>;

/// What `NftInfo::parse` reports: no match, a malformed match, or a match.
pub uninterp spec fn spec_nft_parse(bytes: Seq<u8>) -> TemplateOutcome;

/// The on-chain fields an NFT match carries.
pub uninterp spec fn spec_nft_fields(bytes: Seq<u8>) -> NftFieldsView;

/// The serialized metadata program of an NFT match, where
/// `Program::from_clvm` can serialize it back out.
pub uninterp spec fn spec_nft_metadata_program(bytes: Seq<u8>) -> Option<Seq<u8>>;

/// The decoded off-chain metadata payload of an NFT match, where
/// `NftMetadata::from_clvm` can decode it.
pub uninterp spec fn spec_nft_metadata(bytes: Seq<u8>) -> Option<NftMetadataView>;

/// What `DidInfo::parse` reports: no match, a malformed match, or a match.
pub uninterp spec fn spec_did_parse(bytes: Seq<u8>) -> TemplateOutcome;

/// The on-chain fields a DID match carries.
pub uninterp spec fn spec_did_fields(bytes: Seq<u8>) -> DidFieldsView;

/// The serialized metadata program of a DID match, where
/// `Program::from_clvm` can serialize it back out.
pub uninterp spec fn spec_did_metadata_program(bytes: Seq<u8>) -> Option<Seq<u8>>;

/// The tag the classifier decides for a serialized program.
pub open spec fn spec_classified_tag(bytes: Seq<u8>) -> KindTag {
    spec_classify(
        spec_is_launcher(bytes),
        spec_cat_parse(bytes),
        spec_nft_parse(bytes),
        spec_did_parse(bytes),
    )
}

// ---------------------------------------------------------------------------
// Trusted wrappers around the template parsers
// ---------------------------------------------------------------------------

/// Relies on `chia_protocol::Program::from`: wraps serialized program bytes.
#[verifier::external_body]
pub fn program_from_bytes(bytes: Vec<u8>) -> chia_protocol::Program {
    chia_protocol::Program::from(bytes)
}

/// Relies on `chia_protocol::Program::to_vec`: the serialized bytes the
/// program wraps.
#[verifier::external_body]
fn program_to_bytes(program: &chia_protocol::Program) -> Vec<u8> {
    program.to_vec()
}

/// The allocation step every check shares: relies on `Program::to_clvm` of
/// `chia-protocol` and `Puzzle::parse` of `chia-sdk-driver` on a fresh
/// evaluator. The callers below carry the contracts.
#[verifier::external_body]
fn parse_puzzle(bytes: &Vec<u8>) -> Option<ParsedPuzzle> {
    let mut allocator = clvmr::Allocator::new();
    let ptr = chia_protocol::Program::from(bytes.clone()).to_clvm(&mut allocator).ok()?;
    let puzzle = chia_sdk_driver::Puzzle::parse(&allocator, ptr);
    Some(ParsedPuzzle { allocator, puzzle })
}

/// Relies on `Program::to_clvm` of `chia-protocol`, `Puzzle::parse` and
/// `Puzzle::mod_hash` of `chia-sdk-driver`: allocates the program into a
/// fresh evaluator and reads the 32-byte tree hash of its uncurried module;
/// only a rejected serialization fails.
#[verifier::external_body]
fn puzzle_mod_hash_of(bytes: &Vec<u8>) -> (r: Result<Hash32, ParseError>)
    ensures
        r is Ok <==> spec_puzzle_allocates(bytes@),
        r matches Err(e) ==> e == ParseError::AllocatePuzzle,
        r matches Ok(h) ==> h@ == spec_mod_hash(bytes@) && h.wf(),
{
    match parse_puzzle(bytes) {
        Some(parsed) => Ok(Hash32 { bytes: parsed.puzzle.mod_hash().to_bytes().to_vec() }),
        None => Err(ParseError::AllocatePuzzle),
    }
}

/// Relies on the constant `chia_puzzles::SINGLETON_LAUNCHER_HASH`, whose
/// 32-byte value is stated by [`spec_launcher_hash`].
#[verifier::external_body]
fn launcher_puzzle_hash() -> (r: Hash32)
    ensures
        r@ == spec_launcher_hash(),
        r.wf(),
{
    Hash32 { bytes: chia_puzzles::SINGLETON_LAUNCHER_HASH.to_vec() }
}

/// What the CAT template check reported.
#[derive(Debug)]
pub enum CatParse {
    NoMatch,
    Malformed,
    Match { asset_id: Hash32, p2_puzzle_hash: Hash32 },
}

impl CatParse {
    /// The bare outcome of the check.
    pub fn outcome(&self) -> (r: TemplateOutcome)
        ensures
            r is NoMatch <==> self is NoMatch,
            r is Malformed <==> self is Malformed,
            r is Match <==> self matches CatParse::Match { .. },
    {
        match self {
            CatParse::NoMatch => TemplateOutcome::NoMatch,
            CatParse::Malformed => TemplateOutcome::Malformed,
            CatParse::Match { .. } => TemplateOutcome::Match,
        }
    }
}

/// Relies on `CatLayer::<HashedPtr>::parse_puzzle` of `chia-sdk-driver`,
/// after allocating the program into a fresh evaluator: a structural
/// mismatch is no match, a parse error a malformed match; a match carries
/// the asset id (the TAIL program hash) and the tree hash of the inner
/// spend-authority puzzle, both 32 bytes.
#[verifier::external_body]
fn cat_check(bytes: &Vec<u8>) -> (r: CatParse)
    requires
        spec_puzzle_allocates(bytes@),
    ensures
        (r is NoMatch) == (spec_cat_parse(bytes@) is NoMatch),
        (r is Malformed) == (spec_cat_parse(bytes@) is Malformed),
        (r matches CatParse::Match { .. }) == (spec_cat_parse(bytes@) is Match),
        r matches CatParse::Match { asset_id, p2_puzzle_hash } ==> asset_id@ == spec_cat_asset_id(
            bytes@,
        ) && asset_id.wf() && p2_puzzle_hash@ == spec_cat_inner_puzzle_hash(bytes@)
            && p2_puzzle_hash.wf(),
{
    let Some(parsed) = parse_puzzle(bytes) else {
        return CatParse::NoMatch;
    };
    let layer = chia_sdk_driver::CatLayer::<chia_sdk_driver::HashedPtr>::parse_puzzle(
        &parsed.allocator,
        parsed.puzzle,
    );
    match layer {
        Err(_) => CatParse::Malformed,
        Ok(None) => CatParse::NoMatch,
        Ok(Some(cat)) => CatParse::Match {
            asset_id: Hash32 { bytes: cat.asset_id.to_vec() },
            p2_puzzle_hash: Hash32 { bytes: cat.inner_puzzle.tree_hash().to_bytes().to_vec() },
        },
    }
}

/// What the NFT template check reported.
#[derive(Debug)]
pub enum NftParse {
    NoMatch,
    Malformed,
    /// The template matched but its metadata program could not be
    /// serialized back out; classification fails on this program.
    MatchUnserializable,
    Match { info: NftInfoRec, metadata: Option<NftMetadata> },
}

impl NftParse {
    /// The bare outcome of the check.
    pub fn outcome(&self) -> (r: TemplateOutcome)
        ensures
            r is NoMatch <==> self is NoMatch,
            r is Malformed <==> self is Malformed,
            r is Match <==> (self matches NftParse::Match { .. } || self is MatchUnserializable),
    {
        match self {
            NftParse::NoMatch => TemplateOutcome::NoMatch,
            NftParse::Malformed => TemplateOutcome::Malformed,
            NftParse::MatchUnserializable => TemplateOutcome::Match,
            NftParse::Match { .. } => TemplateOutcome::Match,
        }
    }
}

/// Relies on `NftInfo::parse` of `chia-sdk-driver`,
/// `chia_protocol::Program::from_clvm` for the matched metadata program and
/// `chia_puzzle_types::nft::NftMetadata::from_clvm` for its decoded payload,
/// all on a fresh evaluator: a structural mismatch is no match, a parse
/// error a malformed match; on a match the fields are copied out as plain
/// values (hashes 32 bytes), and an undecodable payload is omitted rather
/// than an error.
#[verifier::external_body]
fn nft_check(bytes: &Vec<u8>) -> (r: NftParse)
    requires
        spec_puzzle_allocates(bytes@),
    ensures
        (r is NoMatch) == (spec_nft_parse(bytes@) is NoMatch),
        (r is Malformed) == (spec_nft_parse(bytes@) is Malformed),
        (r matches NftParse::Match { .. } || r is MatchUnserializable) == (spec_nft_parse(bytes@)
            is Match),
        (r is MatchUnserializable) == (spec_nft_parse(bytes@) is Match
            && spec_nft_metadata_program(bytes@) is None),
        r matches NftParse::Match { info, metadata } ==> {
            &&& info.fields_view() == spec_nft_fields(bytes@)
            &&& Some(info.metadata@) == spec_nft_metadata_program(bytes@)
            &&& opt_metadata_view(metadata) == spec_nft_metadata(bytes@)
            &&& info.launcher_id.wf()
            &&& info.metadata_updater_puzzle_hash.wf()
            &&& (info.current_owner matches Some(h) ==> h.wf())
            &&& info.royalty_puzzle_hash.wf()
            &&& info.p2_puzzle_hash.wf()
        },
{
    let Some(parsed) = parse_puzzle(bytes) else {
        return NftParse::NoMatch;
    };
    let nft = match chia_sdk_driver::NftInfo::parse(&parsed.allocator, parsed.puzzle) {
        Err(_) => return NftParse::Malformed,
        Ok(None) => return NftParse::NoMatch,
        Ok(Some((nft, _inner_puzzle))) => nft,
    };
    let program = chia_protocol::Program::from_clvm(&parsed.allocator, nft.metadata.ptr());
    let Ok(metadata_program) = program else {
        return NftParse::MatchUnserializable;
    };
    let mut info = nft_fields_of(&nft);
    info.metadata = metadata_program.to_vec();
    NftParse::Match { info, metadata: nft_metadata_of(&parsed.allocator, &nft) }
}

/// The field-copying half of [`nft_check`]: relies on the fields of
/// `chia_sdk_driver::NftInfo`; the metadata bytes are filled by the caller.
#[verifier::external_body]
fn nft_fields_of(nft: &chia_sdk_driver::NftInfo) -> NftInfoRec {
    NftInfoRec {
        launcher_id: Hash32 { bytes: nft.launcher_id.to_vec() },
        metadata: Vec::new(),
        metadata_updater_puzzle_hash: Hash32 { bytes: nft.metadata_updater_puzzle_hash.to_vec() },
        current_owner: nft.current_owner.map(|h| Hash32 { bytes: h.to_vec() }),
        royalty_puzzle_hash: Hash32 { bytes: nft.royalty_puzzle_hash.to_vec() },
        royalty_basis_points: nft.royalty_basis_points,
        p2_puzzle_hash: Hash32 { bytes: nft.p2_puzzle_hash.to_vec() },
    }
}

/// The payload-decoding half of [`nft_check`]: relies on
/// `chia_puzzle_types::nft::NftMetadata::from_clvm`; an undecodable payload
/// is omitted.
#[verifier::external_body]
fn nft_metadata_of(
    allocator: &clvmr::Allocator,
    nft: &chia_sdk_driver::NftInfo,
) -> Option<NftMetadata> {
    let decoded = chia_puzzle_types::nft::NftMetadata::from_clvm(allocator, nft.metadata.ptr());
    decoded.ok().map(|decoded| NftMetadata {
        edition_number: decoded.edition_number,
        edition_total: decoded.edition_total,
        data_uris: decoded.data_uris,
        data_hash: decoded.data_hash.map(|h| Hash32 { bytes: h.to_vec() }),
        metadata_uris: decoded.metadata_uris,
        metadata_hash: decoded.metadata_hash.map(|h| Hash32 { bytes: h.to_vec() }),
        license_uris: decoded.license_uris,
        license_hash: decoded.license_hash.map(|h| Hash32 { bytes: h.to_vec() }),
    })
}

/// What the DID template check reported.
#[derive(Debug)]
pub enum DidParse {
    NoMatch,
    Malformed,
    /// The template matched but its metadata program could not be
    /// serialized back out; classification fails on this program.
    MatchUnserializable,
    Match { info: DidInfoRec },
}

impl DidParse {
    /// The bare outcome of the check.
    pub fn outcome(&self) -> (r: TemplateOutcome)
        ensures
            r is NoMatch <==> self is NoMatch,
            r is Malformed <==> self is Malformed,
            r is Match <==> (self matches DidParse::Match { .. } || self is MatchUnserializable),
    {
        match self {
            DidParse::NoMatch => TemplateOutcome::NoMatch,
            DidParse::Malformed => TemplateOutcome::Malformed,
            DidParse::MatchUnserializable => TemplateOutcome::Match,
            DidParse::Match { .. } => TemplateOutcome::Match,
        }
    }
}

/// Relies on `DidInfo::parse` of `chia-sdk-driver` and
/// `chia_protocol::Program::from_clvm` for the matched metadata program, on
/// a fresh evaluator: a structural mismatch is no match, a parse error a
/// malformed match; on a match the fields are copied out as plain values
/// (hashes 32 bytes).
#[verifier::external_body]
fn did_check(bytes: &Vec<u8>) -> (r: DidParse)
    requires
        spec_puzzle_allocates(bytes@),
    ensures
        (r is NoMatch) == (spec_did_parse(bytes@) is NoMatch),
        (r is Malformed) == (spec_did_parse(bytes@) is Malformed),
        (r matches DidParse::Match { .. } || r is MatchUnserializable) == (spec_did_parse(bytes@)
            is Match),
        (r is MatchUnserializable) == (spec_did_parse(bytes@) is Match
            && spec_did_metadata_program(bytes@) is None),
        r matches DidParse::Match { info } ==> {
            &&& info.fields_view() == spec_did_fields(bytes@)
            &&& Some(info.metadata@) == spec_did_metadata_program(bytes@)
            &&& info.launcher_id.wf()
            &&& (info.recovery_list_hash matches Some(h) ==> h.wf())
            &&& info.p2_puzzle_hash.wf()
        },
{
    let Some(parsed) = parse_puzzle(bytes) else {
        return DidParse::NoMatch;
    };
    let did = match chia_sdk_driver::DidInfo::parse(&parsed.allocator, parsed.puzzle) {
        Err(_) => return DidParse::Malformed,
        Ok(None) => return DidParse::NoMatch,
        Ok(Some((did, _inner_puzzle))) => did,
    };
    let program = chia_protocol::Program::from_clvm(&parsed.allocator, did.metadata.ptr());
    let Ok(metadata_program) = program else {
        return DidParse::MatchUnserializable;
    };
    let mut info = did_fields_of(&did);
    info.metadata = metadata_program.to_vec();
    DidParse::Match { info }
}

/// The field-copying half of [`did_check`]: relies on the fields of
/// `chia_sdk_driver::DidInfo`; the metadata bytes are filled by the caller.
#[verifier::external_body]
fn did_fields_of(did: &chia_sdk_driver::DidInfo) -> DidInfoRec {
    DidInfoRec {
        launcher_id: Hash32 { bytes: did.launcher_id.to_vec() },
        recovery_list_hash: did.recovery_list_hash.map(|h| Hash32 { bytes: h.to_vec() }),
        num_verifications_required: did.num_verifications_required,
        metadata: Vec::new(),
        p2_puzzle_hash: Hash32 { bytes: did.p2_puzzle_hash.to_vec() },
    }
}

// ---------------------------------------------------------------------------
// The verified classification
// ---------------------------------------------------------------------------

/// Classifies a locking program given as its serialized byte string.
///
/// The singleton-launcher template is tested first by its exact module
/// hash, then the CAT, NFT and DID templates in that order through
/// [`classify`]; a malformed template match is classified `Unknown` rather
/// than propagated, since untrusted peer-supplied programs must never crash
/// classification. A CAT match carries the asset id and the inner puzzle's
/// tree hash; NFT and DID matches carry their on-chain fields and serialized
/// metadata, an NFT additionally its decoded payload where decodable. Only
/// a rejected serialization, or matched metadata that cannot be serialized
/// back out, is an error.
pub fn classify_puzzle_bytes(bytes: Vec<u8>) -> (r: Result<CoinKind, ParseError>)
    ensures
        (r == Result::<CoinKind, ParseError>::Err(ParseError::AllocatePuzzle))
            <==> !spec_puzzle_allocates(bytes@),
        (r == Result::<CoinKind, ParseError>::Err(ParseError::Serialize)) <==> (
        spec_puzzle_allocates(bytes@) && ((spec_classified_tag(bytes@) == KindTag::Nft
            && spec_nft_metadata_program(bytes@) is None) || (spec_classified_tag(bytes@)
            == KindTag::Did && spec_did_metadata_program(bytes@) is None))),
        r matches Ok(k) ==> k.spec_tag() == spec_classified_tag(bytes@),
        r matches Ok(k) ==> (k matches CoinKind::Cat { asset_id, p2_puzzle_hash }
            ==> asset_id@ == spec_cat_asset_id(bytes@) && p2_puzzle_hash@
            == spec_cat_inner_puzzle_hash(bytes@)),
        r matches Ok(k) ==> (k matches CoinKind::Nft { info, metadata } ==> info.fields_view()
            == spec_nft_fields(bytes@) && Some(info.metadata@) == spec_nft_metadata_program(
            bytes@,
        ) && opt_metadata_view(metadata) == spec_nft_metadata(bytes@)),
        r matches Ok(k) ==> (k matches CoinKind::Did { info } ==> info.fields_view()
            == spec_did_fields(bytes@) && Some(info.metadata@) == spec_did_metadata_program(
            bytes@,
        )),
{
    let mod_hash = match puzzle_mod_hash_of(&bytes) {
        Ok(mod_hash) => mod_hash,
        Err(_) => {
            return Err(ParseError::AllocatePuzzle);
        },
    };
    let launcher = mod_hash.eq(&launcher_puzzle_hash());
    let cat = cat_check(&bytes);
    let nft = nft_check(&bytes);
    let did = did_check(&bytes);

    let cat_outcome = cat.outcome();
    let nft_outcome = nft.outcome();
    let did_outcome = did.outcome();
    let tag = classify(launcher, cat_outcome, nft_outcome, did_outcome);
    proof {
        assert(cat_outcome == spec_cat_parse(bytes@));
        assert(nft_outcome == spec_nft_parse(bytes@));
        assert(did_outcome == spec_did_parse(bytes@));
        assert(tag == spec_classified_tag(bytes@));
    }

    match tag {
        KindTag::Launcher => Ok(CoinKind::Launcher),
        KindTag::Unknown => Ok(CoinKind::Unknown),
        KindTag::Cat => {
            match cat {
                CatParse::Match { asset_id, p2_puzzle_hash } => Ok(
                    CoinKind::Cat { asset_id, p2_puzzle_hash },
                ),
                _ => {
                    proof {
                        assert(false);
                    }
                    Ok(CoinKind::Unknown)
                },
            }
        },
        KindTag::Nft => {
            match nft {
                NftParse::Match { info, metadata } => Ok(CoinKind::Nft { info, metadata }),
                NftParse::MatchUnserializable => Err(ParseError::Serialize),
                _ => {
                    proof {
                        assert(false);
                    }
                    Ok(CoinKind::Unknown)
                },
            }
        },
        KindTag::Did => {
            match did {
                DidParse::Match { info } => Ok(CoinKind::Did { info }),
                DidParse::MatchUnserializable => Err(ParseError::Serialize),
                _ => {
                    proof {
                        assert(false);
                    }
                    Ok(CoinKind::Unknown)
                },
            }
        },
    }
}

impl CoinKind {
    /// Classifies a locking program held as a protocol `Program` value.
    ///
    /// The program is opaque here, so this adapter only unwraps its
    /// serialized bytes; the exact contract lives on
    /// [`classify_puzzle_bytes`], which it delegates to.
    pub fn from_puzzle(puzzle: &chia_protocol::Program) -> (r: Result<CoinKind, ParseError>)
        ensures
            r matches Err(e) ==> (e == ParseError::AllocatePuzzle || e == ParseError::Serialize),
    {
        classify_puzzle_bytes(program_to_bytes(puzzle))
    }
}

} // verus!
