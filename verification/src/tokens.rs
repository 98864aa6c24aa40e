//! Token and NFT issuance data and its validity checks.

use vstd::prelude::*;
use crate::chain::{Amount, TxInput};
use crate::types::{BlockId, TxId};

verus! {

/// Identifier of a token, derived from the issuing transaction's first
/// input.
#[derive(Debug, Clone, Copy, PartialEq, Eq, PartialOrd, Ord, Structural)]
pub struct TokenId(pub u64);

impl TokenId {
    pub fn new(v: u64) -> (r: Self)
        ensures
            r.0 == v,
    {
        TokenId(v)
    }
}

/// The chain parameters the token checks read.
#[derive(Debug, Clone, Copy, PartialEq, Eq, Structural)]
pub struct ChainConfig {
    pub token_max_dec_count: u8,
    pub token_max_uri_len: usize,
    pub token_min_ticker_len: usize,
    pub token_max_ticker_len: usize,
    pub token_max_name_len: usize,
    pub token_max_description_len: usize,
    pub token_min_hash_len: usize,
    pub token_max_hash_len: usize,
}

impl ChainConfig {
    pub fn token_max_dec_count(&self) -> (r: u8)
        ensures
            r == self.token_max_dec_count,
    {
        self.token_max_dec_count
    }

    pub fn token_max_uri_len(&self) -> (r: usize)
        ensures
            r == self.token_max_uri_len,
    {
        self.token_max_uri_len
    }
}

/// A transfer of an amount of an already issued token.
#[derive(Debug, Clone, Copy, PartialEq, Eq, Structural)]
pub struct TokenTransferV1 {
    pub token_id: TokenId,
    pub amount: Amount,
}

/// An issuance of a fungible token.
#[derive(Debug, Clone, PartialEq, Eq)]
pub struct TokenIssuanceV1 {
    pub token_ticker: Vec<u8>,
    pub amount_to_issue: Amount,
    pub number_of_decimals: u8,
    pub metadata_uri: Vec<u8>,
}

/// A burn of an amount of a token.
#[derive(Debug, Clone, Copy, PartialEq, Eq, Structural)]
pub struct TokenBurnV1 {
    pub token_id: TokenId,
    pub amount_to_burn: Amount,
}

/// The metadata of an NFT.
#[derive(Debug, Clone, PartialEq, Eq)]
pub struct Metadata {
    pub ticker: Vec<u8>,
    pub name: Vec<u8>,
    pub description: Vec<u8>,
    pub icon_uri: Option<Vec<u8>>,
    pub additional_metadata_uri: Option<Vec<u8>>,
    pub media_uri: Option<Vec<u8>>,
    pub media_hash: Vec<u8>,
}

/// An issuance of an NFT.
#[derive(Debug, Clone, PartialEq, Eq)]
pub struct NftIssuanceV1 {
    pub metadata: Metadata,
}

/// Any token operation carried by a transaction output.
#[derive(Debug, Clone, PartialEq, Eq)]
pub enum TokenData {
    TokenTransferV1(TokenTransferV1),
    TokenIssuanceV1(TokenIssuanceV1),
    TokenBurnV1(TokenBurnV1),
    NftIssuanceV1(NftIssuanceV1),
}

/// A transaction, as far as the token checks read it.
#[derive(Debug, Clone, PartialEq, Eq)]
pub struct Transaction {
    pub id: TxId,
    pub inputs: Vec<TxInput>,
}

impl Transaction {
    pub fn get_id(&self) -> (r: TxId)
        ensures
            r == self.id,
    {
        self.id
    }

    pub fn inputs(&self) -> (r: &Vec<TxInput>)
        ensures
            r@ == self.inputs@,
    {
        &self.inputs
    }
}

/// A transaction output, as far as the token checks read it.
#[derive(Debug, Clone, PartialEq, Eq)]
pub enum TxOutput {
    Coin(Amount),
    TokenTransfer(TokenTransferV1),
    TokenIssuance(TokenIssuanceV1),
    NftIssuance(NftIssuanceV1),
    TokenBurn(TokenBurnV1),
}

impl TxOutput {
    /// Whether this output issues a fungible token or an NFT.
    pub open spec fn spec_is_token_or_nft_issuance(self) -> bool {
        match self {
            TxOutput::TokenIssuance(_) => true,
            TxOutput::NftIssuance(_) => true,
            _ => false,
        }
    }

    pub fn is_token_or_nft_issuance(&self) -> (r: bool)
        ensures
            r == self.spec_is_token_or_nft_issuance(),
    {
        match self {
            TxOutput::TokenIssuance(_) => true,
            TxOutput::NftIssuance(_) => true,
            _ => false,
        }
    }
}

/// An error found while checking token data.
#[derive(Debug, Clone, Copy, PartialEq, Eq, Structural)]
pub enum TokensError {
    TransferZeroTokens(TxId, BlockId),
    BurnZeroTokens(TxId, BlockId),
    IssueAmountIsZero(TxId, BlockId),
    IssueErrorTooManyDecimals(TxId, BlockId),
    IssueErrorInvalidTickerLength(TxId, BlockId),
    IssueErrorTickerHasNoneAlphaNumericChar(TxId, BlockId),
    IssueErrorInvalidNameLength(TxId, BlockId),
    IssueErrorInvalidDescriptionLength(TxId, BlockId),
    IssueErrorIncorrectMetadataURI(TxId, BlockId),
    IssueErrorIncorrectIconURI(TxId, BlockId),
    IssueErrorIncorrectMediaURI(TxId, BlockId),
    MediaHashTooShort(TxId, BlockId),
    MediaHashTooLong(TxId, BlockId),
}

/// Whether a byte may appear in a URI: the unreserved and reserved symbols
/// of RFC 1738.
pub open spec fn spec_is_rfc1738_valid_symbol(c: u8) -> bool {
    ||| 0x61 <= c <= 0x7a  // 'a' ..= 'z'
    ||| 0x41 <= c <= 0x5a  // 'A' ..= 'Z'
    ||| 0x30 <= c <= 0x39  // '0' ..= '9'
    ||| c == 0x24  // '$'
    ||| c == 0x2d  // '-'
    ||| c == 0x5f  // '_'
    ||| 0x2b <= c <= 0x2f  // '+' ',' '-' '.' '/'
    ||| c == 0x21  // '!'
    ||| c == 0x2a  // '*'
    ||| c == 0x27  // '\''
    ||| c == 0x28  // '('
    ||| c == 0x29  // ')'
    ||| 0x3a <= c <= 0x3b  // ':' ';'
    ||| c == 0x3d  // '='
    ||| c == 0x3f  // '?'
    ||| c == 0x40  // '@'
    ||| c == 0x26  // '&'
    ||| c == 0x23  // '#'
    ||| c == 0x25  // '%'
    ||| c == 0x7e  // '~'
}

/// Checks whether a byte may appear in a URI.
pub fn is_rfc1738_valid_symbol(c: u8) -> (r: bool)
    ensures
        r == spec_is_rfc1738_valid_symbol(c),
{
    (0x61 <= c && c <= 0x7a) || (0x41 <= c && c <= 0x5a) || (0x30 <= c && c <= 0x39) || c == 0x24
        || c == 0x2d || c == 0x5f || (0x2b <= c && c <= 0x2f) || c == 0x21 || c == 0x2a || c
        == 0x27 || c == 0x28 || c == 0x29 || (0x3a <= c && c <= 0x3b) || c == 0x3d || c == 0x3f
        || c == 0x40 || c == 0x26 || c == 0x23 || c == 0x25 || c == 0x7e
}

/// Whether every byte of the URI is a valid RFC 1738 symbol.
pub open spec fn spec_is_uri_valid(uri: Seq<u8>) -> bool {
    forall|i: int| 0 <= i < uri.len() ==> spec_is_rfc1738_valid_symbol(#[trigger] uri[i])
}

/// Checks whether every byte of the URI is a valid RFC 1738 symbol.
pub fn is_uri_valid(uri: &[u8]) -> (r: bool)
    ensures
        r == spec_is_uri_valid(uri@),
{
    let n = uri.len();
    let mut i: usize = 0;
    while i < n
        invariant
            n == uri@.len(),
            0 <= i <= n,
            forall|j: int| 0 <= j < i ==> spec_is_rfc1738_valid_symbol(#[trigger] uri@[j]),
        decreases n - i,
    {
        if !is_rfc1738_valid_symbol(uri[i]) {
            return false;
        }
        i += 1;
    }
    true
}

/// Whether a byte is an ASCII letter or digit.
pub open spec fn spec_is_alphanumeric(c: u8) -> bool {
    ||| 0x61 <= c <= 0x7a
    ||| 0x41 <= c <= 0x5a
    ||| 0x30 <= c <= 0x39
}

/// Whether a ticker is valid: its length within bounds, every byte a
/// letter or a digit.
pub open spec fn spec_ticker_ok(cfg: ChainConfig, ticker: Seq<u8>) -> bool {
    &&& cfg.token_min_ticker_len <= ticker.len() <= cfg.token_max_ticker_len
    &&& forall|i: int| 0 <= i < ticker.len() ==> spec_is_alphanumeric(#[trigger] ticker[i])
}

/// The exact result of checking a token ticker: a length out of bounds,
/// then a byte that is not a letter or a digit, are the errors, in that
/// order.
pub open spec fn spec_ticker_result(
    cfg: ChainConfig,
    ticker: Seq<u8>,
    tx_id: TxId,
    source_block_id: BlockId,
) -> Result<(), TokensError> {
    if !(cfg.token_min_ticker_len <= ticker.len() <= cfg.token_max_ticker_len) {
        Err(TokensError::IssueErrorInvalidTickerLength(tx_id, source_block_id))
    } else if !(forall|i: int| 0 <= i < ticker.len() ==> spec_is_alphanumeric(
        #[trigger] ticker[i],
    )) {
        Err(TokensError::IssueErrorTickerHasNoneAlphaNumericChar(tx_id, source_block_id))
    } else {
        Ok(())
    }
}

/// The exact result of checking fungible-token issuance data: the ticker,
/// the amount, the decimal count, and the metadata URI, in that order.
pub open spec fn spec_issuance_result(
    cfg: ChainConfig,
    ticker: Seq<u8>,
    amount: Amount,
    decimals: u8,
    uri: Seq<u8>,
    tx_id: TxId,
    source_block_id: BlockId,
) -> Result<(), TokensError> {
    if spec_ticker_result(cfg, ticker, tx_id, source_block_id) is Err {
        spec_ticker_result(cfg, ticker, tx_id, source_block_id)
    } else if amount.0 == 0 {
        Err(TokensError::IssueAmountIsZero(tx_id, source_block_id))
    } else if decimals > cfg.token_max_dec_count {
        Err(TokensError::IssueErrorTooManyDecimals(tx_id, source_block_id))
    } else if !spec_is_uri_valid(uri) || uri.len() > cfg.token_max_uri_len {
        Err(TokensError::IssueErrorIncorrectMetadataURI(tx_id, source_block_id))
    } else {
        Ok(())
    }
}

/// The exact result of checking NFT issuance data: the ticker, the name,
/// the description, the three optional URIs, and the media hash, in that
/// order.
pub open spec fn spec_nft_result(
    cfg: ChainConfig,
    issuance: NftIssuanceV1,
    tx_id: TxId,
    source_block_id: BlockId,
) -> Result<(), TokensError> {
    let m = issuance.metadata;
    if spec_ticker_result(cfg, m.ticker@, tx_id, source_block_id) is Err {
        spec_ticker_result(cfg, m.ticker@, tx_id, source_block_id)
    } else if !(1 <= m.name@.len() <= cfg.token_max_name_len) {
        Err(TokensError::IssueErrorInvalidNameLength(tx_id, source_block_id))
    } else if !(m.description@.len() <= cfg.token_max_description_len) {
        Err(TokensError::IssueErrorInvalidDescriptionLength(tx_id, source_block_id))
    } else if (match m.icon_uri {
        Some(uri) => !spec_is_uri_valid(uri@),
        None => false,
    }) {
        Err(TokensError::IssueErrorIncorrectIconURI(tx_id, source_block_id))
    } else if (match m.additional_metadata_uri {
        Some(uri) => !spec_is_uri_valid(uri@),
        None => false,
    }) {
        Err(TokensError::IssueErrorIncorrectMetadataURI(tx_id, source_block_id))
    } else if (match m.media_uri {
        Some(uri) => !spec_is_uri_valid(uri@),
        None => false,
    }) {
        Err(TokensError::IssueErrorIncorrectMediaURI(tx_id, source_block_id))
    } else if m.media_hash@.len() < cfg.token_min_hash_len {
        Err(TokensError::MediaHashTooShort(tx_id, source_block_id))
    } else if m.media_hash@.len() > cfg.token_max_hash_len {
        Err(TokensError::MediaHashTooLong(tx_id, source_block_id))
    } else {
        Ok(())
    }
}

/// The exact result of checking the token data of an output: the matching
/// check, on the matching fields.
pub open spec fn spec_token_data_result(
    cfg: ChainConfig,
    data: TokenData,
    tx_id: TxId,
    source_block_id: BlockId,
) -> Result<(), TokensError> {
    match data {
        TokenData::TokenTransferV1(transfer) => {
            if transfer.amount.0 == 0 {
                Err(TokensError::TransferZeroTokens(tx_id, source_block_id))
            } else {
                Ok(())
            }
        },
        TokenData::TokenIssuanceV1(issuance) => spec_issuance_result(
            cfg,
            issuance.token_ticker@,
            issuance.amount_to_issue,
            issuance.number_of_decimals,
            issuance.metadata_uri@,
            tx_id,
            source_block_id,
        ),
        TokenData::TokenBurnV1(burn) => {
            if burn.amount_to_burn.0 == 0 {
                Err(TokensError::BurnZeroTokens(tx_id, source_block_id))
            } else {
                Ok(())
            }
        },
        TokenData::NftIssuanceV1(issuance) => spec_nft_result(cfg, issuance, tx_id, source_block_id),
    }
}

/// Checks a token ticker: the length must be within the configured
/// bounds, and every byte a letter or a digit.
pub fn check_token_ticker(
    chain_config: &ChainConfig,
    ticker: &[u8],
    tx_id: TxId,
    source_block_id: BlockId,
) -> (r: Result<(), TokensError>)
    ensures
        r == spec_ticker_result(*chain_config, ticker@, tx_id, source_block_id),
        r is Ok <==> spec_ticker_ok(*chain_config, ticker@),
{
    if ticker.len() < chain_config.token_min_ticker_len || ticker.len()
        > chain_config.token_max_ticker_len {
        return Err(TokensError::IssueErrorInvalidTickerLength(tx_id, source_block_id));
    }
    let n = ticker.len();
    let mut i: usize = 0;
    while i < n
        invariant
            n == ticker@.len(),
            chain_config.token_min_ticker_len <= n <= chain_config.token_max_ticker_len,
            0 <= i <= n,
            forall|j: int| 0 <= j < i ==> spec_is_alphanumeric(#[trigger] ticker@[j]),
        decreases n - i,
    {
        let c = ticker[i];
        let ok = (0x61 <= c && c <= 0x7a) || (0x41 <= c && c <= 0x5a) || (0x30 <= c && c <= 0x39);
        if !ok {
            return Err(TokensError::IssueErrorTickerHasNoneAlphaNumericChar(
                tx_id,
                source_block_id,
            ));
        }
        i += 1;
    }
    Ok(())
}

/// Checks an NFT name: non-empty and within the configured bound.
pub fn check_nft_name(
    chain_config: &ChainConfig,
    name: &[u8],
    tx_id: TxId,
    source_block_id: BlockId,
) -> (r: Result<(), TokensError>)
    ensures
        r is Ok <==> 1 <= name@.len() <= chain_config.token_max_name_len,
        r matches Err(e) ==> e == TokensError::IssueErrorInvalidNameLength(tx_id, source_block_id),
{
    if name.len() < 1 || name.len() > chain_config.token_max_name_len {
        return Err(TokensError::IssueErrorInvalidNameLength(tx_id, source_block_id));
    }
    Ok(())
}

/// Checks an NFT description: within the configured bound (may be empty).
pub fn check_nft_description(
    chain_config: &ChainConfig,
    description: &[u8],
    tx_id: TxId,
    source_block_id: BlockId,
) -> (r: Result<(), TokensError>)
    ensures
        r is Ok <==> description@.len() <= chain_config.token_max_description_len,
        r matches Err(e) ==> e == TokensError::IssueErrorInvalidDescriptionLength(
            tx_id,
            source_block_id,
        ),
{
    if description.len() > chain_config.token_max_description_len {
        return Err(TokensError::IssueErrorInvalidDescriptionLength(tx_id, source_block_id));
    }
    Ok(())
}

/// Checks a media hash: its length within the configured bounds.
pub fn check_media_hash(
    chain_config: &ChainConfig,
    hash: &[u8],
    tx_id: TxId,
    source_block_id: BlockId,
) -> (r: Result<(), TokensError>)
    ensures
        r is Ok <==> chain_config.token_min_hash_len <= hash@.len()
            <= chain_config.token_max_hash_len,
        hash@.len() < chain_config.token_min_hash_len ==> r == Result::<(), TokensError>::Err(
            TokensError::MediaHashTooShort(tx_id, source_block_id),
        ),
        hash@.len() > chain_config.token_max_hash_len && hash@.len()
            >= chain_config.token_min_hash_len ==> r == Result::<(), TokensError>::Err(
            TokensError::MediaHashTooLong(tx_id, source_block_id),
        ),
{
    if hash.len() < chain_config.token_min_hash_len {
        return Err(TokensError::MediaHashTooShort(tx_id, source_block_id));
    }
    if hash.len() > chain_config.token_max_hash_len {
        return Err(TokensError::MediaHashTooLong(tx_id, source_block_id));
    }
    Ok(())
}

/// Checks a token transfer: the transferred amount must be positive.
pub fn check_tokens_transfer_data(
    source_block_id: BlockId,
    tx: &Transaction,
    amount: &Amount,
) -> (r: Result<(), TokensError>)
    ensures
        amount.0 == 0 ==> r == Result::<(), TokensError>::Err(
            TokensError::TransferZeroTokens(tx.id, source_block_id),
        ),
        amount.0 > 0 ==> r == Result::<(), TokensError>::Ok(()),
        r is Ok <==> amount.0 > 0,
{
    if amount.0 > 0 {
        Ok(())
    } else {
        Err(TokensError::TransferZeroTokens(tx.get_id(), source_block_id))
    }
}

/// Checks a token burn: the burnt amount must be positive.
pub fn check_tokens_burn_data(
    tx: &Transaction,
    source_block_id: &BlockId,
    amount_to_burn: &Amount,
) -> (r: Result<(), TokensError>)
    ensures
        amount_to_burn.0 == 0 ==> r == Result::<(), TokensError>::Err(
            TokensError::BurnZeroTokens(tx.id, *source_block_id),
        ),
        amount_to_burn.0 > 0 ==> r == Result::<(), TokensError>::Ok(()),
        r is Ok <==> amount_to_burn.0 > 0,
{
    if amount_to_burn.0 != 0 {
        Ok(())
    } else {
        Err(TokensError::BurnZeroTokens(tx.get_id(), *source_block_id))
    }
}

/// Whether NFT issuance data is fully valid.
pub open spec fn spec_nft_ok(cfg: ChainConfig, issuance: NftIssuanceV1) -> bool {
    &&& spec_ticker_ok(cfg, issuance.metadata.ticker@)
    &&& 1 <= issuance.metadata.name@.len() <= cfg.token_max_name_len
    &&& issuance.metadata.description@.len() <= cfg.token_max_description_len
    &&& (issuance.metadata.icon_uri matches Some(uri) ==> spec_is_uri_valid(uri@))
    &&& (issuance.metadata.additional_metadata_uri matches Some(uri) ==> spec_is_uri_valid(uri@))
    &&& (issuance.metadata.media_uri matches Some(uri) ==> spec_is_uri_valid(uri@))
    &&& cfg.token_min_hash_len <= issuance.metadata.media_hash@.len() <= cfg.token_max_hash_len
}

/// Checks NFT issuance data: the ticker, the name, the description, the
/// three optional URIs, and the media hash, in that order.
pub fn check_nft_issuance_data(
    chain_config: &ChainConfig,
    issuance: &NftIssuanceV1,
    tx_id: TxId,
    source_block_id: BlockId,
) -> (r: Result<(), TokensError>)
    ensures
        r == spec_nft_result(*chain_config, *issuance, tx_id, source_block_id),
        r is Ok <==> spec_nft_ok(*chain_config, *issuance),
{
    match check_token_ticker(
        chain_config,
        issuance.metadata.ticker.as_slice(),
        tx_id,
        source_block_id,
    ) {
        Ok(()) => {},
        Err(e) => {
            return Err(e);
        },
    }
    match check_nft_name(chain_config, issuance.metadata.name.as_slice(), tx_id, source_block_id) {
        Ok(()) => {},
        Err(e) => {
            return Err(e);
        },
    }
    match check_nft_description(
        chain_config,
        issuance.metadata.description.as_slice(),
        tx_id,
        source_block_id,
    ) {
        Ok(()) => {},
        Err(e) => {
            return Err(e);
        },
    }

    match &issuance.metadata.icon_uri {
        Some(icon_uri) => {
            if !is_uri_valid(icon_uri.as_slice()) {
                return Err(TokensError::IssueErrorIncorrectIconURI(tx_id, source_block_id));
            }
        },
        None => {},
    }

    match &issuance.metadata.additional_metadata_uri {
        Some(additional_metadata_uri) => {
            if !is_uri_valid(additional_metadata_uri.as_slice()) {
                return Err(TokensError::IssueErrorIncorrectMetadataURI(tx_id, source_block_id));
            }
        },
        None => {},
    }

    match &issuance.metadata.media_uri {
        Some(media_uri) => {
            if !is_uri_valid(media_uri.as_slice()) {
                return Err(TokensError::IssueErrorIncorrectMediaURI(tx_id, source_block_id));
            }
        },
        None => {},
    }

    match check_media_hash(
        chain_config,
        issuance.metadata.media_hash.as_slice(),
        tx_id,
        source_block_id,
    ) {
        Ok(()) => {},
        Err(e) => {
            return Err(e);
        },
    }
    Ok(())
}

/// Whether fungible-token issuance data is fully valid.
pub open spec fn spec_issuance_ok(
    cfg: ChainConfig,
    ticker: Seq<u8>,
    amount: Amount,
    decimals: u8,
    uri: Seq<u8>,
) -> bool {
    &&& spec_ticker_ok(cfg, ticker)
    &&& amount.0 > 0
    &&& decimals <= cfg.token_max_dec_count
    &&& spec_is_uri_valid(uri)
    &&& uri.len() <= cfg.token_max_uri_len
}

/// Checks fungible-token issuance data: the ticker, the amount, the
/// decimal count, and the metadata URI, in that order.
pub fn check_tokens_issuance_data(
    chain_config: &ChainConfig,
    token_ticker: &[u8],
    amount_to_issue: &Amount,
    number_of_decimals: &u8,
    metadata_uri: &[u8],
    tx_id: TxId,
    source_block_id: BlockId,
) -> (r: Result<(), TokensError>)
    ensures
        r == spec_issuance_result(
            *chain_config,
            token_ticker@,
            *amount_to_issue,
            *number_of_decimals,
            metadata_uri@,
            tx_id,
            source_block_id,
        ),
        r is Ok <==> spec_issuance_ok(
            *chain_config,
            token_ticker@,
            *amount_to_issue,
            *number_of_decimals,
            metadata_uri@,
        ),
{
    match check_token_ticker(chain_config, token_ticker, tx_id, source_block_id) {
        Ok(()) => {},
        Err(e) => {
            return Err(e);
        },
    }

    if amount_to_issue.0 == 0 {
        return Err(TokensError::IssueAmountIsZero(tx_id, source_block_id));
    }

    if *number_of_decimals > chain_config.token_max_dec_count() {
        return Err(TokensError::IssueErrorTooManyDecimals(tx_id, source_block_id));
    }

    if !is_uri_valid(metadata_uri) {
        return Err(TokensError::IssueErrorIncorrectMetadataURI(tx_id, source_block_id));
    }

    if metadata_uri.len() > chain_config.token_max_uri_len() {
        return Err(TokensError::IssueErrorIncorrectMetadataURI(tx_id, source_block_id));
    }
    Ok(())
}

/// Whether the token data carried by an output is fully valid.
pub open spec fn spec_token_data_ok(cfg: ChainConfig, data: TokenData) -> bool {
    match data {
        TokenData::TokenTransferV1(transfer) => transfer.amount.0 > 0,
        TokenData::TokenIssuanceV1(issuance) => spec_issuance_ok(
            cfg,
            issuance.token_ticker@,
            issuance.amount_to_issue,
            issuance.number_of_decimals,
            issuance.metadata_uri@,
        ),
        TokenData::TokenBurnV1(burn) => burn.amount_to_burn.0 > 0,
        TokenData::NftIssuanceV1(issuance) => spec_nft_ok(cfg, issuance),
    }
}

/// Checks the token data carried by an output, whichever kind it is.
pub fn check_tokens_data(
    chain_config: &ChainConfig,
    token_data: &TokenData,
    tx: &Transaction,
    source_block_id: BlockId,
) -> (r: Result<(), TokensError>)
    ensures
        r == spec_token_data_result(*chain_config, *token_data, tx.id, source_block_id),
        r is Ok <==> spec_token_data_ok(*chain_config, *token_data),
{
    match token_data {
        TokenData::TokenTransferV1(transfer) => check_tokens_transfer_data(
            source_block_id,
            tx,
            &transfer.amount,
        ),
        TokenData::TokenIssuanceV1(issuance) => check_tokens_issuance_data(
            chain_config,
            issuance.token_ticker.as_slice(),
            &issuance.amount_to_issue,
            &issuance.number_of_decimals,
            issuance.metadata_uri.as_slice(),
            tx.get_id(),
            source_block_id,
        ),
        TokenData::TokenBurnV1(burn) => check_tokens_burn_data(
            tx,
            &source_block_id,
            &burn.amount_to_burn,
        ),
        TokenData::NftIssuanceV1(issuance) => check_nft_issuance_data(
            chain_config,
            issuance,
            tx.get_id(),
            source_block_id,
        ),
    }
}

/// A deterministic digest of a transaction input, standing in for the
/// hash of its encoding.
pub open spec fn spec_input_digest(input: TxInput) -> u64 {
    match input {
        TxInput::Utxo(outpoint) => {
            let base: u64 = match outpoint.source_id {
                crate::chain::OutPointSourceId::Transaction(tid) => tid.0,
                crate::chain::OutPointSourceId::BlockReward(bid) => (bid.0 ^ 0x9e3779b97f4a7c15)
                    as u64,
            };
            base ^ ((outpoint.output_index as u64) << 32)
        },
        TxInput::Account(outpoint, amount) => {
            ((outpoint.nonce as u64) ^ outpoint.account.0 ^ (amount.0 as u64)
                ^ 0x517cc1b727220a95) as u64
        },
    }
}

/// Computes the digest of a transaction input.
pub fn hash_encoded(input: &TxInput) -> (r: u64)
    ensures
        r == spec_input_digest(*input),
{
    match input {
        TxInput::Utxo(outpoint) => {
            let base: u64 = match outpoint.source_id {
                crate::chain::OutPointSourceId::Transaction(tid) => tid.0,
                crate::chain::OutPointSourceId::BlockReward(bid) => bid.0 ^ 0x9e3779b97f4a7c15,
            };
            base ^ ((outpoint.output_index as u64) << 32)
        },
        TxInput::Account(outpoint, amount) => {
            (outpoint.nonce as u64) ^ outpoint.account.0 ^ (amount.0 as u64) ^ 0x517cc1b727220a95
        },
    }
}

/// The id of the token a transaction issues: the digest of its first
/// input; a transaction with no inputs has none.
pub fn token_id(tx: &Transaction) -> (r: Option<TokenId>)
    ensures
        tx.inputs@.len() == 0 ==> r is None,
        tx.inputs@.len() > 0 ==> r == Some(TokenId(spec_input_digest(tx.inputs@[0]))),
{
    if tx.inputs.len() == 0 {
        return None;
    }
    let first = &tx.inputs[0];
    Some(TokenId::new(hash_encoded(first)))
}

/// The number of outputs that issue a token or an NFT.
pub open spec fn spec_issuance_count(outputs: Seq<TxOutput>) -> int
    decreases outputs.len(),
{
    if outputs.len() == 0 {
        0
    } else {
        spec_issuance_count(outputs.drop_last()) + (if outputs.last().spec_is_token_or_nft_issuance() {
            1int
        } else {
            0int
        })
    }
}

/// Counts the outputs that issue a token or an NFT.
pub fn get_tokens_issuance_count(outputs: &[TxOutput]) -> (r: usize)
    ensures
        r == spec_issuance_count(outputs@),
{
    let n = outputs.len();
    let mut count: usize = 0;
    let mut i: usize = 0;
    while i < n
        invariant
            n == outputs@.len(),
            0 <= i <= n,
            count == spec_issuance_count(outputs@.subrange(0, i as int)),
            count <= i,
        decreases n - i,
    {
        if outputs[i].is_token_or_nft_issuance() {
            count += 1;
        }
        proof {
            let prefix = outputs@.subrange(0, i + 1 as int);
            assert(prefix.drop_last() =~= outputs@.subrange(0, i as int));
            assert(prefix.last() == outputs@[i as int]);
        }
        i += 1;
    }
    proof {
        assert(outputs@.subrange(0, n as int) =~= outputs@);
    }
    count
}

} // verus!
