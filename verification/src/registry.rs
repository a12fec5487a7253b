//! Registry data model: contracts, versions, verification, publishers, and
//! pagination.
//!
//! Identifiers are carried as 128-bit integers (the value of a UUID) and
//! timestamps as Unix epoch milliseconds, so every record is a plain value.

use vstd::prelude::*;
use vstd::arithmetic::div_mod::{
    lemma_basic_div, lemma_fundamental_div_mod, lemma_mod_bound,
};

verus! {

/// Network where a contract is deployed.
#[derive(Debug, Clone, Copy, PartialEq, Eq, Structural)]
pub enum Network {
    Mainnet,
    Testnet,
    Futurenet,
}

/// Verification status of a contract.
#[derive(Debug, Clone, Copy, PartialEq, Eq, Structural)]
pub enum VerificationStatus {
    Pending,
    Verified,
    Failed,
}

/// A smart contract in the registry.
#[derive(Debug, Clone, PartialEq)]
pub struct Contract {
    pub id: u128,
    pub contract_id: String,
    pub wasm_hash: String,
    pub name: String,
    pub description: Option<String>,
    pub publisher_id: u128,
    pub network: Network,
    pub is_verified: bool,
    pub category: Option<String>,
    pub tags: Vec<String>,
    /// Unix epoch milliseconds.
    pub created_at: i64,
    /// Unix epoch milliseconds.
    pub updated_at: i64,
}

/// Contract version information.
#[derive(Debug, Clone, PartialEq)]
pub struct ContractVersion {
    pub id: u128,
    pub contract_id: u128,
    pub version: String,
    pub wasm_hash: String,
    pub source_url: Option<String>,
    pub commit_hash: Option<String>,
    pub release_notes: Option<String>,
    /// Unix epoch milliseconds.
    pub created_at: i64,
}

/// Verification status and details. Build parameters are carried as raw
/// JSON text.
#[derive(Debug, Clone, PartialEq)]
pub struct Verification {
    pub id: u128,
    pub contract_id: u128,
    pub status: VerificationStatus,
    pub source_code: Option<String>,
    pub build_params: Option<String>,
    pub compiler_version: Option<String>,
    /// Unix epoch milliseconds.
    pub verified_at: Option<i64>,
    pub error_message: Option<String>,
    /// Unix epoch milliseconds.
    pub created_at: i64,
}

/// Publisher/developer information.
#[derive(Debug, Clone, PartialEq)]
pub struct Publisher {
    pub id: u128,
    pub stellar_address: String,
    pub username: Option<String>,
    pub email: Option<String>,
    pub github_url: Option<String>,
    pub website: Option<String>,
    /// Unix epoch milliseconds.
    pub created_at: i64,
}

/// Contract interaction statistics.
#[derive(Debug, Clone, PartialEq)]
pub struct ContractStats {
    pub contract_id: u128,
    pub total_deployments: i64,
    pub total_interactions: i64,
    pub unique_users: i64,
    /// Unix epoch milliseconds.
    pub last_interaction: Option<i64>,
}

/// Request to publish a new contract.
#[derive(Debug, Clone, PartialEq)]
pub struct PublishRequest {
    pub contract_id: String,
    pub name: String,
    pub description: Option<String>,
    pub network: Network,
    pub category: Option<String>,
    pub tags: Vec<String>,
    pub source_url: Option<String>,
    pub publisher_address: String,
}

/// Request to verify a contract. Build parameters are raw JSON text.
#[derive(Debug, Clone, PartialEq)]
pub struct VerifyRequest {
    pub contract_id: String,
    pub source_code: String,
    pub build_params: String,
    pub compiler_version: String,
}

/// Search/filter parameters for contracts.
#[derive(Debug, Clone, PartialEq)]
pub struct ContractSearchParams {
    pub query: Option<String>,
    pub network: Option<Network>,
    pub verified_only: Option<bool>,
    pub category: Option<String>,
    pub tags: Option<Vec<String>>,
    pub page: Option<i64>,
    pub page_size: Option<i64>,
}

/// Pagination parameters for contract versions (limit/offset style).
#[derive(Debug, Clone, Copy, PartialEq, Eq, Structural)]
pub struct VersionPaginationParams {
    pub limit: i64,
    pub offset: i64,
}

/// Default page limit for version listings.
pub fn default_version_limit() -> (r: i64)
    ensures
        r == 20,
{
    20
}

/// Paginated version response (limit/offset style).
#[derive(Debug, Clone, PartialEq)]
pub struct PaginatedVersionResponse {
    pub items: Vec<ContractVersion>,
    pub total: i64,
    pub limit: i64,
    pub offset: i64,
}

/// Paginated response for any item type.
#[derive(Debug, Clone, PartialEq)]
pub struct PaginatedResponse<T> {
    pub items: Vec<T>,
    pub total: i64,
    pub page: i64,
    pub page_size: i64,
    pub total_pages: i64,
}

/// Number of pages needed for `total` items at `page_size` per page: the
/// ceiling of their quotient, written with flooring division.
pub open spec fn pages_for(total: int, page_size: int) -> int
    recommends
        total >= 0,
        page_size >= 1,
{
    (total + page_size - 1) / page_size
}

/// Law: `pages_for` is the ceiling — the pages hold all items, and one page
/// fewer would not.
pub proof fn lemma_pages_for_is_ceil(total: int, page_size: int)
    requires
        total >= 0,
        page_size >= 1,
    ensures
        pages_for(total, page_size) * page_size >= total,
        total > 0 ==> (pages_for(total, page_size) - 1) * page_size < total,
        total == 0 ==> pages_for(total, page_size) == 0,
        pages_for(total, page_size) >= 0,
{
    let q = pages_for(total, page_size);
    lemma_fundamental_div_mod(total + page_size - 1, page_size);
    lemma_mod_bound(total + page_size - 1, page_size);
    assert(q * page_size == page_size * q) by (nonlinear_arith);
    assert((q - 1) * page_size == page_size * q - page_size) by (nonlinear_arith);
    if total == 0 {
        lemma_basic_div(page_size - 1, page_size);
    }
    if q < 0 {
        assert(page_size * q <= -page_size) by (nonlinear_arith)
            requires
                q <= -1,
                page_size >= 1,
        ;
    }
}

impl<T> PaginatedResponse<T> {
    /// Assemble a page of items; the page count is the ceiling of
    /// `total / page_size`.
    pub fn new(items: Vec<T>, total: i64, page: i64, page_size: i64) -> (r: PaginatedResponse<T>)
        requires
            total >= 0,
            page_size >= 1,
            total + page_size <= i64::MAX,
        ensures
            r.items == items,
            r.total == total,
            r.page == page,
            r.page_size == page_size,
            r.total_pages == pages_for(total as int, page_size as int),
    {
        proof {
            lemma_pages_for_is_ceil(total as int, page_size as int);
            lemma_fundamental_div_mod(total as int + page_size - 1, page_size as int);
            lemma_mod_bound(total as int + page_size - 1, page_size as int);
        }
        let total_pages: i64 = (total + page_size - 1) / page_size;
        PaginatedResponse { items, total, page, page_size, total_pages }
    }
}

} // verus!
