//! Request and response shapes of the management API, and token claims.
use vstd::prelude::*;
use crate::alerting::AlertCondition;
use crate::fingerprint::StackFrame;
use crate::models::Facets;

verus! {

pub struct GenerateFixRequest {
    pub error_type: String,
    pub error_message: String,
    pub stack_trace: Vec<StackFrameInput>,
    pub environment: Option<String>,
    pub runtime: Option<String>,
}

pub struct StackFrameInput {
    pub filename: String,
    pub function: String,
    pub lineno: u32,
    pub colno: u32,
    pub context_line: Option<String>,
    pub pre_context: Option<Vec<String>>,
    pub post_context: Option<Vec<String>>,
    pub in_app: bool,
}

pub struct CreateAlertRuleRequest {
    pub name: String,
    pub condition: AlertCondition,
    pub channel_ids: Vec<String>,
}

pub struct UpdateAlertRuleRequest {
    pub name: Option<String>,
    pub condition: Option<AlertCondition>,
    pub channel_ids: Option<Vec<String>>,
    pub is_active: Option<bool>,
}

pub struct AlertRuleResponse {
    pub id: String,
    pub project_id: String,
    pub name: String,
    pub condition: AlertCondition,
    pub channel_ids: Vec<String>,
    pub is_active: bool,
    pub created_at: String,
}

pub struct CreateChannelRequest {
    pub name: String,
    pub channel_type: ChannelType,
    pub config: ChannelConfig,
}

#[derive(Debug, Clone, Copy, PartialEq, Eq, Structural)]
pub enum ChannelType {
    Email,
    Webhook,
    Slack,
}

pub enum ChannelConfig {
    Email { recipients: Vec<String> },
    Webhook { url: String, secret: Option<String> },
    Slack { webhook_url: String, channel: Option<String> },
}

pub struct UpdateChannelRequest {
    pub name: Option<String>,
    pub config: Option<ChannelConfig>,
    pub is_active: Option<bool>,
}

pub struct AlertLogsQuery {
    pub limit: u32,
}

pub struct SignupRequest {
    pub email: String,
    pub password: String,
    pub name: Option<String>,
}

pub struct LoginRequest {
    pub email: String,
    pub password: String,
}

pub struct RefreshRequest {
    pub refresh_token: String,
}

pub struct TokenResponse {
    pub access_token: String,
    pub refresh_token: String,
    pub expires_in: i64,
}

pub struct AuthData {
    pub user: UserResponse,
    pub tokens: TokenResponse,
}

pub struct AuthResponse {
    pub data: AuthData,
}

pub struct RefreshData {
    pub access_token: String,
    pub refresh_token: String,
    pub expires_in: i64,
}

pub struct RefreshResponse {
    pub data: RefreshData,
}

pub struct UserResponse {
    pub id: String,
    pub email: String,
    pub name: Option<String>,
    pub created_at: String,
    pub credits: i32,
}

pub struct CommentResponse {
    pub id: String,
    pub issue_id: String,
    pub user_id: String,
    pub user_name: Option<String>,
    pub user_email: String,
    pub content: String,
    pub created_at: String,
    pub updated_at: String,
}

pub struct CreateCommentRequest {
    pub content: String,
}

pub struct UpdateCommentRequest {
    pub content: String,
}

pub struct IssueResponse {
    pub id: String,
    pub project_id: String,
    pub fingerprint: String,
    pub title: String,
    pub status: String,
    pub level: String,
    pub first_seen: String,
    pub last_seen: String,
    pub count: i64,
    pub user_count: i64,
}

pub struct IssueFilters {
    pub status: Option<String>,
    pub level: Option<String>,
}

pub struct UpdateIssueRequest {
    pub status: Option<String>,
}

pub struct SearchRequest {
    pub filters: Option<SearchFiltersRequest>,
    pub sort: Option<SortConfig>,
    pub page: Option<u32>,
    pub per_page: Option<u32>,
}

pub struct SearchFiltersRequest {
    pub status: Option<Vec<String>>,
    pub level: Option<Vec<String>>,
    pub count_gt: Option<i64>,
    pub count_lt: Option<i64>,
    pub count_gte: Option<i64>,
    pub count_lte: Option<i64>,
    pub users_gt: Option<i64>,
    pub users_lt: Option<i64>,
    pub first_seen_after: Option<String>,
    pub first_seen_before: Option<String>,
    pub last_seen_after: Option<String>,
    pub last_seen_before: Option<String>,
    pub text: Option<String>,
}

pub struct SortConfig {
    pub field: String,
    pub direction: Option<String>,
}

pub struct SearchResponse {
    pub data: Vec<IssueResponse>,
    pub pagination: PaginationMeta,
    pub facets: Facets,
    pub query_time_ms: u64,
}

pub struct FrequencyParams {
    pub period: Option<String>,
}

pub struct FrequencyBucket {
    pub timestamp: String,
    pub count: u32,
}

pub struct FrequencyData {
    pub buckets: Vec<FrequencyBucket>,
    pub period: String,
    pub total: u32,
}

pub struct EventSummary {
    pub id: String,
    pub timestamp: String,
    pub user_id: Option<String>,
    pub release: Option<String>,
}

pub struct ImpactData {
    pub unique_users: u32,
    pub unique_sessions: u32,
    pub total_events: u32,
    pub first_seen: String,
    pub last_seen: String,
    pub last_hour_count: u32,
    pub trend_percent: i32,
    pub is_trending: bool,
    pub browsers: Vec<DistributionItem>,
    pub operating_systems: Vec<DistributionItem>,
}

pub struct DistributionItem {
    pub name: String,
    pub count: u32,
    pub percentage: u32,
}

pub struct ApiResponse<T> {
    pub data: T,
}

pub struct PaginationParams {
    pub page: u32,
    pub per_page: u32,
}

pub struct PaginatedResponse<T> {
    pub data: Vec<T>,
    pub pagination: PaginationMeta,
}

pub struct PaginationMeta {
    pub page: u32,
    pub per_page: u32,
    pub total: u32,
    pub total_pages: u32,
}

pub struct ChecksParams {
    pub limit: Option<u32>,
}

pub struct ProjectResponse {
    pub id: String,
    pub name: String,
    pub slug: String,
    pub api_key: String,
    pub owner_id: String,
    pub created_at: String,
    pub platform: Option<String>,
    pub framework: Option<String>,
    pub onboarding_completed_at: Option<String>,
}

pub struct CreateProjectRequest {
    pub name: String,
    pub platform: Option<String>,
    pub framework: Option<String>,
}

pub struct UpdateProjectRequest {
    pub name: Option<String>,
    pub platform: Option<String>,
    pub framework: Option<String>,
}

pub struct VerificationResponse {
    pub status: String,
    pub event_count: i64,
}

pub struct Claims {
    pub sub: String,
    pub exp: i64,
    pub iat: i64,
    pub token_type: String,
    pub jti: Option<String>,
}

pub struct TokenPair {
    pub access_token: String,
    pub refresh_token: String,
    pub token_type: String,
    pub expires_in: i64,
}

pub struct ErrorContext {
    pub error_type: String,
    pub error_message: String,
    pub stack_trace: Vec<StackFrame>,
    pub environment: Option<String>,
    pub runtime: Option<String>,
}

} // verus!
