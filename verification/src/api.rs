//! The catalogue of the backend's entries: for each, the request that calls
//! it and what it answers. Payloads that the protocol leaves open are held as
//! JSON text.
use crate::adapters::http::{CqReq, Entry, JsonReq};
use crate::models::basic_type::{GroupRole, Sex};
use crate::models::event::Sender;
use crate::models::message::{CqMsg, JsonMsgRecv, JsonMsgSend, Recv};
use vstd::prelude::*;

verus! {

/// What entry `send_private_msg` answers.
#[derive(Debug)]
pub struct SendMessageResponse {
    pub message_id: i32,
}

/// The request of entry `send_private_msg`.
#[derive(Debug)]
pub struct SendMessageRequestCq {
    pub user_id: i64,
    pub message: CqMsg,
    pub auto_escape: bool,
}

impl Entry for SendMessageRequestCq {
    type Output = SendMessageResponse;

    open spec fn entry_name() -> Seq<char> {
        "send_private_msg"@
    }

    fn entry() -> (name: &'static str) {
        "send_private_msg"
    }
}

impl CqReq for SendMessageRequestCq {

}

/// The request of entry `send_private_msg`.
#[derive(Debug)]
pub struct SendMessageRequestJson {
    pub user_id: i64,
    pub message: JsonMsgSend,
    pub auto_escape: bool,
}

impl Entry for SendMessageRequestJson {
    type Output = SendMessageResponse;

    open spec fn entry_name() -> Seq<char> {
        "send_private_msg"@
    }

    fn entry() -> (name: &'static str) {
        "send_private_msg"
    }
}

impl JsonReq for SendMessageRequestJson {

}

/// What entry `send_group_msg` answers.
#[derive(Debug)]
pub struct SendGroupMessageResponse {
    pub message_id: i32,
}

/// The request of entry `send_group_msg`.
#[derive(Debug)]
pub struct SendGroupMessageRequestCq {
    pub group_id: i64,
    pub message: CqMsg,
    pub auto_escape: bool,
}

impl Entry for SendGroupMessageRequestCq {
    type Output = SendGroupMessageResponse;

    open spec fn entry_name() -> Seq<char> {
        "send_group_msg"@
    }

    fn entry() -> (name: &'static str) {
        "send_group_msg"
    }
}

impl CqReq for SendGroupMessageRequestCq {

}

/// The request of entry `send_group_msg`.
#[derive(Debug)]
pub struct SendGroupMessageRequestJson {
    pub group_id: i64,
    pub message: JsonMsgSend,
    pub auto_escape: bool,
}

impl Entry for SendGroupMessageRequestJson {
    type Output = SendGroupMessageResponse;

    open spec fn entry_name() -> Seq<char> {
        "send_group_msg"@
    }

    fn entry() -> (name: &'static str) {
        "send_group_msg"
    }
}

impl JsonReq for SendGroupMessageRequestJson {

}

/// What entry `send_msg` answers.
#[derive(Debug)]
pub struct SendMsgResponse {
    pub message_id: i32,
}

#[derive(Debug)]
pub enum MessageType {
    Private,
    Group,
}

/// The request of entry `send_msg`.
#[derive(Debug)]
pub struct SendMsgRequestCq {
    pub message_type: Option<MessageType>,
    pub user_id: Option<i64>,
    pub group_id: Option<i64>,
    pub message: CqMsg,
    pub auto_escape: bool,
}

impl Entry for SendMsgRequestCq {
    type Output = SendMsgResponse;

    open spec fn entry_name() -> Seq<char> {
        "send_msg"@
    }

    fn entry() -> (name: &'static str) {
        "send_msg"
    }
}

impl CqReq for SendMsgRequestCq {

}

/// The request of entry `send_msg`.
#[derive(Debug)]
pub struct SendMsgRequestJson {
    pub message_type: Option<MessageType>,
    pub user_id: Option<i64>,
    pub group_id: Option<i64>,
    pub message: JsonMsgSend,
    pub auto_escape: bool,
}

impl Entry for SendMsgRequestJson {
    type Output = SendMsgResponse;

    open spec fn entry_name() -> Seq<char> {
        "send_msg"@
    }

    fn entry() -> (name: &'static str) {
        "send_msg"
    }
}

impl JsonReq for SendMsgRequestJson {

}

/// What entry `clean_cache` and `delete_msg` and `send_like` and `set_friend_add_request` and `set_group_add_request` and `set_group_admin` and `set_group_anonymous_ban` and `set_group_ban` and `set_group_card` and `set_group_kick` and `set_group_leave` and `set_group_name` and `set_group_special_title` and `set_group_whole_ban` and `set_restart` answer.
#[derive(Debug)]
pub struct Empty {

}

/// The request of entry `delete_msg`.
#[derive(Debug)]
pub struct DeleteMessageRequest {
    pub message_id: i32,
}

impl Entry for DeleteMessageRequest {
    type Output = Empty;

    open spec fn entry_name() -> Seq<char> {
        "delete_msg"@
    }

    fn entry() -> (name: &'static str) {
        "delete_msg"
    }
}

impl CqReq for DeleteMessageRequest {

}

impl JsonReq for DeleteMessageRequest {

}

/// The request of entry `get_msg`.
#[derive(Debug)]
pub struct GetMessageRequest {
    pub message_id: i32,
}

impl Entry for GetMessageRequest {
    type Output = GetMessageResponse;

    open spec fn entry_name() -> Seq<char> {
        "get_msg"@
    }

    fn entry() -> (name: &'static str) {
        "get_msg"
    }
}

impl CqReq for GetMessageRequest {

}

impl JsonReq for GetMessageRequest {

}

/// What entry `get_msg` answers.
#[derive(Debug)]
pub struct GetMessageResponse {
    pub time: i32,
    pub message_type: String,
    pub message_id: i32,
    pub real_id: i32,
    pub sender: Sender,
    pub message: JsonMsgRecv,
}

/// The request of entry `get_forward_msg`.
#[derive(Debug)]
pub struct GetForwardMessageRequest {
    pub id: String,
}

impl Entry for GetForwardMessageRequest {
    type Output = GetForwardMessageResponse;

    open spec fn entry_name() -> Seq<char> {
        "get_forward_msg"@
    }

    fn entry() -> (name: &'static str) {
        "get_forward_msg"
    }
}

impl CqReq for GetForwardMessageRequest {

}

impl JsonReq for GetForwardMessageRequest {

}

/// What entry `get_forward_msg` answers.
#[derive(Debug)]
pub struct GetForwardMessageResponse {
    pub messages: Vec<Recv>,
}

/// The request of entry `send_like`.
#[derive(Debug)]
pub struct SendLikeRequest {
    pub user_id: i64,
    pub times: i32,
}

/// How often a like is sent where a request does not say.
pub fn default_times() -> (value: i32)
    ensures
        value == 1,
{
    1
}

impl Entry for SendLikeRequest {
    type Output = Empty;

    open spec fn entry_name() -> Seq<char> {
        "send_like"@
    }

    fn entry() -> (name: &'static str) {
        "send_like"
    }
}

impl CqReq for SendLikeRequest {

}

impl JsonReq for SendLikeRequest {

}

/// The request of entry `set_group_kick`.
#[derive(Debug)]
pub struct SetGroupKickRequest {
    pub group_id: i64,
    pub user_id: i64,
    pub reject_add_request: bool,
}

impl Entry for SetGroupKickRequest {
    type Output = Empty;

    open spec fn entry_name() -> Seq<char> {
        "set_group_kick"@
    }

    fn entry() -> (name: &'static str) {
        "set_group_kick"
    }
}

impl CqReq for SetGroupKickRequest {

}

impl JsonReq for SetGroupKickRequest {

}

/// The request of entry `set_group_ban`.
#[derive(Debug)]
pub struct SetGroupBanRequest {
    pub group_id: i64,
    pub user_id: i64,
    pub duration: i32,
}

/// How many seconds a ban lasts where a request does not say: half an hour.
pub fn default_ban_duration() -> (value: i32)
    ensures
        value == 1800,
{
    30 * 60
}

impl Entry for SetGroupBanRequest {
    type Output = Empty;

    open spec fn entry_name() -> Seq<char> {
        "set_group_ban"@
    }

    fn entry() -> (name: &'static str) {
        "set_group_ban"
    }
}

impl CqReq for SetGroupBanRequest {

}

impl JsonReq for SetGroupBanRequest {

}

/// The request of entry `set_group_anonymous_ban`.
#[derive(Debug)]
pub struct SetGroupAnonymousBanRequest {
    pub group_id: i64,
    pub anonymous: Option<String>,
    pub anonymous_flag: Option<String>,
    pub flag: Option<String>,
    pub duration: i32,
}

impl Entry for SetGroupAnonymousBanRequest {
    type Output = Empty;

    open spec fn entry_name() -> Seq<char> {
        "set_group_anonymous_ban"@
    }

    fn entry() -> (name: &'static str) {
        "set_group_anonymous_ban"
    }
}

impl CqReq for SetGroupAnonymousBanRequest {

}

impl JsonReq for SetGroupAnonymousBanRequest {

}

/// The request of entry `set_group_whole_ban`.
#[derive(Debug)]
pub struct SetGroupWholeBanRequest {
    pub group_id: i64,
    pub enable: bool,
}

/// Whether a ban of a whole group is switched on where a request does not say.
pub fn default_whole_ban_enable() -> (value: bool)
    ensures
        value == true,
{
    true
}

impl Entry for SetGroupWholeBanRequest {
    type Output = Empty;

    open spec fn entry_name() -> Seq<char> {
        "set_group_whole_ban"@
    }

    fn entry() -> (name: &'static str) {
        "set_group_whole_ban"
    }
}

impl CqReq for SetGroupWholeBanRequest {

}

impl JsonReq for SetGroupWholeBanRequest {

}

/// The request of entry `set_group_admin`.
#[derive(Debug)]
pub struct SetGroupAdminRequest {
    pub group_id: i64,
    pub user_id: i64,
    pub enable: bool,
}

/// Whether a member is made an administrator where a request does not say.
pub fn default_admin_enable() -> (value: bool)
    ensures
        value == true,
{
    true
}

impl Entry for SetGroupAdminRequest {
    type Output = Empty;

    open spec fn entry_name() -> Seq<char> {
        "set_group_admin"@
    }

    fn entry() -> (name: &'static str) {
        "set_group_admin"
    }
}

impl CqReq for SetGroupAdminRequest {

}

impl JsonReq for SetGroupAdminRequest {

}

/// The request of entry `set_group_card`.
#[derive(Debug)]
pub struct SetGroupCardRequest {
    pub group_id: i64,
    pub user_id: i64,
    pub card: String,
}

impl Entry for SetGroupCardRequest {
    type Output = Empty;

    open spec fn entry_name() -> Seq<char> {
        "set_group_card"@
    }

    fn entry() -> (name: &'static str) {
        "set_group_card"
    }
}

impl CqReq for SetGroupCardRequest {

}

impl JsonReq for SetGroupCardRequest {

}

/// The request of entry `set_group_name`.
#[derive(Debug)]
pub struct SetGroupNameRequest {
    pub group_id: i64,
    pub group_name: String,
}

impl Entry for SetGroupNameRequest {
    type Output = Empty;

    open spec fn entry_name() -> Seq<char> {
        "set_group_name"@
    }

    fn entry() -> (name: &'static str) {
        "set_group_name"
    }
}

impl CqReq for SetGroupNameRequest {

}

impl JsonReq for SetGroupNameRequest {

}

/// The request of entry `set_group_leave`.
#[derive(Debug)]
pub struct SetGroupLeaveRequest {
    pub group_id: i64,
    pub is_dismiss: bool,
}

impl Entry for SetGroupLeaveRequest {
    type Output = Empty;

    open spec fn entry_name() -> Seq<char> {
        "set_group_leave"@
    }

    fn entry() -> (name: &'static str) {
        "set_group_leave"
    }
}

impl CqReq for SetGroupLeaveRequest {

}

impl JsonReq for SetGroupLeaveRequest {

}

/// The request of entry `set_group_special_title`.
#[derive(Debug)]
pub struct SetGroupSpecialTitleRequest {
    pub group_id: i64,
    pub user_id: i64,
    pub special_title: String,
    pub duration: i32,
}

/// How many seconds a special title lasts where a request does not say: `-1`, for ever.
pub fn default_special_title_duration() -> (value: i32)
    ensures
        value == -1,
{
    -1
}

impl Entry for SetGroupSpecialTitleRequest {
    type Output = Empty;

    open spec fn entry_name() -> Seq<char> {
        "set_group_special_title"@
    }

    fn entry() -> (name: &'static str) {
        "set_group_special_title"
    }
}

impl CqReq for SetGroupSpecialTitleRequest {

}

impl JsonReq for SetGroupSpecialTitleRequest {

}

/// The request of entry `set_friend_add_request`.
#[derive(Debug)]
pub struct SetFriendAddRequest {
    pub flag: String,
    pub approve: bool,
    pub remark: Option<String>,
}

impl Entry for SetFriendAddRequest {
    type Output = Empty;

    open spec fn entry_name() -> Seq<char> {
        "set_friend_add_request"@
    }

    fn entry() -> (name: &'static str) {
        "set_friend_add_request"
    }
}

impl CqReq for SetFriendAddRequest {

}

impl JsonReq for SetFriendAddRequest {

}

/// The request of entry `set_group_add_request`.
#[derive(Debug)]
pub struct SetGroupAddRequest {
    pub flag: String,
    pub sub_type: String,
    pub approve: bool,
    pub reason: Option<String>,
}

impl Entry for SetGroupAddRequest {
    type Output = Empty;

    open spec fn entry_name() -> Seq<char> {
        "set_group_add_request"@
    }

    fn entry() -> (name: &'static str) {
        "set_group_add_request"
    }
}

impl CqReq for SetGroupAddRequest {

}

impl JsonReq for SetGroupAddRequest {

}

/// What entry `get_login_info` answers.
#[derive(Debug)]
pub struct LoginInfo {
    pub user_id: i64,
    pub nickname: String,
}

/// The request of entry `get_login_info`.
#[derive(Debug)]
pub struct GetLoginInfoRequest {

}

impl Entry for GetLoginInfoRequest {
    type Output = LoginInfo;

    open spec fn entry_name() -> Seq<char> {
        "get_login_info"@
    }

    fn entry() -> (name: &'static str) {
        "get_login_info"
    }
}

impl CqReq for GetLoginInfoRequest {

}

impl JsonReq for GetLoginInfoRequest {

}

/// What entry `get_stranger_info` answers.
#[derive(Debug)]
pub struct StrangerInfo {
    pub user_id: i64,
    pub nickname: String,
    pub sex: Sex,
    pub age: i32,
}

/// The request of entry `get_stranger_info`.
#[derive(Debug)]
pub struct GetStrangerInfoRequest {
    pub user_id: i64,
    pub no_cache: bool,
}

impl Entry for GetStrangerInfoRequest {
    type Output = StrangerInfo;

    open spec fn entry_name() -> Seq<char> {
        "get_stranger_info"@
    }

    fn entry() -> (name: &'static str) {
        "get_stranger_info"
    }
}

impl CqReq for GetStrangerInfoRequest {

}

impl JsonReq for GetStrangerInfoRequest {

}

/// One item of what entry `get_friend_list` answers.
#[derive(Debug)]
pub struct Friend {
    pub user_id: i64,
    pub nickname: String,
    pub remark: String,
}

/// The request of entry `get_friend_list`.
#[derive(Debug)]
pub struct GetFriendListRequest {

}

impl Entry for GetFriendListRequest {
    type Output = Vec<Friend>;

    open spec fn entry_name() -> Seq<char> {
        "get_friend_list"@
    }

    fn entry() -> (name: &'static str) {
        "get_friend_list"
    }
}

impl CqReq for GetFriendListRequest {

}

impl JsonReq for GetFriendListRequest {

}

/// One item of what entry `get_group_info` and `get_group_list` answer.
#[derive(Debug)]
pub struct GroupInfo {
    pub group_id: i64,
    pub group_name: String,
    pub member_count: i32,
    pub max_member_count: i32,
}

/// The request of entry `get_group_info`.
#[derive(Debug)]
pub struct GetGroupInfoRequest {
    pub group_id: i64,
    pub no_cache: bool,
}

impl Entry for GetGroupInfoRequest {
    type Output = GroupInfo;

    open spec fn entry_name() -> Seq<char> {
        "get_group_info"@
    }

    fn entry() -> (name: &'static str) {
        "get_group_info"
    }
}

impl CqReq for GetGroupInfoRequest {

}

impl JsonReq for GetGroupInfoRequest {

}

/// The request of entry `get_group_list`.
#[derive(Debug)]
pub struct GetGroupListRequest {

}

impl Entry for GetGroupListRequest {
    type Output = Vec<GroupInfo>;

    open spec fn entry_name() -> Seq<char> {
        "get_group_list"@
    }

    fn entry() -> (name: &'static str) {
        "get_group_list"
    }
}

impl CqReq for GetGroupListRequest {

}

impl JsonReq for GetGroupListRequest {

}

/// One item of what entry `get_group_member_info` and `get_group_member_list` answer.
#[derive(Debug)]
pub struct GroupMemberInfo {
    pub group_id: i64,
    pub user_id: i64,
    pub nickname: String,
    pub card: String,
    pub sex: Sex,
    pub age: i32,
    pub area: String,
    pub join_time: i32,
    pub last_sent_time: i32,
    pub level: String,
    pub role: GroupRole,
    pub unfriendly: bool,
    pub title: String,
    pub title_expire_time: i32,
    pub card_changeable: bool,
}

/// The request of entry `get_group_member_info`.
#[derive(Debug)]
pub struct GetGroupMemberInfoRequest {
    pub group_id: i64,
    pub user_id: i64,
    pub no_cache: bool,
}

impl Entry for GetGroupMemberInfoRequest {
    type Output = GroupMemberInfo;

    open spec fn entry_name() -> Seq<char> {
        "get_group_member_info"@
    }

    fn entry() -> (name: &'static str) {
        "get_group_member_info"
    }
}

impl CqReq for GetGroupMemberInfoRequest {

}

impl JsonReq for GetGroupMemberInfoRequest {

}

/// The request of entry `get_group_member_list`.
#[derive(Debug)]
pub struct GetGroupMemberListRequest {
    pub group_id: i64,
}

impl Entry for GetGroupMemberListRequest {
    type Output = Vec<GroupMemberInfo>;

    open spec fn entry_name() -> Seq<char> {
        "get_group_member_list"@
    }

    fn entry() -> (name: &'static str) {
        "get_group_member_list"
    }
}

impl CqReq for GetGroupMemberListRequest {

}

impl JsonReq for GetGroupMemberListRequest {

}

#[derive(Debug)]
pub struct CurrentTalkative {
    pub user_id: i64,
    pub nickname: String,
    pub avatar: String,
    pub day_count: i32,
}

#[derive(Debug)]
pub struct HonorInfo {
    pub user_id: i64,
    pub nickname: String,
    pub avatar: String,
    pub description: String,
}

/// What entry `get_group_honor_info` answers.
#[derive(Debug)]
pub struct GroupHonorInfo {
    pub group_id: i64,
    pub current_talkative: Option<CurrentTalkative>,
    pub talkative_list: Option<Vec<HonorInfo>>,
    pub performer_list: Option<Vec<HonorInfo>>,
    pub legend_list: Option<Vec<HonorInfo>>,
    pub strong_newbie_list: Option<Vec<HonorInfo>>,
    pub emotion_list: Option<Vec<HonorInfo>>,
}

#[derive(Debug)]
pub enum HonorType {
    Talkative,
    Performer,
    Legend,
    StrongNewbie,
    Emotion,
    All,
}

/// The request of entry `get_group_honor_info`.
#[derive(Debug)]
pub struct GetGroupHonorInfoRequest {
    pub group_id: i64,
    pub kind: HonorType,
}

impl Entry for GetGroupHonorInfoRequest {
    type Output = GroupHonorInfo;

    open spec fn entry_name() -> Seq<char> {
        "get_group_honor_info"@
    }

    fn entry() -> (name: &'static str) {
        "get_group_honor_info"
    }
}

impl CqReq for GetGroupHonorInfoRequest {

}

impl JsonReq for GetGroupHonorInfoRequest {

}

/// What entry `get_cookies` answers.
#[derive(Debug)]
pub struct CookiesResponse {
    pub cookies: String,
}

/// The request of entry `get_cookies`.
#[derive(Debug)]
pub struct GetCookiesRequest {
    pub domain: Option<String>,
}

impl Entry for GetCookiesRequest {
    type Output = CookiesResponse;

    open spec fn entry_name() -> Seq<char> {
        "get_cookies"@
    }

    fn entry() -> (name: &'static str) {
        "get_cookies"
    }
}

impl CqReq for GetCookiesRequest {

}

impl JsonReq for GetCookiesRequest {

}

/// What entry `get_csrf_token` answers.
#[derive(Debug)]
pub struct CsrfTokenResponse {
    pub token: i32,
}

/// The request of entry `get_csrf_token`.
#[derive(Debug)]
pub struct GetCsrfTokenRequest {

}

impl Entry for GetCsrfTokenRequest {
    type Output = CsrfTokenResponse;

    open spec fn entry_name() -> Seq<char> {
        "get_csrf_token"@
    }

    fn entry() -> (name: &'static str) {
        "get_csrf_token"
    }
}

impl CqReq for GetCsrfTokenRequest {

}

impl JsonReq for GetCsrfTokenRequest {

}

/// What entry `get_credentials` answers.
#[derive(Debug)]
pub struct CredentialsResponse {
    pub cookies: String,
    pub csrf_token: i32,
}

/// The request of entry `get_credentials`.
#[derive(Debug)]
pub struct GetCredentialsRequest {
    pub domain: Option<String>,
}

impl Entry for GetCredentialsRequest {
    type Output = CredentialsResponse;

    open spec fn entry_name() -> Seq<char> {
        "get_credentials"@
    }

    fn entry() -> (name: &'static str) {
        "get_credentials"
    }
}

impl CqReq for GetCredentialsRequest {

}

impl JsonReq for GetCredentialsRequest {

}

/// What entry `get_record` answers.
#[derive(Debug)]
pub struct RecordResponse {
    pub file: String,
}

/// The request of entry `get_record`.
#[derive(Debug)]
pub struct GetRecordRequest {
    pub file: String,
    pub out_format: String,
}

impl Entry for GetRecordRequest {
    type Output = RecordResponse;

    open spec fn entry_name() -> Seq<char> {
        "get_record"@
    }

    fn entry() -> (name: &'static str) {
        "get_record"
    }
}

impl CqReq for GetRecordRequest {

}

impl JsonReq for GetRecordRequest {

}

/// What entry `get_image` answers.
#[derive(Debug)]
pub struct ImageResponse {
    pub file: String,
}

/// The request of entry `get_image`.
#[derive(Debug)]
pub struct GetImageRequest {
    pub file: String,
}

impl Entry for GetImageRequest {
    type Output = ImageResponse;

    open spec fn entry_name() -> Seq<char> {
        "get_image"@
    }

    fn entry() -> (name: &'static str) {
        "get_image"
    }
}

impl CqReq for GetImageRequest {

}

impl JsonReq for GetImageRequest {

}

/// What entry `can_send_image` answers.
#[derive(Debug)]
pub struct CanSendImageResponse {
    pub yes: bool,
}

/// The request of entry `can_send_image`.
#[derive(Debug)]
pub struct CanSendImageRequest {

}

impl Entry for CanSendImageRequest {
    type Output = CanSendImageResponse;

    open spec fn entry_name() -> Seq<char> {
        "can_send_image"@
    }

    fn entry() -> (name: &'static str) {
        "can_send_image"
    }
}

impl CqReq for CanSendImageRequest {

}

impl JsonReq for CanSendImageRequest {

}

/// What entry `can_send_record` answers.
#[derive(Debug)]
pub struct CanSendRecordResponse {
    pub yes: bool,
}

/// The request of entry `can_send_record`.
#[derive(Debug)]
pub struct CanSendRecordRequest {

}

impl Entry for CanSendRecordRequest {
    type Output = CanSendRecordResponse;

    open spec fn entry_name() -> Seq<char> {
        "can_send_record"@
    }

    fn entry() -> (name: &'static str) {
        "can_send_record"
    }
}

impl CqReq for CanSendRecordRequest {

}

impl JsonReq for CanSendRecordRequest {

}

/// What entry `get_status` answers.
#[derive(Debug)]
pub struct StatusResponse {
    pub online: Option<bool>,
    pub good: Option<bool>,
}

/// The request of entry `get_status`.
#[derive(Debug)]
pub struct GetStatusRequest {

}

impl Entry for GetStatusRequest {
    type Output = StatusResponse;

    open spec fn entry_name() -> Seq<char> {
        "get_status"@
    }

    fn entry() -> (name: &'static str) {
        "get_status"
    }
}

impl CqReq for GetStatusRequest {

}

impl JsonReq for GetStatusRequest {

}

/// What entry `get_version_info` answers.
#[derive(Debug)]
pub struct VersionInfo {
    pub app_name: String,
    pub app_version: String,
    pub protocol_version: String,
}

/// The request of entry `get_version_info`.
#[derive(Debug)]
pub struct GetVersionInfoRequest {

}

impl Entry for GetVersionInfoRequest {
    type Output = VersionInfo;

    open spec fn entry_name() -> Seq<char> {
        "get_version_info"@
    }

    fn entry() -> (name: &'static str) {
        "get_version_info"
    }
}

impl CqReq for GetVersionInfoRequest {

}

impl JsonReq for GetVersionInfoRequest {

}

/// The request of entry `set_restart`.
#[derive(Debug)]
pub struct SetRestartRequest {
    pub delay: i32,
}

impl Entry for SetRestartRequest {
    type Output = Empty;

    open spec fn entry_name() -> Seq<char> {
        "set_restart"@
    }

    fn entry() -> (name: &'static str) {
        "set_restart"
    }
}

impl CqReq for SetRestartRequest {

}

impl JsonReq for SetRestartRequest {

}

/// The request of entry `clean_cache`.
#[derive(Debug)]
pub struct CleanCacheRequest {

}

impl Entry for CleanCacheRequest {
    type Output = Empty;

    open spec fn entry_name() -> Seq<char> {
        "clean_cache"@
    }

    fn entry() -> (name: &'static str) {
        "clean_cache"
    }
}

impl CqReq for CleanCacheRequest {

}

impl JsonReq for CleanCacheRequest {

}

} // verus!
